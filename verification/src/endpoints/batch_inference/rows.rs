//! The rows that record a started batch in the analytics store.

use crate::endpoints::inference::InferenceParams;
use crate::error::Error;
use crate::json::{json_text, value_to_string};
use crate::uuid_util::{hyphenated, version_of, Id};
use std::collections::HashMap;
use vstd::prelude::*;
use vstd::string::*;

verus! {

/// The table that holds one row for each inference of a batch.
pub const BATCH_MODEL_INFERENCE_TABLE: &'static str = "BatchModelInference";

/// The table that holds the state of each batch; the latest row of a batch
/// is the one that counts.
pub const BATCH_REQUEST_TABLE: &'static str = "BatchRequest";

/// Where a batch stands. Only `Pending` can change.
#[derive(Clone, Copy, Debug, PartialEq, Eq, Structural)]
pub enum BatchStatus {
    Pending,
    Completed,
    Failed,
}

/// What a provider hands back when it has accepted a batch: the ids that
/// it runs under, what was sent for each inference, and what is needed to
/// ask about the batch later.
pub struct BatchModelInferenceWithMetadata {
    pub batch_id: Id,
    pub inference_ids: Vec<Id>,
    pub input_messages: Vec<serde_json::Value>,
    pub systems: Vec<Option<String>>,
    pub tool_configs: Vec<Option<serde_json::Value>>,
    pub inference_params: Vec<InferenceParams>,
    pub output_schemas: Vec<Option<serde_json::Value>>,
    pub batch_params: serde_json::Value,
    pub model_name: String,
    pub model_provider_name: String,
}

/// What is known of a batch beside what the provider handed back.
pub struct BatchInferenceDatabaseInsertMetadata {
    pub function_name: String,
    pub variant_name: String,
    pub episode_ids: Vec<Id>,
    pub tags: Vec<HashMap<String, String>>,
}

/// The row of one inference of a batch. Ids are written in their
/// hyphenated notation, documents as JSON text.
#[derive(Debug, PartialEq)]
pub struct BatchModelInferenceInsert {
    pub inference_id: String,
    pub batch_id: String,
    pub function_name: String,
    pub variant_name: String,
    pub episode_id: String,
    pub input: String,
    pub input_messages: String,
    pub system: Option<String>,
    pub tool_params: Option<String>,
    pub inference_params: InferenceParams,
    pub output_schema: Option<String>,
    pub model_name: String,
    pub model_provider_name: String,
    pub tags: HashMap<String, String>,
}

/// The row of a batch.
#[derive(Debug, PartialEq)]
pub struct BatchRequestInsert {
    pub batch_id: String,
    pub id: String,
    pub batch_params: String,
    pub model_name: String,
    pub model_provider_name: String,
    pub status: BatchStatus,
    pub errors: HashMap<String, String>,
}

/// Writes a document as JSON text. A document can always be written.
pub fn serialize(value: &serde_json::Value) -> (res: Result<String, Error>)
    ensures
        res matches Ok(text) && text@ == json_text(*value),
{
    match value_to_string(value) {
        Ok(text) => Ok(text),
        Err(message) => Err(Error::Serialization { message }),
    }
}

/// The JSON text of a document, where there is one.
pub open spec fn opt_json_text(value: Option<serde_json::Value>) -> Option<Seq<char>> {
    match value {
        Some(value) => Some(json_text(value)),
        None => None,
    }
}

/// Writes a document as JSON text, where there is one.
pub fn serialize_optional(value: &Option<serde_json::Value>) -> (res: Result<
    Option<String>,
    Error,
>)
    ensures
        res matches Ok(text) && crate::inference::types::opt_text(text) == opt_json_text(*value),
{
    match value {
        Some(value) => match serialize(value) {
            Ok(text) => Ok(Some(text)),
            Err(e) => Err(e),
        },
        None => Ok(None),
    }
}

impl BatchRequestInsert {
    /// Whether this is the row of the batch with the given id, state and
    /// errors, written under some fresh version 7 id of its own. The
    /// parameters of the batch are written as JSON text.
    pub open spec fn records(
        &self,
        batch_id: Seq<char>,
        batch_params: serde_json::Value,
        model_name: Seq<char>,
        model_provider_name: Seq<char>,
        status: BatchStatus,
        errors: Option<HashMap<String, String>>,
    ) -> bool {
        &&& self.batch_id@ == batch_id
        &&& exists|bits: u128| version_of(bits) == 7 && self.id@ == #[trigger] hyphenated(bits)
        &&& self.batch_params@ == json_text(batch_params)
        &&& self.model_name@ == model_name
        &&& self.model_provider_name@ == model_provider_name
        &&& self.status == status
        &&& match errors {
            Some(map) => self.errors == map,
            None => self.errors@ == Map::<String, String>::empty(),
        }
    }

    /// The row of a batch.
    pub fn new(
        batch_id: &str,
        batch_params: serde_json::Value,
        model_name: &str,
        model_provider_name: &str,
        status: BatchStatus,
        errors: Option<HashMap<String, String>>,
    ) -> (row: Self)
        ensures
            row.records(
                batch_id@,
                batch_params,
                model_name@,
                model_provider_name@,
                status,
                errors,
            ),
    {
        let fresh: Id = Id::now_v7();
        let id: String = fresh.to_text();
        assert(id@ == hyphenated(fresh.bits));
        let errors: HashMap<String, String> = match errors {
            Some(map) => map,
            None => HashMap::new(),
        };
        let batch_params: String = match serialize(&batch_params) {
            Ok(text) => text,
            Err(_) => String::new(),
        };
        BatchRequestInsert {
            batch_id: batch_id.to_owned(),
            id,
            batch_params,
            model_name: model_name.to_owned(),
            model_provider_name: model_provider_name.to_owned(),
            status,
            errors,
        }
    }
}

/// Whether the lists that describe the inferences of a batch reach as far as
/// the batch: each holds an entry for every input. What a list holds beyond
/// that is not looked at. The tags need not reach: an inference beyond
/// them has none.
pub open spec fn lists_cover(
    inputs: Seq<serde_json::Value>,
    result: BatchModelInferenceWithMetadata,
    metadata: BatchInferenceDatabaseInsertMetadata,
) -> bool {
    let n = inputs.len();
    &&& result.inference_ids@.len() >= n
    &&& result.input_messages@.len() >= n
    &&& result.systems@.len() >= n
    &&& result.tool_configs@.len() >= n
    &&& result.inference_params@.len() >= n
    &&& result.output_schemas@.len() >= n
    &&& metadata.episode_ids@.len() >= n
}

/// Whether `tags` are the tags of the inference at place `i`: those that
/// the list holds for it, or none where the list does not reach so far.
pub open spec fn tags_at(
    all: Seq<HashMap<String, String>>,
    i: int,
    tags: HashMap<String, String>,
) -> bool {
    if 0 <= i < all.len() {
        tags == all[i]
    } else {
        tags@ == Map::<String, String>::empty()
    }
}

/// Gives each of the first `n` inferences its tags: those that the list
/// holds for it, or none where the list does not reach so far.
fn tags_of_each(tags: Vec<HashMap<String, String>>, n: usize) -> (each: Vec<
    HashMap<String, String>,
>)
    ensures
        each@.len() == n,
        forall|i: int| 0 <= i < n ==> tags_at(tags@, i, #[trigger] each@[i]),
{
    let ghost all = tags@;
    let mut each: Vec<HashMap<String, String>> = Vec::new();
    for one in iter: tags.into_iter()
        invariant
            iter.seq() == all,
            each@.len() <= n,
            each@.len() <= iter.index(),
            each@.len() < n ==> each@.len() == iter.index(),
            forall|i: int| 0 <= i < each@.len() ==> tags_at(all, i, #[trigger] each@[i]),
    {
        if each.len() < n {
            each.push(one);
        }
    }
    while each.len() < n
        invariant
            each@.len() <= n,
            each@.len() < n ==> each@.len() >= all.len(),
            forall|i: int| 0 <= i < each@.len() ==> tags_at(all, i, #[trigger] each@[i]),
        decreases n - each@.len(),
    {
        each.push(HashMap::new());
    }
    each
}

/// Whether `row` is the row of the inference at place `i` of the batch.
pub open spec fn row_of(
    inputs: Seq<serde_json::Value>,
    result: BatchModelInferenceWithMetadata,
    metadata: BatchInferenceDatabaseInsertMetadata,
    i: int,
    row: BatchModelInferenceInsert,
) -> bool {
    &&& row.inference_id@ == hyphenated(result.inference_ids@[i].bits)
    &&& row.batch_id@ == hyphenated(result.batch_id.bits)
    &&& row.function_name@ == metadata.function_name@
    &&& row.variant_name@ == metadata.variant_name@
    &&& row.episode_id@ == hyphenated(metadata.episode_ids@[i].bits)
    &&& row.input@ == json_text(inputs[i])
    &&& row.input_messages@ == json_text(result.input_messages@[i])
    &&& crate::inference::types::opt_text(row.system) == crate::inference::types::opt_text(
        result.systems@[i],
    )
    &&& crate::inference::types::opt_text(row.tool_params) == opt_json_text(
        result.tool_configs@[i],
    )
    &&& row.inference_params == result.inference_params@[i]
    &&& crate::inference::types::opt_text(row.output_schema) == opt_json_text(
        result.output_schemas@[i],
    )
    &&& row.model_name@ == result.model_name@
    &&& row.model_provider_name@ == result.model_provider_name@
    &&& tags_at(metadata.tags@, i, row.tags)
}

/// The text of the failure for lists that do not reach as far as the
/// batch.
pub open spec fn ragged_batch_text() -> Seq<char> {
    "The provider's record of the batch does not match its inputs. This should never happen."@
}

/// What is written for a started batch: the rows of its inferences, the row
/// of the batch itself, and the ids that are reported to the caller.
pub struct BatchRecord {
    pub rows: Vec<BatchModelInferenceInsert>,
    pub request: BatchRequestInsert,
    pub batch_id: Id,
    pub inference_ids: Vec<Id>,
}

/// Whether `res` is what recording a started batch comes to: one row for
/// each input and one row for the batch, which starts as pending and without
/// errors, together with the ids that the provider gave, unchanged. A list
/// that does not reach as far as the batch is a failure of the gateway, and
/// the only one.
pub open spec fn record_outcome(
    inputs: Seq<serde_json::Value>,
    result: BatchModelInferenceWithMetadata,
    metadata: BatchInferenceDatabaseInsertMetadata,
    res: Result<BatchRecord, Error>,
) -> bool {
    if !lists_cover(inputs, result, metadata) {
        res matches Err(Error::Inference { message }) && message@ == ragged_batch_text()
    } else {
        res matches Ok(record) && {
                &&& record.rows@.len() == inputs.len()
                &&& forall|i: int|
                    0 <= i < inputs.len() ==> row_of(
                        inputs,
                        result,
                        metadata,
                        i,
                        #[trigger] record.rows@[i],
                    )
                &&& record.request.records(
                    hyphenated(result.batch_id.bits),
                    result.batch_params,
                    result.model_name@,
                    result.model_provider_name@,
                    BatchStatus::Pending,
                    None,
                )
                &&& record.batch_id == result.batch_id
                &&& record.inference_ids == result.inference_ids
            }
    }
}

/// Makes the rows that record a started batch. Nothing is written here:
/// the rows of the inferences go to `BATCH_MODEL_INFERENCE_TABLE` first, the
/// row of the batch to `BATCH_REQUEST_TABLE` after them.
pub fn write_inference(
    inputs: Vec<serde_json::Value>,
    result: BatchModelInferenceWithMetadata,
    metadata: BatchInferenceDatabaseInsertMetadata,
) -> (res: Result<BatchRecord, Error>)
    ensures
        record_outcome(inputs@, result, metadata, res),
{
    let n: usize = inputs.len();
    if result.inference_ids.len() < n || result.input_messages.len() < n
        || result.systems.len() < n || result.tool_configs.len() < n
        || result.inference_params.len() < n || result.output_schemas.len() < n
        || metadata.episode_ids.len() < n {
        return Err(
            Error::Inference {
                message: "The provider's record of the batch does not match its inputs. This should never happen.".to_owned(),
            },
        );
    }
    let ghost given_result = result;
    let ghost given_metadata = metadata;
    let BatchModelInferenceWithMetadata {
        batch_id,
        inference_ids,
        input_messages,
        systems,
        tool_configs,
        inference_params,
        output_schemas,
        batch_params,
        model_name,
        model_provider_name,
    } = result;
    let BatchInferenceDatabaseInsertMetadata { function_name, variant_name, episode_ids, tags } =
        metadata;
    let batch_id_text: String = batch_id.to_text();
    let mut rows: Vec<BatchModelInferenceInsert> = Vec::new();
    let each_tags: Vec<HashMap<String, String>> = tags_of_each(tags, n);
    let ghost all_tags = each_tags@;
    let mut i: usize = 0;
    for one_tags in iter: each_tags.into_iter()
        invariant
            iter.seq() == all_tags,
            all_tags.len() == n,
            inputs@.len() == n,
            i == iter.index(),
            forall|j: int| 0 <= j < n ==> tags_at(given_metadata.tags@, j, #[trigger] all_tags[j]),
            lists_cover(inputs@, given_result, given_metadata),
            given_result == result,
            given_metadata == metadata,
            given_result.batch_id == batch_id,
            given_result.inference_ids == inference_ids,
            given_result.input_messages == input_messages,
            given_result.systems == systems,
            given_result.tool_configs == tool_configs,
            given_result.inference_params == inference_params,
            given_result.output_schemas == output_schemas,
            given_result.model_name == model_name,
            given_result.model_provider_name == model_provider_name,
            given_metadata.function_name == function_name,
            given_metadata.variant_name == variant_name,
            given_metadata.episode_ids == episode_ids,
            batch_id_text@ == hyphenated(batch_id.bits),
            rows@.len() == i,
            forall|j: int|
                0 <= j < i ==> row_of(
                    inputs@,
                    given_result,
                    given_metadata,
                    j,
                    #[trigger] rows@[j],
                ),
    {
        let input: String = match serialize(&inputs[i]) {
            Ok(text) => text,
            Err(e) => {
                return Err(e);
            },
        };
        let messages: String = match serialize(&input_messages[i]) {
            Ok(text) => text,
            Err(e) => {
                return Err(e);
            },
        };
        let system: Option<String> = match &systems[i] {
            Some(text) => Some(text.clone()),
            None => None,
        };
        let tool_params: Option<String> = match serialize_optional(&tool_configs[i]) {
            Ok(text) => text,
            Err(e) => {
                return Err(e);
            },
        };
        let output_schema: Option<String> = match serialize_optional(&output_schemas[i]) {
            Ok(text) => text,
            Err(e) => {
                return Err(e);
            },
        };
        let inference_id: Id = inference_ids[i];
        let episode_id: Id = episode_ids[i];
        rows.push(
            BatchModelInferenceInsert {
                inference_id: inference_id.to_text(),
                batch_id: batch_id_text.clone(),
                function_name: function_name.clone(),
                variant_name: variant_name.clone(),
                episode_id: episode_id.to_text(),
                input,
                input_messages: messages,
                system,
                tool_params,
                inference_params: inference_params[i],
                output_schema,
                model_name: model_name.clone(),
                model_provider_name: model_provider_name.clone(),
                tags: one_tags,
            },
        );
        i = i + 1;
    }
    let request = BatchRequestInsert::new(
        batch_id_text.as_str(),
        batch_params,
        model_name.as_str(),
        model_provider_name.as_str(),
        BatchStatus::Pending,
        None,
    );
    Ok(BatchRecord { rows, request, batch_id, inference_ids })
}

/// What is reported to the caller when a batch has been started.
#[derive(Clone, Debug, PartialEq)]
pub struct PrepareBatchInferenceOutput {
    pub batch_id: Id,
    pub inference_ids: Vec<Id>,
    pub episode_ids: Vec<Id>,
}

} // verus!
