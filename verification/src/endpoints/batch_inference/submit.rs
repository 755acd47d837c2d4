//! The submission of a batch: what is checked before anything is sent, and
//! which variant is tried next.

use crate::clock::{read_clock, Reading};
use crate::endpoints::batch_inference::{
    check_length, entry_at, episode_ids_outcome, given_ids_valid, is_invalid_request,
    length_mismatch_text, mismatches, opt_len, opt_view, schema_of, spread,
    BatchDynamicToolParams,
    BatchDynamicToolParamsWithSize, BatchEpisodeIdInput, BatchEpisodeIdsWithSize,
    BatchInferenceParams, BatchInferenceParamsWithSize, BatchOutputSchemas,
    BatchOutputSchemasWithSize, DynamicJSONSchema, DynamicToolParams,
};
use crate::endpoints::inference::{mints_valid_ids, no_variants_text, InferenceParams};
use crate::error::Error;
use crate::function::{
    attempted, candidate_variants, candidates_of, failure_names_distinct, function_index,
    get_function,
    is_unknown_function, next_attempt, variant_failed, with_failure, Attempt, FunctionConfig,
    Variant,
};
use crate::inference::types::opt_text;
use crate::uuid_util::Id;
use std::collections::HashMap;
use vstd::prelude::*;
use vstd::string::*;

verus! {

/// The tags of a batch: for each inference the tags that the caller gave,
/// if any.
pub type BatchTags = Vec<Option<HashMap<String, String>>>;

/// What a caller submits to start a batch of inferences of one function.
pub struct Params {
    /// The name of the function.
    pub function_name: String,
    /// The episode of each inference; the gateway mints what is left out.
    pub episode_ids: Option<BatchEpisodeIdInput>,
    /// The input of each inference.
    pub inputs: Vec<serde_json::Value>,
    /// Overrides of the variant's parameters, for each inference.
    pub params: BatchInferenceParams,
    /// The one variant to use, where the caller insists on one.
    pub variant_name: Option<String>,
    /// The tags of each inference.
    pub tags: Option<BatchTags>,
    /// Changes to the tools, for each inference.
    pub dynamic_tool_params: BatchDynamicToolParams,
    /// The output schema of each inference, where the caller brings one.
    pub output_schemas: Option<BatchOutputSchemas>,
}

/// A batch that has passed every check and waits for a variant to start
/// it: what each inference is to be run with, the variants that are still
/// to be tried, and the failures of those that were.
pub struct BatchInferencePlan {
    pub function_name: String,
    pub inputs: Vec<serde_json::Value>,
    pub episode_ids: Vec<Id>,
    pub inference_params: Vec<InferenceParams>,
    pub tool_params: Vec<DynamicToolParams>,
    pub output_schemas: Vec<Option<DynamicJSONSchema>>,
    pub tags: Vec<HashMap<String, String>>,
    pub candidates: Vec<Variant>,
    pub variant_errors: Vec<(String, Error)>,
}

/// The place of the first input that was objected to; the number of the
/// inputs where none was.
pub open spec fn first_objection(objections: Seq<Option<String>>) -> int
    decreases objections.len(),
{
    if objections.len() == 0 {
        0
    } else if objections[0] is Some {
        0
    } else {
        1 + first_objection(objections.skip(1))
    }
}

/// The tags of one inference: what the caller gave, or none.
pub open spec fn tags_settled(given: Option<HashMap<String, String>>, tags: HashMap<String, String>) -> bool {
    match given {
        Some(map) => tags == map,
        None => tags@ == Map::<String, String>::empty(),
    }
}

/// Gives each inference its tags. A list of another length than the batch
/// is refused.
pub fn settle_tags(tags: Option<BatchTags>, num_inferences: usize) -> (res: Result<
    Vec<HashMap<String, String>>,
    Error,
>)
    ensures
        match res {
            Ok(all) => !mismatches(opt_len(tags), num_inferences as nat) && all@.len()
                == num_inferences && forall|i: int|
                0 <= i < num_inferences ==> tags_settled(entry_at(tags, i), #[trigger] all@[i]),
            Err(e) => mismatches(opt_len(tags), num_inferences as nat) && is_invalid_request(
                e,
                length_mismatch_text("tags"@, opt_len(tags)->0, num_inferences as nat),
            ),
        },
{
    match check_length("tags", &tags, num_inferences) {
        Ok(_) => {},
        Err(e) => {
            return Err(e);
        },
    }
    let entries: Vec<Option<HashMap<String, String>>> = spread(tags, num_inferences);
    let ghost original = entries@;
    let mut all: Vec<HashMap<String, String>> = Vec::new();
    for given in iter: entries.into_iter()
        invariant
            iter.seq() == original,
            all@.len() == iter.index(),
            forall|j: int| 0 <= j < iter.index() ==> tags_settled(original[j], #[trigger] all@[j]),
    {
        let one: HashMap<String, String> = match given {
            Some(map) => map,
            None => HashMap::new(),
        };
        all.push(one);
    }
    Ok(all)
}

/// The text of the failure for a batch without inputs.
pub open spec fn no_inputs_text() -> Seq<char> {
    "No inputs provided"@
}

/// The text of the failure for objections that do not match the inputs.
pub open spec fn unmatched_objections_text() -> Seq<char> {
    "The checks of the inputs do not match the inputs. This should never happen."@
}

/// Whether `plan` is the plan for a submission that has passed every check,
/// with the given episode ids.
pub open spec fn plan_for(
    function: FunctionConfig,
    params: Params,
    ids: Vec<Id>,
    plan: BatchInferencePlan,
) -> bool {
    let n = params.inputs@.len();
    &&& plan.function_name == params.function_name
    &&& plan.inputs == params.inputs
    &&& plan.episode_ids == ids
    &&& plan.inference_params@.len() == n
    &&& forall|i: int|
        0 <= i < n ==> (#[trigger] plan.inference_params@[i]).chat_completion
            == params.params.chat_completion.params_at(i)
    &&& plan.tool_params@.len() == n
    &&& forall|i: int|
        0 <= i < n ==> #[trigger] plan.tool_params@[i] == params.dynamic_tool_params.params_at(i)
    &&& plan.output_schemas@.len() == n
    &&& forall|i: int|
        0 <= i < n ==> #[trigger] plan.output_schemas@[i] == schema_of(
            entry_at(params.output_schemas, i),
        )
    &&& plan.tags@.len() == n
    &&& forall|i: int|
        0 <= i < n ==> tags_settled(entry_at(params.tags, i), #[trigger] plan.tags@[i])
    &&& plan.candidates@ == candidates_of(function.variants@, opt_text(params.variant_name))
    &&& plan.candidates@.len() > 0
    &&& plan.variant_errors@.len() == 0
}

/// Whether `res` is what the checks that follow the settling of the
/// episode ids come to.
pub open spec fn after_episode_ids(
    function: FunctionConfig,
    params: Params,
    ids: Result<Vec<Id>, Error>,
    res: Result<BatchInferencePlan, Error>,
) -> bool {
    let n = params.inputs@.len();
    match ids {
        Err(e) => res == Err::<BatchInferencePlan, Error>(e),
        Ok(ids) => match params.params.chat_completion.first_mismatch(n) {
            Some((field, len)) => res matches Err(e) && is_invalid_request(
                e,
                length_mismatch_text(field, len, n),
            ),
            None => if mismatches(opt_len(params.tags), n) {
                res matches Err(e) && is_invalid_request(
                    e,
                    length_mismatch_text("tags"@, opt_len(params.tags)->0, n),
                )
            } else {
                res matches Ok(plan) && plan_for(function, params, ids, plan)
            },
        },
    }
}

/// Whether `res` is what a submission comes to when the clock reads as
/// given. `objections` holds, for each input, what the function's schema
/// objects to it, if anything. Ids that are missing are minted at the
/// reading. The checks
/// are made in this order, and the first that fails decides: the function is
/// known; there is an input; every list of tool settings and of output
/// schemas is as long as the batch; the function has a variant; no input is
/// objected to; the pinned variant exists; the episode ids are settled and
/// valid; every list of overrides and of tags is as long as the batch.
pub open spec fn submission_outcome(
    functions: Seq<FunctionConfig>,
    params: Params,
    objections: Seq<Option<String>>,
    reading: Reading,
    res: Result<BatchInferencePlan, Error>,
) -> bool {
    let n = params.inputs@.len();
    let name = params.function_name@;
    let k = function_index(functions, name);
    if k >= functions.len() {
        res matches Err(e) && is_unknown_function(e, name)
    } else if n == 0 {
        res matches Err(e) && is_invalid_request(e, no_inputs_text())
    } else if params.dynamic_tool_params.first_mismatch(n) is Some {
        match params.dynamic_tool_params.first_mismatch(n) {
            Some((field, len)) => res matches Err(e) && is_invalid_request(
                e,
                length_mismatch_text(field, len, n),
            ),
            None => false,
        }
    } else if mismatches(opt_len(params.output_schemas), n) {
        res matches Err(e) && is_invalid_request(
            e,
            length_mismatch_text("output_schemas"@, opt_len(params.output_schemas)->0, n),
        )
    } else if functions[k].variants@.len() == 0 {
        res matches Err(Error::InvalidFunctionVariants { message }) && message@
            == no_variants_text(name)
    } else if objections.len() != n {
        res matches Err(Error::Inference { message }) && message@ == unmatched_objections_text()
    } else if first_objection(objections) < n {
        res matches Err(Error::BatchInputValidation { index, message }) && index
            == first_objection(objections) && message == objections[first_objection(
            objections,
        )]->0
    } else if candidates_of(functions[k].variants@, opt_text(params.variant_name)).len() == 0 {
        res matches Err(Error::UnknownVariant { name: pinned }) && Some(pinned@) == opt_text(
            params.variant_name,
        )
    } else {
        exists|ids: Result<Vec<Id>, Error>| #[trigger]
            episode_ids_outcome(opt_view(params.episode_ids), n, reading, ids) && after_episode_ids(
                functions[k],
                params,
                ids,
                res,
            )
    }
}

/// Finds the first input that was objected to and takes the objection out.
fn take_first_objection(objections: Vec<Option<String>>) -> (res: Option<(usize, String)>)
    ensures
        match res {
            Some((index, message)) => index == first_objection(objections@) && index
                < objections@.len() && objections@[index as int] == Some(message),
            None => first_objection(objections@) == objections@.len(),
        },
{
    let ghost original = objections@;
    let n: usize = objections.len();
    let mut i: usize = 0;
    proof {
        assert(original.skip(0) =~= original);
    }
    for objection in iter: objections.into_iter()
        invariant
            iter.seq() == original,
            original.len() == n,
            i == iter.index(),
            first_objection(original) == i + first_objection(original.skip(i as int)),
    {
        proof {
            assert(original.skip(i as int)[0] == objection);
            assert(original.skip(i as int).skip(1) =~= original.skip(i + 1));
        }
        match objection {
            Some(message) => {
                return Some((i, message));
            },
            None => {},
        }
        i = i + 1;
    }
    None
}

/// Whether a submission passes every check that does not hang on the
/// clock.
pub open spec fn submission_passes(
    functions: Seq<FunctionConfig>,
    params: Params,
    objections: Seq<Option<String>>,
) -> bool {
    let n = params.inputs@.len();
    let k = function_index(functions, params.function_name@);
    &&& 0 <= k < functions.len()
    &&& n > 0
    &&& params.dynamic_tool_params.first_mismatch(n) is None
    &&& !mismatches(opt_len(params.output_schemas), n)
    &&& functions[k].variants@.len() > 0
    &&& objections.len() == n
    &&& first_objection(objections) >= n
    &&& candidates_of(functions[k].variants@, opt_text(params.variant_name)).len() > 0
    &&& !mismatches(opt_len(params.episode_ids), n)
    &&& given_ids_valid(opt_view(params.episode_ids))
    &&& params.params.chat_completion.first_mismatch(n) is None
    &&& !mismatches(opt_len(params.tags), n)
}

/// Checks a submission and plans the batch, when the clock reads as given.
/// Nothing has been sent to any provider when this returns. A submission
/// that passes every check is planned without fail where the reading is
/// one at which valid ids are minted.
pub fn start_batch_inference_at(
    functions: &Vec<FunctionConfig>,
    params: Params,
    objections: Vec<Option<String>>,
    reading: Reading,
) -> (res: Result<BatchInferencePlan, Error>)
    ensures
        submission_outcome(functions@, params, objections@, reading, res),
        submission_passes(functions@, params, objections@) && mints_valid_ids(reading)
            ==> res is Ok,
{
    let ghost submitted = params;
    let Params {
        function_name,
        episode_ids,
        inputs,
        params: overrides,
        variant_name,
        tags,
        dynamic_tool_params,
        output_schemas,
    } = params;
    let function: &FunctionConfig = match get_function(functions, function_name.as_str()) {
        Ok(function) => function,
        Err(e) => {
            return Err(e);
        },
    };
    let num_inferences: usize = inputs.len();
    if num_inferences == 0 {
        return Err(Error::InvalidRequest { message: "No inputs provided".to_owned() });
    }
    let tool_params: Vec<DynamicToolParams> = match Vec::<DynamicToolParams>::try_from(
        BatchDynamicToolParamsWithSize(dynamic_tool_params, num_inferences),
    ) {
        Ok(all) => all,
        Err(e) => {
            return Err(e);
        },
    };
    let schemas: Vec<Option<DynamicJSONSchema>> = match Vec::<Option<DynamicJSONSchema>>::try_from(
        BatchOutputSchemasWithSize(output_schemas, num_inferences),
    ) {
        Ok(all) => all,
        Err(e) => {
            return Err(e);
        },
    };
    if function.variants.len() == 0 {
        let mut message: String = "Function `".to_owned();
        message.append(function_name.as_str());
        message.append("` has no variants");
        return Err(Error::InvalidFunctionVariants { message });
    }
    if objections.len() != num_inferences {
        return Err(
            Error::Inference {
                message: "The checks of the inputs do not match the inputs. This should never happen.".to_owned(),
            },
        );
    }
    match take_first_objection(objections) {
        Some((index, message)) => {
            return Err(Error::BatchInputValidation { index, message });
        },
        None => {},
    }
    let candidates: Vec<Variant> = candidate_variants(&function.variants, &variant_name);
    if candidates.len() == 0 {
        if let Some(name) = variant_name {
            return Err(Error::UnknownVariant { name });
        }
    }
    let settled = BatchEpisodeIdsWithSize(episode_ids, num_inferences).settle(reading);
    let ghost ids_res = settled;
    let ids: Vec<Id> = match settled {
        Ok(ids) => ids,
        Err(e) => {
            assert(after_episode_ids(*function, submitted, ids_res, Err(e)));
            return Err(e);
        },
    };
    let inference_params: Vec<InferenceParams> = match Vec::<InferenceParams>::try_from(
        BatchInferenceParamsWithSize(overrides, num_inferences),
    ) {
        Ok(all) => all,
        Err(e) => {
            assert(after_episode_ids(*function, submitted, ids_res, Err(e)));
            return Err(e);
        },
    };
    let all_tags: Vec<HashMap<String, String>> = match settle_tags(tags, num_inferences) {
        Ok(all) => all,
        Err(e) => {
            assert(after_episode_ids(*function, submitted, ids_res, Err(e)));
            return Err(e);
        },
    };
    let plan = BatchInferencePlan {
        function_name,
        inputs,
        episode_ids: ids,
        inference_params,
        tool_params,
        output_schemas: schemas,
        tags: all_tags,
        candidates,
        variant_errors: Vec::new(),
    };
    assert(plan_for(*function, submitted, ids, plan));
    assert(after_episode_ids(*function, submitted, ids_res, Ok(plan)));
    Ok(plan)
}

/// Checks a submission and plans the batch. Nothing has been sent to any
/// provider when this returns. Whatever the clock reads, the result is what
/// `start_batch_inference_at` gives for that reading.
pub fn start_batch_inference(
    functions: &Vec<FunctionConfig>,
    params: Params,
    objections: Vec<Option<String>>,
) -> (res: Result<BatchInferencePlan, Error>)
    ensures
        exists|reading: Reading|
            reading.well_formed() && #[trigger] submission_outcome(
                functions@,
                params,
                objections@,
                reading,
                res,
            ),
{
    let reading = read_clock();
    start_batch_inference_at(functions, params, objections, reading)
}

/// The text of the failure for a plan without episode ids.
pub open spec fn no_episode_ids_text() -> Seq<char> {
    "batch episode_ids unexpectedly empty. This should never happen. Please file a bug report: https://github.com/tensorzero/tensorzero/issues/new"@
}

impl BatchInferencePlan {
    /// Whether two plans ask the same of each inference.
    pub open spec fn same_batch(&self, other: &BatchInferencePlan) -> bool {
        &&& self.function_name == other.function_name
        &&& self.inputs == other.inputs
        &&& self.episode_ids == other.episode_ids
        &&& self.inference_params == other.inference_params
        &&& self.tool_params == other.tool_params
        &&& self.output_schemas == other.output_schemas
        &&& self.tags == other.tags
    }

    /// Says which variant is to be tried next. The whole batch is served by
    /// one variant, which is drawn with the first episode id of the batch as
    /// the key.
    pub fn next_attempt(&mut self) -> (attempt: Attempt)
        ensures
            final(self).same_batch(old(self)),
            old(self).episode_ids@.len() == 0 ==> (attempt matches Attempt::Fail(
                Error::Inference { message },
            ) && message@ == no_episode_ids_text() && final(self).candidates == old(self).candidates && final(self).variant_errors == old(self).variant_errors),
            old(self).episode_ids@.len() > 0 ==> attempted(
                old(self).candidates@,
                old(self).variant_errors,
                old(self).function_name@,
                old(self).episode_ids@[0].bits,
                final(self).candidates@,
                final(self).variant_errors,
                attempt,
            ),
    {
        if self.episode_ids.len() == 0 {
            return Attempt::Fail(
                Error::Inference {
                    message: "batch episode_ids unexpectedly empty. This should never happen. Please file a bug report: https://github.com/tensorzero/tensorzero/issues/new".to_owned(),
                },
            );
        }
        let first_episode_id: Id = self.episode_ids[0];
        next_attempt(
            &mut self.candidates,
            &mut self.variant_errors,
            self.function_name.as_str(),
            first_episode_id,
        )
    }

    /// Takes note that the variant of the last attempt has failed. A
    /// failure that the provider blames on the request ends the batch at
    /// once and is handed back; any other is recorded under the variant's
    /// name, and the next variant may be tried.
    pub fn variant_failed(&mut self, variant_name: String, error: Error) -> (fatal: Option<Error>)
        ensures
            final(self).same_batch(old(self)),
            final(self).candidates == old(self).candidates,
            error is ClientError ==> fatal == Some(error) && final(self).variant_errors == old(self).variant_errors,
            !(error is ClientError) ==> fatal is None && final(self).variant_errors@
                == with_failure(old(self).variant_errors@, variant_name, error),
            failure_names_distinct(old(self).variant_errors@) ==> failure_names_distinct(
                final(self).variant_errors@,
            ),
    {
        variant_failed(&mut self.variant_errors, variant_name, error)
    }
}

} // verus!
