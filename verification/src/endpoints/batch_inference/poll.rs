//! Polling a batch: which batch is asked about, how its latest row is
//! found, and what is answered.

use crate::endpoints::batch_inference::rows::{BatchRequestInsert, BatchStatus};
use crate::error::Error;
use crate::uuid_util::{hyphenated, Id};
use std::collections::HashMap;
use vstd::prelude::*;
use vstd::string::*;

verus! {

/// What a caller asks a poll with: the id of the batch, or the id of one of
/// its inferences.
#[derive(Clone, Copy, Debug, PartialEq, Eq, Structural)]
pub struct PollInferenceQueryParams {
    pub batch_id: Option<Id>,
    pub inference_id: Option<Id>,
}

/// A poll that names its batch in exactly one way.
#[derive(Clone, Copy, Debug, PartialEq, Eq, Structural)]
pub enum PollInferenceQuery {
    Batch(Id),
    Inference(Id),
}

/// The text of the failure for a poll that names no batch, or names it
/// twice.
pub open spec fn one_id_text() -> Seq<char> {
    "Exactly one of `batch_id` or `inference_id` must be provided"@
}

impl PollInferenceQueryParams {
    /// What the poll asks for, where it gives exactly one id.
    pub open spec fn query(&self) -> Option<PollInferenceQuery> {
        match (self.batch_id, self.inference_id) {
            (Some(batch_id), None) => Some(PollInferenceQuery::Batch(batch_id)),
            (None, Some(inference_id)) => Some(PollInferenceQuery::Inference(inference_id)),
            _ => None,
        }
    }

    /// Accepts a poll that gives exactly one of the two ids.
    pub fn validate(self) -> (res: Result<PollInferenceQuery, Error>)
        ensures
            match self.query() {
                Some(query) => res == Ok::<PollInferenceQuery, Error>(query),
                None => res matches Err(Error::InvalidRequest { message }) && message@
                    == one_id_text(),
            },
    {
        match (self.batch_id, self.inference_id) {
            (Some(batch_id), None) => Ok(PollInferenceQuery::Batch(batch_id)),
            (None, Some(inference_id)) => Ok(PollInferenceQuery::Inference(inference_id)),
            _ => Err(
                Error::InvalidRequest {
                    message: "Exactly one of `batch_id` or `inference_id` must be provided".to_owned(),
                },
            ),
        }
    }
}

impl PollInferenceQuery {
    /// The id that the poll was asked with.
    pub open spec fn id_spec(&self) -> Id {
        match self {
            PollInferenceQuery::Batch(id) => *id,
            PollInferenceQuery::Inference(id) => *id,
        }
    }

    /// The query that finds the latest row of the batch. Rows arrive in no
    /// order, so the latest is asked for by its timestamp.
    pub open spec fn sql_spec(&self) -> Seq<char> {
        match self {
            PollInferenceQuery::Batch(id) => "SELECT batch_id, batch_params, model_name, model_provider_name, status, errors FROM BatchRequest WHERE batch_id = "@
                + hyphenated(id.bits) + " ORDER BY timestamp DESC LIMIT 1 FORMAT JSONEachRow"@,
            PollInferenceQuery::Inference(id) => "SELECT br.* FROM BatchIdByInferenceId bi JOIN BatchRequest br ON bi.batch_id = br.batch_id WHERE bi.inference_id = "@
                + hyphenated(id.bits)
                + " ORDER BY br.timestamp DESC LIMIT 1 FORMAT JSONEachRow"@,
        }
    }

    /// The id that the poll was asked with.
    pub fn id(&self) -> (id: Id)
        ensures
            id == self.id_spec(),
    {
        match self {
            PollInferenceQuery::Batch(id) => *id,
            PollInferenceQuery::Inference(id) => *id,
        }
    }

    /// Writes the query that finds the latest row of the batch.
    pub fn sql(&self) -> (text: String)
        ensures
            text@ == self.sql_spec(),
    {
        match self {
            PollInferenceQuery::Batch(id) => {
                let mut text: String = "SELECT batch_id, batch_params, model_name, model_provider_name, status, errors FROM BatchRequest WHERE batch_id = ".to_owned();
                let id_text: String = id.to_text();
                text.append(id_text.as_str());
                text.append(" ORDER BY timestamp DESC LIMIT 1 FORMAT JSONEachRow");
                text
            },
            PollInferenceQuery::Inference(id) => {
                let mut text: String = "SELECT br.* FROM BatchIdByInferenceId bi JOIN BatchRequest br ON bi.batch_id = br.batch_id WHERE bi.inference_id = ".to_owned();
                let id_text: String = id.to_text();
                text.append(id_text.as_str());
                text.append(" ORDER BY br.timestamp DESC LIMIT 1 FORMAT JSONEachRow");
                text
            },
        }
    }
}

/// The latest row of a batch, as it is read from the analytics store.
#[derive(Debug, PartialEq)]
pub struct BatchRequest {
    pub batch_id: Id,
    pub batch_params: serde_json::Value,
    pub model_name: String,
    pub model_provider_name: String,
    pub status: BatchStatus,
    pub errors: HashMap<String, String>,
}

/// Whether `res` is what looking for a batch comes to. `response` is what
/// the store answered to the query, `decoded` what reading that answer as a
/// row gave. An empty answer means that there is no such batch; an answer
/// that cannot be read is a failure of the store.
pub open spec fn lookup_outcome(
    query: PollInferenceQuery,
    response: Seq<char>,
    decoded: Result<BatchRequest, String>,
    res: Result<BatchRequest, Error>,
) -> bool {
    if response.len() == 0 {
        res == Err::<BatchRequest, Error>(Error::BatchNotFound { id: query.id_spec() })
    } else {
        match decoded {
            Ok(row) => res == Ok::<BatchRequest, Error>(row),
            Err(message) => res == Err::<BatchRequest, Error>(Error::PersistenceDecode { message }),
        }
    }
}

/// Says what the answer of the store to the query of a poll comes to.
pub fn get_batch_request(
    query: &PollInferenceQuery,
    response: &str,
    decoded: Result<BatchRequest, String>,
) -> (res: Result<BatchRequest, Error>)
    ensures
        lookup_outcome(*query, response@, decoded, res),
{
    if response.is_empty() {
        return Err(Error::BatchNotFound { id: query.id() });
    }
    match decoded {
        Ok(row) => Ok(row),
        Err(message) => Err(Error::PersistenceDecode { message }),
    }
}

/// What a provider says about a batch that it was asked about.
pub enum ProviderBatchStatus {
    /// The batch is still running.
    Pending,
    /// The batch is done.
    Completed,
    /// The batch has failed, with these errors.
    Failed { errors: HashMap<String, String> },
}

/// What a poll answers.
#[derive(Clone, Copy, Debug, PartialEq, Eq)]
pub enum PollInferenceResponse {
    Pending,
    Completed,
    Failed { message: &'static str },
}

/// The message that a poll of a failed batch answers with.
pub open spec fn failed_text() -> Seq<char> {
    "The batch has failed"@
}

impl BatchStatus {
    /// Whether the status can no longer change.
    pub open spec fn is_terminal(&self) -> bool {
        *self != BatchStatus::Pending
    }

    /// Where a batch stands after the provider has reported on it: a batch
    /// that was pending takes the reported state, a terminal one keeps its
    /// own.
    pub open spec fn after(&self, reported: ProviderBatchStatus) -> BatchStatus {
        match self {
            BatchStatus::Pending => match reported {
                ProviderBatchStatus::Pending => BatchStatus::Pending,
                ProviderBatchStatus::Completed => BatchStatus::Completed,
                ProviderBatchStatus::Failed { .. } => BatchStatus::Failed,
            },
            BatchStatus::Completed => BatchStatus::Completed,
            BatchStatus::Failed => BatchStatus::Failed,
        }
    }

    /// Whether `response` is what a poll answers for a batch in this state.
    pub open spec fn answered_by(&self, response: PollInferenceResponse) -> bool {
        match self {
            BatchStatus::Pending => response is Pending,
            BatchStatus::Completed => response is Completed,
            BatchStatus::Failed => response matches PollInferenceResponse::Failed { message }
                && message@ == failed_text(),
        }
    }

    /// What a poll answers for a batch in this state.
    pub fn response(&self) -> (response: PollInferenceResponse)
        ensures
            self.answered_by(response),
    {
        match self {
            BatchStatus::Pending => PollInferenceResponse::Pending,
            BatchStatus::Completed => PollInferenceResponse::Completed,
            BatchStatus::Failed => PollInferenceResponse::Failed {
                message: "The batch has failed",
            },
        }
    }
}

/// What a poll does first.
#[derive(Clone, Copy, Debug, PartialEq, Eq)]
pub enum PollStep {
    /// The batch is terminal: this is the answer, and nobody is asked.
    Answer(PollInferenceResponse),
    /// The batch is pending: the provider is to be asked about it.
    AskProvider,
}

/// What a poll comes to once the provider has reported: the answer, and the
/// row to write where the state of the batch has changed.
pub struct PollUpdate {
    pub response: PollInferenceResponse,
    pub row: Option<BatchRequestInsert>,
}

impl BatchRequest {
    /// Says whether the provider has to be asked. A terminal batch is
    /// answered from its row alone, so every poll of it gives the same
    /// answer.
    pub fn poll(&self) -> (step: PollStep)
        ensures
            match step {
                PollStep::Answer(response) => self.status.is_terminal()
                    && self.status.answered_by(response),
                PollStep::AskProvider => self.status == BatchStatus::Pending,
            },
    {
        match self.status {
            BatchStatus::Pending => PollStep::AskProvider,
            _ => PollStep::Answer(self.status.response()),
        }
    }

    /// Says what a poll comes to once the provider has reported on the
    /// batch. Where the state changes, a new row for the batch records the
    /// new state, with the provider's errors where it has failed.
    pub fn poll_batch_request(&self, reported: ProviderBatchStatus) -> (update: PollUpdate)
        ensures
            self.status.after(reported).answered_by(update.response),
            self.status.after(reported) == self.status ==> update.row is None,
            self.status.after(reported) != self.status ==> (update.row matches Some(row)
                && row.records(
                hyphenated(self.batch_id.bits),
                self.batch_params,
                self.model_name@,
                self.model_provider_name@,
                self.status.after(reported),
                match reported {
                    ProviderBatchStatus::Failed { errors } => Some(errors),
                    _ => None,
                },
            )),
    {
        match self.status {
            BatchStatus::Pending => {},
            _ => {
                return PollUpdate { response: self.status.response(), row: None };
            },
        }
        let (status, errors): (BatchStatus, Option<HashMap<String, String>>) = match reported {
            ProviderBatchStatus::Pending => {
                return PollUpdate { response: PollInferenceResponse::Pending, row: None };
            },
            ProviderBatchStatus::Completed => (BatchStatus::Completed, None),
            ProviderBatchStatus::Failed { errors } => (BatchStatus::Failed, Some(errors)),
        };
        let batch_id: String = self.batch_id.to_text();
        let row = BatchRequestInsert::new(
            batch_id.as_str(),
            self.batch_params.clone(),
            self.model_name.as_str(),
            self.model_provider_name.as_str(),
            status,
            errors,
        );
        PollUpdate { response: status.response(), row: Some(row) }
    }
}

/// A terminal state is sticky: whatever a provider reports afterwards, and
/// however often, the state stays and the answer of a poll with it.
pub proof fn lemma_terminal_status_is_sticky(
    status: BatchStatus,
    first: ProviderBatchStatus,
    second: ProviderBatchStatus,
    response1: PollInferenceResponse,
    response2: PollInferenceResponse,
)
    requires
        status.is_terminal(),
        status.after(first).answered_by(response1),
        status.after(first).after(second).answered_by(response2),
    ensures
        status.after(first) == status,
        status.after(first).after(second) == status,
        response1 is Pending == response2 is Pending,
        response1 is Completed == response2 is Completed,
        response1 is Failed == response2 is Failed,
        response1 is Failed ==> response1->message@ == response2->message@,
        !(response1 is Pending),
{
}

/// From `Pending` a batch moves at most once: after it has left `Pending`,
/// no report changes its state.
pub proof fn lemma_status_moves_once(
    status: BatchStatus,
    first: ProviderBatchStatus,
    second: ProviderBatchStatus,
)
    requires
        status.after(first) != BatchStatus::Pending,
    ensures
        status.after(first).after(second) == status.after(first),
{
}

} // verus!
