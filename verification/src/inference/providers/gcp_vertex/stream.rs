//! A streamed call of the provider: one inference id for the whole stream,
//! and what each event of the transport means for the consumer.

use crate::error::{prefixed, Error};
use crate::inference::providers::gcp_vertex::provider::is_client_failure;
use crate::inference::providers::gcp_vertex::{
    chunk_normalized, is_server_error, GCPVertexGeminiResponse,
    GCPVertexGeminiStreamResponseWithMetadata,
};
use crate::inference::types::ModelInferenceResponseChunk;
use crate::clock::{read_clock, Reading};
use crate::uuid_util::{minted_at, version_of, Id};
use std::time::Duration;
use vstd::prelude::*;
use vstd::string::*;

verus! {

/// One event of the transport under a stream.
pub enum GCPVertexGeminiStreamEvent {
    /// The connection is open.
    Open,
    /// A message arrived, `latency` after the request was sent. `body` is
    /// the message as it was read from `data`, or why it could not be read.
    Message { body: Result<GCPVertexGeminiResponse, String>, data: String, latency: Duration },
    /// The provider closed the stream.
    Ended,
    /// The transport failed for the reason given.
    Failed { detail: String },
}

/// What the consumer of a stream is given for one event.
pub enum GCPVertexGeminiStreamStep {
    /// The stream is over.
    Stop,
    /// Nothing is given for this event.
    Skip,
    /// A chunk, or a failure after which the stream goes on.
    Yield(Result<ModelInferenceResponseChunk, Error>),
}

/// A stream of chunks, known by the id of its inference.
pub struct GCPVertexGeminiStream {
    pub inference_id: Id,
}

/// Whether `step` is what the stream with the given id gives for `event`.
pub open spec fn stream_step_for(
    inference_id: Id,
    event: GCPVertexGeminiStreamEvent,
    step: GCPVertexGeminiStreamStep,
) -> bool {
    match event {
        GCPVertexGeminiStreamEvent::Open => step is Skip,
        GCPVertexGeminiStreamEvent::Ended => step is Stop,
        GCPVertexGeminiStreamEvent::Failed { detail } => step matches GCPVertexGeminiStreamStep::Yield(
            Err(e),
        ) && is_server_error(e, detail@),
        GCPVertexGeminiStreamEvent::Message {
            body: Err(detail),
            ..
        } => step matches GCPVertexGeminiStreamStep::Yield(Err(e)) && is_server_error(
            e,
            "Error parsing response: "@ + detail@,
        ),
        GCPVertexGeminiStreamEvent::Message {
            body: Ok(body),
            data,
            latency,
        } => step matches GCPVertexGeminiStreamStep::Yield(res) && chunk_normalized(
            GCPVertexGeminiStreamResponseWithMetadata { body, raw: data, latency, inference_id },
            res,
        ),
    }
}

/// The failure for a stream that could not be opened.
pub fn stream_unsent(detail: String) -> (e: Error)
    ensures
        is_client_failure(e, "Error sending request to GCP Vertex Gemini: "@ + detail@),
{
    Error::InferenceClient {
        message: prefixed("Error sending request to GCP Vertex Gemini: ", &detail),
    }
}

impl GCPVertexGeminiStream {
    /// A new stream that is created at the given reading of the clock: the
    /// id of its inference is minted at that reading.
    pub fn open_at(reading: Reading) -> (stream: Self)
        ensures
            minted_at(stream.inference_id.bits, reading),
    {
        GCPVertexGeminiStream { inference_id: Id::new_v7(reading) }
    }

    /// A new stream, with a fresh id for its inference: whatever the clock
    /// reads, the id is one that is minted at that reading.
    pub fn open() -> (stream: Self)
        ensures
            version_of(stream.inference_id.bits) == 7,
            exists|reading: Reading|
                reading.well_formed() && #[trigger] minted_at(stream.inference_id.bits, reading),
    {
        let reading = read_clock();
        let stream = GCPVertexGeminiStream::open_at(reading);
        assert(minted_at(stream.inference_id.bits, reading));
        stream
    }

    /// What the consumer is given for one event. Every chunk carries the id
    /// of the stream.
    pub fn step(&self, event: GCPVertexGeminiStreamEvent) -> (step: GCPVertexGeminiStreamStep)
        ensures
            stream_step_for(self.inference_id, event, step),
            step matches GCPVertexGeminiStreamStep::Yield(Ok(chunk)) ==> chunk.inference_id
                == self.inference_id,
    {
        match event {
            GCPVertexGeminiStreamEvent::Open => GCPVertexGeminiStreamStep::Skip,
            GCPVertexGeminiStreamEvent::Ended => GCPVertexGeminiStreamStep::Stop,
            GCPVertexGeminiStreamEvent::Failed { detail } => GCPVertexGeminiStreamStep::Yield(
                Err(Error::ServerError { body: detail }),
            ),
            GCPVertexGeminiStreamEvent::Message { body, data, latency } => match body {
                Ok(body) => GCPVertexGeminiStreamStep::Yield(
                    ModelInferenceResponseChunk::try_from(
                        GCPVertexGeminiStreamResponseWithMetadata {
                            body,
                            raw: data,
                            latency,
                            inference_id: self.inference_id,
                        },
                    ),
                ),
                Err(detail) => GCPVertexGeminiStreamStep::Yield(
                    Err(
                        Error::ServerError { body: prefixed("Error parsing response: ", &detail) },
                    ),
                ),
            },
        }
    }

    /// What the consumer is given for a run of events: one item for each
    /// event before the end of the stream that is no opening, in the order
    /// of the events. Every chunk among them carries the id of the stream.
    pub fn collect(&self, events: Vec<GCPVertexGeminiStreamEvent>) -> (items: Vec<
        Result<ModelInferenceResponseChunk, Error>,
    >)
        ensures
            items@.len() == yielding_events(events@, live_prefix(events@)).len(),
            forall|k: int|
                0 <= k < items@.len() ==> stream_step_for(
                    self.inference_id,
                    events@[yielding_events(events@, live_prefix(events@))[k]],
                    GCPVertexGeminiStreamStep::Yield(#[trigger] items@[k]),
                ),
            forall|k: int|
                0 <= k < items@.len() ==> (#[trigger] items@[k] matches Ok(chunk)
                    ==> chunk.inference_id == self.inference_id),
    {
        let mut items: Vec<Result<ModelInferenceResponseChunk, Error>> = Vec::new();
        let ghost original = events@;
        proof {
            assert(original.skip(0) =~= original);
        }
        for event in iter: events.into_iter()
            invariant
                iter.seq() == original,
                live_prefix(original) == iter.index() + live_prefix(original.skip(iter.index())),
                items@.len() == yielding_events(original, iter.index()).len(),
                forall|k: int|
                    0 <= k < items@.len() ==> stream_step_for(
                        self.inference_id,
                        original[yielding_events(original, iter.index())[k]],
                        GCPVertexGeminiStreamStep::Yield(#[trigger] items@[k]),
                    ),
                forall|k: int|
                    0 <= k < items@.len() ==> (#[trigger] items@[k] matches Ok(chunk)
                        ==> chunk.inference_id == self.inference_id),
        {
            let ghost i = iter.index();
            proof {
                assert(original.skip(i)[0] == event);
                assert(original.skip(i).skip(1) =~= original.skip(i + 1));
            }
            match self.step(event) {
                GCPVertexGeminiStreamStep::Stop => {
                    return items;
                },
                GCPVertexGeminiStreamStep::Skip => {},
                GCPVertexGeminiStreamStep::Yield(item) => {
                    items.push(item);
                },
            }
        }
        items
    }
}

/// How many events a stream has before it ends: those before the first
/// `Ended`, or all of them.
pub open spec fn live_prefix(events: Seq<GCPVertexGeminiStreamEvent>) -> int
    decreases events.len(),
{
    if events.len() == 0 || events[0] is Ended {
        0
    } else {
        1 + live_prefix(events.skip(1))
    }
}

/// The places among the first `n` events of those that give the consumer
/// something: all but the openings.
pub open spec fn yielding_events(events: Seq<GCPVertexGeminiStreamEvent>, n: int) -> Seq<int>
    decreases n,
{
    if n <= 0 {
        Seq::empty()
    } else {
        let before = yielding_events(events, n - 1);
        if events[n - 1] is Open {
            before
        } else {
            before.push(n - 1)
        }
    }
}

/// What waiting for the first chunk of a stream has come to.
pub enum FirstChunk {
    /// Nothing yet: the next event is to be awaited.
    Pending,
    /// The first chunk, or the failure that the stream opens with.
    Ready(Result<ModelInferenceResponseChunk, Error>),
}

/// The message of the failure for a stream that ends before its first chunk.
pub open spec fn ended_early_text() -> Seq<char> {
    "Stream ended before first chunk"@
}

/// Says what a step means while the first chunk is awaited: a stream that
/// stops has failed, a skipped event changes nothing, and what is yielded
/// first decides.
pub fn await_first_chunk(step: GCPVertexGeminiStreamStep) -> (first: FirstChunk)
    ensures
        match step {
            GCPVertexGeminiStreamStep::Stop => first matches FirstChunk::Ready(Err(e))
                && is_server_error(e, ended_early_text()),
            GCPVertexGeminiStreamStep::Skip => first is Pending,
            GCPVertexGeminiStreamStep::Yield(item) => first == FirstChunk::Ready(item),
        },
{
    match step {
        GCPVertexGeminiStreamStep::Stop => FirstChunk::Ready(
            Err(Error::ServerError { body: "Stream ended before first chunk".to_owned() }),
        ),
        GCPVertexGeminiStreamStep::Skip => FirstChunk::Pending,
        GCPVertexGeminiStreamStep::Yield(item) => FirstChunk::Ready(item),
    }
}

} // verus!
