//! Answers of the provider: the wire format, and how an answer is
//! normalized.

use crate::error::Error;
use crate::inference::providers::gcp_vertex::request::PartView;
use crate::inference::types::{
    opt_text, tool_call_chunk_views, tool_call_views, Latency, ModelInferenceResponse,
    ModelInferenceResponseChunk, ToolCall, ToolCallChunk, ToolCallChunkView, ToolCallView, Usage,
};
use crate::uuid_util::Id;
use std::time::Duration;
use vstd::prelude::*;
use vstd::std_specs::convert::{FromSpecImpl, TryFromSpecImpl};
use vstd::string::*;

verus! {

/// A call of a function that the model asks for.
#[derive(Clone, Debug, PartialEq)]
pub struct GCPVertexGeminiResponseFunctionCall {
    pub name: String,
    pub args: String,
}

/// One part of the content of an answer.
#[derive(Clone, Debug, PartialEq)]
pub enum GCPVertexGeminiResponseContentPart {
    Text { text: String },
    FunctionCall { function_call: GCPVertexGeminiResponseFunctionCall },
}

impl View for GCPVertexGeminiResponseContentPart {
    type V = PartView;

    open spec fn view(&self) -> PartView {
        match self {
            GCPVertexGeminiResponseContentPart::Text { text } => PartView::Text { text: text@ },
            GCPVertexGeminiResponseContentPart::FunctionCall {
                function_call,
            } => PartView::FunctionCall { name: function_call.name@, args: function_call.args@ },
        }
    }
}

/// The views of the parts of an answer, in their order.
pub open spec fn response_part_views(parts: Seq<GCPVertexGeminiResponseContentPart>) -> Seq<
    PartView,
> {
    parts.map_values(|p: GCPVertexGeminiResponseContentPart| p@)
}

/// The content of one candidate answer.
#[derive(Clone, Debug, PartialEq)]
pub struct GCPVertexGeminiResponseContent {
    pub parts: Vec<GCPVertexGeminiResponseContentPart>,
}

/// One candidate answer.
#[derive(Clone, Debug, PartialEq)]
pub struct GCPVertexGeminiResponseCandidate {
    pub content: Option<GCPVertexGeminiResponseContent>,
}

/// The token counts that the provider reports.
#[derive(Clone, Copy, Debug, PartialEq, Eq, Structural)]
pub struct GCPVertexGeminiUsageMetadata {
    pub prompt_token_count: u32,
    pub candidates_token_count: u32,
}

/// The usage that the provider's token counts stand for: the prompt's tokens
/// and the candidates' tokens, under the names of the normalized model.
pub open spec fn gemini_usage(usage_metadata: GCPVertexGeminiUsageMetadata) -> Usage {
    Usage {
        prompt_tokens: usage_metadata.prompt_token_count,
        completion_tokens: usage_metadata.candidates_token_count,
    }
}

impl From<GCPVertexGeminiUsageMetadata> for Usage {
    /// Renames the provider's token counts.
    fn from(usage_metadata: GCPVertexGeminiUsageMetadata) -> (usage: Usage)
        ensures
            usage == gemini_usage(usage_metadata),
    {
        Usage {
            prompt_tokens: usage_metadata.prompt_token_count,
            completion_tokens: usage_metadata.candidates_token_count,
        }
    }
}

impl FromSpecImpl<GCPVertexGeminiUsageMetadata> for Usage {
    open spec fn obeys_from_spec() -> bool {
        true
    }

    open spec fn from_spec(usage_metadata: GCPVertexGeminiUsageMetadata) -> Usage {
        gemini_usage(usage_metadata)
    }
}

/// The body of an answer of the provider, unary or one event of a stream.
#[derive(Clone, Debug, PartialEq)]
pub struct GCPVertexGeminiResponse {
    pub candidates: Vec<GCPVertexGeminiResponseCandidate>,
    pub usage_metadata: Option<GCPVertexGeminiUsageMetadata>,
}

impl GCPVertexGeminiResponse {
    /// Whether the answer has a first candidate with content.
    pub open spec fn has_content(&self) -> bool {
        self.candidates@.len() > 0 && self.candidates@[0].content is Some
    }

    /// The parts of the first candidate, the only one that is used; none
    /// where it has no content.
    pub open spec fn first_parts(&self) -> Seq<PartView> {
        if self.has_content() {
            response_part_views(self.candidates@[0].content->0.parts@)
        } else {
            Seq::empty()
        }
    }
}

/// The texts among the parts, joined by a line feed in their order; nothing
/// where no part is a text.
pub open spec fn joined_text(parts: Seq<PartView>) -> Option<Seq<char>>
    decreases parts.len(),
{
    if parts.len() == 0 {
        None
    } else {
        let before = joined_text(parts.drop_last());
        match parts.last() {
            PartView::Text { text } => match before {
                Some(joined) => Some(joined + seq!['\n'] + text),
                None => Some(text),
            },
            PartView::FunctionCall { .. } => before,
        }
    }
}

/// The function calls among the parts, in their order.
pub open spec fn function_calls(parts: Seq<PartView>) -> Seq<(Seq<char>, Seq<char>)>
    decreases parts.len(),
{
    if parts.len() == 0 {
        Seq::empty()
    } else {
        let before = function_calls(parts.drop_last());
        match parts.last() {
            PartView::Text { .. } => before,
            PartView::FunctionCall { name, args } => before.push((name, args)),
        }
    }
}

/// The tool call for a function call. The provider gives its calls no id, so
/// the name of the function stands in.
pub open spec fn tool_call_of(call: (Seq<char>, Seq<char>)) -> ToolCallView {
    ToolCallView { id: call.0, name: call.0, arguments: call.1 }
}

/// The tool calls among the parts; nothing where no part is a function call.
pub open spec fn response_tool_calls(parts: Seq<PartView>) -> Option<Seq<ToolCallView>> {
    let calls = function_calls(parts);
    if calls.len() == 0 {
        None
    } else {
        Some(calls.map_values(|c: (Seq<char>, Seq<char>)| tool_call_of(c)))
    }
}

/// The increment of a tool call for a function call in a stream.
pub open spec fn tool_call_chunk_of(call: (Seq<char>, Seq<char>)) -> ToolCallChunkView {
    ToolCallChunkView { id: Some(call.0), name: Some(call.0), arguments: Some(call.1) }
}

/// The increments of tool calls among the parts; nothing where no part is a
/// function call.
pub open spec fn response_tool_call_chunks(parts: Seq<PartView>) -> Option<
    Seq<ToolCallChunkView>,
> {
    let calls = function_calls(parts);
    if calls.len() == 0 {
        None
    } else {
        Some(calls.map_values(|c: (Seq<char>, Seq<char>)| tool_call_chunk_of(c)))
    }
}

/// The name and the arguments of each function call, in their order.
pub open spec fn call_pairs(calls: Seq<GCPVertexGeminiResponseFunctionCall>) -> Seq<
    (Seq<char>, Seq<char>),
> {
    calls.map_values(|c: GCPVertexGeminiResponseFunctionCall| (c.name@, c.args@))
}

/// The views of optional tool calls.
pub open spec fn opt_tool_call_views(calls: Option<Vec<ToolCall>>) -> Option<Seq<ToolCallView>> {
    match calls {
        Some(calls) => Some(tool_call_views(calls@)),
        None => None,
    }
}

/// The views of optional increments of tool calls.
pub open spec fn opt_tool_call_chunk_views(calls: Option<Vec<ToolCallChunk>>) -> Option<
    Seq<ToolCallChunkView>,
> {
    match calls {
        Some(calls) => Some(tool_call_chunk_views(calls@)),
        None => None,
    }
}

/// The text and the function calls of the parts, in one pass.
fn split_parts(parts: Vec<GCPVertexGeminiResponseContentPart>) -> (res: (
    Option<String>,
    Vec<GCPVertexGeminiResponseFunctionCall>,
))
    ensures
        opt_text(res.0) == joined_text(response_part_views(parts@)),
        call_pairs(res.1@) == function_calls(response_part_views(parts@)),
{
    let ghost all = response_part_views(parts@);
    let ghost original = parts@;
    let mut message_text: Option<String> = None;
    let mut calls: Vec<GCPVertexGeminiResponseFunctionCall> = Vec::new();
    proof {
        reveal_strlit("\n");
        assert("\n"@ =~= seq!['\n']);
    }
    for part in iter: parts.into_iter()
        invariant
            iter.seq() == original,
            all == response_part_views(original),
            "\n"@ == seq!['\n'],
            opt_text(message_text) == joined_text(all.take(iter.index())),
            calls@.len() == function_calls(all.take(iter.index())).len(),
            forall|j: int|
                0 <= j < calls@.len() ==> ((#[trigger] calls@[j]).name@, calls@[j].args@)
                    == function_calls(all.take(iter.index()))[j],
    {
        let ghost k = iter.index();
        proof {
            assert(all.take(k + 1).drop_last() =~= all.take(k));
            assert(all.take(k + 1).last() == part@);
        }
        match part {
            GCPVertexGeminiResponseContentPart::Text { text } => {
                message_text = match message_text {
                    Some(mut message) => {
                        message.append("\n");
                        message.append(text.as_str());
                        Some(message)
                    },
                    None => Some(text),
                };
            },
            GCPVertexGeminiResponseContentPart::FunctionCall { function_call } => {
                calls.push(function_call);
            },
        }
    }
    proof {
        assert(all.take(all.len() as int) =~= all);
        assert(call_pairs(calls@) =~= function_calls(all));
    }
    (message_text, calls)
}

/// The tool calls for the function calls of an answer.
fn to_tool_calls(calls: Vec<GCPVertexGeminiResponseFunctionCall>) -> (res: Option<Vec<ToolCall>>)
    ensures
        opt_tool_call_views(res) == if calls@.len() == 0 {
            None
        } else {
            Some(call_pairs(calls@).map_values(|c: (Seq<char>, Seq<char>)| tool_call_of(c)))
        },
{
    if calls.len() == 0 {
        return None;
    }
    let ghost original = calls@;
    let mut tool_calls: Vec<ToolCall> = Vec::new();
    for function_call in iter: calls.into_iter()
        invariant
            iter.seq() == original,
            tool_calls@.len() == iter.index(),
            forall|j: int|
                0 <= j < iter.index() ==> (#[trigger] tool_calls@[j])@ == tool_call_of(
                    call_pairs(original)[j],
                ),
    {
        let tool_call = ToolCall {
            name: function_call.name.clone(),
            arguments: function_call.args,
            id: function_call.name,
        };
        tool_calls.push(tool_call);
    }
    assert(tool_call_views(tool_calls@) =~= call_pairs(original).map_values(
        |c: (Seq<char>, Seq<char>)| tool_call_of(c),
    ));
    Some(tool_calls)
}

/// The increments of tool calls for the function calls of one event of a
/// stream.
fn to_tool_call_chunks(calls: Vec<GCPVertexGeminiResponseFunctionCall>) -> (res: Option<
    Vec<ToolCallChunk>,
>)
    ensures
        opt_tool_call_chunk_views(res) == if calls@.len() == 0 {
            None
        } else {
            Some(call_pairs(calls@).map_values(|c: (Seq<char>, Seq<char>)| tool_call_chunk_of(c)))
        },
{
    if calls.len() == 0 {
        return None;
    }
    let ghost original = calls@;
    let mut tool_calls: Vec<ToolCallChunk> = Vec::new();
    for function_call in iter: calls.into_iter()
        invariant
            iter.seq() == original,
            tool_calls@.len() == iter.index(),
            forall|j: int|
                0 <= j < iter.index() ==> (#[trigger] tool_calls@[j])@ == tool_call_chunk_of(
                    call_pairs(original)[j],
                ),
    {
        let tool_call = ToolCallChunk {
            name: Some(function_call.name.clone()),
            arguments: Some(function_call.args),
            id: Some(function_call.name),
        };
        tool_calls.push(tool_call);
    }
    assert(tool_call_chunk_views(tool_calls@) =~= call_pairs(original).map_values(
        |c: (Seq<char>, Seq<char>)| tool_call_chunk_of(c),
    ));
    Some(tool_calls)
}

/// The message of the failure for an answer without candidates.
pub open spec fn no_candidates_text() -> Seq<char> {
    "GCP Vertex Gemini response has no candidates"@
}

/// The message of the failure for an answer whose first candidate has no
/// content.
pub open spec fn no_content_text() -> Seq<char> {
    "GCP Vertex Gemini response has no content"@
}

/// The message of the failure for a unary answer without token counts.
pub open spec fn no_usage_text() -> Seq<char> {
    "GCP Vertex Gemini non-streaming response has no usage metadata"@
}

/// Whether a failure is a server error with the given body.
pub open spec fn is_server_error(e: Error, text: Seq<char>) -> bool {
    e matches Error::ServerError { body } && body@ == text
}

/// A unary answer of the provider as it was read, the text it was read from,
/// and how long it took.
#[derive(Clone, Debug, PartialEq)]
pub struct GCPVertexGeminiResponseWithLatency {
    pub body: GCPVertexGeminiResponse,
    pub raw: String,
    pub latency: Latency,
}

/// Whether `res` is what a unary answer normalizes to. Only the first
/// candidate is used. An answer without candidates, without content or
/// without token counts is a failure of the provider, reported in this
/// order. Otherwise the texts of the parts are joined by a line feed, the
/// function calls become tool calls, the token counts are renamed, and the
/// raw text and the latency are handed on.
pub open spec fn unary_normalized(
    response: GCPVertexGeminiResponseWithLatency,
    res: Result<ModelInferenceResponse, Error>,
) -> bool {
    if response.body.candidates@.len() == 0 {
        res matches Err(e) && is_server_error(e, no_candidates_text())
    } else if !response.body.has_content() {
        res matches Err(e) && is_server_error(e, no_content_text())
    } else if response.body.usage_metadata is None {
        res matches Err(e) && is_server_error(e, no_usage_text())
    } else {
        &&& res matches Ok(r)
        &&& opt_text(r.content) == joined_text(response.body.first_parts())
        &&& opt_tool_call_views(r.tool_calls) == response_tool_calls(response.body.first_parts())
        &&& r.raw == response.raw
        &&& r.usage == gemini_usage(response.body.usage_metadata->0)
        &&& r.latency == response.latency
    }
}

impl TryFrom<GCPVertexGeminiResponseWithLatency> for ModelInferenceResponse {
    type Error = Error;

    /// Normalizes a unary answer. Only the first candidate is used. Its
    /// texts are joined by a line feed, its function calls become tool calls
    /// that carry the function's name as their id. An answer without
    /// candidates, without content or without token counts is a failure of
    /// the provider.
    fn try_from(response: GCPVertexGeminiResponseWithLatency) -> (res: Result<Self, Error>)
        ensures
            unary_normalized(response, res),
    {
        let GCPVertexGeminiResponseWithLatency { body, raw, latency } = response;
        let GCPVertexGeminiResponse { candidates, usage_metadata } = body;
        let mut candidates = candidates;
        if candidates.len() == 0 {
            return Err(
                Error::ServerError {
                    body: "GCP Vertex Gemini response has no candidates".to_owned(),
                },
            );
        }
        let first_candidate = candidates.remove(0);
        let parts = match first_candidate.content {
            Some(content) => content.parts,
            None => {
                return Err(
                    Error::ServerError {
                        body: "GCP Vertex Gemini response has no content".to_owned(),
                    },
                );
            },
        };
        let (message_text, calls) = split_parts(parts);
        let tool_calls = to_tool_calls(calls);
        let usage: Usage = match usage_metadata {
            Some(usage_metadata) => Usage::from(usage_metadata),
            None => {
                return Err(
                    Error::ServerError {
                        body: "GCP Vertex Gemini non-streaming response has no usage metadata".to_owned(),
                    },
                );
            },
        };
        Ok(ModelInferenceResponse::new(message_text, tool_calls, raw, usage, latency))
    }
}

/// The response owns strings, so the conversion is described by its
/// `ensures` and not by a function of the argument.
impl TryFromSpecImpl<GCPVertexGeminiResponseWithLatency> for ModelInferenceResponse {
    open spec fn obeys_try_from_spec() -> bool {
        false
    }

    open spec fn try_from_spec(response: GCPVertexGeminiResponseWithLatency) -> Result<
        Self,
        Error,
    > {
        arbitrary()
    }
}

/// One event of a streamed answer as it was read, the text it was read from,
/// the time since the request was sent, and the id of the inference that the
/// stream belongs to.
#[derive(Clone, Debug, PartialEq)]
pub struct GCPVertexGeminiStreamResponseWithMetadata {
    pub body: GCPVertexGeminiResponse,
    pub raw: String,
    pub latency: Duration,
    pub inference_id: Id,
}

/// Whether `res` is what one event of a stream normalizes to. An event
/// without candidates is a failure of the provider. Otherwise the chunk
/// carries the id of the stream; a first candidate without content gives a
/// chunk without text and without tool calls; token counts are optional.
pub open spec fn chunk_normalized(
    response: GCPVertexGeminiStreamResponseWithMetadata,
    res: Result<ModelInferenceResponseChunk, Error>,
) -> bool {
    if response.body.candidates@.len() == 0 {
        res matches Err(e) && is_server_error(e, no_candidates_text())
    } else {
        &&& res matches Ok(chunk)
        &&& chunk.inference_id == response.inference_id
        &&& opt_text(chunk.content) == joined_text(response.body.first_parts())
        &&& opt_tool_call_chunk_views(chunk.tool_calls) == response_tool_call_chunks(
            response.body.first_parts(),
        )
        &&& chunk.usage == match response.body.usage_metadata {
            Some(usage_metadata) => Some(gemini_usage(usage_metadata)),
            None => None,
        }
        &&& chunk.raw == response.raw
        &&& chunk.latency_since_start == response.latency
    }
}

impl TryFrom<GCPVertexGeminiStreamResponseWithMetadata> for ModelInferenceResponseChunk {
    type Error = Error;

    /// Normalizes one event of a stream. The chunk carries the id of the
    /// stream. An event whose first candidate has no content is a chunk
    /// without text and without tool calls; an event without candidates is
    /// a failure of the provider.
    fn try_from(response: GCPVertexGeminiStreamResponseWithMetadata) -> (res: Result<Self, Error>)
        ensures
            chunk_normalized(response, res),
    {
        let GCPVertexGeminiStreamResponseWithMetadata { body, raw, latency, inference_id } =
            response;
        let GCPVertexGeminiResponse { candidates, usage_metadata } = body;
        let mut candidates = candidates;
        if candidates.len() == 0 {
            return Err(
                Error::ServerError {
                    body: "GCP Vertex Gemini response has no candidates".to_owned(),
                },
            );
        }
        let first_candidate = candidates.remove(0);
        let parts = match first_candidate.content {
            Some(content) => content.parts,
            None => Vec::new(),
        };
        let (message_text, calls) = split_parts(parts);
        let tool_calls = to_tool_call_chunks(calls);
        let usage: Option<Usage> = match usage_metadata {
            Some(usage_metadata) => Some(Usage::from(usage_metadata)),
            None => None,
        };
        Ok(
            ModelInferenceResponseChunk::new(
                inference_id,
                message_text,
                tool_calls,
                usage,
                raw,
                latency,
            ),
        )
    }
}

/// The chunk owns strings, so the conversion is described by its `ensures`
/// and not by a function of the argument.
impl TryFromSpecImpl<GCPVertexGeminiStreamResponseWithMetadata> for ModelInferenceResponseChunk {
    open spec fn obeys_try_from_spec() -> bool {
        false
    }

    open spec fn try_from_spec(response: GCPVertexGeminiStreamResponseWithMetadata) -> Result<
        Self,
        Error,
    > {
        arbitrary()
    }
}

/// What the provider's HTTP status says about a failed call: the statuses
/// 400, 401, 413 and 429 blame the caller, every other the provider.
pub open spec fn blames_caller(status: u16) -> bool {
    status == 400 || status == 401 || status == 413 || status == 429
}

/// Classifies an answer of the provider that is no success.
pub fn handle_gcp_vertex_gemini_error(response_code: u16, response_body: String) -> (res: Result<
    ModelInferenceResponse,
    Error,
>)
    ensures
        blames_caller(response_code) ==> res == Err::<ModelInferenceResponse, Error>(
            Error::ClientError { status: response_code, body: response_body },
        ),
        !blames_caller(response_code) ==> res == Err::<ModelInferenceResponse, Error>(
            Error::ServerError { body: response_body },
        ),
{
    if response_code == 401 || response_code == 400 || response_code == 413 || response_code
        == 429 {
        Err(Error::ClientError { status: response_code, body: response_body })
    } else {
        Err(Error::ServerError { body: response_body })
    }
}

} // verus!
