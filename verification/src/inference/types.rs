//! The normalized model of an inference: what is asked of a model and what
//! comes back, in a form that no provider owns.

use crate::uuid_util::Id;
use std::time::Duration;
use vstd::prelude::*;

verus! {

/// A single-precision number held as its IEEE 754 bit pattern. The gateway
/// hands such numbers on and never computes with them; two of them are equal
/// when their bits are.
#[derive(Clone, Copy, Debug, PartialEq, Eq, Hash, Structural)]
pub struct Float32 {
    pub bits: u32,
}

impl Float32 {
    /// The number with the given bit pattern.
    pub fn from_bits(bits: u32) -> (x: Float32)
        ensures
            x.bits == bits,
    {
        Float32 { bits }
    }

    /// The bit pattern of the number.
    pub fn to_bits(&self) -> (bits: u32)
        ensures
            bits == self.bits,
    {
        self.bits
    }
}

/// Whether a function answers with chat content or with a JSON document.
#[derive(Clone, Copy, Debug, PartialEq, Eq, Structural)]
pub enum FunctionType {
    Chat,
    Json,
}

/// The kinds of tool that a model can be offered.
#[derive(Clone, Copy, Debug, PartialEq, Eq, Structural)]
pub enum ToolType {
    Function,
}

/// A tool that the model may call: its name, what it is for, and the JSON
/// schema of its arguments.
#[derive(Clone, Debug, PartialEq)]
pub struct Tool {
    pub tool_type: ToolType,
    pub description: Option<String>,
    pub name: String,
    pub parameters: serde_json::Value,
}

/// What `Tool` is as a mathematical value.
pub struct ToolView {
    pub tool_type: ToolType,
    pub description: Option<Seq<char>>,
    pub name: Seq<char>,
    pub parameters: serde_json::Value,
}

impl View for Tool {
    type V = ToolView;

    open spec fn view(&self) -> ToolView {
        ToolView {
            tool_type: self.tool_type,
            description: opt_text(self.description),
            name: self.name@,
            parameters: self.parameters,
        }
    }
}

/// The views of the tools, in their order.
pub open spec fn tool_views(tools: Seq<Tool>) -> Seq<ToolView> {
    tools.map_values(|t: Tool| t@)
}

/// How far the model is free to call tools.
#[derive(Clone, Debug, PartialEq)]
pub enum ToolChoice {
    /// The model must not call a tool.
    Disabled,
    Auto,
    Required,
    Tool(String),
}

/// What `ToolChoice` is as a mathematical value.
pub enum ToolChoiceView {
    Disabled,
    Auto,
    Required,
    Tool(Seq<char>),
}

impl View for ToolChoice {
    type V = ToolChoiceView;

    open spec fn view(&self) -> ToolChoiceView {
        match self {
            ToolChoice::Disabled => ToolChoiceView::Disabled,
            ToolChoice::Auto => ToolChoiceView::Auto,
            ToolChoice::Required => ToolChoiceView::Required,
            ToolChoice::Tool(name) => ToolChoiceView::Tool(name@),
        }
    }
}

/// A call of a tool that the model asks for; the arguments are JSON text.
#[derive(Clone, Debug, PartialEq)]
pub struct ToolCall {
    pub id: String,
    pub name: String,
    pub arguments: String,
}

/// What `ToolCall` is as a mathematical value.
pub struct ToolCallView {
    pub id: Seq<char>,
    pub name: Seq<char>,
    pub arguments: Seq<char>,
}

impl View for ToolCall {
    type V = ToolCallView;

    open spec fn view(&self) -> ToolCallView {
        ToolCallView { id: self.id@, name: self.name@, arguments: self.arguments@ }
    }
}

/// One increment of a tool call in a stream.
#[derive(Clone, Debug, PartialEq)]
pub struct ToolCallChunk {
    pub id: Option<String>,
    pub name: Option<String>,
    pub arguments: Option<String>,
}

/// What `ToolCallChunk` is as a mathematical value.
pub struct ToolCallChunkView {
    pub id: Option<Seq<char>>,
    pub name: Option<Seq<char>>,
    pub arguments: Option<Seq<char>>,
}

/// The text of an optional string.
pub open spec fn opt_text(s: Option<String>) -> Option<Seq<char>> {
    match s {
        Some(t) => Some(t@),
        None => None,
    }
}

impl View for ToolCallChunk {
    type V = ToolCallChunkView;

    open spec fn view(&self) -> ToolCallChunkView {
        ToolCallChunkView {
            id: opt_text(self.id),
            name: opt_text(self.name),
            arguments: opt_text(self.arguments),
        }
    }
}

/// The views of the tool calls, in their order.
pub open spec fn tool_call_views(calls: Seq<ToolCall>) -> Seq<ToolCallView> {
    calls.map_values(|c: ToolCall| c@)
}

/// The views of the tool call chunks, in their order.
pub open spec fn tool_call_chunk_views(calls: Seq<ToolCallChunk>) -> Seq<ToolCallChunkView> {
    calls.map_values(|c: ToolCallChunk| c@)
}

/// The instructions that stand before a conversation.
#[derive(Clone, Debug, PartialEq)]
pub struct SystemInferenceRequestMessage {
    pub content: String,
}

/// What the user says.
#[derive(Clone, Debug, PartialEq)]
pub struct UserInferenceRequestMessage {
    pub content: String,
}

/// What the model said in an earlier turn: text, tool calls, or both.
#[derive(Clone, Debug, PartialEq)]
pub struct AssistantInferenceRequestMessage {
    pub content: Option<String>,
    pub tool_calls: Option<Vec<ToolCall>>,
}

/// What a tool answered to the call with the given id.
#[derive(Clone, Debug, PartialEq)]
pub struct ToolInferenceRequestMessage {
    pub tool_call_id: String,
    pub content: String,
}

/// One message of the conversation handed to a model.
#[derive(Clone, Debug, PartialEq)]
pub enum InferenceRequestMessage {
    System(SystemInferenceRequestMessage),
    User(UserInferenceRequestMessage),
    Assistant(AssistantInferenceRequestMessage),
    Tool(ToolInferenceRequestMessage),
}

/// What `InferenceRequestMessage` is as a mathematical value.
pub enum MessageView {
    System { content: Seq<char> },
    User { content: Seq<char> },
    Assistant { content: Option<Seq<char>>, tool_calls: Option<Seq<ToolCallView>> },
    Tool { tool_call_id: Seq<char>, content: Seq<char> },
}

impl View for InferenceRequestMessage {
    type V = MessageView;

    open spec fn view(&self) -> MessageView {
        match self {
            InferenceRequestMessage::System(m) => MessageView::System { content: m.content@ },
            InferenceRequestMessage::User(m) => MessageView::User { content: m.content@ },
            InferenceRequestMessage::Assistant(m) => MessageView::Assistant {
                content: opt_text(m.content),
                tool_calls: match m.tool_calls {
                    Some(calls) => Some(tool_call_views(calls@)),
                    None => None,
                },
            },
            InferenceRequestMessage::Tool(m) => MessageView::Tool {
                tool_call_id: m.tool_call_id@,
                content: m.content@,
            },
        }
    }
}

/// The views of the messages, in their order.
pub open spec fn message_views(messages: Seq<InferenceRequestMessage>) -> Seq<MessageView> {
    messages.map_values(|m: InferenceRequestMessage| m@)
}

/// A conversation is well formed when a system message, if there is one,
/// stands first and alone.
pub open spec fn system_only_leads(messages: Seq<MessageView>) -> bool {
    forall|i: int| 0 < i < messages.len() ==> !(#[trigger] messages[i] is System)
}

/// What is asked of a model, whatever the provider.
#[derive(Clone, Debug, PartialEq)]
pub struct ModelInferenceRequest<'a> {
    pub messages: Vec<InferenceRequestMessage>,
    pub tools_available: Option<Vec<Tool>>,
    pub tool_choice: Option<ToolChoice>,
    pub parallel_tool_calls: Option<bool>,
    pub temperature: Option<Float32>,
    pub max_tokens: Option<u32>,
    pub stream: bool,
    pub json_mode: bool,
    pub function_type: FunctionType,
    pub output_schema: Option<&'a serde_json::Value>,
}

/// What `ModelInferenceRequest` is as a mathematical value.
pub struct ModelInferenceRequestView {
    pub messages: Seq<MessageView>,
    pub tools_available: Option<Seq<ToolView>>,
    pub tool_choice: Option<ToolChoiceView>,
    pub parallel_tool_calls: Option<bool>,
    pub temperature: Option<Float32>,
    pub max_tokens: Option<u32>,
    pub stream: bool,
    pub json_mode: bool,
    pub function_type: FunctionType,
    pub output_schema: Option<serde_json::Value>,
}

impl<'a> View for ModelInferenceRequest<'a> {
    type V = ModelInferenceRequestView;

    open spec fn view(&self) -> ModelInferenceRequestView {
        ModelInferenceRequestView {
            messages: message_views(self.messages@),
            tools_available: match self.tools_available {
                Some(tools) => Some(tool_views(tools@)),
                None => None,
            },
            tool_choice: match self.tool_choice {
                Some(choice) => Some(choice@),
                None => None,
            },
            parallel_tool_calls: self.parallel_tool_calls,
            temperature: self.temperature,
            max_tokens: self.max_tokens,
            stream: self.stream,
            json_mode: self.json_mode,
            function_type: self.function_type,
            output_schema: match self.output_schema {
                Some(schema) => Some(*schema),
                None => None,
            },
        }
    }
}

impl<'a> ModelInferenceRequest<'a> {
    /// The invariant of a request: a system message, if present, is the
    /// first message and the only one of its kind.
    pub open spec fn well_formed(&self) -> bool {
        system_only_leads(message_views(self.messages@))
    }
}

/// The tokens that an inference consumed and produced.
#[derive(Clone, Copy, Debug, PartialEq, Eq, Structural)]
pub struct Usage {
    pub prompt_tokens: u32,
    pub completion_tokens: u32,
}

/// `Clone` of `std::time::Duration`, a `Copy` type: the copy is the same span
/// of time.
pub assume_specification[ <Duration as Clone>::clone ](d: &Duration) -> (res: Duration)
    ensures
        res == *d,
;

/// How long the provider took.
#[derive(Clone, Debug, PartialEq)]
pub enum Latency {
    Streaming { ttfb: Duration, total_time: Duration },
    NonStreaming { response_time: Duration },
}

/// What a model answered, whatever the provider.
#[derive(Clone, Debug, PartialEq)]
pub struct ModelInferenceResponse {
    pub content: Option<String>,
    pub tool_calls: Option<Vec<ToolCall>>,
    pub raw: String,
    pub usage: Usage,
    pub latency: Latency,
}

impl ModelInferenceResponse {
    /// The response with the given parts.
    pub fn new(
        content: Option<String>,
        tool_calls: Option<Vec<ToolCall>>,
        raw: String,
        usage: Usage,
        latency: Latency,
    ) -> (response: ModelInferenceResponse)
        ensures
            response.content == content,
            response.tool_calls == tool_calls,
            response.raw == raw,
            response.usage == usage,
            response.latency == latency,
    {
        ModelInferenceResponse { content, tool_calls, raw, usage, latency }
    }
}

/// One increment of a streamed answer.
#[derive(Clone, Debug, PartialEq)]
pub struct ModelInferenceResponseChunk {
    pub inference_id: Id,
    pub content: Option<String>,
    pub tool_calls: Option<Vec<ToolCallChunk>>,
    pub usage: Option<Usage>,
    pub raw: String,
    pub latency_since_start: Duration,
}

impl ModelInferenceResponseChunk {
    /// The chunk with the given parts.
    pub fn new(
        inference_id: Id,
        content: Option<String>,
        tool_calls: Option<Vec<ToolCallChunk>>,
        usage: Option<Usage>,
        raw: String,
        latency_since_start: Duration,
    ) -> (chunk: ModelInferenceResponseChunk)
        ensures
            chunk.inference_id == inference_id,
            chunk.content == content,
            chunk.tool_calls == tool_calls,
            chunk.usage == usage,
            chunk.raw == raw,
            chunk.latency_since_start == latency_since_start,
    {
        ModelInferenceResponseChunk {
            inference_id,
            content,
            tool_calls,
            usage,
            raw,
            latency_since_start,
        }
    }
}

} // verus!
