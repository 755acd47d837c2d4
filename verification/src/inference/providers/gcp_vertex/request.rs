//! Requests to the provider: the wire format, and how a normalized request
//! becomes one.

use crate::error::Error;
use crate::inference::types::{
    opt_text, system_only_leads, tool_call_views, tool_views, AssistantInferenceRequestMessage,
    Float32, InferenceRequestMessage, MessageView, ModelInferenceRequest,
    ModelInferenceRequestView, Tool, ToolCall, ToolCallView, ToolChoice, ToolChoiceView, ToolView,
};
use vstd::prelude::*;
use vstd::std_specs::convert::{FromSpecImpl, TryFromSpecImpl};

verus! {

/// Who speaks in a piece of content.
#[derive(Clone, Copy, Debug, PartialEq, Eq, Structural)]
pub enum GCPVertexGeminiRole {
    User,
    Model,
}

/// A call of a function, by name, with its arguments as JSON text.
#[derive(Debug, PartialEq)]
pub struct GCPVertexGeminiFunctionCall<'a> {
    pub name: &'a str,
    pub args: &'a str,
}

/// One part of a piece of content.
#[derive(Debug, PartialEq)]
pub enum GCPVertexGeminiContentPart<'a> {
    Text { text: &'a str },
    FunctionCall { function_call: GCPVertexGeminiFunctionCall<'a> },
}

/// What a content part is as a mathematical value.
pub enum PartView {
    Text { text: Seq<char> },
    FunctionCall { name: Seq<char>, args: Seq<char> },
}

impl<'a> View for GCPVertexGeminiContentPart<'a> {
    type V = PartView;

    open spec fn view(&self) -> PartView {
        match self {
            GCPVertexGeminiContentPart::Text { text } => PartView::Text { text: text@ },
            GCPVertexGeminiContentPart::FunctionCall { function_call } => PartView::FunctionCall {
                name: function_call.name@,
                args: function_call.args@,
            },
        }
    }
}

/// The views of the parts, in their order.
pub open spec fn part_views<'a>(parts: Seq<GCPVertexGeminiContentPart<'a>>) -> Seq<PartView> {
    parts.map_values(|p: GCPVertexGeminiContentPart<'a>| p@)
}

/// One turn of the conversation in the wire format.
#[derive(Debug, PartialEq)]
pub struct GCPVertexGeminiContent<'a> {
    pub role: GCPVertexGeminiRole,
    pub parts: Vec<GCPVertexGeminiContentPart<'a>>,
}

/// What a piece of content is as a mathematical value.
pub struct ContentView {
    pub role: GCPVertexGeminiRole,
    pub parts: Seq<PartView>,
}

impl<'a> View for GCPVertexGeminiContent<'a> {
    type V = ContentView;

    open spec fn view(&self) -> ContentView {
        ContentView { role: self.role, parts: part_views(self.parts@) }
    }
}

/// The views of the contents, in their order.
pub open spec fn content_views<'a>(contents: Seq<GCPVertexGeminiContent<'a>>) -> Seq<
    ContentView,
> {
    contents.map_values(|c: GCPVertexGeminiContent<'a>| c@)
}

/// The function call that stands for a tool call: the id is not sent.
pub open spec fn call_part(call: ToolCallView) -> PartView {
    PartView::FunctionCall { name: call.name, args: call.arguments }
}

/// The parts of an assistant's turn: its text, if any, and then its tool
/// calls in their order.
pub open spec fn assistant_parts(
    content: Option<Seq<char>>,
    tool_calls: Option<Seq<ToolCallView>>,
) -> Seq<PartView> {
    let text_parts = match content {
        Some(text) => seq![PartView::Text { text }],
        None => Seq::<PartView>::empty(),
    };
    let call_parts = match tool_calls {
        Some(calls) => calls.map_values(|c: ToolCallView| call_part(c)),
        None => Seq::<PartView>::empty(),
    };
    text_parts + call_parts
}

/// The content that a message becomes, where it can become one: a user's
/// message is a text of the user, an assistant's message the parts of the
/// model, a tool's answer a function call of the user named by the id of the
/// call that it answers. A system message is no content.
pub open spec fn gemini_content(message: MessageView) -> Option<ContentView> {
    match message {
        MessageView::User { content } => Some(
            ContentView {
                role: GCPVertexGeminiRole::User,
                parts: seq![PartView::Text { text: content }],
            },
        ),
        MessageView::Assistant { content, tool_calls } => Some(
            ContentView {
                role: GCPVertexGeminiRole::Model,
                parts: assistant_parts(content, tool_calls),
            },
        ),
        MessageView::System { .. } => None,
        MessageView::Tool { tool_call_id, content } => Some(
            ContentView {
                role: GCPVertexGeminiRole::User,
                parts: seq![PartView::FunctionCall { name: tool_call_id, args: content }],
            },
        ),
    }
}

/// The message of the failure for a system message that is not the first.
pub open spec fn embedded_system_text() -> Seq<char> {
    "Can't convert System message to GCP Vertex Gemini message. Don't pass System message in except as the first message in the chat."@
}

/// Whether a failure is the refusal of an embedded system message.
pub open spec fn is_embedded_system_error(e: Error) -> bool {
    e matches Error::InvalidMessage { message } && message@ == embedded_system_text()
}

/// The parts of an assistant's turn.
fn assistant_message_parts<'a>(message: &'a AssistantInferenceRequestMessage) -> (parts: Vec<
    GCPVertexGeminiContentPart<'a>,
>)
    ensures
        part_views(parts@) == assistant_parts(
            opt_text(message.content),
            match message.tool_calls {
                Some(calls) => Some(tool_call_views(calls@)),
                None => None,
            },
        ),
{
    let mut parts: Vec<GCPVertexGeminiContentPart<'a>> = Vec::new();
    if let Some(content) = &message.content {
        parts.push(GCPVertexGeminiContentPart::Text { text: content.as_str() });
    }
    let ghost text_parts = part_views(parts@);
    assert(text_parts =~= match opt_text(message.content) {
        Some(text) => seq![PartView::Text { text }],
        None => Seq::<PartView>::empty(),
    });
    if let Some(tool_calls) = &message.tool_calls {
        let ghost base = parts@.len() as int;
        let n: usize = tool_calls.len();
        let mut i: usize = 0;
        while i < n
            invariant
                i <= n,
                n == tool_calls@.len(),
                base == text_parts.len(),
                parts@.len() == base + i,
                forall|j: int| 0 <= j < base ==> (#[trigger] parts@[j])@ == text_parts[j],
                forall|j: int|
                    0 <= j < i ==> (#[trigger] parts@[base + j])@ == call_part(tool_calls@[j]@),
            decreases n - i,
        {
            let tool_call: &'a ToolCall = &tool_calls[i];
            let function_call = GCPVertexGeminiFunctionCall {
                name: tool_call.name.as_str(),
                args: tool_call.arguments.as_str(),
            };
            parts.push(GCPVertexGeminiContentPart::FunctionCall { function_call });
            i = i + 1;
        }
        proof {
            let expected = text_parts + tool_call_views(tool_calls@).map_values(
                |c: ToolCallView| call_part(c),
            );
            assert forall|k: int| 0 <= k < expected.len() implies part_views(parts@)[k]
                == expected[k] by {
                if k >= base {
                    assert(parts@[base + (k - base)]@ == call_part(tool_calls@[k - base]@));
                }
            }
            assert(part_views(parts@) =~= expected);
        }
    }
    parts
}

impl<'a> TryFrom<&'a InferenceRequestMessage> for GCPVertexGeminiContent<'a> {
    type Error = Error;

    /// Converts one message of a conversation. A system message is
    /// refused: it has no place among the contents.
    fn try_from(message: &'a InferenceRequestMessage) -> (res: Result<Self, Error>)
        ensures
            match res {
                Ok(content) => gemini_content(message@) == Some(content@),
                Err(e) => message@ is System && is_embedded_system_error(e),
            },
    {
        match message {
            InferenceRequestMessage::User(message) => {
                let mut parts: Vec<GCPVertexGeminiContentPart<'a>> = Vec::new();
                parts.push(GCPVertexGeminiContentPart::Text { text: message.content.as_str() });
                let content = GCPVertexGeminiContent { role: GCPVertexGeminiRole::User, parts };
                assert(content@.parts =~= seq![PartView::Text { text: message.content@ }]);
                Ok(content)
            },
            InferenceRequestMessage::Assistant(message) => {
                let parts = assistant_message_parts(message);
                Ok(GCPVertexGeminiContent { role: GCPVertexGeminiRole::Model, parts })
            },
            InferenceRequestMessage::System(_message) => Err(
                Error::InvalidMessage {
                    message: "Can't convert System message to GCP Vertex Gemini message. Don't pass System message in except as the first message in the chat.".to_owned(),
                },
            ),
            InferenceRequestMessage::Tool(message) => {
                let mut parts: Vec<GCPVertexGeminiContentPart<'a>> = Vec::new();
                parts.push(
                    GCPVertexGeminiContentPart::FunctionCall {
                        function_call: GCPVertexGeminiFunctionCall {
                            name: message.tool_call_id.as_str(),
                            args: message.content.as_str(),
                        },
                    },
                );
                let content = GCPVertexGeminiContent { role: GCPVertexGeminiRole::User, parts };
                assert(content@.parts =~= seq![
                    PartView::FunctionCall { name: message.tool_call_id@, args: message.content@ },
                ]);
                Ok(content)
            },
        }
    }
}

/// The content borrows its text from the argument, so the conversion is
/// described by its `ensures` and not by a function of the argument.
impl<'a> TryFromSpecImpl<&'a InferenceRequestMessage> for GCPVertexGeminiContent<'a> {
    open spec fn obeys_try_from_spec() -> bool {
        false
    }

    open spec fn try_from_spec(message: &'a InferenceRequestMessage) -> Result<Self, Error> {
        arbitrary()
    }
}

/// A function that the model may call, as the provider wants it declared.
#[derive(Debug, PartialEq)]
pub struct GCPVertexGeminiFunctionDeclaration<'a> {
    pub name: &'a str,
    pub description: Option<&'a str>,
    pub parameters: Option<&'a serde_json::Value>,
}

/// What a function declaration is as a mathematical value.
pub struct DeclarationView {
    pub name: Seq<char>,
    pub description: Option<Seq<char>>,
    pub parameters: Option<serde_json::Value>,
}

impl<'a> View for GCPVertexGeminiFunctionDeclaration<'a> {
    type V = DeclarationView;

    open spec fn view(&self) -> DeclarationView {
        DeclarationView {
            name: self.name@,
            description: match self.description {
                Some(d) => Some(d@),
                None => None,
            },
            parameters: match self.parameters {
                Some(p) => Some(*p),
                None => None,
            },
        }
    }
}

/// A set of tools in the wire format.
#[derive(Debug, PartialEq)]
pub enum GCPVertexGeminiTool<'a> {
    FunctionDeclarations(Vec<GCPVertexGeminiFunctionDeclaration<'a>>),
}

impl<'a> View for GCPVertexGeminiTool<'a> {
    type V = Seq<DeclarationView>;

    open spec fn view(&self) -> Seq<DeclarationView> {
        match self {
            GCPVertexGeminiTool::FunctionDeclarations(declarations) => declarations@.map_values(
                |d: GCPVertexGeminiFunctionDeclaration<'a>| d@,
            ),
        }
    }
}

/// The declaration of a tool: its name, its description, and its schema,
/// which is always sent.
pub open spec fn gemini_declaration(tool: ToolView) -> DeclarationView {
    DeclarationView {
        name: tool.name,
        description: tool.description,
        parameters: Some(tool.parameters),
    }
}

/// The declarations of the tools, in their order.
pub open spec fn gemini_declarations(tools: Seq<ToolView>) -> Seq<DeclarationView> {
    tools.map_values(|t: ToolView| gemini_declaration(t))
}

impl<'a> From<&'a Vec<Tool>> for GCPVertexGeminiTool<'a> {
    /// Declares every tool of the list, in the order of the list.
    fn from(tools: &'a Vec<Tool>) -> (res: Self)
        ensures
            res@ == gemini_declarations(tool_views(tools@)),
    {
        let mut declarations: Vec<GCPVertexGeminiFunctionDeclaration<'a>> = Vec::new();
        let n: usize = tools.len();
        let mut i: usize = 0;
        while i < n
            invariant
                i <= n,
                n == tools@.len(),
                declarations@.len() == i,
                forall|j: int|
                    0 <= j < i ==> (#[trigger] declarations@[j])@ == gemini_declaration(
                        tools@[j]@,
                    ),
            decreases n - i,
        {
            let tool: &'a Tool = &tools[i];
            let description: Option<&'a str> = match &tool.description {
                Some(d) => Some(d.as_str()),
                None => None,
            };
            declarations.push(
                GCPVertexGeminiFunctionDeclaration {
                    name: tool.name.as_str(),
                    description,
                    parameters: Some(&tool.parameters),
                },
            );
            i = i + 1;
        }
        let res = GCPVertexGeminiTool::FunctionDeclarations(declarations);
        assert(res@ =~= gemini_declarations(tool_views(tools@)));
        res
    }
}

/// The declarations borrows its text from the argument, so the conversion is
/// described by its `ensures` and not by a function of the argument.
impl<'a> FromSpecImpl<&'a Vec<Tool>> for GCPVertexGeminiTool<'a> {
    open spec fn obeys_from_spec() -> bool {
        false
    }

    open spec fn from_spec(tools: &'a Vec<Tool>) -> Self {
        arbitrary()
    }
}

/// How the model is to treat the functions declared to it.
#[derive(Clone, Copy, Debug, PartialEq, Eq, Structural)]
pub enum GCPVertexGeminiFunctionCallingMode {
    /// The model decides whether to call a function.
    Auto,
    /// The model must call a function.
    Any,
    /// The model must not call a function; on the wire this is `NONE`.
    Disabled,
}

/// The calling mode, and the functions it is limited to.
#[derive(Debug, PartialEq)]
pub struct GCPVertexGeminiFunctionCallingConfig<'a> {
    pub mode: GCPVertexGeminiFunctionCallingMode,
    pub allowed_function_names: Option<Vec<&'a str>>,
}

/// The tool configuration of a request.
#[derive(Debug, PartialEq)]
pub struct GCPVertexGeminiToolConfig<'a> {
    pub function_calling_config: GCPVertexGeminiFunctionCallingConfig<'a>,
}

/// What a tool configuration is as a mathematical value.
pub struct ToolConfigView {
    pub mode: GCPVertexGeminiFunctionCallingMode,
    pub allowed_function_names: Option<Seq<Seq<char>>>,
}

/// The texts of the names, in their order.
pub open spec fn name_views<'a>(names: Seq<&'a str>) -> Seq<Seq<char>> {
    names.map_values(|n: &'a str| n@)
}

impl<'a> View for GCPVertexGeminiToolConfig<'a> {
    type V = ToolConfigView;

    open spec fn view(&self) -> ToolConfigView {
        ToolConfigView {
            mode: self.function_calling_config.mode,
            allowed_function_names: match self.function_calling_config.allowed_function_names {
                Some(names) => Some(name_views(names@)),
                None => None,
            },
        }
    }
}

/// The tool configuration for a tool choice. A choice of one tool by name
/// leaves the mode at `Auto` and allows that one function only.
pub open spec fn gemini_tool_config(choice: ToolChoiceView) -> ToolConfigView {
    match choice {
        ToolChoiceView::Disabled => ToolConfigView {
            mode: GCPVertexGeminiFunctionCallingMode::Disabled,
            allowed_function_names: None,
        },
        ToolChoiceView::Auto => ToolConfigView {
            mode: GCPVertexGeminiFunctionCallingMode::Auto,
            allowed_function_names: None,
        },
        ToolChoiceView::Required => ToolConfigView {
            mode: GCPVertexGeminiFunctionCallingMode::Any,
            allowed_function_names: None,
        },
        ToolChoiceView::Tool(name) => ToolConfigView {
            mode: GCPVertexGeminiFunctionCallingMode::Auto,
            allowed_function_names: Some(seq![name]),
        },
    }
}

impl<'a> From<&'a ToolChoice> for GCPVertexGeminiToolConfig<'a> {
    /// Converts a tool choice.
    fn from(tool_choice: &'a ToolChoice) -> (res: Self)
        ensures
            res@ == gemini_tool_config(tool_choice@),
    {
        match tool_choice {
            ToolChoice::Disabled => GCPVertexGeminiToolConfig {
                function_calling_config: GCPVertexGeminiFunctionCallingConfig {
                    mode: GCPVertexGeminiFunctionCallingMode::Disabled,
                    allowed_function_names: None,
                },
            },
            ToolChoice::Auto => GCPVertexGeminiToolConfig {
                function_calling_config: GCPVertexGeminiFunctionCallingConfig {
                    mode: GCPVertexGeminiFunctionCallingMode::Auto,
                    allowed_function_names: None,
                },
            },
            ToolChoice::Required => GCPVertexGeminiToolConfig {
                function_calling_config: GCPVertexGeminiFunctionCallingConfig {
                    mode: GCPVertexGeminiFunctionCallingMode::Any,
                    allowed_function_names: None,
                },
            },
            ToolChoice::Tool(tool_name) => {
                let mut names: Vec<&'a str> = Vec::new();
                names.push(tool_name.as_str());
                assert(name_views(names@) =~= seq![tool_name@]);
                GCPVertexGeminiToolConfig {
                    function_calling_config: GCPVertexGeminiFunctionCallingConfig {
                        mode: GCPVertexGeminiFunctionCallingMode::Auto,
                        allowed_function_names: Some(names),
                    },
                }
            },
        }
    }
}

/// The configuration borrows its text from the argument, so the conversion
/// is described by its `ensures` and not by a function of the argument.
impl<'a> FromSpecImpl<&'a ToolChoice> for GCPVertexGeminiToolConfig<'a> {
    open spec fn obeys_from_spec() -> bool {
        false
    }

    open spec fn from_spec(tool_choice: &'a ToolChoice) -> Self {
        arbitrary()
    }
}

/// The media type that the answer is asked to come in.
#[derive(Clone, Copy, Debug, PartialEq, Eq, Structural)]
pub enum GCPVertexGeminiResponseMimeType {
    TextPlain,
    ApplicationJson,
}

/// How the model is to generate its answer.
#[derive(Debug, PartialEq)]
pub struct GCPVertexGeminiGenerationConfig<'a> {
    pub stop_sequences: Option<Vec<&'a str>>,
    pub temperature: Option<Float32>,
    pub max_output_tokens: Option<u32>,
    pub response_mime_type: Option<GCPVertexGeminiResponseMimeType>,
    pub response_schema: Option<&'a serde_json::Value>,
}

/// What a generation configuration is as a mathematical value.
pub struct GenerationConfigView {
    pub stop_sequences: Option<Seq<Seq<char>>>,
    pub temperature: Option<Float32>,
    pub max_output_tokens: Option<u32>,
    pub response_mime_type: Option<GCPVertexGeminiResponseMimeType>,
    pub response_schema: Option<serde_json::Value>,
}

impl<'a> View for GCPVertexGeminiGenerationConfig<'a> {
    type V = GenerationConfigView;

    open spec fn view(&self) -> GenerationConfigView {
        GenerationConfigView {
            stop_sequences: match self.stop_sequences {
                Some(sequences) => Some(name_views(sequences@)),
                None => None,
            },
            temperature: self.temperature,
            max_output_tokens: self.max_output_tokens,
            response_mime_type: self.response_mime_type,
            response_schema: match self.response_schema {
                Some(schema) => Some(*schema),
                None => None,
            },
        }
    }
}

/// The body of a request to the provider.
#[derive(Debug, PartialEq)]
pub struct GCPVertexGeminiRequest<'a> {
    pub contents: Vec<GCPVertexGeminiContent<'a>>,
    pub tools: Option<Vec<GCPVertexGeminiTool<'a>>>,
    pub tool_config: Option<GCPVertexGeminiToolConfig<'a>>,
    pub generation_config: Option<GCPVertexGeminiGenerationConfig<'a>>,
    pub system_instruction: Option<GCPVertexGeminiContent<'a>>,
}

/// What the body of a request is as a mathematical value.
pub struct RequestView {
    pub contents: Seq<ContentView>,
    pub tools: Option<Seq<Seq<DeclarationView>>>,
    pub tool_config: Option<ToolConfigView>,
    pub generation_config: Option<GenerationConfigView>,
    pub system_instruction: Option<ContentView>,
}

impl<'a> View for GCPVertexGeminiRequest<'a> {
    type V = RequestView;

    open spec fn view(&self) -> RequestView {
        RequestView {
            contents: content_views(self.contents@),
            tools: match self.tools {
                Some(tools) => Some(tools@.map_values(|t: GCPVertexGeminiTool<'a>| t@)),
                None => None,
            },
            tool_config: match self.tool_config {
                Some(config) => Some(config@),
                None => None,
            },
            generation_config: match self.generation_config {
                Some(config) => Some(config@),
                None => None,
            },
            system_instruction: match self.system_instruction {
                Some(content) => Some(content@),
                None => None,
            },
        }
    }
}

/// Whether a conversation opens with a system message.
pub open spec fn leads_with_system(messages: Seq<MessageView>) -> bool {
    messages.len() > 0 && messages[0] is System
}

/// Whether a system message stands anywhere but first.
pub open spec fn has_embedded_system(messages: Seq<MessageView>) -> bool {
    exists|i: int| 0 < i < messages.len() && #[trigger] messages[i] is System
}

/// A conversation is well formed exactly when it has no embedded system
/// message.
pub proof fn lemma_well_formed_has_no_embedded_system(messages: Seq<MessageView>)
    ensures
        system_only_leads(messages) <==> !has_embedded_system(messages),
{
    if !has_embedded_system(messages) {
        assert forall|i: int| 0 < i < messages.len() implies !(#[trigger] messages[i] is System) by {
            if messages[i] is System {
                assert(has_embedded_system(messages));
            }
        }
    }
}

/// The messages that become contents: all of them but a leading system
/// message.
pub open spec fn conversation(messages: Seq<MessageView>) -> Seq<MessageView> {
    if leads_with_system(messages) {
        messages.skip(1)
    } else {
        messages
    }
}

/// The system instruction of a conversation: the text of its leading system
/// message, if it has one.
pub open spec fn gemini_system_instruction(messages: Seq<MessageView>) -> Option<ContentView> {
    if leads_with_system(messages) {
        Some(
            ContentView {
                role: GCPVertexGeminiRole::Model,
                parts: seq![PartView::Text { text: messages[0]->System_content }],
            },
        )
    } else {
        None
    }
}

/// The generation configuration of a request. The answer is asked for as
/// JSON where the request is in JSON mode or brings an output schema; the
/// schema is sent where there is one.
pub open spec fn gemini_generation_config(
    request: ModelInferenceRequestView,
) -> GenerationConfigView {
    GenerationConfigView {
        stop_sequences: None,
        temperature: request.temperature,
        max_output_tokens: request.max_tokens,
        response_mime_type: if request.json_mode || request.output_schema is Some {
            Some(GCPVertexGeminiResponseMimeType::ApplicationJson)
        } else {
            None
        },
        response_schema: request.output_schema,
    }
}

/// The body that a request becomes, where its conversation is not empty and
/// holds no embedded system message.
pub open spec fn gemini_request(request: ModelInferenceRequestView) -> RequestView {
    RequestView {
        contents: conversation(request.messages).map_values(
            |m: MessageView| gemini_content(m)->0,
        ),
        tools: match request.tools_available {
            Some(tools) => Some(seq![gemini_declarations(tools)]),
            None => None,
        },
        tool_config: match request.tool_choice {
            Some(choice) => Some(gemini_tool_config(choice)),
            None => None,
        },
        generation_config: Some(gemini_generation_config(request)),
        system_instruction: gemini_system_instruction(request.messages),
    }
}

/// The message of the failure for a request without messages.
pub open spec fn no_messages_text() -> Seq<char> {
    "GCP Vertex Gemini requires at least one message"@
}

impl<'a> TryFrom<&'a ModelInferenceRequest<'a>> for GCPVertexGeminiRequest<'a> {
    type Error = Error;

    /// Converts a request. A request without messages is refused, and so
    /// is one with a system message anywhere but first. A leading system
    /// message becomes the system instruction and is left out of the
    /// contents.
    fn try_from(request: &'a ModelInferenceRequest<'a>) -> (res: Result<Self, Error>)
        ensures
            request@.messages.len() == 0 ==> (res matches Err(Error::InvalidRequest { message })
                && message@ == no_messages_text()),
            request@.messages.len() > 0 && has_embedded_system(request@.messages) ==> (
            res matches Err(e) && is_embedded_system_error(e)),
            request@.messages.len() > 0 && !has_embedded_system(request@.messages) ==> (
            res matches Ok(body) && body@ == gemini_request(request@)),
            request@.messages.len() > 0 && request.well_formed() ==> res is Ok,
    {
        let n: usize = request.messages.len();
        proof {
            lemma_well_formed_has_no_embedded_system(request@.messages);
        }
        if n == 0 {
            return Err(
                Error::InvalidRequest {
                    message: "GCP Vertex Gemini requires at least one message".to_owned(),
                },
            );
        }
        let ghost messages = request@.messages;
        let first_message: &'a InferenceRequestMessage = &request.messages[0];
        assert(messages[0] == first_message@);
        let mut system_instruction: Option<GCPVertexGeminiContent<'a>> = None;
        let mut start: usize = 0;
        if let InferenceRequestMessage::System(message) = first_message {
            let mut parts: Vec<GCPVertexGeminiContentPart<'a>> = Vec::new();
            parts.push(GCPVertexGeminiContentPart::Text { text: message.content.as_str() });
            let content = GCPVertexGeminiContent { role: GCPVertexGeminiRole::Model, parts };
            assert(content@.parts =~= seq![PartView::Text { text: message.content@ }]);
            system_instruction = Some(content);
            start = 1;
        }
        let ghost rest = conversation(messages);
        assert(rest.len() == n - start);
        let mut contents: Vec<GCPVertexGeminiContent<'a>> = Vec::new();
        let mut i: usize = start;
        while i < n
            invariant
                start <= i <= n,
                n == request.messages@.len(),
                messages == request@.messages,
                rest == conversation(messages),
                rest.len() == n - start,
                forall|j: int| 0 <= j < n - start ==> rest[j] == #[trigger] messages[start + j],
                contents@.len() == i - start,
                forall|j: int| start <= j < i ==> !(#[trigger] messages[j] is System),
                forall|j: int|
                    0 <= j < i - start ==> gemini_content(rest[j]) == Some(
                        (#[trigger] contents@[j])@,
                    ),
            decreases n - i,
        {
            let message: &'a InferenceRequestMessage = &request.messages[i];
            assert(messages[i as int] == message@);
            assert(rest[i - start] == messages[start + (i - start)]);
            match GCPVertexGeminiContent::try_from(message) {
                Ok(content) => {
                    contents.push(content);
                },
                Err(e) => {
                    assert(messages[i as int] is System);
                    assert(i > 0);
                    return Err(e);
                },
            }
            i = i + 1;
        }
        proof {
            if has_embedded_system(messages) {
                let k = choose|k: int| 0 < k < messages.len() && #[trigger] messages[k] is System;
                assert(!(messages[k] is System));
            }
        }
        let tools: Option<Vec<GCPVertexGeminiTool<'a>>> = match &request.tools_available {
            Some(tools) => {
                let mut list: Vec<GCPVertexGeminiTool<'a>> = Vec::new();
                list.push(GCPVertexGeminiTool::from(tools));
                assert(list@.map_values(|t: GCPVertexGeminiTool<'a>| t@) =~= seq![
                    gemini_declarations(tool_views(tools@)),
                ]);
                Some(list)
            },
            None => None,
        };
        let tool_config: Option<GCPVertexGeminiToolConfig<'a>> = match &request.tool_choice {
            Some(choice) => Some(GCPVertexGeminiToolConfig::from(choice)),
            None => None,
        };
        let response_mime_type = if request.json_mode || request.output_schema.is_some() {
            Some(GCPVertexGeminiResponseMimeType::ApplicationJson)
        } else {
            None
        };
        let generation_config = Some(
            GCPVertexGeminiGenerationConfig {
                stop_sequences: None,
                temperature: request.temperature,
                max_output_tokens: request.max_tokens,
                response_mime_type,
                response_schema: request.output_schema,
            },
        );
        let body = GCPVertexGeminiRequest {
            contents,
            tools,
            tool_config,
            generation_config,
            system_instruction,
        };
        proof {
            let expected = gemini_request(request@);
            assert(body@.contents =~= expected.contents);
            assert(body@.generation_config == expected.generation_config);
            assert(body@.system_instruction == expected.system_instruction);
            assert(body@.tools == expected.tools);
            assert(body@.tool_config == expected.tool_config);
        }
        Ok(body)
    }
}

/// The body borrows its text from the argument, so the conversion is
/// described by its `ensures` and not by a function of the argument.
impl<'a> TryFromSpecImpl<&'a ModelInferenceRequest<'a>> for GCPVertexGeminiRequest<'a> {
    open spec fn obeys_try_from_spec() -> bool {
        false
    }

    open spec fn try_from_spec(request: &'a ModelInferenceRequest<'a>) -> Result<Self, Error> {
        arbitrary()
    }
}

} // verus!
