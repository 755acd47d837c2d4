//! The adapter for Gemini models served by GCP Vertex AI: the wire format of
//! its requests and responses, the conversion to and from the normalized
//! model, authentication, and the unary and streamed calls.

pub mod auth;
pub mod provider;
pub mod request;
pub mod response;
pub mod round_trip;
pub mod stream;

pub use self::auth::{Claims, GCPCredentials};
pub use self::provider::GCPVertexGeminiProvider;
pub use self::request::{
    assistant_parts, call_part, content_views, conversation, embedded_system_text,
    gemini_content, gemini_declaration, gemini_declarations, gemini_generation_config,
    gemini_request, gemini_system_instruction, gemini_tool_config, has_embedded_system,
    is_embedded_system_error, leads_with_system, lemma_well_formed_has_no_embedded_system,
    name_views, no_messages_text, part_views, ContentView, DeclarationView,
    GCPVertexGeminiContent, GCPVertexGeminiContentPart, GCPVertexGeminiFunctionCall,
    GCPVertexGeminiFunctionCallingConfig, GCPVertexGeminiFunctionCallingMode,
    GCPVertexGeminiFunctionDeclaration, GCPVertexGeminiGenerationConfig, GCPVertexGeminiRequest,
    GCPVertexGeminiResponseMimeType, GCPVertexGeminiRole, GCPVertexGeminiTool,
    GCPVertexGeminiToolConfig, GenerationConfigView, PartView, RequestView, ToolConfigView,
};
pub use self::response::{
    blames_caller, call_pairs, chunk_normalized, function_calls, gemini_usage,
    handle_gcp_vertex_gemini_error, is_server_error, joined_text, no_candidates_text,
    no_content_text, no_usage_text, opt_tool_call_chunk_views, opt_tool_call_views,
    response_part_views, response_tool_call_chunks, response_tool_calls, tool_call_chunk_of,
    tool_call_of, unary_normalized, GCPVertexGeminiResponse, GCPVertexGeminiResponseCandidate,
    GCPVertexGeminiResponseContent, GCPVertexGeminiResponseContentPart,
    GCPVertexGeminiResponseFunctionCall, GCPVertexGeminiResponseWithLatency,
    GCPVertexGeminiStreamResponseWithMetadata, GCPVertexGeminiUsageMetadata,
};
