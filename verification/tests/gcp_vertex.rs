use gateway::error::Error;
use gateway::inference::providers::gcp_vertex::{
    handle_gcp_vertex_gemini_error, GCPVertexGeminiContent, GCPVertexGeminiContentPart,
    GCPVertexGeminiFunctionCall, GCPVertexGeminiFunctionCallingConfig,
    GCPVertexGeminiFunctionCallingMode, GCPVertexGeminiFunctionDeclaration,
    GCPVertexGeminiRequest, GCPVertexGeminiResponse, GCPVertexGeminiResponseCandidate,
    GCPVertexGeminiResponseContent, GCPVertexGeminiResponseContentPart,
    GCPVertexGeminiResponseFunctionCall, GCPVertexGeminiResponseMimeType,
    GCPVertexGeminiResponseWithLatency, GCPVertexGeminiRole,
    GCPVertexGeminiStreamResponseWithMetadata, GCPVertexGeminiTool, GCPVertexGeminiToolConfig,
    GCPVertexGeminiUsageMetadata,
};
use gateway::inference::types::{
    AssistantInferenceRequestMessage, Float32, FunctionType, InferenceRequestMessage, Latency,
    ModelInferenceRequest, ModelInferenceResponse, ModelInferenceResponseChunk,
    SystemInferenceRequestMessage, Tool, ToolCall, ToolCallChunk, ToolChoice,
    ToolInferenceRequestMessage, ToolType, Usage, UserInferenceRequestMessage,
};
use gateway::uuid_util::Id;
use std::time::Duration;

#[test]
fn test_gcp_vertex_content_try_from() {
    let message = InferenceRequestMessage::User(UserInferenceRequestMessage {
        content: "Hello, world!".to_string(),
    });
    let content = GCPVertexGeminiContent::try_from(&message).unwrap();
    assert_eq!(content.role, GCPVertexGeminiRole::User);
    assert_eq!(content.parts.len(), 1);
    assert_eq!(
        content.parts[0],
        GCPVertexGeminiContentPart::Text {
            text: "Hello, world!"
        }
    );

    let message = InferenceRequestMessage::Assistant(AssistantInferenceRequestMessage {
        content: Some("Hello, world!".to_string()),
        tool_calls: None,
    });
    let content = GCPVertexGeminiContent::try_from(&message).unwrap();
    assert_eq!(content.role, GCPVertexGeminiRole::Model);
    assert_eq!(content.parts.len(), 1);
    assert_eq!(
        content.parts[0],
        GCPVertexGeminiContentPart::Text {
            text: "Hello, world!"
        }
    );
    let message = InferenceRequestMessage::Assistant(AssistantInferenceRequestMessage {
        content: Some("Here's the result of the function call:".to_string()),
        tool_calls: Some(vec![ToolCall {
            id: "call_1".to_string(),
            name: "get_weather".to_string(),
            arguments: r#"{"location": "New York", "unit": "celsius"}"#.to_string(),
        }]),
    });
    let content = GCPVertexGeminiContent::try_from(&message).unwrap();
    assert_eq!(content.role, GCPVertexGeminiRole::Model);
    assert_eq!(content.parts.len(), 2);
    assert_eq!(
        content.parts[0],
        GCPVertexGeminiContentPart::Text {
            text: "Here's the result of the function call:"
        }
    );
    assert_eq!(
        content.parts[1],
        GCPVertexGeminiContentPart::FunctionCall {
            function_call: GCPVertexGeminiFunctionCall {
                name: "get_weather",
                args: r#"{"location": "New York", "unit": "celsius"}"#,
            }
        }
    );
    let message = InferenceRequestMessage::System(SystemInferenceRequestMessage {
        content: "You are a helpful assistant.".to_string(),
    });
    let result = GCPVertexGeminiContent::try_from(&message);
    assert!(result.is_err());
    let error = result.unwrap_err();
    assert_eq!(
        error,
        Error::InvalidMessage {
            message: "Can't convert System message to GCP Vertex Gemini message. Don't pass System message in except as the first message in the chat.".to_string()
        }
    );

    let message = InferenceRequestMessage::Tool(ToolInferenceRequestMessage {
        tool_call_id: "call_1".to_string(),
        content: r#"{"temperature": 25, "conditions": "sunny"}"#.to_string(),
    });
    let content = GCPVertexGeminiContent::try_from(&message).unwrap();
    assert_eq!(content.role, GCPVertexGeminiRole::User);
    assert_eq!(content.parts.len(), 1);
    assert_eq!(
        content.parts[0],
        GCPVertexGeminiContentPart::FunctionCall {
            function_call: GCPVertexGeminiFunctionCall {
                name: "call_1",
                args: r#"{"temperature": 25, "conditions": "sunny"}"#,
            }
        }
    );
}

#[test]
fn test_from_vec_tool() {
    let tools = vec![
        Tool {
            name: "get_weather".to_string(),
            description: Some("Get the weather for a given location".to_string()),
            parameters: serde_json::to_value(
                r#"{"location": {"type": "string"}, "unit": {"type": "string"}}"#,
            )
            .unwrap(),
            tool_type: ToolType::Function,
        },
        Tool {
            name: "get_time".to_string(),
            description: Some("Get the current time for a given timezone".to_string()),
            parameters: serde_json::to_value(r#"{"timezone": {"type": "string"}}"#).unwrap(),
            tool_type: ToolType::Function,
        },
    ];
    let tool = GCPVertexGeminiTool::from(&tools);
    assert_eq!(
        tool,
        GCPVertexGeminiTool::FunctionDeclarations(vec![
            GCPVertexGeminiFunctionDeclaration {
                name: "get_weather",
                description: Some("Get the weather for a given location"),
                parameters: Some(&tools[0].parameters),
            },
            GCPVertexGeminiFunctionDeclaration {
                name: "get_time",
                description: Some("Get the current time for a given timezone"),
                parameters: Some(&tools[1].parameters),
            }
        ])
    );
}

#[test]
fn test_from_tool_choice() {
    let tool_choice = ToolChoice::Auto;
    let tool_config = GCPVertexGeminiToolConfig::from(&tool_choice);
    assert_eq!(
        tool_config,
        GCPVertexGeminiToolConfig {
            function_calling_config: GCPVertexGeminiFunctionCallingConfig {
                mode: GCPVertexGeminiFunctionCallingMode::Auto,
                allowed_function_names: None,
            }
        }
    );

    let tool_choice = ToolChoice::Tool("get_weather".to_string());
    let tool_config = GCPVertexGeminiToolConfig::from(&tool_choice);
    assert_eq!(
        tool_config,
        GCPVertexGeminiToolConfig {
            function_calling_config: GCPVertexGeminiFunctionCallingConfig {
                mode: GCPVertexGeminiFunctionCallingMode::Auto,
                allowed_function_names: Some(vec!["get_weather"]),
            }
        }
    );

    let tool_choice = ToolChoice::Disabled;
    let tool_config = GCPVertexGeminiToolConfig::from(&tool_choice);
    assert_eq!(
        tool_config,
        GCPVertexGeminiToolConfig {
            function_calling_config: GCPVertexGeminiFunctionCallingConfig {
                mode: GCPVertexGeminiFunctionCallingMode::Disabled,
                allowed_function_names: None,
            }
        }
    );

    let tool_choice = ToolChoice::Required;
    let tool_config = GCPVertexGeminiToolConfig::from(&tool_choice);
    assert_eq!(
        tool_config,
        GCPVertexGeminiToolConfig {
            function_calling_config: GCPVertexGeminiFunctionCallingConfig {
                mode: GCPVertexGeminiFunctionCallingMode::Any,
                allowed_function_names: None,
            }
        }
    );
}

#[test]
fn test_gcp_vertex_request_try_from() {
    // An empty list of messages
    let inference_request = ModelInferenceRequest {
        messages: vec![],
        tools_available: None,
        tool_choice: None,
        parallel_tool_calls: None,
        temperature: None,
        max_tokens: None,
        stream: false,
        json_mode: false,
        function_type: FunctionType::Chat,
        output_schema: None,
    };
    let result = GCPVertexGeminiRequest::try_from(&inference_request);
    let error = result.unwrap_err();
    assert_eq!(
        error,
        Error::InvalidRequest {
            message: "GCP Vertex Gemini requires at least one message".to_string()
        }
    );

    // Messages with a leading system message
    let messages = vec![
        InferenceRequestMessage::System(SystemInferenceRequestMessage {
            content: "test_system".to_string(),
        }),
        InferenceRequestMessage::User(UserInferenceRequestMessage {
            content: "test_user".to_string(),
        }),
        InferenceRequestMessage::Assistant(AssistantInferenceRequestMessage {
            content: Some("test_assistant".to_string()),
            tool_calls: None,
        }),
    ];
    let inference_request = ModelInferenceRequest {
        messages: messages.clone(),
        tools_available: None,
        tool_choice: None,
        parallel_tool_calls: None,
        temperature: None,
        max_tokens: None,
        stream: false,
        json_mode: false,
        function_type: FunctionType::Chat,
        output_schema: None,
    };
    let result = GCPVertexGeminiRequest::try_from(&inference_request);
    let request = result.unwrap();
    assert_eq!(request.contents.len(), 2);
    assert_eq!(request.contents[0].role, GCPVertexGeminiRole::User);
    assert_eq!(
        request.contents[0].parts[0],
        GCPVertexGeminiContentPart::Text { text: "test_user" }
    );
    assert_eq!(request.contents[1].role, GCPVertexGeminiRole::Model);
    assert_eq!(request.contents[1].parts.len(), 1);
    assert_eq!(
        request.contents[1].parts[0],
        GCPVertexGeminiContentPart::Text {
            text: "test_assistant"
        }
    );

    // A leading system message and some of the optional fields
    let messages = vec![
        InferenceRequestMessage::System(SystemInferenceRequestMessage {
            content: "test_system".to_string(),
        }),
        InferenceRequestMessage::User(UserInferenceRequestMessage {
            content: "test_user".to_string(),
        }),
        InferenceRequestMessage::User(UserInferenceRequestMessage {
            content: "test_user2".to_string(),
        }),
        InferenceRequestMessage::Assistant(AssistantInferenceRequestMessage {
            content: Some("test_assistant".to_string()),
            tool_calls: None,
        }),
    ];
    let inference_request = ModelInferenceRequest {
        messages: messages.clone(),
        tools_available: None,
        tool_choice: None,
        parallel_tool_calls: None,
        temperature: Some(Float32::from_bits(0.5f32.to_bits())),
        max_tokens: Some(100),
        stream: true,
        json_mode: true,
        function_type: FunctionType::Chat,
        output_schema: None,
    };
    let result = GCPVertexGeminiRequest::try_from(&inference_request);
    let request = result.unwrap();
    assert_eq!(request.contents.len(), 3);
    assert_eq!(request.contents[0].role, GCPVertexGeminiRole::User);
    assert_eq!(request.contents[1].role, GCPVertexGeminiRole::User);
    assert_eq!(request.contents[2].role, GCPVertexGeminiRole::Model);
    assert_eq!(request.contents[0].parts.len(), 1);
    assert_eq!(request.contents[1].parts.len(), 1);
    assert_eq!(request.contents[2].parts.len(), 1);
    assert_eq!(
        request.contents[0].parts[0],
        GCPVertexGeminiContentPart::Text { text: "test_user" }
    );
    assert_eq!(
        request.contents[1].parts[0],
        GCPVertexGeminiContentPart::Text { text: "test_user2" }
    );
    assert_eq!(
        request.contents[2].parts[0],
        GCPVertexGeminiContentPart::Text {
            text: "test_assistant"
        }
    );
    assert_eq!(
        request
            .generation_config
            .as_ref()
            .unwrap()
            .temperature
            .map(|t| f32::from_bits(t.to_bits())),
        Some(0.5)
    );
    assert_eq!(
        request
            .generation_config
            .as_ref()
            .unwrap()
            .max_output_tokens,
        Some(100)
    );
}

fn unary(
    parts: Vec<GCPVertexGeminiResponseContentPart>,
    prompt: u32,
    candidates: u32,
    latency: &Latency,
) -> GCPVertexGeminiResponseWithLatency {
    let content = GCPVertexGeminiResponseContent { parts };
    let candidate = GCPVertexGeminiResponseCandidate {
        content: Some(content),
    };
    let response = GCPVertexGeminiResponse {
        candidates: vec![candidate],
        usage_metadata: Some(GCPVertexGeminiUsageMetadata {
            prompt_token_count: prompt,
            candidates_token_count: candidates,
        }),
    };
    GCPVertexGeminiResponseWithLatency {
        body: response,
        raw: "{\"candidates\":[]}".to_string(),
        latency: latency.clone(),
    }
}

#[test]
fn test_gcp_to_t0_response() {
    let part = GCPVertexGeminiResponseContentPart::Text {
        text: "test_assistant".to_string(),
    };
    let latency = Latency::NonStreaming {
        response_time: Duration::from_secs(1),
    };
    let response_with_latency = unary(vec![part], 10, 10, &latency);
    let model_inference_response: ModelInferenceResponse =
        response_with_latency.try_into().unwrap();
    assert_eq!(
        model_inference_response.content,
        Some("test_assistant".to_string())
    );
    assert_eq!(model_inference_response.tool_calls, None);
    assert_eq!(
        model_inference_response.usage,
        Usage {
            prompt_tokens: 10,
            completion_tokens: 10,
        }
    );
    assert_eq!(model_inference_response.latency, latency);
    assert_eq!(model_inference_response.raw, "{\"candidates\":[]}");

    let text_part = GCPVertexGeminiResponseContentPart::Text {
        text: "Here's the weather information:".to_string(),
    };
    let function_call_part = GCPVertexGeminiResponseContentPart::FunctionCall {
        function_call: GCPVertexGeminiResponseFunctionCall {
            name: "get_weather".to_string(),
            args: r#"{"location": "New York", "unit": "celsius"}"#.to_string(),
        },
    };
    let latency = Latency::NonStreaming {
        response_time: Duration::from_secs(2),
    };
    let response_with_latency = unary(vec![text_part, function_call_part], 15, 20, &latency);
    let model_inference_response: ModelInferenceResponse =
        response_with_latency.try_into().unwrap();

    assert_eq!(
        model_inference_response.content,
        Some("Here's the weather information:".to_string())
    );
    assert_eq!(
        model_inference_response.tool_calls,
        Some(vec![ToolCall {
            id: "get_weather".to_string(), // the provider gives no ids
            name: "get_weather".to_string(),
            arguments: r#"{"location": "New York", "unit": "celsius"}"#.to_string(),
        }])
    );
    assert_eq!(
        model_inference_response.usage,
        Usage {
            prompt_tokens: 15,
            completion_tokens: 20,
        }
    );
    assert_eq!(model_inference_response.latency, latency);

    let text_part1 = GCPVertexGeminiResponseContentPart::Text {
        text: "Here's the weather information:".to_string(),
    };
    let function_call_part = GCPVertexGeminiResponseContentPart::FunctionCall {
        function_call: GCPVertexGeminiResponseFunctionCall {
            name: "get_weather".to_string(),
            args: r#"{"location": "New York", "unit": "celsius"}"#.to_string(),
        },
    };
    let text_part2 = GCPVertexGeminiResponseContentPart::Text {
        text: "And here's a restaurant recommendation:".to_string(),
    };
    let function_call_part2 = GCPVertexGeminiResponseContentPart::FunctionCall {
        function_call: GCPVertexGeminiResponseFunctionCall {
            name: "get_restaurant".to_string(),
            args: r#"{"cuisine": "Italian", "price_range": "moderate"}"#.to_string(),
        },
    };
    let latency = Latency::NonStreaming {
        response_time: Duration::from_secs(3),
    };
    let response_with_latency = unary(
        vec![
            text_part1,
            function_call_part,
            text_part2,
            function_call_part2,
        ],
        25,
        40,
        &latency,
    );
    let model_inference_response: ModelInferenceResponse =
        response_with_latency.try_into().unwrap();

    assert_eq!(
        model_inference_response.content,
        Some(
            "Here's the weather information:\nAnd here's a restaurant recommendation:"
                .to_string()
        )
    );
    assert_eq!(
        model_inference_response.tool_calls,
        Some(vec![
            ToolCall {
                id: "get_weather".to_string(),
                name: "get_weather".to_string(),
                arguments: r#"{"location": "New York", "unit": "celsius"}"#.to_string(),
            },
            ToolCall {
                id: "get_restaurant".to_string(),
                name: "get_restaurant".to_string(),
                arguments: r#"{"cuisine": "Italian", "price_range": "moderate"}"#.to_string(),
            }
        ])
    );
    assert_eq!(
        model_inference_response.usage,
        Usage {
            prompt_tokens: 25,
            completion_tokens: 40,
        }
    );
    assert_eq!(model_inference_response.latency, latency);
}

fn user(text: &str) -> InferenceRequestMessage {
    InferenceRequestMessage::User(UserInferenceRequestMessage {
        content: text.to_string(),
    })
}

fn system(text: &str) -> InferenceRequestMessage {
    InferenceRequestMessage::System(SystemInferenceRequestMessage {
        content: text.to_string(),
    })
}

fn request_of<'a>(
    messages: Vec<InferenceRequestMessage>,
    schema: Option<&'a serde_json::Value>,
    json_mode: bool,
) -> ModelInferenceRequest<'a> {
    ModelInferenceRequest {
        messages,
        tools_available: None,
        tool_choice: None,
        parallel_tool_calls: None,
        temperature: None,
        max_tokens: None,
        stream: false,
        json_mode,
        function_type: FunctionType::Json,
        output_schema: schema,
    }
}

#[test]
fn embedded_system_message_is_refused() {
    let request = request_of(vec![user("a"), system("b"), user("c")], None, false);
    let error = GCPVertexGeminiRequest::try_from(&request).unwrap_err();
    assert!(matches!(error, Error::InvalidMessage { .. }));

    let request = request_of(vec![system("a"), system("b")], None, false);
    let error = GCPVertexGeminiRequest::try_from(&request).unwrap_err();
    assert!(matches!(error, Error::InvalidMessage { .. }));
}

#[test]
fn leading_system_message_becomes_the_instruction() {
    let request = request_of(vec![system("be brief"), user("hi")], None, false);
    let body = GCPVertexGeminiRequest::try_from(&request).unwrap();
    assert_eq!(
        body.system_instruction,
        Some(GCPVertexGeminiContent {
            role: GCPVertexGeminiRole::Model,
            parts: vec![GCPVertexGeminiContentPart::Text { text: "be brief" }],
        })
    );
    assert_eq!(
        body.contents,
        vec![GCPVertexGeminiContent {
            role: GCPVertexGeminiRole::User,
            parts: vec![GCPVertexGeminiContentPart::Text { text: "hi" }],
        }]
    );

    let request = request_of(vec![user("hi")], None, false);
    let body = GCPVertexGeminiRequest::try_from(&request).unwrap();
    assert_eq!(body.system_instruction, None);
    assert_eq!(body.contents.len(), 1);
}

#[test]
fn json_answers_are_asked_for_by_mode_or_schema() {
    let schema = serde_json::from_str::<serde_json::Value>(r#"{"type":"object"}"#).unwrap();

    let request = request_of(vec![user("hi")], None, false);
    let body = GCPVertexGeminiRequest::try_from(&request).unwrap();
    let config = body.generation_config.unwrap();
    assert_eq!(config.response_mime_type, None);
    assert_eq!(config.response_schema, None);
    assert_eq!(config.stop_sequences, None);

    let request = request_of(vec![user("hi")], None, true);
    let body = GCPVertexGeminiRequest::try_from(&request).unwrap();
    let config = body.generation_config.unwrap();
    assert_eq!(
        config.response_mime_type,
        Some(GCPVertexGeminiResponseMimeType::ApplicationJson)
    );
    assert_eq!(config.response_schema, None);

    let request = request_of(vec![user("hi")], Some(&schema), false);
    let body = GCPVertexGeminiRequest::try_from(&request).unwrap();
    let config = body.generation_config.unwrap();
    assert_eq!(
        config.response_mime_type,
        Some(GCPVertexGeminiResponseMimeType::ApplicationJson)
    );
    assert_eq!(config.response_schema, Some(&schema));
}

#[test]
fn tools_and_choice_are_converted_with_the_request() {
    let tools = vec![Tool {
        name: "get_weather".to_string(),
        description: None,
        parameters: serde_json::from_str(r#"{"type":"object"}"#).unwrap(),
        tool_type: ToolType::Function,
    }];
    let mut request = request_of(vec![user("hi")], None, false);
    request.tools_available = Some(tools.clone());
    request.tool_choice = Some(ToolChoice::Required);
    let body = GCPVertexGeminiRequest::try_from(&request).unwrap();
    assert_eq!(
        body.tools,
        Some(vec![GCPVertexGeminiTool::FunctionDeclarations(vec![
            GCPVertexGeminiFunctionDeclaration {
                name: "get_weather",
                description: None,
                parameters: Some(&tools[0].parameters),
            }
        ])])
    );
    assert_eq!(
        body.tool_config.unwrap().function_calling_config.mode,
        GCPVertexGeminiFunctionCallingMode::Any
    );
}

#[test]
fn unary_answer_without_candidates_content_or_usage_fails() {
    let latency = Latency::NonStreaming {
        response_time: Duration::from_millis(5),
    };
    let mut response = unary(vec![], 1, 1, &latency);
    response.body.candidates = vec![];
    assert_eq!(
        ModelInferenceResponse::try_from(response).unwrap_err(),
        Error::ServerError {
            body: "GCP Vertex Gemini response has no candidates".to_string()
        }
    );

    let mut response = unary(vec![], 1, 1, &latency);
    response.body.candidates[0].content = None;
    response.body.usage_metadata = None;
    assert_eq!(
        ModelInferenceResponse::try_from(response).unwrap_err(),
        Error::ServerError {
            body: "GCP Vertex Gemini response has no content".to_string()
        }
    );

    let mut response = unary(vec![], 1, 1, &latency);
    response.body.usage_metadata = None;
    assert_eq!(
        ModelInferenceResponse::try_from(response).unwrap_err(),
        Error::ServerError {
            body: "GCP Vertex Gemini non-streaming response has no usage metadata".to_string()
        }
    );

    let response = unary(vec![], 3, 4, &latency);
    let normalized = ModelInferenceResponse::try_from(response).unwrap();
    assert_eq!(normalized.content, None);
    assert_eq!(normalized.tool_calls, None);
}

#[test]
fn only_the_first_candidate_is_used() {
    let latency = Latency::NonStreaming {
        response_time: Duration::from_millis(5),
    };
    let mut response = unary(
        vec![GCPVertexGeminiResponseContentPart::Text {
            text: "first".to_string(),
        }],
        1,
        1,
        &latency,
    );
    response.body.candidates.push(GCPVertexGeminiResponseCandidate {
        content: Some(GCPVertexGeminiResponseContent {
            parts: vec![GCPVertexGeminiResponseContentPart::Text {
                text: "second".to_string(),
            }],
        }),
    });
    let normalized = ModelInferenceResponse::try_from(response).unwrap();
    assert_eq!(normalized.content, Some("first".to_string()));
}

#[test]
fn stream_event_becomes_a_chunk_with_the_stream_id() {
    let id = Id::from_u128(0x0190_0000_0000_7000_8000_0000_0000_0001);
    let event = GCPVertexGeminiStreamResponseWithMetadata {
        body: GCPVertexGeminiResponse {
            candidates: vec![GCPVertexGeminiResponseCandidate {
                content: Some(GCPVertexGeminiResponseContent {
                    parts: vec![
                        GCPVertexGeminiResponseContentPart::Text {
                            text: "a".to_string(),
                        },
                        GCPVertexGeminiResponseContentPart::FunctionCall {
                            function_call: GCPVertexGeminiResponseFunctionCall {
                                name: "f".to_string(),
                                args: "{}".to_string(),
                            },
                        },
                        GCPVertexGeminiResponseContentPart::Text {
                            text: "b".to_string(),
                        },
                    ],
                }),
            }],
            usage_metadata: None,
        },
        raw: "raw".to_string(),
        latency: Duration::from_millis(7),
        inference_id: id,
    };
    let chunk = ModelInferenceResponseChunk::try_from(event).unwrap();
    assert_eq!(chunk.inference_id, id);
    assert_eq!(chunk.content, Some("a\nb".to_string()));
    assert_eq!(
        chunk.tool_calls,
        Some(vec![ToolCallChunk {
            id: Some("f".to_string()),
            name: Some("f".to_string()),
            arguments: Some("{}".to_string()),
        }])
    );
    assert_eq!(chunk.usage, None);
    assert_eq!(chunk.raw, "raw");
    assert_eq!(chunk.latency_since_start, Duration::from_millis(7));

    let empty = GCPVertexGeminiStreamResponseWithMetadata {
        body: GCPVertexGeminiResponse {
            candidates: vec![GCPVertexGeminiResponseCandidate { content: None }],
            usage_metadata: Some(GCPVertexGeminiUsageMetadata {
                prompt_token_count: 2,
                candidates_token_count: 3,
            }),
        },
        raw: String::new(),
        latency: Duration::from_millis(9),
        inference_id: id,
    };
    let chunk = ModelInferenceResponseChunk::try_from(empty).unwrap();
    assert_eq!(chunk.content, None);
    assert_eq!(chunk.tool_calls, None);
    assert_eq!(
        chunk.usage,
        Some(Usage {
            prompt_tokens: 2,
            completion_tokens: 3
        })
    );

    let none = GCPVertexGeminiStreamResponseWithMetadata {
        body: GCPVertexGeminiResponse {
            candidates: vec![],
            usage_metadata: None,
        },
        raw: String::new(),
        latency: Duration::from_millis(9),
        inference_id: id,
    };
    assert_eq!(
        ModelInferenceResponseChunk::try_from(none).unwrap_err(),
        Error::ServerError {
            body: "GCP Vertex Gemini response has no candidates".to_string()
        }
    );
}

#[test]
fn provider_statuses_are_classified() {
    for status in [400u16, 401, 413, 429] {
        assert_eq!(
            handle_gcp_vertex_gemini_error(status, "no".to_string()).unwrap_err(),
            Error::ClientError {
                status,
                body: "no".to_string()
            }
        );
    }
    for status in [403u16, 404, 500, 503, 529, 302] {
        assert_eq!(
            handle_gcp_vertex_gemini_error(status, "down".to_string()).unwrap_err(),
            Error::ServerError {
                body: "down".to_string()
            }
        );
    }
}

#[test]
fn a_tool_call_comes_back_with_name_and_arguments() {
    let latency = Latency::NonStreaming {
        response_time: Duration::from_millis(20),
    };
    let response = unary(
        vec![GCPVertexGeminiResponseContentPart::FunctionCall {
            function_call: GCPVertexGeminiResponseFunctionCall {
                name: "get_weather".to_string(),
                args: r#"{"location": "NYC"}"#.to_string(),
            },
        }],
        12,
        9,
        &latency,
    );
    let normalized = ModelInferenceResponse::try_from(response).unwrap();
    assert_eq!(normalized.content, None);
    let tool_calls = normalized.tool_calls.unwrap();
    assert_eq!(tool_calls[0].name, "get_weather");
    let arguments: serde_json::Value = serde_json::from_str(&tool_calls[0].arguments).unwrap();
    assert!(!arguments.get("location").unwrap().as_str().unwrap().is_empty());
}
