use gateway::clock::Reading;
use gateway::endpoints::inference::{settle_episode_id_at, start_inference_at};
use gateway::endpoints::inference::{
    settle_episode_id, start_inference, ChatInferenceResponse, ContentBlockOutput,
    InferenceResponse, JsonInferenceOutput, JsonInferenceResponse, Params,
};
use gateway::error::Error;
use gateway::function::{Attempt, FunctionConfig, Variant};
use gateway::inference::providers::gcp_vertex::provider::resolve_credentials;
use gateway::inference::types::{FunctionType, Usage};
use gateway::uuid_util::Id;
use uuid::{Timestamp, Uuid};

fn functions() -> Vec<FunctionConfig> {
    vec![
        FunctionConfig {
            name: "idle".to_string(),
            function_type: FunctionType::Chat,
            variants: vec![],
        },
        FunctionConfig {
            name: "echo".to_string(),
            function_type: FunctionType::Chat,
            variants: vec![
                Variant {
                    name: "a".to_string(),
                    weight: 1,
                },
                Variant {
                    name: "b".to_string(),
                    weight: 1,
                },
            ],
        },
    ]
}

fn request(function: &str) -> Params {
    Params {
        function_name: function.to_string(),
        episode_id: None,
        stream: false,
        variant_name: None,
    }
}

fn early() -> Id {
    Id::from_u128(Uuid::new_v7(Timestamp::from_unix_time(946766218, 0, 0, 0)).as_u128())
}

fn refusal(params: Params, objection: Option<String>) -> Error {
    match start_inference(&functions(), params, objection) {
        Ok(_) => panic!("the request should have been refused"),
        Err(e) => e,
    }
}

#[test]
fn a_request_is_admitted_with_fresh_ids() {
    let plan = start_inference(&functions(), request("echo"), None).ok().unwrap();
    assert_eq!(plan.function_name, "echo");
    assert_eq!(plan.inference_id.version(), 7);
    assert_eq!(plan.episode_id.version(), 7);
    assert_ne!(plan.inference_id, plan.episode_id);
    assert!(!plan.stream);
    assert_eq!(plan.candidates.len(), 2);
    assert!(plan.variant_errors.is_empty());

    let episode = Id::from_u128(Uuid::now_v7().as_u128());
    let mut params = request("echo");
    params.episode_id = Some(episode);
    params.stream = true;
    params.variant_name = Some("b".to_string());
    let plan = start_inference(&functions(), params, None).ok().unwrap();
    assert_eq!(plan.episode_id, episode);
    assert!(plan.stream);
    assert_eq!(plan.candidates.len(), 1);
    assert_eq!(plan.candidates[0].name, "b");
}

#[test]
fn a_request_is_refused_for_the_first_reason() {
    let mut all_wrong = request("nope");
    all_wrong.episode_id = Some(early());
    all_wrong.variant_name = Some("z".to_string());
    assert_eq!(
        refusal(all_wrong, Some("bad input".to_string())),
        Error::UnknownFunction {
            name: "nope".to_string()
        }
    );
    assert_eq!(
        refusal(request("idle"), Some("bad input".to_string())),
        Error::InvalidFunctionVariants {
            message: "Function `idle` has no variants".to_string()
        }
    );
    let mut params = request("echo");
    params.episode_id = Some(early());
    params.variant_name = Some("z".to_string());
    assert_eq!(
        refusal(params, Some("bad input".to_string())),
        Error::InputValidation {
            message: "bad input".to_string()
        }
    );
    let mut params = request("echo");
    params.episode_id = Some(early());
    params.variant_name = Some("z".to_string());
    assert_eq!(
        refusal(params, None),
        Error::UnknownVariant {
            name: "z".to_string()
        }
    );
    let mut params = request("echo");
    params.episode_id = Some(early());
    assert_eq!(
        refusal(params, None),
        Error::InvalidEpisodeId {
            message: "Timestamp is too early".to_string()
        }
    );
}

#[test]
fn an_episode_keeps_its_variant() {
    let episode = Id::from_u128(Uuid::now_v7().as_u128());
    let mut drawn = vec![];
    for _ in 0..5 {
        let mut params = request("echo");
        params.episode_id = Some(episode);
        let mut plan = start_inference(&functions(), params, None).ok().unwrap();
        match plan.next_attempt() {
            Attempt::Start(variant) => drawn.push(variant.name),
            Attempt::Fail(e) => panic!("no variant was drawn: {e:?}"),
        }
        assert_eq!(plan.candidates.len(), 1);
    }
    assert!(drawn.iter().all(|name| name == &drawn[0]));
}

#[test]
fn failed_variants_are_skipped_until_none_is_left() {
    let mut plan = start_inference(&functions(), request("echo"), None).ok().unwrap();
    let first = match plan.next_attempt() {
        Attempt::Start(variant) => variant,
        Attempt::Fail(e) => panic!("no variant was drawn: {e:?}"),
    };
    assert_eq!(
        plan.variant_failed(
            first.name.clone(),
            Error::InferenceClient {
                message: "timeout".to_string()
            }
        ),
        None
    );
    let second = match plan.next_attempt() {
        Attempt::Start(variant) => variant,
        Attempt::Fail(e) => panic!("no variant was drawn: {e:?}"),
    };
    assert_ne!(first.name, second.name);
    assert_eq!(
        plan.variant_failed(
            second.name.clone(),
            Error::ServerError {
                body: "down".to_string()
            }
        ),
        None
    );
    assert_eq!(
        plan.next_attempt(),
        Attempt::Fail(Error::AllVariantsFailed {
            errors: vec![
                (
                    first.name,
                    Error::InferenceClient {
                        message: "timeout".to_string()
                    }
                ),
                (
                    second.name,
                    Error::ServerError {
                        body: "down".to_string()
                    }
                ),
            ]
        })
    );
    assert_eq!(
        plan.next_attempt(),
        Attempt::Fail(Error::AllVariantsFailed { errors: vec![] })
    );
}

#[test]
fn episodes_are_settled() {
    let given = Id::from_u128(Uuid::now_v7().as_u128());
    assert_eq!(settle_episode_id(Some(given)), Ok(given));
    assert_eq!(settle_episode_id(None).unwrap().version(), 7);
    assert!(settle_episode_id(Some(early())).is_err());
}

#[test]
fn credentials_of_the_request_take_precedence() {
    assert_eq!(resolve_credentials(Some("request"), Some("config"), "p"), Ok("request"));
    assert_eq!(resolve_credentials(Some("request"), None, "p"), Ok("request"));
    assert_eq!(resolve_credentials(None, Some("config"), "p"), Ok("config"));
    assert_eq!(
        resolve_credentials::<&str>(None, None, "anthropic"),
        Err(Error::ApiKeyMissing {
            provider_name: "anthropic".to_string()
        })
    );
}

#[test]
fn answers_show_their_ids_and_usage() {
    let usage = Usage {
        prompt_tokens: 3,
        completion_tokens: 5,
    };
    let chat = InferenceResponse::Chat(ChatInferenceResponse {
        inference_id: Id::from_u128(1),
        episode_id: Id::from_u128(2),
        variant_name: "a".to_string(),
        content: vec![ContentBlockOutput::Text {
            text: "hi".to_string(),
        }],
        usage,
    });
    assert_eq!(chat.inference_id(), Id::from_u128(1));
    assert_eq!(chat.episode_id(), Id::from_u128(2));
    assert_eq!(chat.usage(), usage);
    let json = InferenceResponse::Json(JsonInferenceResponse {
        inference_id: Id::from_u128(3),
        episode_id: Id::from_u128(4),
        variant_name: "a".to_string(),
        output: JsonInferenceOutput {
            raw: "{}".to_string(),
            parsed: None,
        },
        usage,
    });
    assert_eq!(json.inference_id(), Id::from_u128(3));
    assert_eq!(json.episode_id(), Id::from_u128(4));
    assert_eq!(json.usage(), usage);
}

#[test]
fn a_request_is_admitted_at_the_reading() {
    let reading = Reading { seconds: 1_800_000_000, nanos: 7_000_000 };
    let plan = start_inference_at(&functions(), request("echo"), None, reading).ok().unwrap();
    assert_eq!(plan.inference_id.as_u128() >> 80, 1_800_000_000_007);
    assert_eq!(plan.episode_id.as_u128() >> 80, 1_800_000_000_007);
    assert_ne!(plan.inference_id, plan.episode_id);

    let stopped = Reading { seconds: 0, nanos: 0 };
    assert_eq!(
        settle_episode_id_at(None, stopped),
        Err(Error::InvalidEpisodeId { message: "Timestamp is too early".to_string() })
    );
    let given = Id::from_u128(Uuid::now_v7().as_u128());
    assert_eq!(settle_episode_id_at(Some(given), stopped), Ok(given));
    let mut params = request("echo");
    params.episode_id = Some(given);
    let plan = start_inference_at(&functions(), params, None, stopped).ok().unwrap();
    assert_eq!(plan.episode_id, given);
    assert_eq!(plan.inference_id.as_u128() >> 80, 0);
}

#[test]
fn a_chat_answer_shows_text_before_tool_calls() {
    let usage = Usage { prompt_tokens: 3, completion_tokens: 5 };
    let call = |name: &str| gateway::inference::types::ToolCall {
        id: name.to_string(),
        name: name.to_string(),
        arguments: "{}".to_string(),
    };
    let answer = ChatInferenceResponse::new(
        Id::from_u128(1),
        Id::from_u128(2),
        "a".to_string(),
        Some("hi".to_string()),
        Some(vec![call("f"), call("g")]),
        usage,
    );
    assert_eq!(answer.inference_id, Id::from_u128(1));
    assert_eq!(answer.episode_id, Id::from_u128(2));
    assert_eq!(answer.variant_name, "a");
    assert_eq!(answer.usage, usage);
    assert_eq!(
        answer.content,
        vec![
            ContentBlockOutput::Text { text: "hi".to_string() },
            ContentBlockOutput::ToolCall(call("f")),
            ContentBlockOutput::ToolCall(call("g")),
        ]
    );
    let bare = ChatInferenceResponse::new(
        Id::from_u128(1),
        Id::from_u128(2),
        "a".to_string(),
        None,
        None,
        usage,
    );
    assert!(bare.content.is_empty());
    let calls_only = ChatInferenceResponse::new(
        Id::from_u128(1),
        Id::from_u128(2),
        "a".to_string(),
        None,
        Some(vec![call("f")]),
        usage,
    );
    assert_eq!(calls_only.content, vec![ContentBlockOutput::ToolCall(call("f"))]);
}

#[test]
fn a_provider_failure_is_final_when_the_request_is_blamed_or_none_is_left() {
    let blamed = Error::ClientError { status: 400, body: "bad".to_string() };
    let down = Error::ServerError { body: "down".to_string() };
    let timeout = Error::InferenceClient { message: "timeout".to_string() };
    assert!(gateway::function::provider_failure_is_final(&blamed, 2));
    assert!(gateway::function::provider_failure_is_final(&blamed, 0));
    assert!(!gateway::function::provider_failure_is_final(&down, 2));
    assert!(!gateway::function::provider_failure_is_final(&timeout, 1));
    assert!(gateway::function::provider_failure_is_final(&down, 0));
    assert!(gateway::function::provider_failure_is_final(&timeout, 0));
}

#[test]
fn a_refused_episode_id_says_what_is_wrong_with_it() {
    let reading = Reading { seconds: 1_800_000_000, nanos: 0 };
    let v4 = Id::from_u128(0x67e55044_10b1_426f_9247_bb680e5fe0c8);
    assert_eq!(
        settle_episode_id_at(Some(v4), reading),
        Err(Error::InvalidEpisodeId { message: "Version must be 7, got 4".to_string() })
    );
    assert_eq!(
        settle_episode_id_at(Some(early()), reading),
        Err(Error::InvalidEpisodeId { message: "Timestamp is too early".to_string() })
    );
    assert_eq!(
        settle_episode_id(Some(v4)),
        Err(Error::InvalidEpisodeId { message: "Version must be 7, got 4".to_string() })
    );
}
