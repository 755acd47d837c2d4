use gateway::error::Error;
use gateway::inference::providers::gcp_vertex::auth::{
    Claims, GCPCredentials, TOKEN_LIFETIME_SECONDS,
};
use gateway::inference::providers::gcp_vertex::provider::{
    GCPVertexGeminiProvider, GCPVertexGeminiReply,
};
use gateway::inference::providers::gcp_vertex::stream::{
    await_first_chunk, stream_unsent, FirstChunk, GCPVertexGeminiStream,
    GCPVertexGeminiStreamEvent, GCPVertexGeminiStreamStep,
};
use gateway::inference::providers::gcp_vertex::{
    GCPVertexGeminiContentPart, GCPVertexGeminiResponse, GCPVertexGeminiResponseCandidate,
    GCPVertexGeminiResponseContent, GCPVertexGeminiResponseContentPart,
    GCPVertexGeminiUsageMetadata,
};
use gateway::inference::types::{
    FunctionType, InferenceRequestMessage, Latency, ModelInferenceRequest,
    SystemInferenceRequestMessage, Usage, UserInferenceRequestMessage,
};
use std::time::Duration;

// A key pair made for these tests alone.
const PRIVATE_KEY_LINES: [&str; 25] = [
    "MIIEowIBAAKCAQEAxqlvHpeXglipK4q7dwlBE4zxCBdYvulE4rkmzuhPVU8ols7K",
    "NAEp9sIBmmYulMdseTlOOe5C8UGecOBx0qtvQWlPBgnfrPRLWt5GAIXSRE64Q9Vg",
    "otD9fZtolclnfWjntUhT3T/Th7WaxmJGt9tDwvMezJm1T1K3DP8L/Vl4vUoyF0gm",
    "mfa7gDZdH6h94fmC4ZLHVL/jUpojOjytjB13SZOJO11wHi1ZobtseAeqelXE7X9A",
    "7R9LPDRuPhdDZLF04B7t5n5WscYROhKx9n6gZGwcduZM0GYULRp7myDTrmI0fZih",
    "uh2IE0BkCks8zePjfINgWRwLSxO6uBtMA5+wiQIDAQABAoIBABhZsk4cpKyMc4fr",
    "xFit4LUlxHGKcw1LiG8F5NTdssOxJTd+91fygJNHamzjc3g3DXu6Y3VEWB48PdB2",
    "Il2BN+zbnJ0P3sPTWd00e34a6RAIWhuubt7mIPwhbWtWuYGstyIIUIdBCIuM3gDN",
    "EP/+N0sRA8huWsPzTo6gQHb4XY1N8HvD8oVGDhVYwHuCpZjw4sgnacfoQfoIhRPU",
    "PM4Yk1j9jNLDKXi9DEgeXglsiMJRkEEhtW+tb2WFvW6W4AuqMRlHFpHDBv/e3YZc",
    "fCU4iGkPvZ8N6vMxoyL2lI0fT6ngSDTpf0z1JCU2PDk8xs91egzmkDgudWUcgRM9",
    "zQ1reQECgYEA7/CRyzH+nmypK4bi10mntJuBh7wVChx9J0JpTs63eK4d0v9YV184",
    "ZHbVrTTfOveO2ogwFNgueymQ0w6yrkpZ9B8c6/5SB+IFjhAsY9WjL7Bws6Bz91p7",
    "UUGNWbFphtrXQogg/mTw6XEhe/YTgeLMOB7Be2QlAFosdnGenszPBekCgYEA0/WO",
    "q+5PAfmt9cVqcIb3uON94+6lwNKakxwErq/4OaRCQAYpnE1sr+lzXbAAsI8p4YvG",
    "mO6z2I0bBOHxSy666JESVDpoIfnKeYASZSWVgCPucvp5Bq2SmjyaHlI/zMXG+5vc",
    "yDCrtUfTNHPrPn78Nt/ru+LwC49rtNfX6Cn0kaECgYAG/EYCWG5FRnyWW9L22Zoc",
    "U/qtbPhf1vx9zB0swi/tP4R2xCBaStdldWA7LrLhEJwEGLrtoG2aAFfLDT5+fIOp",
    "6833wOu6dwYaYLYqIeoiVUyyrhUyOlwkvXfUCKo91tk1gqkTPvUUlsqWxU9EFMpF",
    "R//yC7RYEkgBGsW3cdcFIQKBgGVpS4W/U1Xim/THK5IDQWrYjVcMy4liOkrAUQ0z",
    "bFRH3tq7GBWMhb/0thnRJ8NR+/vJ4I8zRiEKAi9n2wbZqNu07UwXVdNLrDBNsn9q",
    "aAkTJ/cjF9y2FzpsXGC9gYD776RaglvVzZHCd67U92zDXPD0WdlfTvJ5AFNaIhcW",
    "W8mBAoGBANLVaywCLFqYMCXpeRaN2hl5pHmsG23MDwvA1yIn0DRvaRJIRbVuq5ok",
    "nvgEA3/TvxwxbCvc+f8Ng24vByJOG/JlmOE/V7PeCO4q6LqRoUIlX56yzpc1K3FE",
    "LALoVP367qneWt2vg4VDLZFxAmYFZIv7d2Ay8k0Sk9o4Fru2Srfp",
];
const PUBLIC_KEY_LINES: [&str; 7] = [
    "MIIBIjANBgkqhkiG9w0BAQEFAAOCAQ8AMIIBCgKCAQEAxqlvHpeXglipK4q7dwlB",
    "E4zxCBdYvulE4rkmzuhPVU8ols7KNAEp9sIBmmYulMdseTlOOe5C8UGecOBx0qtv",
    "QWlPBgnfrPRLWt5GAIXSRE64Q9VgotD9fZtolclnfWjntUhT3T/Th7WaxmJGt9tD",
    "wvMezJm1T1K3DP8L/Vl4vUoyF0gmmfa7gDZdH6h94fmC4ZLHVL/jUpojOjytjB13",
    "SZOJO11wHi1ZobtseAeqelXE7X9A7R9LPDRuPhdDZLF04B7t5n5WscYROhKx9n6g",
    "ZGwcduZM0GYULRp7myDTrmI0fZihuh2IE0BkCks8zePjfINgWRwLSxO6uBtMA5+w",
    "iQIDAQAB",
];

fn pem(kind: &str, lines: &[&str]) -> String {
    format!("-----BEGIN {kind}-----\n{}\n-----END {kind}-----\n", lines.join("\n"))
}

fn private_key() -> String {
    pem("RSA PRIVATE KEY", &PRIVATE_KEY_LINES)
}

fn public_key() -> String {
    pem("PUBLIC KEY", &PUBLIC_KEY_LINES)
}

fn key_file(private_key: &str) -> String {
    let mut map = serde_json::Map::new();
    map.insert("type".to_string(), "service_account".into());
    map.insert("private_key_id".to_string(), "key-1".into());
    map.insert("private_key".to_string(), private_key.into());
    map.insert("client_email".to_string(), "gateway@example.iam.gserviceaccount.com".into());
    map.insert("token_uri".to_string(), serde_json::Value::Null);
    serde_json::Value::Object(map).to_string()
}

fn credentials() -> GCPCredentials {
    GCPCredentials::from_env(Ok(key_file(&private_key()))).ok().unwrap()
}

fn load_error(file: Result<String, String>) -> String {
    match GCPCredentials::from_env(file) {
        Err(Error::GCPCredentials { message }) => message,
        Err(e) => panic!("unexpected failure: {e:?}"),
        Ok(_) => panic!("the credentials should not load"),
    }
}

fn without(member: &str) -> String {
    let mut value: serde_json::Value = serde_json::from_str(&key_file(&private_key())).unwrap();
    value.as_object_mut().unwrap().remove(member);
    value.to_string()
}

fn with_number(member: &str) -> String {
    let mut value: serde_json::Value = serde_json::from_str(&key_file(&private_key())).unwrap();
    value.as_object_mut().unwrap().insert(member.to_string(), 7.into());
    value.to_string()
}

#[test]
fn credentials_load_from_a_key_file() {
    let credentials = credentials();
    assert_eq!(credentials.private_key_id, "key-1");
    assert_eq!(credentials.client_email, "gateway@example.iam.gserviceaccount.com");
}

#[test]
fn credentials_fail_to_load_for_the_first_reason() {
    assert_eq!(
        load_error(Err("No such file or directory (os error 2)".to_string())),
        "Failed to read GCP Vertex Gemini credentials: No such file or directory (os error 2)"
    );
    assert_eq!(
        load_error(Ok("{".to_string())),
        "Failed to parse GCP Vertex Gemini credentials: EOF while parsing an object at line 1 column 1"
    );
    assert_eq!(
        load_error(Ok("[1, 2]".to_string())),
        "GCP Vertex Gemini: missing private_key_id"
    );
    assert_eq!(
        load_error(Ok(without("private_key_id"))),
        "GCP Vertex Gemini: missing private_key_id"
    );
    assert_eq!(
        load_error(Ok(without("private_key"))),
        "GCP Vertex Gemini: missing private_key"
    );
    assert_eq!(
        load_error(Ok(without("client_email"))),
        "GCP Vertex Gemini: missing client_email"
    );
    assert_eq!(
        load_error(Ok(with_number("private_key_id"))),
        "GCP Vertex Gemini: missing required credentials"
    );
    assert_eq!(
        load_error(Ok(with_number("client_email"))),
        "GCP Vertex Gemini: missing required credentials"
    );
    assert_eq!(
        load_error(Ok(key_file("not a key"))),
        "GCP Vertex Gemini: private_key failed to parse as RSA"
    );
    assert_eq!(
        Error::GCPCredentials { message: "x".to_string() }.http_status(),
        500
    );
}

#[test]
fn claims_expire_an_hour_after_they_are_issued() {
    assert_eq!(TOKEN_LIFETIME_SECONDS, 3600);
    let claims = Claims::checked_at("me", "me", "you", 1_700_000_000).unwrap();
    assert_eq!(
        claims,
        Claims { iss: "me", sub: "me", aud: "you", iat: 1_700_000_000, exp: 1_700_003_600 }
    );
    assert_eq!(Claims::at("a", "b", "c", 0).exp, 3600);
    assert_eq!(Claims::checked_at("a", "b", "c", u64::MAX - 3600).unwrap().exp, u64::MAX);
    assert_eq!(Claims::checked_at("a", "b", "c", u64::MAX - 3599), None);

    let now = std::time::SystemTime::now()
        .duration_since(std::time::UNIX_EPOCH)
        .unwrap()
        .as_secs();
    let claims = Claims::new("iss", "sub", "aud").unwrap();
    assert_eq!((claims.iss, claims.sub, claims.aud), ("iss", "sub", "aud"));
    assert_eq!(claims.exp, claims.iat + 3600);
    assert!(now <= claims.iat && claims.iat <= now + 5);
}

#[test]
fn the_account_issues_tokens_about_itself() {
    let credentials = credentials();
    let claims = credentials.claims_at("https://aiplatform.googleapis.com/", 10).unwrap();
    assert_eq!(claims.iss, "gateway@example.iam.gserviceaccount.com");
    assert_eq!(claims.sub, "gateway@example.iam.gserviceaccount.com");
    assert_eq!(claims.aud, "https://aiplatform.googleapis.com/");
    assert_eq!((claims.iat, claims.exp), (10, 3610));
    assert_eq!(credentials.claims_at("x", u64::MAX), None);
}

#[test]
fn tokens_are_signed_with_rs256_and_name_their_key() {
    let credentials = credentials();
    let token = credentials.get_jwt_token("https://aiplatform.googleapis.com/").unwrap();

    let header = jsonwebtoken::decode_header(&token).unwrap();
    assert_eq!(header.alg, jsonwebtoken::Algorithm::RS256);
    assert_eq!(header.kid, Some("key-1".to_string()));
    assert_eq!(header.typ, Some("JWT".to_string()));
    let mut expected = jsonwebtoken::Header::new(jsonwebtoken::Algorithm::RS256);
    expected.kid = Some("key-1".to_string());
    assert_eq!(header, expected);

    let mut validation = jsonwebtoken::Validation::new(jsonwebtoken::Algorithm::RS256);
    validation.set_audience(&["https://aiplatform.googleapis.com/"]);
    let key = jsonwebtoken::DecodingKey::from_rsa_pem(public_key().as_bytes()).unwrap();
    let decoded = jsonwebtoken::decode::<serde_json::Value>(&token, &key, &validation).unwrap();
    let claims = decoded.claims;
    assert_eq!(claims["iss"], "gateway@example.iam.gserviceaccount.com");
    assert_eq!(claims["sub"], "gateway@example.iam.gserviceaccount.com");
    assert_eq!(claims["aud"], "https://aiplatform.googleapis.com/");
    assert_eq!(
        claims["exp"].as_u64().unwrap(),
        claims["iat"].as_u64().unwrap() + 3600
    );

    let fixed = Claims::at("i", "s", "a", 1_700_000_000);
    assert_eq!(credentials.sign(&fixed), credentials.sign(&fixed));
}

#[test]
fn the_log_text_of_credentials_leaves_the_key_out() {
    let credentials = credentials();
    let text = credentials.debug_text();
    assert_eq!(
        text,
        "GCPCredentials { private_key_id: \"key-1\", private_key: \"[redacted]\", client_email: \"gateway@example.iam.gserviceaccount.com\" }"
    );
    let mut odd = credentials.clone();
    odd.private_key_id = "a\"b\n".to_string();
    assert!(odd.debug_text().starts_with("GCPCredentials { private_key_id: \"a\\\"b\\n\", "));
}

fn provider(credentials: Option<GCPCredentials>) -> GCPVertexGeminiProvider {
    GCPVertexGeminiProvider {
        request_url: "https://example.test/generateContent".to_string(),
        streaming_request_url: "https://example.test/streamGenerateContent?alt=sse".to_string(),
        audience: "https://aiplatform.googleapis.com/".to_string(),
        credentials,
    }
}

fn request(messages: Vec<InferenceRequestMessage>) -> ModelInferenceRequest<'static> {
    ModelInferenceRequest {
        messages,
        tools_available: None,
        tool_choice: None,
        parallel_tool_calls: None,
        temperature: None,
        max_tokens: None,
        stream: false,
        json_mode: false,
        function_type: FunctionType::Chat,
        output_schema: None,
    }
}

fn user(text: &str) -> InferenceRequestMessage {
    InferenceRequestMessage::User(UserInferenceRequestMessage { content: text.to_string() })
}

fn system(text: &str) -> InferenceRequestMessage {
    InferenceRequestMessage::System(SystemInferenceRequestMessage { content: text.to_string() })
}

#[test]
fn a_call_is_prepared_with_url_token_and_body() {
    let provider = provider(Some(credentials()));
    let request = request(vec![system("be brief"), user("hi")]);
    let call = provider.prepare(&request, false).ok().unwrap();
    assert_eq!(call.url, "https://example.test/generateContent");
    assert_eq!(call.bearer_token.split('.').count(), 3);
    assert_eq!(call.body.contents.len(), 1);
    assert_eq!(
        call.body.contents[0].parts,
        vec![GCPVertexGeminiContentPart::Text { text: "hi" }]
    );
    assert!(call.body.system_instruction.is_some());

    let call = provider.prepare(&request, true).ok().unwrap();
    assert_eq!(call.url, "https://example.test/streamGenerateContent?alt=sse");
}

#[test]
fn a_call_is_not_prepared_without_credentials_or_messages() {
    let bare = provider(None);
    let empty = request(vec![]);
    match bare.prepare(&empty, false) {
        Err(e) => {
            assert_eq!(
                e,
                Error::ApiKeyMissing { provider_name: "GCP Vertex Gemini".to_string() }
            );
            assert_eq!(e.http_status(), 400);
        }
        Ok(_) => panic!("no call should be prepared"),
    }
    assert!(bare.credentials().is_err());

    let provider = provider(Some(credentials()));
    assert!(provider.credentials().is_ok());
    match provider.prepare(&empty, false) {
        Err(e) => assert_eq!(
            e,
            Error::InvalidRequest {
                message: "GCP Vertex Gemini requires at least one message".to_string()
            }
        ),
        Ok(_) => panic!("no call should be prepared"),
    }
    let embedded = request(vec![user("hi"), system("late")]);
    match provider.prepare(&embedded, true) {
        Err(e) => assert!(matches!(e, Error::InvalidMessage { .. })),
        Ok(_) => panic!("no call should be prepared"),
    }
}

fn answer(text: &str) -> GCPVertexGeminiResponse {
    GCPVertexGeminiResponse {
        candidates: vec![GCPVertexGeminiResponseCandidate {
            content: Some(GCPVertexGeminiResponseContent {
                parts: vec![GCPVertexGeminiResponseContentPart::Text { text: text.to_string() }],
            }),
        }],
        usage_metadata: Some(GCPVertexGeminiUsageMetadata {
            prompt_token_count: 4,
            candidates_token_count: 2,
        }),
    }
}

#[test]
fn a_reply_comes_to_an_answer_or_a_failure() {
    assert!(GCPVertexGeminiProvider::is_success(200));
    assert!(GCPVertexGeminiProvider::is_success(299));
    assert!(!GCPVertexGeminiProvider::is_success(199));
    assert!(!GCPVertexGeminiProvider::is_success(300));

    let latency = Latency::NonStreaming { response_time: Duration::from_millis(12) };
    let response = GCPVertexGeminiProvider::complete_infer(GCPVertexGeminiReply::Success {
        body: Ok(answer("hello")),
        raw: "{\"candidates\":[1]}".to_string(),
        latency: latency.clone(),
    })
    .unwrap();
    assert_eq!(response.content, Some("hello".to_string()));
    assert_eq!(response.usage, Usage { prompt_tokens: 4, completion_tokens: 2 });
    assert!(response.usage.prompt_tokens >= 1);
    assert_eq!(response.raw, "{\"candidates\":[1]}");
    assert_eq!(response.latency, latency);

    assert_eq!(
        GCPVertexGeminiProvider::complete_infer(GCPVertexGeminiReply::Unsent {
            detail: "connection refused".to_string()
        }),
        Err(Error::InferenceClient {
            message: "Error sending request: connection refused".to_string()
        })
    );
    assert_eq!(
        GCPVertexGeminiProvider::complete_infer(GCPVertexGeminiReply::Success {
            body: Err("missing field `candidates`".to_string()),
            raw: "{}".to_string(),
            latency: latency.clone(),
        }),
        Err(Error::ServerError {
            body: "Error parsing response: missing field `candidates`".to_string()
        })
    );
    assert_eq!(
        GCPVertexGeminiProvider::complete_infer(GCPVertexGeminiReply::Failure {
            status: 429,
            body: Ok("quota".to_string()),
        }),
        Err(Error::ClientError { status: 429, body: "quota".to_string() })
    );
    assert_eq!(
        GCPVertexGeminiProvider::complete_infer(GCPVertexGeminiReply::Failure {
            status: 503,
            body: Ok("down".to_string()),
        }),
        Err(Error::ServerError { body: "down".to_string() })
    );
    assert_eq!(
        GCPVertexGeminiProvider::complete_infer(GCPVertexGeminiReply::Failure {
            status: 429,
            body: Err("reset".to_string()),
        }),
        Err(Error::ServerError { body: "Error parsing response: reset".to_string() })
    );
}

fn message(text: &str, millis: u64) -> GCPVertexGeminiStreamEvent {
    GCPVertexGeminiStreamEvent::Message {
        body: Ok(answer(text)),
        data: format!("data {text}"),
        latency: Duration::from_millis(millis),
    }
}

#[test]
fn every_chunk_of_a_stream_carries_its_id() {
    let stream = GCPVertexGeminiStream::open();
    assert_eq!(stream.inference_id.version(), 7);
    let other = GCPVertexGeminiStream::open();
    assert_ne!(stream.inference_id, other.inference_id);

    let items = stream.collect(vec![
        GCPVertexGeminiStreamEvent::Open,
        message("a", 1),
        GCPVertexGeminiStreamEvent::Failed { detail: "hiccup".to_string() },
        GCPVertexGeminiStreamEvent::Message {
            body: Err("bad json".to_string()),
            data: "{".to_string(),
            latency: Duration::from_millis(2),
        },
        GCPVertexGeminiStreamEvent::Open,
        message("b", 3),
        GCPVertexGeminiStreamEvent::Ended,
        message("never", 4),
    ]);
    assert_eq!(items.len(), 4);
    let first = items[0].as_ref().unwrap();
    assert_eq!(first.inference_id, stream.inference_id);
    assert_eq!(first.content, Some("a".to_string()));
    assert_eq!(first.raw, "data a");
    assert_eq!(first.latency_since_start, Duration::from_millis(1));
    assert_eq!(items[1], Err(Error::ServerError { body: "hiccup".to_string() }));
    assert_eq!(
        items[2],
        Err(Error::ServerError { body: "Error parsing response: bad json".to_string() })
    );
    let last = items[3].as_ref().unwrap();
    assert_eq!(last.inference_id, stream.inference_id);
    assert_eq!(last.content, Some("b".to_string()));
    assert!(last.usage.is_some());

    assert!(stream.collect(vec![]).is_empty());
    assert!(stream
        .collect(vec![GCPVertexGeminiStreamEvent::Ended, message("x", 1)])
        .is_empty());
}

#[test]
fn the_first_chunk_decides_how_a_stream_opens() {
    let stream = GCPVertexGeminiStream::open();
    assert!(matches!(
        await_first_chunk(stream.step(GCPVertexGeminiStreamEvent::Open)),
        FirstChunk::Pending
    ));
    match await_first_chunk(stream.step(GCPVertexGeminiStreamEvent::Ended)) {
        FirstChunk::Ready(Err(e)) => assert_eq!(
            e,
            Error::ServerError { body: "Stream ended before first chunk".to_string() }
        ),
        _ => panic!("the stream should have failed"),
    }
    match await_first_chunk(stream.step(message("a", 1))) {
        FirstChunk::Ready(Ok(chunk)) => assert_eq!(chunk.inference_id, stream.inference_id),
        _ => panic!("the stream should have opened"),
    }
    match await_first_chunk(stream.step(GCPVertexGeminiStreamEvent::Failed {
        detail: "401".to_string(),
    })) {
        FirstChunk::Ready(Err(e)) => {
            assert_eq!(e, Error::ServerError { body: "401".to_string() })
        }
        _ => panic!("the stream should have failed"),
    }
    assert!(matches!(
        stream.step(GCPVertexGeminiStreamEvent::Open),
        GCPVertexGeminiStreamStep::Skip
    ));
    assert_eq!(
        stream_unsent("dns".to_string()),
        Error::InferenceClient {
            message: "Error sending request to GCP Vertex Gemini: dns".to_string()
        }
    );
}

#[test]
fn a_token_issued_at_a_given_second_carries_that_second() {
    let credentials = credentials();
    let token = credentials.jwt_token_at("https://aiplatform.googleapis.com/", 1_700_000_000).unwrap();
    assert_eq!(
        credentials.jwt_token_at("https://aiplatform.googleapis.com/", 1_700_000_000),
        Ok(token.clone())
    );
    let claims = credentials.claims_at("https://aiplatform.googleapis.com/", 1_700_000_000).unwrap();
    assert_eq!(credentials.sign(&claims), Ok(token.clone()));
    assert_ne!(
        credentials.jwt_token_at("https://aiplatform.googleapis.com/", 1_700_000_001),
        Ok(token.clone())
    );

    let mut validation = jsonwebtoken::Validation::new(jsonwebtoken::Algorithm::RS256);
    validation.set_audience(&["https://aiplatform.googleapis.com/"]);
    validation.validate_exp = false;
    let key = jsonwebtoken::DecodingKey::from_rsa_pem(public_key().as_bytes()).unwrap();
    let decoded = jsonwebtoken::decode::<serde_json::Value>(&token, &key, &validation).unwrap();
    assert_eq!(decoded.header.kid, Some("key-1".to_string()));
    assert_eq!(decoded.claims["iss"], "gateway@example.iam.gserviceaccount.com");
    assert_eq!(decoded.claims["sub"], "gateway@example.iam.gserviceaccount.com");
    assert_eq!(decoded.claims["iat"], 1_700_000_000u64);
    assert_eq!(decoded.claims["exp"], 1_700_003_600u64);

    assert_eq!(
        credentials.jwt_token_at("a", u64::MAX - 3599),
        Err(Error::GCPCredentials { message: "Time went backwards".to_string() })
    );
}

#[test]
fn a_call_prepared_at_a_second_presents_the_token_of_that_second() {
    let provider = provider(Some(credentials()));
    let request = request(vec![user("hi")]);
    let call = provider.prepare_at(&request, false, 1_700_000_000).ok().unwrap();
    assert_eq!(
        Ok(call.bearer_token),
        credentials().jwt_token_at("https://aiplatform.googleapis.com/", 1_700_000_000)
    );
    assert_eq!(call.url, "https://example.test/generateContent");
    match provider.prepare_at(&request, true, u64::MAX) {
        Err(e) => assert_eq!(
            e,
            Error::GCPCredentials { message: "Time went backwards".to_string() }
        ),
        Ok(_) => panic!("no token can be issued at the end of time"),
    }
    let empty = self::request(vec![]);
    match provider.prepare_at(&empty, true, u64::MAX) {
        Err(e) => assert!(matches!(e, Error::InvalidRequest { .. })),
        Ok(_) => panic!("no call should be prepared"),
    }

    let call = provider.prepare(&request, false).ok().unwrap();
    let mut validation = jsonwebtoken::Validation::new(jsonwebtoken::Algorithm::RS256);
    validation.set_audience(&["https://aiplatform.googleapis.com/"]);
    let key = jsonwebtoken::DecodingKey::from_rsa_pem(public_key().as_bytes()).unwrap();
    assert!(jsonwebtoken::decode::<serde_json::Value>(&call.bearer_token, &key, &validation).is_ok());
}

#[test]
fn a_stream_opened_at_a_reading_carries_it_in_its_id() {
    let reading = gateway::clock::Reading { seconds: 1_800_000_000, nanos: 999_999_999 };
    let stream = GCPVertexGeminiStream::open_at(reading);
    assert_eq!(stream.inference_id.as_u128() >> 80, 1_800_000_000_999);
    assert_eq!(stream.inference_id.version(), 7);
    match stream.step(message("a", 1)) {
        GCPVertexGeminiStreamStep::Yield(Ok(chunk)) => {
            assert_eq!(chunk.inference_id, stream.inference_id)
        }
        _ => panic!("a chunk should be yielded"),
    }
}

#[test]
fn the_members_of_a_token_are_listed_under_their_names() {
    let pair = |name: &str, text: &str| (name.to_string(), text.to_string());
    assert_eq!(
        gateway::inference::providers::gcp_vertex::auth::header_members("key-1"),
        vec![pair("typ", "JWT"), pair("alg", "RS256"), pair("kid", "key-1")]
    );
    let claims = Claims::at("me", "myself", "you", 10);
    assert_eq!(
        claims.text_members(),
        vec![pair("iss", "me"), pair("sub", "myself"), pair("aud", "you")]
    );
    assert_eq!(
        claims.time_members(),
        vec![("iat".to_string(), 10u64), ("exp".to_string(), 3610u64)]
    );
}
