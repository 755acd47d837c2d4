//! One unary call of the provider: what is sent, and what the reply means.

use crate::clock::unix_time_now;
use crate::error::{prefixed, Error};
use crate::inference::providers::gcp_vertex::auth::{no_time_text, GCPCredentials};
use crate::inference::providers::gcp_vertex::{
    blames_caller, gemini_request, handle_gcp_vertex_gemini_error, has_embedded_system,
    is_embedded_system_error, is_server_error, no_messages_text, unary_normalized,
    GCPVertexGeminiRequest, GCPVertexGeminiResponse, GCPVertexGeminiResponseWithLatency,
};
use crate::inference::types::{Latency, ModelInferenceRequest, ModelInferenceResponse};
use vstd::prelude::*;
use vstd::string::*;

verus! {

/// A Gemini model on GCP Vertex AI: where to send unary and streaming
/// requests, whom the tokens are for, and the credentials to sign them with.
#[derive(Clone)]
pub struct GCPVertexGeminiProvider {
    pub request_url: String,
    pub streaming_request_url: String,
    pub audience: String,
    pub credentials: Option<GCPCredentials>,
}

/// A request that is ready to be sent: one POST to `url`, with the token as
/// bearer and the body as JSON.
pub struct GCPVertexGeminiCall<'a> {
    pub url: &'a str,
    pub bearer_token: String,
    pub body: GCPVertexGeminiRequest<'a>,
}

/// What came of sending a unary request.
pub enum GCPVertexGeminiReply {
    /// The request did not reach the provider, for the reason given.
    Unsent { detail: String },
    /// The provider answered with a status of success. `body` is the answer
    /// as it was read from `raw`, or why it could not be read.
    Success { body: Result<GCPVertexGeminiResponse, String>, raw: String, latency: Latency },
    /// The provider answered with another status. `body` is the text of the
    /// answer, or why it could not be read.
    Failure { status: u16, body: Result<String, String> },
}

/// The name under which this provider appears in failures.
pub open spec fn provider_name() -> Seq<char> {
    "GCP Vertex Gemini"@
}

/// The statuses of success: 200 to 299.
pub open spec fn status_is_success(status: u16) -> bool {
    200 <= status < 300
}

/// Whether a failure is a transport failure with the given message.
pub open spec fn is_client_failure(e: Error, text: Seq<char>) -> bool {
    e matches Error::InferenceClient { message } && message@ == text
}

/// Whether `res` is what the reply to a unary request comes to.
pub open spec fn reply_outcome(
    reply: GCPVertexGeminiReply,
    res: Result<ModelInferenceResponse, Error>,
) -> bool {
    match reply {
        GCPVertexGeminiReply::Unsent { detail } => res matches Err(e) && is_client_failure(
            e,
            "Error sending request: "@ + detail@,
        ),
        GCPVertexGeminiReply::Success { body: Err(detail), .. } => res matches Err(e)
            && is_server_error(e, "Error parsing response: "@ + detail@),
        GCPVertexGeminiReply::Success { body: Ok(body), raw, latency } => unary_normalized(
            GCPVertexGeminiResponseWithLatency { body, raw, latency },
            res,
        ),
        GCPVertexGeminiReply::Failure { body: Err(detail), .. } => res matches Err(e)
            && is_server_error(e, "Error parsing response: "@ + detail@),
        GCPVertexGeminiReply::Failure { status, body: Ok(text) } => if blames_caller(status) {
            res == Err::<ModelInferenceResponse, Error>(
                Error::ClientError { status, body: text },
            )
        } else {
            res == Err::<ModelInferenceResponse, Error>(Error::ServerError { body: text })
        },
    }
}

/// Picks the credentials to call a provider with: those that came with the
/// request, where there are any, else those of the configuration. Where
/// there are neither, the provider cannot be called.
pub fn resolve_credentials<T>(per_request: Option<T>, configured: Option<T>, provider: &str) -> (res:
    Result<T, Error>)
    ensures
        match per_request {
            Some(credentials) => res == Ok::<T, Error>(credentials),
            None => match configured {
                Some(credentials) => res == Ok::<T, Error>(credentials),
                None => res matches Err(Error::ApiKeyMissing { provider_name }) && provider_name@
                    == provider@,
            },
        },
{
    match per_request {
        Some(credentials) => Ok(credentials),
        None => match configured {
            Some(credentials) => Ok(credentials),
            None => Err(Error::ApiKeyMissing { provider_name: provider.to_owned() }),
        },
    }
}

/// Whether `res` is what making a request ready comes to, where `token` is
/// what issuing and signing the token came to. A provider without
/// credentials cannot be called; a request without messages, or with a
/// system message anywhere but first, cannot be sent; a token that could
/// not be made is the failure that says why. Otherwise the call goes to the
/// unary or to the streaming address, presents the token as its bearer and
/// carries the converted request as its body.
pub open spec fn prepared<'a>(
    provider: GCPVertexGeminiProvider,
    request: ModelInferenceRequest<'a>,
    streaming: bool,
    token: Result<Seq<char>, Seq<char>>,
    res: Result<GCPVertexGeminiCall<'a>, Error>,
) -> bool {
    if provider.credentials is None {
        res matches Err(Error::ApiKeyMissing { provider_name: name }) && name@ == provider_name()
    } else if request@.messages.len() == 0 {
        res matches Err(Error::InvalidRequest { message }) && message@ == no_messages_text()
    } else if has_embedded_system(request@.messages) {
        res matches Err(e) && is_embedded_system_error(e)
    } else {
        match token {
            Ok(text) => {
                &&& res matches Ok(call)
                &&& call.bearer_token@ == text
                &&& call.body@ == gemini_request(request@)
                &&& call.url@ == if streaming {
                    provider.streaming_request_url@
                } else {
                    provider.request_url@
                }
            },
            Err(text) => res matches Err(Error::GCPCredentials { message }) && message@ == text,
        }
    }
}

impl GCPVertexGeminiProvider {
    /// The token that the credentials of the provider sign for its audience
    /// at the given second, or the message of the failure to make one; there
    /// is no second where the clock stands before the Unix epoch.
    pub open spec fn token_at(&self, now: Option<u64>) -> Result<Seq<char>, Seq<char>> {
        match now {
            Some(now) => self.credentials->0.token_at(self.audience@, now),
            None => Err(no_time_text()),
        }
    }

    /// Whether a status is one of success.
    pub fn is_success(status: u16) -> (b: bool)
        ensures
            b == status_is_success(status),
    {
        200 <= status && status < 300
    }

    /// The credentials of the provider, or the failure that says that it
    /// has none.
    pub fn credentials(&self) -> (res: Result<&GCPCredentials, Error>)
        ensures
            match self.credentials {
                Some(credentials) => res == Ok::<&GCPCredentials, Error>(&credentials),
                None => res matches Err(Error::ApiKeyMissing { provider_name: name }) && name@
                    == provider_name(),
            },
    {
        match &self.credentials {
            Some(credentials) => Ok(credentials),
            None => Err(Error::ApiKeyMissing { provider_name: "GCP Vertex Gemini".to_owned() }),
        }
    }

    /// Makes a request ready to be sent, with a token that is issued at the
    /// second `now`. The failures come in this order: no credentials, a
    /// request that cannot be converted, a token that cannot be issued or
    /// signed.
    pub fn prepare_at<'a>(
        &'a self,
        request: &'a ModelInferenceRequest<'a>,
        streaming: bool,
        now: u64,
    ) -> (res: Result<GCPVertexGeminiCall<'a>, Error>)
        ensures
            prepared(*self, *request, streaming, self.token_at(Some(now)), res),
    {
        self.prepare_with(request, streaming, Some(now))
    }

    /// Makes a request ready to be sent, with a token that is issued now.
    /// Whatever the clock of this machine reads, the result is what
    /// `prepare_at` gives for that reading; where the clock stands before
    /// the Unix epoch, there is no time to issue the token at.
    pub fn prepare<'a>(&'a self, request: &'a ModelInferenceRequest<'a>, streaming: bool) -> (res:
        Result<GCPVertexGeminiCall<'a>, Error>)
        ensures
            prepared(*self, *request, streaming, self.token_at(None), res) || exists|now: u64|
                prepared(*self, *request, streaming, #[trigger] self.token_at(Some(now)), res),
    {
        match unix_time_now() {
            Some(reading) => self.prepare_with(request, streaming, Some(reading.seconds)),
            None => self.prepare_with(request, streaming, None),
        }
    }

    /// Makes a request ready to be sent, with a token that is issued at the
    /// given second, where there is one.
    fn prepare_with<'a>(
        &'a self,
        request: &'a ModelInferenceRequest<'a>,
        streaming: bool,
        now: Option<u64>,
    ) -> (res: Result<GCPVertexGeminiCall<'a>, Error>)
        ensures
            prepared(*self, *request, streaming, self.token_at(now), res),
    {
        let credentials = match self.credentials() {
            Ok(credentials) => credentials,
            Err(e) => {
                return Err(e);
            },
        };
        let body = match GCPVertexGeminiRequest::try_from(request) {
            Ok(body) => body,
            Err(e) => {
                return Err(e);
            },
        };
        let token = match now {
            Some(now) => credentials.jwt_token_at(self.audience.as_str(), now),
            None => Err(Error::GCPCredentials { message: "Time went backwards".to_owned() }),
        };
        let bearer_token = match token {
            Ok(token) => token,
            Err(e) => {
                return Err(e);
            },
        };
        let url: &'a str = if streaming {
            self.streaming_request_url.as_str()
        } else {
            self.request_url.as_str()
        };
        Ok(GCPVertexGeminiCall { url, bearer_token, body })
    }

    /// Says what the reply to a unary request comes to: the normalized
    /// answer, or the failure.
    pub fn complete_infer(reply: GCPVertexGeminiReply) -> (res: Result<
        ModelInferenceResponse,
        Error,
    >)
        ensures
            reply_outcome(reply, res),
    {
        match reply {
            GCPVertexGeminiReply::Unsent { detail } => Err(
                Error::InferenceClient { message: prefixed("Error sending request: ", &detail) },
            ),
            GCPVertexGeminiReply::Success { body, raw, latency } => match body {
                Ok(body) => ModelInferenceResponse::try_from(
                    GCPVertexGeminiResponseWithLatency { body, raw, latency },
                ),
                Err(detail) => Err(
                    Error::ServerError { body: prefixed("Error parsing response: ", &detail) },
                ),
            },
            GCPVertexGeminiReply::Failure { status, body } => match body {
                Ok(text) => handle_gcp_vertex_gemini_error(status, text),
                Err(detail) => Err(
                    Error::ServerError { body: prefixed("Error parsing response: ", &detail) },
                ),
            },
        }
    }
}

} // verus!
