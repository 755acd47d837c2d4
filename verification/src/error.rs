//! The failures of the gateway, the text each one reads as and the HTTP
//! status it is answered with.

use crate::text::push_decimal;
use crate::uuid_util::{hyphenated, Id};
use vstd::prelude::*;
use vstd::string::*;

verus! {

/// Everything that can go wrong between the admission of a request and its
/// answer.
#[derive(Debug, PartialEq)]
pub enum Error {
    /// The request is malformed.
    InvalidRequest { message: String },
    /// No function of that name is configured.
    UnknownFunction { name: String },
    /// The function has no variant of that name.
    UnknownVariant { name: String },
    /// The function is configured without any variant.
    InvalidFunctionVariants { message: String },
    /// The input does not fit the function's schema.
    InputValidation { message: String },
    /// The input at `index` of a batch was refused.
    BatchInputValidation { index: usize, message: String },
    /// An episode id is no acceptable version 7 UUID.
    InvalidEpisodeId { message: String },
    /// The provider has no credentials to call with.
    ApiKeyMissing { provider_name: String },
    /// The service-account credentials cannot be loaded or used.
    GCPCredentials { message: String },
    /// A message cannot be expressed in the provider's format.
    InvalidMessage { message: String },
    /// The gateway itself is in a state it should never reach.
    Inference { message: String },
    /// The request never reached the provider, or its answer never came back.
    InferenceClient { message: String },
    /// The provider refused the request as the caller's fault.
    ClientError { status: u16, body: String },
    /// The provider failed, or answered what cannot be read.
    ServerError { body: String },
    /// Every variant was tried and none succeeded; the failures are listed
    /// in the order of the attempts.
    AllVariantsFailed { errors: Vec<(String, Error)> },
    /// A row could not be written to the analytics store.
    PersistenceWrite { message: String },
    /// A row read from the analytics store cannot be decoded.
    PersistenceDecode { message: String },
    /// No batch is recorded under that id.
    BatchNotFound { id: Id },
    /// A value could not be turned into JSON.
    Serialization { message: String },
}

/// Who is to blame for a failure, which decides the class of the HTTP status.
#[derive(Clone, Copy, Debug, PartialEq, Eq, Structural)]
pub enum Blame {
    Caller,
    Gateway,
}

impl Error {
    /// The failures that the caller can mend by changing the request.
    pub open spec fn caller_attributable(&self) -> bool {
        match self {
            Error::InvalidRequest { .. }
            | Error::UnknownFunction { .. }
            | Error::UnknownVariant { .. }
            | Error::InputValidation { .. }
            | Error::BatchInputValidation { .. }
            | Error::InvalidEpisodeId { .. }
            | Error::ApiKeyMissing { .. }
            | Error::InvalidMessage { .. }
            | Error::ClientError { .. }
            | Error::BatchNotFound { .. } => true,
            _ => false,
        }
    }

    /// The HTTP status that answers this failure.
    pub open spec fn status_spec(&self) -> u16 {
        match self {
            Error::ClientError { status, .. } => if 400 <= *status < 500 {
                *status
            } else {
                400
            },
            Error::BatchNotFound { .. } => 404,
            Error::ServerError { .. } | Error::InferenceClient { .. } => 502,
            _ => if self.caller_attributable() {
                400
            } else {
                500
            },
        }
    }

    /// The failure as one line of text: what kind of failure it is, and its
    /// detail.
    pub open spec fn text_spec(&self) -> Seq<char> {
        match self {
            Error::InvalidRequest { message } => message@,
            Error::UnknownFunction { name } => "Unknown function: "@ + name@,
            Error::UnknownVariant { name } => "Unknown variant: "@ + name@,
            Error::InvalidFunctionVariants { message } => message@,
            Error::InputValidation { message } => "Input validation failed: "@ + message@,
            Error::BatchInputValidation { index, message } => "Input at index "@
                + crate::text::decimal(*index as nat) + " failed validation: "@ + message@,
            Error::InvalidEpisodeId { message } => "Invalid Episode ID: "@ + message@,
            Error::ApiKeyMissing { provider_name } => "API key missing for provider: "@
                + provider_name@,
            Error::GCPCredentials { message } => "Error in acquiring GCP credentials: "@
                + message@,
            Error::InvalidMessage { message } => message@,
            Error::Inference { message } => message@,
            Error::InferenceClient { message } => message@,
            Error::ClientError { status, body } => "Error from provider client ("@
                + crate::text::decimal(*status as nat) + "): "@ + body@,
            Error::ServerError { body } => "Error from provider server: "@ + body@,
            Error::AllVariantsFailed { errors } => "All variants failed ("@
                + crate::text::decimal(errors@.len()) + ")"@,
            Error::PersistenceWrite { message } => "Error writing to the analytics store: "@
                + message@,
            Error::PersistenceDecode { message } => "Error decoding a row of the analytics store: "@
                + message@,
            Error::BatchNotFound { id } => "Batch request not found for id: "@ + hyphenated(
                id.bits,
            ),
            Error::Serialization { message } => "Error serializing: "@ + message@,
        }
    }

    /// Tells the failures that are the caller's from those that are not.
    pub fn blame(&self) -> (b: Blame)
        ensures
            (b == Blame::Caller) == self.caller_attributable(),
    {
        match self {
            Error::InvalidRequest { .. } => Blame::Caller,
            Error::UnknownFunction { .. } => Blame::Caller,
            Error::UnknownVariant { .. } => Blame::Caller,
            Error::InputValidation { .. } => Blame::Caller,
            Error::BatchInputValidation { .. } => Blame::Caller,
            Error::InvalidEpisodeId { .. } => Blame::Caller,
            Error::ApiKeyMissing { .. } => Blame::Caller,
            Error::InvalidMessage { .. } => Blame::Caller,
            Error::ClientError { .. } => Blame::Caller,
            Error::BatchNotFound { .. } => Blame::Caller,
            _ => Blame::Gateway,
        }
    }

    /// The HTTP status that answers this failure: in the 400s exactly when
    /// the caller is to blame, in the 500s otherwise.
    pub fn http_status(&self) -> (status: u16)
        ensures
            status == self.status_spec(),
            self.caller_attributable() <==> 400 <= status < 500,
            !self.caller_attributable() <==> 500 <= status < 600,
    {
        match self {
            Error::ClientError { status, .. } => {
                if 400 <= *status && *status < 500 {
                    *status
                } else {
                    400
                }
            },
            Error::BatchNotFound { .. } => 404,
            Error::ServerError { .. } => 502,
            Error::InferenceClient { .. } => 502,
            _ => {
                match self.blame() {
                    Blame::Caller => 400,
                    Blame::Gateway => 500,
                }
            },
        }
    }

    /// Whether trying another provider or variant is pointless: the provider
    /// has said that the request itself is at fault.
    pub fn ends_failover(&self) -> (b: bool)
        ensures
            b == (self is ClientError),
    {
        match self {
            Error::ClientError { .. } => true,
            _ => false,
        }
    }

    /// The failure as one line of text for people to read.
    pub fn to_text(&self) -> (s: String)
        ensures
            s@ == self.text_spec(),
    {
        match self {
            Error::InvalidRequest { message } => message.clone(),
            Error::UnknownFunction { name } => prefixed("Unknown function: ", name),
            Error::UnknownVariant { name } => prefixed("Unknown variant: ", name),
            Error::InvalidFunctionVariants { message } => message.clone(),
            Error::InputValidation { message } => prefixed("Input validation failed: ", message),
            Error::BatchInputValidation { index, message } => {
                let mut s = "Input at index ".to_owned();
                push_decimal(&mut s, *index);
                s.append(" failed validation: ");
                s.append(message.as_str());
                s
            },
            Error::InvalidEpisodeId { message } => prefixed("Invalid Episode ID: ", message),
            Error::ApiKeyMissing { provider_name } => prefixed(
                "API key missing for provider: ",
                provider_name,
            ),
            Error::GCPCredentials { message } => prefixed(
                "Error in acquiring GCP credentials: ",
                message,
            ),
            Error::InvalidMessage { message } => message.clone(),
            Error::Inference { message } => message.clone(),
            Error::InferenceClient { message } => message.clone(),
            Error::ClientError { status, body } => {
                let mut s = "Error from provider client (".to_owned();
                push_decimal(&mut s, *status as usize);
                s.append("): ");
                s.append(body.as_str());
                s
            },
            Error::ServerError { body } => prefixed("Error from provider server: ", body),
            Error::AllVariantsFailed { errors } => {
                let mut s = "All variants failed (".to_owned();
                push_decimal(&mut s, errors.len());
                s.append(")");
                s
            },
            Error::PersistenceWrite { message } => prefixed(
                "Error writing to the analytics store: ",
                message,
            ),
            Error::PersistenceDecode { message } => prefixed(
                "Error decoding a row of the analytics store: ",
                message,
            ),
            Error::BatchNotFound { id } => {
                let mut s = "Batch request not found for id: ".to_owned();
                let t = id.to_text();
                s.append(t.as_str());
                s
            },
            Error::Serialization { message } => prefixed("Error serializing: ", message),
        }
    }
}

/// `prefix` followed by `detail`.
pub fn prefixed(prefix: &str, detail: &String) -> (s: String)
    ensures
        s@ == prefix@ + detail@,
{
    let mut s = prefix.to_owned();
    s.append(detail.as_str());
    s
}

} // verus!
