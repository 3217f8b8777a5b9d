//! The failures that the crate reports.

use vstd::prelude::*;
use vstd::string::StringExecFns;
use crate::text::{decimal, decimal_text};

verus! {

/// The kinds of failure.
#[derive(Debug, Clone, Copy, PartialEq, Eq, Structural)]
pub enum ErrorKind {
    /// A required credential is missing from the configuration.
    Configuration,
    /// The exchange answered with a status outside the success range.
    Api,
    /// The body is not JSON, or part of it has not the expected shape.
    Deserialization,
    /// The response has no field of the expected name.
    NotFound,
    /// The field is there and is not an array.
    Shape,
}

/// A failure, with what an operator needs to diagnose it. No variant holds
/// the secret or the passphrase.
#[derive(Debug, PartialEq, Eq)]
pub enum ExchangeError {
    /// The configuration lacks the value named by `field`.
    Configuration { field: String },
    /// The exchange answered `status` to a `method` request, with `body`.
    Api { method: String, status: u16, body: String },
    /// The body could not be read; `detail` says why.
    Deserialization { detail: String },
    /// The response has no field named `field`.
    NotFound { field: String },
    /// The field named `field` is not an array.
    Shape { field: String },
}

/// The message for a status outside the success range: the method, the
/// status in decimal and the body as it came.
pub open spec fn api_message(method: Seq<char>, status: u16, body: Seq<char>) -> Seq<char> {
    method + " request failed with status: "@ + decimal(status as nat) + " and body: "@ + body
}

/// The message of a failure.
pub open spec fn message_text(error: ExchangeError) -> Seq<char> {
    match error {
        ExchangeError::Configuration { field } => "missing configuration value: "@ + field@,
        ExchangeError::Api { method, status, body } => api_message(method@, status, body@),
        ExchangeError::Deserialization { detail } => "failed to read the response: "@ + detail@,
        ExchangeError::NotFound { field } => "No "@ + field@ + " field found in the response."@,
        ExchangeError::Shape { field } => "The "@ + field@ + " field is not an array."@,
    }
}

impl ExchangeError {
    /// The kind of this failure.
    pub open spec fn spec_kind(&self) -> ErrorKind {
        match self {
            ExchangeError::Configuration { .. } => ErrorKind::Configuration,
            ExchangeError::Api { .. } => ErrorKind::Api,
            ExchangeError::Deserialization { .. } => ErrorKind::Deserialization,
            ExchangeError::NotFound { .. } => ErrorKind::NotFound,
            ExchangeError::Shape { .. } => ErrorKind::Shape,
        }
    }

    /// The kind of this failure.
    #[verifier::when_used_as_spec(spec_kind)]
    pub fn kind(&self) -> (kind: ErrorKind)
        ensures
            kind == self.spec_kind(),
    {
        match self {
            ExchangeError::Configuration { .. } => ErrorKind::Configuration,
            ExchangeError::Api { .. } => ErrorKind::Api,
            ExchangeError::Deserialization { .. } => ErrorKind::Deserialization,
            ExchangeError::NotFound { .. } => ErrorKind::NotFound,
            ExchangeError::Shape { .. } => ErrorKind::Shape,
        }
    }

    /// Writes the message of this failure.
    pub fn message(&self) -> (text: String)
        ensures
            text@ == message_text(*self),
    {
        match self {
            ExchangeError::Configuration { field } => {
                let mut text = "missing configuration value: ".to_owned();
                text.append(field.as_str());
                text
            },
            ExchangeError::Api { method, status, body } => {
                let mut text = method.clone();
                text.append(" request failed with status: ");
                text.append(decimal_text(*status).as_str());
                text.append(" and body: ");
                text.append(body.as_str());
                text
            },
            ExchangeError::Deserialization { detail } => {
                let mut text = "failed to read the response: ".to_owned();
                text.append(detail.as_str());
                text
            },
            ExchangeError::NotFound { field } => {
                let mut text = "No ".to_owned();
                text.append(field.as_str());
                text.append(" field found in the response.");
                text
            },
            ExchangeError::Shape { field } => {
                let mut text = "The ".to_owned();
                text.append(field.as_str());
                text.append(" field is not an array.");
                text
            },
        }
    }
}

} // verus!
