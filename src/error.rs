//! Error taxonomy of the client and of the protocol core.
use vstd::prelude::*;
use vstd::string::*;

verus! {

#[verifier::external_type_specification]
#[verifier::external_body]
pub struct ExJsonError(serde_json::Error);

/// A general protocol error carrying a message.
#[derive(Debug, Clone, PartialEq, Eq)]
pub struct AgUiError {
    pub message: String,
}

impl AgUiError {
    pub fn new(message: &str) -> (r: AgUiError)
        ensures
            r.message@ == message@,
    {
        AgUiError { message: String::from_str(message) }
    }

    /// The rendered form: `AG-UI Error: ` followed by the message.
    pub fn to_string(&self) -> (r: String)
        ensures
            r@ == "AG-UI Error: "@ + self.message@,
    {
        let mut r = String::from_str("AG-UI Error: ");
        r.append(self.message.as_str());
        r
    }
}

/// What went wrong below the HTTP status line.
#[derive(Debug, Clone, Copy, PartialEq, Eq)]
pub enum TransportFailure {
    /// The connection could not be established.
    Connect,
    /// The request or the response timed out.
    Timeout,
    /// The request could not be built or sent.
    Request,
    /// Any other transport failure (for instance while reading the body).
    Other,
}

/// Errors of the client.
#[derive(Debug)]
#[non_exhaustive]
pub enum AgUiClientError {
    /// Configuration or usage errors.
    Config { message: String },
    /// Transport-level HTTP failures.
    HttpTransport { failure: TransportFailure, message: String },
    /// Non-success HTTP status, with up to 512 characters of the response body.
    HttpStatus { status: u16, context: String },
    /// Frame or UTF-8 errors of the event stream.
    SseParse { message: String },
    /// Structured-data encode or decode failures.
    Json(serde_json::Error),
    /// Errors reported by subscribers.
    Subscriber { message: String },
    /// Failures of the run reducer itself, such as a state patch that does not apply.
    Execution { message: String },
}

/// Whether an error of the taxonomy is worth retrying.
pub open spec fn retryable(e: &AgUiClientError) -> bool {
    match e {
        AgUiClientError::HttpTransport { failure, .. } => failure != TransportFailure::Other,
        AgUiClientError::HttpStatus { status, .. } => status_retryable(*status),
        _ => false,
    }
}

/// A server error (5xx) or too many requests (429).
pub open spec fn status_retryable(status: u16) -> bool {
    (500 <= status && status <= 599) || status == 429
}

impl AgUiClientError {
    pub fn config(m: String) -> (r: AgUiClientError)
        ensures
            r matches AgUiClientError::Config { message } && message@ == m@,
    {
        AgUiClientError::Config { message: m }
    }

    pub fn exec(m: String) -> (r: AgUiClientError)
        ensures
            r matches AgUiClientError::Execution { message } && message@ == m@,
    {
        AgUiClientError::Execution { message: m }
    }

    /// Connection, timeout and request-level transport failures, server errors and
    /// rate limiting are retryable; nothing else is.
    pub fn is_retryable(&self) -> (r: bool)
        ensures
            r == retryable(self),
    {
        match self {
            AgUiClientError::HttpTransport { failure, .. } => match failure {
                TransportFailure::Other => false,
                _ => true,
            },
            AgUiClientError::HttpStatus { status, .. } => (500 <= *status && *status <= 599)
                || *status == 429,
            _ => false,
        }
    }

    pub fn is_user_input(&self) -> (r: bool)
        ensures
            r == (self is Config),
    {
        match self {
            AgUiClientError::Config { .. } => true,
            _ => false,
        }
    }
}

} // verus!
