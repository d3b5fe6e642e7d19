//! The error taxonomy shared by every backend, and its retry classification.

use crate::text::{concat, decimal, decimal_text, push_text};
use vstd::prelude::*;

verus! {

/// Whether an HTTP status is of the server class (5xx).
pub open spec fn is_server_status(status: u16) -> bool {
    500 <= status <= 599
}

/// Whether an HTTP status is of the success class (2xx).
pub open spec fn is_success_status(status: u16) -> bool {
    200 <= status <= 299
}

/// The status a backend answers with when a credential is refused.
pub const STATUS_UNAUTHORIZED: u16 = 401;

/// A failure of one translation call.
#[derive(Debug, PartialEq, Eq)]
pub enum TranslationError {
    /// The transport failed: connection, name resolution, reset.
    NetworkError(String),
    /// The backend answered with a status other than success.
    HttpError { status: u16, body: String },
    /// The credential was refused or could not be obtained.
    AuthenticationError(String),
    /// The request did not complete within its timeout.
    TimeoutError,
    /// Every attempt failed with a retryable error; holds them in order.
    /// `attempts` is `max_retries + 1`, counted in `u64` so that it fits for
    /// every `u32` retry budget.
    MaxRetriesExceeded { attempts: u64, errors: Vec<TranslationError> },
    /// The backend answered but gave no usable translation.
    ServiceError(String),
    /// Missing credentials, an empty pool, or invalid input.
    ConfigurationError(String),
    /// Any other failure.
    Other(String),
}

impl TranslationError {
    /// Whether another attempt may succeed: transport failures, timeouts and
    /// server-class statuses.
    pub open spec fn retryable(&self) -> bool {
        match self {
            TranslationError::NetworkError(_) => true,
            TranslationError::HttpError { status, .. } => is_server_status(*status),
            TranslationError::TimeoutError => true,
            _ => false,
        }
    }

    /// Whether the error may be retried.
    pub fn is_retryable(&self) -> (r: bool)
        ensures
            r == self.retryable(),
    {
        match self {
            TranslationError::NetworkError(_) => true,
            TranslationError::HttpError { status, .. } => 500 <= *status && *status <= 599,
            TranslationError::TimeoutError => true,
            _ => false,
        }
    }

    /// The error for a transport failure, classified once where it is observed:
    /// a timeout, or else a network error with the transport's description.
    pub fn from_transport(timed_out: bool, detail: String) -> (r: TranslationError)
        ensures
            timed_out ==> r == TranslationError::TimeoutError,
            !timed_out ==> r == TranslationError::NetworkError(detail),
    {
        if timed_out {
            TranslationError::TimeoutError
        } else {
            TranslationError::NetworkError(detail)
        }
    }

    /// The error for a response body that could not be decoded.
    pub fn malformed_response(detail: &str) -> (r: TranslationError)
        ensures
            r matches TranslationError::ServiceError(m) && m@ == "JSON parsing error: "@ + detail@,
    {
        TranslationError::ServiceError(concat("JSON parsing error: ", detail))
    }

    /// The text that describes the error; for an aggregate, one line per attempt.
    pub fn describe(&self) -> (r: String)
        ensures
            r@ == message(*self),
        decreases self,
    {
        let mut s = String::new();
        match self {
            TranslationError::NetworkError(e) => {
                push_text(&mut s, "Network error: ");
                push_text(&mut s, e.as_str());
            },
            TranslationError::HttpError { status, body } => {
                push_text(&mut s, "HTTP error ");
                let code = decimal_text(*status as u64);
                push_text(&mut s, code.as_str());
                push_text(&mut s, ": ");
                push_text(&mut s, body.as_str());
            },
            TranslationError::AuthenticationError(m) => {
                push_text(&mut s, "Authentication error: ");
                push_text(&mut s, m.as_str());
            },
            TranslationError::TimeoutError => {
                push_text(&mut s, "Request timeout");
            },
            TranslationError::MaxRetriesExceeded { attempts, errors } => {
                push_text(&mut s, "Max retries exceeded after ");
                let n = decimal_text(*attempts);
                push_text(&mut s, n.as_str());
                push_text(&mut s, " attempts\n");
                let mut i: usize = 0;
                while i < errors.len()
                    invariant
                        i <= errors.len(),
                        *self == (TranslationError::MaxRetriesExceeded {
                            attempts: *attempts,
                            errors: *errors,
                        }),
                        s@ == "Max retries exceeded after "@ + decimal(*attempts as nat)
                            + " attempts\n"@ + attempt_lines(*errors, i as nat),
                    decreases errors.len() - i,
                {
                    proof {
                        assert(decreases_to!(*self => (*self)->errors));
                        assert(decreases_to!(*errors => errors[i as int]));
                    }
                    push_text(&mut s, "  Attempt ");
                    let k = decimal_text(i as u64 + 1);
                    push_text(&mut s, k.as_str());
                    push_text(&mut s, ": ");
                    let line = errors[i].describe();
                    push_text(&mut s, line.as_str());
                    push_text(&mut s, "\n");
                    i = i + 1;
                }
            },
            TranslationError::ServiceError(m) => {
                push_text(&mut s, "Service error: ");
                push_text(&mut s, m.as_str());
            },
            TranslationError::ConfigurationError(m) => {
                push_text(&mut s, "Configuration error: ");
                push_text(&mut s, m.as_str());
            },
            TranslationError::Other(m) => {
                push_text(&mut s, "Error: ");
                push_text(&mut s, m.as_str());
            },
        }
        s
    }
}

/// The text that describes an error.
pub open spec fn message(e: TranslationError) -> Seq<char>
    decreases e, 0nat,
{
    match e {
        TranslationError::NetworkError(m) => "Network error: "@ + m@,
        TranslationError::HttpError { status, body } => "HTTP error "@ + decimal(status as nat)
            + ": "@ + body@,
        TranslationError::AuthenticationError(m) => "Authentication error: "@ + m@,
        TranslationError::TimeoutError => "Request timeout"@,
        TranslationError::MaxRetriesExceeded { attempts, errors } => "Max retries exceeded after "@
            + decimal(attempts as nat) + " attempts\n"@ + attempt_lines(errors, errors.len() as nat),
        TranslationError::ServiceError(m) => "Service error: "@ + m@,
        TranslationError::ConfigurationError(m) => "Configuration error: "@ + m@,
        TranslationError::Other(m) => "Error: "@ + m@,
    }
}

/// One line for each of the first `n` attempts, numbered from 1.
pub open spec fn attempt_lines(errors: Vec<TranslationError>, n: nat) -> Seq<char>
    decreases errors, n,
{
    if n == 0 || n > errors.len() {
        Seq::empty()
    } else {
        attempt_lines(errors, (n - 1) as nat) + "  Attempt "@ + decimal(n) + ": "@ + message(
            errors[n - 1],
        ) + "\n"@
    }
}

} // verus!
