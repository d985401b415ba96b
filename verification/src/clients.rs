//! The HTTP-level vocabulary that REST resources use: methods, responses
//! and the errors a request can end in.
use vstd::prelude::*;

use crate::json::JsonValue;
use crate::text::{decimal, push_decimal};

verus! {

/// HTTP methods used by REST requests.
#[derive(Debug, Clone, Copy, PartialEq, Eq, Hash, Structural)]
pub enum HttpMethod {
    /// GET request.
    Get,
    /// POST request.
    Post,
    /// PUT request.
    Put,
    /// DELETE request.
    Delete,
}

/// An HTTP response that ended in an error status.
#[derive(Debug, Clone, PartialEq, Eq)]
pub struct HttpResponseError {
    /// The HTTP status code.
    pub code: u16,
    /// The error message, usually the response body.
    pub message: String,
    /// The request ID reported by the server, for support requests.
    pub error_reference: Option<String>,
}

/// A request that kept failing until its retry budget ran out.
#[derive(Debug, Clone, PartialEq, Eq)]
pub struct MaxRetriesError {
    /// The HTTP status code of the last attempt.
    pub code: u16,
    /// How many attempts were made.
    pub tries: u32,
    /// The request ID reported by the server for the last attempt.
    pub error_reference: Option<String>,
}

/// Errors at the HTTP level.
#[derive(Debug, Clone, PartialEq, Eq)]
pub enum HttpError {
    /// The server answered with an error status.
    Response(HttpResponseError),
    /// The retry budget ran out.
    MaxRetries(MaxRetriesError),
}

/// Errors of the REST client.
#[derive(Debug, Clone, PartialEq, Eq)]
pub enum RestError {
    /// A request path could not be used.
    InvalidPath {
        /// The offending path.
        path: String,
    },
}

/// A response from the REST API.
#[derive(Debug, PartialEq, Eq)]
pub struct HttpResponse {
    /// The HTTP status code.
    pub code: u16,
    /// The parsed JSON body.
    pub body: JsonValue,
    /// The value of the `X-Request-Id` header, if any.
    pub request_id: Option<String>,
}

/// The text of an HTTP response error: `HTTP <code>: <message>`.
pub open spec fn response_error_text(e: HttpResponseError) -> Seq<char> {
    seq!['H', 'T', 'T', 'P', ' '] + decimal(e.code as nat) + seq![':', ' '] + e.message@
}

/// The text of a retry-budget error:
/// `Maximum retries (<tries>) reached; last status <code>`.
pub open spec fn max_retries_text(e: MaxRetriesError) -> Seq<char> {
    seq!['M', 'a', 'x', 'i', 'm', 'u', 'm', ' ', 'r', 'e', 't', 'r', 'i', 'e', 's', ' ', '(']
        + decimal(e.tries as nat) + seq![')', ' ', 'r', 'e', 'a', 'c', 'h', 'e', 'd', ';', ' ', 'l',
        'a', 's', 't', ' ', 's', 't', 'a', 't', 'u', 's', ' '] + decimal(e.code as nat)
}

/// The text of an HTTP error.
pub open spec fn http_error_text(e: HttpError) -> Seq<char> {
    match e {
        HttpError::Response(r) => response_error_text(r),
        HttpError::MaxRetries(m) => max_retries_text(m),
    }
}

/// The text of a REST client error: `Invalid path: <path>`.
pub open spec fn rest_error_text(e: RestError) -> Seq<char> {
    match e {
        RestError::InvalidPath { path } => seq![
            'I',
            'n',
            'v',
            'a',
            'l',
            'i',
            'd',
            ' ',
            'p',
            'a',
            't',
            'h',
            ':',
            ' ',
        ] + path@,
    }
}

impl HttpError {
    /// A human-readable description of the error.
    pub fn message(&self) -> (s: String)
        ensures
            s@ == http_error_text(*self),
    {
        let mut s = String::new();
        match self {
            HttpError::Response(r) => {
                s.append("HTTP ");
                push_decimal(&mut s, r.code as u64);
                s.append(": ");
                s.append(r.message.as_str());
                proof {
                    reveal_strlit("HTTP ");
                    reveal_strlit(": ");
                }
            },
            HttpError::MaxRetries(m) => {
                s.append("Maximum retries (");
                push_decimal(&mut s, m.tries as u64);
                s.append(") reached; last status ");
                push_decimal(&mut s, m.code as u64);
                proof {
                    reveal_strlit("Maximum retries (");
                    reveal_strlit(") reached; last status ");
                }
            },
        }
        s
    }
}

impl RestError {
    /// A human-readable description of the error.
    pub fn message(&self) -> (s: String)
        ensures
            s@ == rest_error_text(*self),
    {
        match self {
            RestError::InvalidPath { path } => {
                let mut s = String::new();
                s.append("Invalid path: ");
                s.append(path.as_str());
                proof {
                    reveal_strlit("Invalid path: ");
                }
                s
            },
        }
    }
}

impl HttpResponse {
    /// Whether the status code is a success (2xx).
    pub fn is_ok(&self) -> (r: bool)
        ensures
            r == (200 <= self.code <= 299),
    {
        200 <= self.code && self.code <= 299
    }
}

} // verus!
