//! The library's two-kind error taxonomy and the shared response classifier.
use vstd::prelude::*;
use vstd::string::StringExecFns;

use crate::num::dec_digits;
use crate::num::u64_to_dec;

verus! {

/// The error type for the Lemonaid library.
///
/// A transport-level failure (including a body that could not be decoded)
/// and a complete HTTP response with a failure status stay distinguishable.
#[derive(Clone, Debug)]
pub enum LemonaidError {
    /// An HTTP/network/decode error from the transport layer.
    Http { message: String },
    /// An API error response with status code and message body.
    Api { status: u16, message: String },
}

/// A status in the HTTP success range.
pub open spec fn is_success_status(status: u16) -> bool {
    200 <= status < 300
}

impl LemonaidError {
    /// True of the transport-or-decode kind.
    pub fn is_http(&self) -> (r: bool)
        ensures
            r == (self matches LemonaidError::Http { .. }),
    {
        match self {
            LemonaidError::Http { .. } => true,
            LemonaidError::Api { .. } => false,
        }
    }

    /// True of the kind carrying a non-success HTTP status.
    pub fn is_api(&self) -> (r: bool)
        ensures
            r == (self matches LemonaidError::Api { .. }),
    {
        match self {
            LemonaidError::Api { .. } => true,
            LemonaidError::Http { .. } => false,
        }
    }

    /// A one-line description of the error.
    pub fn describe(&self) -> (s: String)
        ensures
            (match self {
                LemonaidError::Http { message } => s@ == "HTTP error: "@ + message@,
                LemonaidError::Api { status, message } => s@ == "API error ("@ + dec_digits(
                    *status as nat,
                ) + "): "@ + message@,
            }),
    {
        match self {
            LemonaidError::Http { message } => {
                let mut s = String::from_str("HTTP error: ");
                s.append(message.as_str());
                s
            },
            LemonaidError::Api { status, message } => {
                let mut s = String::from_str("API error (");
                let code = u64_to_dec(*status as u64);
                s.append(code.as_str());
                s.append("): ");
                s.append(message.as_str());
                proof {
                    assert(s@ =~= "API error ("@ + dec_digits(*status as nat) + "): "@
                        + message@);
                }
                s
            },
        }
    }
}

/// Classifies a complete HTTP response before any body decoding: a success
/// status passes the body through unchanged; any other status becomes an API
/// error carrying the status and the body text, with a fixed placeholder
/// where the body could not be read.
pub fn classify_response(status: u16, body: Option<String>) -> (r: Result<
    Option<String>,
    LemonaidError,
>)
    ensures
        is_success_status(status) ==> r == Ok::<Option<String>, LemonaidError>(body),
        !is_success_status(status) ==> (match r {
            Err(LemonaidError::Api { status: st, message }) => st == status && (match body {
                Some(b) => message == b,
                None => message@ == "unknown error"@,
            }),
            _ => false,
        }),
{
    if 200 <= status && status < 300 {
        Ok(body)
    } else {
        let message = match body {
            Some(b) => b,
            None => String::from_str("unknown error"),
        };
        Err(LemonaidError::Api { status, message })
    }
}

} // verus!
