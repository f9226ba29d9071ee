//! The gateway's error taxonomy and the exact JSON bodies its error
//! responses carry.
//!
//! The response assembly (status line, transport) happens outside this crate;
//! the status codes and body text are composed and pinned down here. String
//! content placed inside a JSON string is escaped character by character.

use vstd::prelude::*;
use vstd::string::StringExecFns;

use crate::rate_limiter::{Status, spec_remaining};
use crate::text::{dec_digits, hex_digit_char, hex_digit_str, push_char, u32_to_dec, u64_to_dec};

verus! {

/// How one character appears inside a JSON string literal: quote and
/// backslash are escaped, control characters take the \u00XX form, everything
/// else stands for itself.
pub open spec fn escape_char(c: char) -> Seq<char> {
    if c == '"' {
        seq!['\\', '"']
    } else if c == '\\' {
        seq!['\\', '\\']
    } else if (c as u32) < 32 {
        seq!['\\', 'u', '0', '0', hex_digit_char(((c as u32) / 16) as nat), hex_digit_char(
            ((c as u32) % 16) as nat,
        )]
    } else {
        seq![c]
    }
}

/// The characters as they appear inside a JSON string literal.
pub open spec fn json_escaped(s: Seq<char>) -> Seq<char> {
    s.flat_map(|c: char| escape_char(c))
}

/// Escapes the characters for placement inside a JSON string literal.
pub fn json_escape(s: &str) -> (r: String)
    ensures
        r@ == json_escaped(s@),
{
    let n = s.unicode_len();
    let mut r = String::new();
    let mut i: usize = 0;
    while i < n
        invariant
            i <= n,
            n == s@.len(),
            r@ == s@.take(i as int).flat_map(|c: char| escape_char(c)),
        decreases n - i,
    {
        let c = s.get_char(i);
        if c == '"' {
            r.append("\\\"");
            proof {
                reveal_strlit("\\\"");
                assert("\\\""@ =~= escape_char(c));
            }
        } else if c == '\\' {
            r.append("\\\\");
            proof {
                reveal_strlit("\\\\");
                assert("\\\\"@ =~= escape_char(c));
            }
        } else if (c as u32) < 32 {
            let v = c as u32;
            r.append("\\u00");
            r.append(hex_digit_str(v / 16));
            r.append(hex_digit_str(v % 16));
            proof {
                reveal_strlit("\\u00");
                assert("\\u00"@ + seq![hex_digit_char((v / 16) as nat)] + seq![
                    hex_digit_char((v % 16) as nat),
                ] =~= escape_char(c));
            }
        } else {
            push_char(&mut r, c);
            proof {
                assert(seq![c] =~= escape_char(c));
            }
        }
        proof {
            s@.take(i as int).lemma_flat_map_push(|c2: char| escape_char(c2), c);
            assert(s@.take((i + 1) as int) =~= s@.take(i as int).push(c));
            assert(r@ =~= s@.take((i + 1) as int).flat_map(|c2: char| escape_char(c2)));
        }
        i = i + 1;
    }
    proof {
        assert(s@.take(s@.len() as int) =~= s@);
    }
    r
}

/// The errors a handler surfaces. Errors carrying a cause from outside the
/// gateway are mapped into these before a response is composed.
#[derive(Debug, Clone)]
pub enum APIError {
    /// A bare status code, with an empty body.
    Status {
        /// The HTTP status code.
        status: u16,
    },
    /// A status code with a message.
    StatusMsg {
        /// The HTTP status code.
        status: u16,
        /// The message placed in the body.
        message: String,
    },
    /// The rate limiter rejected the request.
    RateLimitExceeded {
        /// The violated scope's status.
        status: Status,
    },
    /// An internal failure.
    InternalError {
        /// What failed, placed in the body.
        message: String,
    },
}

/// The JSON body of a status-with-message response.
pub open spec fn spec_status_msg_body(status: u16, message: Seq<char>) -> Seq<char> {
    "{\"status\":"@ + dec_digits(status as nat) + ",\"error\":\""@ + json_escaped(message) + "\"}"@
}

/// The JSON body of a rate-limit rejection: the quota (its limit, its period
/// in seconds), the requests counted, and what remains of the limit.
pub open spec fn spec_rate_limit_body(st: Status) -> Seq<char> {
    "{\"status\":429,\"error\":{\"quota\":{\"limit\":"@ + dec_digits(st.quota.limit as nat)
        + ",\"period\":"@ + dec_digits((st.quota.period_ms / 1000) as nat) + "},\"requests\":"@
        + dec_digits(st.requests as nat) + ",\"remaining\":"@ + dec_digits(
        spec_remaining(st.quota.limit, st.requests) as nat,
    ) + "}}"@
}

/// The JSON body of each error response.
pub open spec fn spec_error_body(e: APIError) -> Seq<char> {
    match e {
        APIError::Status { .. } => Seq::empty(),
        APIError::StatusMsg { status, message } => spec_status_msg_body(status, message@),
        APIError::RateLimitExceeded { status } => spec_rate_limit_body(status),
        APIError::InternalError { message } => spec_status_msg_body(
            500,
            "Internal server error: "@ + message@,
        ),
    }
}

/// The HTTP status code of each error.
pub open spec fn spec_status_code(e: APIError) -> u16 {
    match e {
        APIError::Status { status } => status,
        APIError::StatusMsg { status, .. } => status,
        APIError::RateLimitExceeded { .. } => 429u16,
        APIError::InternalError { .. } => 500u16,
    }
}

impl APIError {
    /// An error with the given status and message.
    pub fn status_msg(status: u16, message: &str) -> (r: Self)
        ensures
            r matches APIError::StatusMsg { status: s, message: m } && s == status && m@
                == message@,
    {
        APIError::StatusMsg { status, message: message.to_owned() }
    }

    /// An internal failure.
    pub fn internal(message: &str) -> (r: Self)
        ensures
            r matches APIError::InternalError { message: m } && m@ == message@,
    {
        APIError::InternalError { message: message.to_owned() }
    }

    /// The refusal served for a protected user.
    pub fn protected_user() -> (r: Self)
        ensures
            r matches APIError::StatusMsg { status: s, message: m } && s == 403 && m@
                == "The requested user is protected."@,
    {
        APIError::StatusMsg { status: 403, message: "The requested user is protected.".to_owned() }
    }

    /// A rejection of invalid input.
    pub fn bad_request(message: &str) -> (r: Self)
        ensures
            r matches APIError::StatusMsg { status: s, message: m } && s == 400 && m@ == message@,
    {
        APIError::StatusMsg { status: 400, message: message.to_owned() }
    }

    /// The HTTP status code this error is served with.
    pub fn status_code(&self) -> (r: u16)
        ensures
            r == spec_status_code(*self),
    {
        match self {
            APIError::Status { status } => *status,
            APIError::StatusMsg { status, .. } => *status,
            APIError::RateLimitExceeded { .. } => 429,
            APIError::InternalError { .. } => 500,
        }
    }

    /// The JSON body this error is served with.
    pub fn body(&self) -> (r: String)
        ensures
            r@ == spec_error_body(*self),
    {
        match self {
            APIError::Status { .. } => String::new(),
            APIError::StatusMsg { status, message } => {
                let mut r = "{\"status\":".to_owned();
                let code = u64_to_dec(*status as u64);
                r.append(code.as_str());
                r.append(",\"error\":\"");
                let escaped = json_escape(message.as_str());
                r.append(escaped.as_str());
                r.append("\"}");
                proof {
                    assert(r@ =~= spec_error_body(*self));
                }
                r
            },
            APIError::RateLimitExceeded { status } => {
                let mut r = "{\"status\":429,\"error\":{\"quota\":{\"limit\":".to_owned();
                let limit = u32_to_dec(status.quota.limit);
                r.append(limit.as_str());
                r.append(",\"period\":");
                let period = u64_to_dec(status.quota.period_ms / 1000);
                r.append(period.as_str());
                r.append("},\"requests\":");
                let requests = u32_to_dec(status.requests);
                r.append(requests.as_str());
                r.append(",\"remaining\":");
                let remaining = u32_to_dec(status.remaining());
                r.append(remaining.as_str());
                r.append("}}");
                proof {
                    assert(r@ =~= spec_error_body(*self));
                }
                r
            },
            APIError::InternalError { message } => {
                let mut full = "Internal server error: ".to_owned();
                full.append(message.as_str());
                let mut r = "{\"status\":500,\"error\":\"".to_owned();
                let escaped = json_escape(full.as_str());
                r.append(escaped.as_str());
                r.append("\"}");
                proof {
                    assert("{\"status\":500,\"error\":\""@ =~= "{\"status\":"@ + dec_digits(500nat)
                        + ",\"error\":\""@) by {
                        reveal_strlit("{\"status\":500,\"error\":\"");
                        reveal_strlit("{\"status\":");
                        reveal_strlit(",\"error\":\"");
                        reveal_with_fuel(dec_digits, 4);
                        assert(dec_digits(500nat) =~= seq!['5', '0', '0']);
                    }
                    assert(r@ =~= spec_error_body(*self));
                }
                r
            },
        }
    }
}

} // verus!
