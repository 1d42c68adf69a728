//! What can go wrong while a request is forwarded.

use crate::text::join;
use vstd::prelude::*;

verus! {

/// The ways in which forwarding a request fails.
#[derive(Debug, PartialEq, Eq)]
pub enum ProxyError {
    /// The registry key is neither `v2` nor a key of the table.
    UnsupportedRegistry(String),
    /// The verb is none of GET, POST, PUT, DELETE, HEAD and PATCH.
    UnsupportedMethod(String),
    /// The token service answered with this status, outside 200..=299.
    TokenRequestFailed(u16),
    /// The token service answered without a token.
    TokenMissing,
    /// A blob was redirected more often than the engine follows.
    TooManyRedirects,
    /// A request could not be delivered, or its answer not received.
    UpstreamTransport,
    /// A body could not be read.
    BodyReadFailed,
    /// The header sets of the request cannot be built for certain: no
    /// header can carry the upstream host, or the inbound header set has no
    /// room for the fields that the request may add.
    HeaderRejected,
    /// An event was reported that answers no action of the session.
    UnexpectedEvent,
}

/// The text that tells a caller about an error.
pub open spec fn error_text(error: ProxyError) -> Seq<char> {
    match error {
        ProxyError::UnsupportedRegistry(key) => "Unsupported registry: "@ + key@,
        ProxyError::UnsupportedMethod(verb) => "Unsupported method: "@ + verb@,
        ProxyError::TokenRequestFailed(status) => "Token request failed: "@ + decimal(
            status as nat,
        ),
        ProxyError::TokenMissing => "Token response holds no token"@,
        ProxyError::TooManyRedirects => "Too many redirects"@,
        ProxyError::UpstreamTransport => "Upstream request failed"@,
        ProxyError::BodyReadFailed => "Failed to read body"@,
        ProxyError::HeaderRejected => "Request headers could not be built"@,
        ProxyError::UnexpectedEvent => "Unexpected event"@,
    }
}

/// The text of one decimal digit.
pub open spec fn digit(d: nat) -> Seq<char> {
    if d == 0 {
        "0"@
    } else if d == 1 {
        "1"@
    } else if d == 2 {
        "2"@
    } else if d == 3 {
        "3"@
    } else if d == 4 {
        "4"@
    } else if d == 5 {
        "5"@
    } else if d == 6 {
        "6"@
    } else if d == 7 {
        "7"@
    } else if d == 8 {
        "8"@
    } else {
        "9"@
    }
}

/// A number in decimal digits, without leading zeros.
pub open spec fn decimal(n: nat) -> Seq<char>
    decreases n,
{
    if n < 10 {
        digit(n)
    } else {
        decimal(n / 10) + digit(n % 10)
    }
}

/// The text of one decimal digit.
fn digit_str(d: u16) -> (out: &'static str)
    requires
        d < 10,
    ensures
        out@ == digit(d as nat),
{
    if d == 0 {
        "0"
    } else if d == 1 {
        "1"
    } else if d == 2 {
        "2"
    } else if d == 3 {
        "3"
    } else if d == 4 {
        "4"
    } else if d == 5 {
        "5"
    } else if d == 6 {
        "6"
    } else if d == 7 {
        "7"
    } else if d == 8 {
        "8"
    } else {
        "9"
    }
}

/// Writes a number in decimal digits.
pub fn decimal_string(n: u16) -> (out: String)
    ensures
        out@ == decimal(n as nat),
    decreases n,
{
    if n < 10 {
        digit_str(n).to_owned()
    } else {
        let head = decimal_string(n / 10);
        join(head.as_str(), digit_str(n % 10))
    }
}

impl ProxyError {
    /// The text that tells a caller about this error.
    pub fn message(&self) -> (out: String)
        ensures
            out@ == error_text(*self),
    {
        match self {
            ProxyError::UnsupportedRegistry(key) => join("Unsupported registry: ", key.as_str()),
            ProxyError::UnsupportedMethod(verb) => join("Unsupported method: ", verb.as_str()),
            ProxyError::TokenRequestFailed(status) => join(
                "Token request failed: ",
                decimal_string(*status).as_str(),
            ),
            ProxyError::TokenMissing => "Token response holds no token".to_owned(),
            ProxyError::TooManyRedirects => "Too many redirects".to_owned(),
            ProxyError::UpstreamTransport => "Upstream request failed".to_owned(),
            ProxyError::BodyReadFailed => "Failed to read body".to_owned(),
            ProxyError::HeaderRejected => "Request headers could not be built".to_owned(),
            ProxyError::UnexpectedEvent => "Unexpected event".to_owned(),
        }
    }
}

} // verus!
