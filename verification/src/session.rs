//! What passes between the engine and the code that talks to the network:
//! the state of one forwarded request, the events that are reported to the
//! engine and the actions that it asks for.
//!
//! Each type has a model made of plain values, over which the engine's
//! contracts are stated.

use crate::error::ProxyError;
use crate::headers::{header_fields, header_text, text_of};
use crate::method::HttpMethod;
use crate::token::{token_outcome, TokenRequest, TokenRequestModel, TokenResponse};
use reqwest::header::HeaderMap;
use vstd::prelude::*;

verus! {

/// Why an outbound request is made.
#[derive(Clone, Copy, Debug, PartialEq, Eq, Structural)]
pub enum Purpose {
    /// The request as it was asked for, at the upstream registry.
    Upstream,
    /// The request once more, at the address that a redirect named.
    Redirect,
    /// The request once more, with a Bearer token.
    Reauthenticated,
    /// An attempt at one of the fall-back addresses of a refused blob.
    Candidate,
    /// The address to which a fall-back address redirected.
    CandidateRedirect,
    /// The last, direct attempt at a refused blob.
    Direct,
    /// A question to the Hub API about a refused manifest.
    HubApi,
}

/// Which answer goes back to the client.
#[derive(Clone, Copy, Debug, PartialEq, Eq, Structural)]
pub enum Answer {
    /// The reply that was reported last.
    Latest,
    /// The reply that was put aside.
    Held,
}

/// Where a forwarded request stands.
#[derive(Clone, Copy, Debug, PartialEq, Eq, Structural)]
pub enum Phase {
    /// The request is out; nothing was tried before.
    First,
    /// A token is asked for, to answer a challenge.
    Challenge,
    /// The request is out once more, with the token.
    Retry,
    /// The Hub API is asked about a refused manifest.
    HubApi,
    /// A token is asked for before a blob is fetched.
    PreAuth,
    /// The request for a blob is out.
    Blob,
    /// A token is asked for, to answer a challenge to a blob request.
    BlobAuth,
    /// Attempt `attempt` (from 1) at fall-back address `index` (from 0) is out.
    Candidate { index: usize, attempt: usize },
    /// The address that fall-back address `index` redirected to is asked.
    CandidateRedirect { index: usize, attempt: usize },
    /// A token is asked for before the direct attempt.
    DirectAuth,
    /// The direct attempt is out.
    Direct,
    /// The answer was chosen, or the request failed.
    Done,
}

/// One request for the network code to send.
#[derive(Debug)]
pub struct OutboundRequest {
    pub purpose: Purpose,
    pub method: HttpMethod,
    pub url: String,
    pub headers: HeaderMap,
    /// Whether the body of the inbound request goes with it.
    pub send_body: bool,
    /// After how many seconds the request is given up.
    pub timeout_secs: u64,
    /// How many seconds to wait before sending.
    pub delay_secs: u64,
    /// Whether the HTTP client may follow redirects by itself. It may not
    /// where the engine follows them, or gives up on them, itself.
    pub follow_redirects: bool,
}

/// An outbound request as plain values.
#[verifier::ext_equal]
pub struct RequestModel {
    pub purpose: Purpose,
    pub method: HttpMethod,
    pub url: Seq<char>,
    pub fields: Map<Seq<char>, Seq<Seq<u8>>>,
    pub send_body: bool,
    pub timeout_secs: u64,
    pub delay_secs: u64,
    pub follow_redirects: bool,
}

impl OutboundRequest {
    pub open spec fn model(&self) -> RequestModel {
        RequestModel {
            purpose: self.purpose,
            method: self.method,
            url: self.url@,
            fields: header_fields(self.headers),
            send_body: self.send_body,
            timeout_secs: self.timeout_secs,
            delay_secs: self.delay_secs,
            follow_redirects: self.follow_redirects,
        }
    }
}

/// An error as plain values.
#[verifier::ext_equal]
pub enum ErrorModel {
    UnsupportedRegistry(Seq<char>),
    UnsupportedMethod(Seq<char>),
    TokenRequestFailed(u16),
    TokenMissing,
    TooManyRedirects,
    UpstreamTransport,
    BodyReadFailed,
    HeaderRejected,
    UnexpectedEvent,
}

/// The model of an error.
pub open spec fn error_model(error: ProxyError) -> ErrorModel {
    match error {
        ProxyError::UnsupportedRegistry(key) => ErrorModel::UnsupportedRegistry(key@),
        ProxyError::UnsupportedMethod(verb) => ErrorModel::UnsupportedMethod(verb@),
        ProxyError::TokenRequestFailed(status) => ErrorModel::TokenRequestFailed(status),
        ProxyError::TokenMissing => ErrorModel::TokenMissing,
        ProxyError::TooManyRedirects => ErrorModel::TooManyRedirects,
        ProxyError::UpstreamTransport => ErrorModel::UpstreamTransport,
        ProxyError::BodyReadFailed => ErrorModel::BodyReadFailed,
        ProxyError::HeaderRejected => ErrorModel::HeaderRejected,
        ProxyError::UnexpectedEvent => ErrorModel::UnexpectedEvent,
    }
}

/// What the engine asks the network code to do next.
///
/// The network code keeps at most one reply aside. Where `hold_reply` is
/// set, the reply that it reported last takes that place; where it is not,
/// that reply is dropped.
#[derive(Debug)]
pub enum Action {
    /// Send the request and report the reply, or that sending failed.
    Send { request: OutboundRequest, hold_reply: bool },
    /// Ask the token service and report its answer, or that asking failed.
    FetchToken { token_request: TokenRequest, hold_reply: bool },
    /// Hand the chosen reply to the client. The request is done.
    Respond(Answer),
    /// Tell the client that forwarding failed. The request is done.
    Fail(ProxyError),
}

/// An action as plain values.
#[verifier::ext_equal]
pub enum ActionModel {
    Send { request: RequestModel, hold_reply: bool },
    FetchToken { token_request: TokenRequestModel, hold_reply: bool },
    Respond(Answer),
    Fail(ErrorModel),
}

impl Action {
    pub open spec fn model(&self) -> ActionModel {
        match *self {
            Action::Send { request, hold_reply } => ActionModel::Send {
                request: request.model(),
                hold_reply,
            },
            Action::FetchToken { token_request, hold_reply } => ActionModel::FetchToken {
                token_request: token_request.model(),
                hold_reply,
            },
            Action::Respond(answer) => ActionModel::Respond(answer),
            Action::Fail(error) => ActionModel::Fail(error_model(error)),
        }
    }
}

/// What the engine reads of a reply: its status and two of its fields.
#[derive(Debug)]
pub struct UpstreamReply {
    pub status: u16,
    pub location: Option<String>,
    pub www_authenticate: Option<String>,
}

/// The view of a text that may be missing.
pub open spec fn text_model(text: Option<String>) -> Option<Seq<char>> {
    match text {
        Some(t) => Some(t@),
        None => None,
    }
}

/// Reads what the engine needs out of a reply's status and header set.
pub fn read_reply(status: u16, headers: &HeaderMap) -> (out: UpstreamReply)
    ensures
        out.status == status,
        text_model(out.location) == text_of(header_fields(*headers), "location"@),
        text_model(out.www_authenticate) == text_of(header_fields(*headers), "www-authenticate"@),
{
    UpstreamReply {
        status,
        location: header_text(headers, "location"),
        www_authenticate: header_text(headers, "www-authenticate"),
    }
}

/// What the network code reports to the engine.
pub enum Event {
    /// The reply to the request that was sent.
    Reply(UpstreamReply),
    /// The request could not be sent, or no reply came.
    SendFailed,
    /// The answer of the token service: its status, and its body if that
    /// could be decoded.
    Token { status: u16, body: Option<TokenResponse> },
    /// The token service could not be asked.
    TokenFailed,
}

/// An event as plain values. Of a token exchange only the token counts.
#[verifier::ext_equal]
pub enum EventModel {
    Reply { status: u16, location: Option<Seq<char>>, challenge: Option<Seq<char>> },
    SendFailed,
    Token(Option<Seq<char>>),
}

impl Event {
    pub open spec fn model(&self) -> EventModel {
        match *self {
            Event::Reply(reply) => EventModel::Reply {
                status: reply.status,
                location: text_model(reply.location),
                challenge: text_model(reply.www_authenticate),
            },
            Event::SendFailed => EventModel::SendFailed,
            Event::Token { status, body } => EventModel::Token(
                match token_outcome(status, body) {
                    Ok(token) => Some(token),
                    Err(_) => None,
                },
            ),
            Event::TokenFailed => EventModel::Token(None),
        }
    }
}

/// The state of a forwarded request as plain values.
#[verifier::ext_equal]
pub struct SessionModel {
    pub host: Seq<char>,
    pub docker_hub: bool,
    pub method: HttpMethod,
    pub send_body: bool,
    pub path: Seq<char>,
    pub blob: bool,
    pub fallback_enabled: bool,
    pub url: Seq<char>,
    pub prepared: Map<Seq<char>, Seq<Seq<u8>>>,
    pub phase: Phase,
    pub current_url: Seq<char>,
    pub current: Map<Seq<char>, Seq<Seq<u8>>>,
    pub redirects_followed: nat,
    pub fallback_requests: nat,
}

} // verus!
