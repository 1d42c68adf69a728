//! The engine as a function on plain values: from the state of a forwarded
//! request and an event to the next state and the action to take.
//!
//! A request is taken up only where its header sets are sure to be built:
//! the host must be a text that a header can carry, and the inbound header
//! set must have room for the fields that are written in the course of the
//! request. From then on every decision is a function of the state and the
//! event alone.

use crate::blob::{
    fallback_candidates, hub_api_url, is_blob_path, pull_scope, repository_in, upstream_url,
};
use crate::challenge::{param_value, parse_challenge};
use crate::config::RegistryConfig;
use crate::headers::{
    agent_fields, bearer_fields, blob_fields, direct_fields, has_room, is_value, prepared_fields,
    BLOB_FIELDS, BROWSER_USER_AGENT, DOCKER_HUB_HOST, GO_USER_AGENT, PREPARED_FIELDS,
    PROXY_USER_AGENT,
};
use crate::method::{method_of, HttpMethod};
use crate::path::canonical_path;
use crate::session::{
    ActionModel, Answer, ErrorModel, EventModel, Phase, Purpose, RequestModel, SessionModel,
};
use crate::text::same_ignoring_case;
use crate::token::{token_request_model, AUTH_REALM, AUTH_SERVICE};
use vstd::prelude::*;

verus! {

/// How many redirects are followed for one blob.
pub const MAX_REDIRECTS: usize = 10;

/// After how many seconds an outbound request is given up.
pub const REQUEST_TIMEOUT_SECS: u64 = 300;

/// How many fall-back addresses are tried for a refused blob.
pub const CANDIDATES: usize = 3;

/// How often one fall-back address is tried.
pub const ATTEMPTS: usize = 3;

/// For how many further names the inbound header set must have room: for
/// those that preparing and seeding write, for `Authorization`, and for one
/// more, so that the set stays below the limit once all are written.
pub const SESSION_FIELDS: usize = PREPARED_FIELDS + BLOB_FIELDS + 2;

/// Whether a status is a redirect: 300 to 399.
pub open spec fn is_redirect(status: u16) -> bool {
    300 <= status && status < 400
}

/// The host that a registry key stands for: Docker Hub for `v2`, else what
/// the table says.
pub open spec fn resolve_host(config: RegistryConfig, registry_key: Seq<char>) -> Option<
    Seq<char>,
> {
    if registry_key == "v2"@ {
        Some(DOCKER_HUB_HOST@)
    } else {
        config.host_of(registry_key)
    }
}

/// The value of the parameter `name`, or the empty text where there is none.
pub open spec fn param_or_empty(params: Seq<(Seq<char>, Seq<char>)>, name: Seq<char>) -> Seq<
    char,
> {
    match param_value(params, name) {
        Some(value) => value,
        None => Seq::<char>::empty(),
    }
}

/// The realm, service and scope of a Bearer challenge; nothing where the
/// field is missing, is no challenge, or has another scheme.
pub open spec fn bearer_challenge(challenge: Option<Seq<char>>) -> Option<
    (Seq<char>, Seq<char>, Seq<char>),
> {
    match challenge {
        Some(value) => match parse_challenge(value) {
            Some((scheme, params)) => if same_ignoring_case(scheme, "bearer"@) {
                Some(
                    (
                        param_or_empty(params, "realm"@),
                        param_or_empty(params, "service"@),
                        param_or_empty(params, "scope"@),
                    ),
                )
            } else {
                None
            },
            None => None,
        },
        None => None,
    }
}

/// The token of a token exchange, if it yielded one that a header can carry.
pub open spec fn usable_token(token: Option<Seq<char>>) -> Option<Seq<char>> {
    match token {
        Some(t) => if t.len() > 0 && is_value(t) {
            Some(t)
        } else {
            None
        },
        None => None,
    }
}

/// The user agent with which fall-back address `index` is asked.
pub open spec fn candidate_agent(index: int) -> Seq<char> {
    if index == 0 {
        PROXY_USER_AGENT@
    } else if index == 1 {
        GO_USER_AGENT@
    } else {
        BROWSER_USER_AGENT@
    }
}

/// The seconds to wait before attempt `attempt` at a fall-back address:
/// none before the first, one before the second, two before the third.
pub open spec fn delay_before(attempt: int) -> u64 {
    if attempt <= 1 {
        0
    } else if attempt == 2 {
        1
    } else {
        2
    }
}

/// The state after the request is done.
pub open spec fn finished(m: SessionModel) -> SessionModel {
    SessionModel { phase: Phase::Done, ..m }
}

/// The request ends with an answer.
pub open spec fn respond(m: SessionModel, answer: Answer) -> (SessionModel, ActionModel) {
    (finished(m), ActionModel::Respond(answer))
}

/// The request ends with an error.
pub open spec fn fail(m: SessionModel, error: ErrorModel) -> (SessionModel, ActionModel) {
    (finished(m), ActionModel::Fail(error))
}

/// A token is asked for, and the state moves to `phase`.
pub open spec fn ask_token(
    basic_auth: Option<(Seq<char>, Seq<char>)>,
    m: SessionModel,
    phase: Phase,
    realm: Seq<char>,
    service: Seq<char>,
    scope: Seq<char>,
    hold_reply: bool,
) -> (SessionModel, ActionModel) {
    (
        SessionModel { phase, ..m },
        ActionModel::FetchToken {
            token_request: token_request_model(basic_auth, realm, service, scope),
            hold_reply,
        },
    )
}

/// A GET without a body, as the fall-backs make them. Only the question to
/// the Hub API leaves redirects to the HTTP client.
pub open spec fn plain_get(
    purpose: Purpose,
    url: Seq<char>,
    fields: Map<Seq<char>, Seq<Seq<u8>>>,
    delay_secs: u64,
) -> RequestModel {
    RequestModel {
        purpose,
        method: HttpMethod::Get,
        url,
        fields,
        send_body: false,
        timeout_secs: REQUEST_TIMEOUT_SECS,
        delay_secs,
        follow_redirects: purpose == Purpose::HubApi,
    }
}

/// The request of the client, at `url` and with `fields`. Redirects of a
/// blob request are the engine's business, those of any other request the
/// HTTP client's.
pub open spec fn client_request(
    m: SessionModel,
    purpose: Purpose,
    url: Seq<char>,
    fields: Map<Seq<char>, Seq<Seq<u8>>>,
) -> RequestModel {
    RequestModel {
        purpose,
        method: m.method,
        url,
        fields,
        send_body: m.send_body,
        timeout_secs: REQUEST_TIMEOUT_SECS,
        delay_secs: 0,
        follow_redirects: !m.blob,
    }
}

/// The fetching of a blob starts: the request goes out with the seeded
/// header set, and with the token where there is one.
pub open spec fn start_blob(m: SessionModel, token: Option<Seq<char>>) -> (
    SessionModel,
    ActionModel,
) {
    let seeded = blob_fields(m.prepared);
    let fields = match token {
        Some(t) => bearer_fields(seeded, t),
        None => seeded,
    };
    (
        SessionModel { phase: Phase::Blob, current_url: m.url, current: fields, ..m },
        ActionModel::Send {
            request: client_request(m, Purpose::Upstream, m.url, fields),
            hold_reply: false,
        },
    )
}

/// Attempt `attempt` at fall-back address `index` goes out, with the user
/// agent of that address and after the delay of that attempt.
pub open spec fn try_candidate(
    m: SessionModel,
    index: int,
    attempt: int,
    hold_reply: bool,
) -> (SessionModel, ActionModel) {
    (
        SessionModel {
            phase: Phase::Candidate { index: index as usize, attempt: attempt as usize },
            fallback_requests: m.fallback_requests + 1,
            ..m
        },
        ActionModel::Send {
            request: plain_get(
                Purpose::Candidate,
                fallback_candidates(m.current_url)[index],
                agent_fields(candidate_agent(index)),
                delay_before(attempt),
            ),
            hold_reply,
        },
    )
}

/// A token is asked for, with which the direct attempt will go out.
pub open spec fn ask_direct_token(
    basic_auth: Option<(Seq<char>, Seq<char>)>,
    m: SessionModel,
    hold_reply: bool,
) -> (SessionModel, ActionModel) {
    ask_token(
        basic_auth,
        m,
        Phase::DirectAuth,
        AUTH_REALM@,
        AUTH_SERVICE@,
        pull_scope(repository_in(m.current_url)),
        hold_reply,
    )
}

/// Fall-back address `index` is given up: the next one is tried, or,
/// after the last, the direct attempt is prepared.
pub open spec fn next_candidate(
    basic_auth: Option<(Seq<char>, Seq<char>)>,
    m: SessionModel,
    index: int,
) -> (SessionModel, ActionModel) {
    if index + 1 < CANDIDATES {
        try_candidate(m, index + 1, 1, false)
    } else {
        ask_direct_token(basic_auth, m, false)
    }
}

/// An attempt failed on the network: the address is tried again while it
/// has attempts left, else given up.
pub open spec fn retry_candidate(
    basic_auth: Option<(Seq<char>, Seq<char>)>,
    m: SessionModel,
    index: int,
    attempt: int,
) -> (SessionModel, ActionModel) {
    if attempt < ATTEMPTS {
        try_candidate(m, index, attempt + 1, false)
    } else {
        next_candidate(basic_auth, m, index)
    }
}

/// Docker Hub refused the blob: the refusal is put aside and the
/// fall-backs begin, with the first address where the blob's address names
/// a digest, else with the direct attempt.
pub open spec fn start_fallback(
    basic_auth: Option<(Seq<char>, Seq<char>)>,
    m: SessionModel,
) -> (SessionModel, ActionModel) {
    if fallback_candidates(m.current_url).len() == CANDIDATES {
        try_candidate(m, 0, 1, true)
    } else {
        ask_direct_token(basic_auth, m, true)
    }
}

/// The first reply to a request that is no blob request. A challenge of
/// Docker Hub is answered with a token; a refusal of Docker Hub to hand out
/// a manifest is put aside while the Hub API is asked about the tag;
/// anything else goes back to the client.
pub open spec fn on_first(
    basic_auth: Option<(Seq<char>, Seq<char>)>,
    m: SessionModel,
    e: EventModel,
) -> (SessionModel, ActionModel) {
    match e {
        EventModel::Reply { status, location, challenge } => {
            if m.docker_hub && status == 401 {
                match bearer_challenge(challenge) {
                    Some(c) => ask_token(basic_auth, m, Phase::Challenge, c.0, c.1, c.2, true),
                    None => respond(m, Answer::Latest),
                }
            } else if m.docker_hub && status == 403 {
                match hub_api_url(m.path) {
                    Some(url) => (
                        SessionModel { phase: Phase::HubApi, ..m },
                        ActionModel::Send {
                            request: plain_get(
                                Purpose::HubApi,
                                url,
                                agent_fields(PROXY_USER_AGENT@),
                                0,
                            ),
                            hold_reply: true,
                        },
                    ),
                    None => respond(m, Answer::Latest),
                }
            } else {
                respond(m, Answer::Latest)
            }
        },
        EventModel::SendFailed => fail(m, ErrorModel::UpstreamTransport),
        EventModel::Token(_) => fail(m, ErrorModel::UnexpectedEvent),
    }
}

/// The token that answers a challenge: with it the request goes out once
/// more; without it the challenge goes back to the client.
pub open spec fn on_challenge(m: SessionModel, e: EventModel) -> (
    SessionModel,
    ActionModel,
) {
    match e {
        EventModel::Token(token) => match usable_token(token) {
            Some(t) => (
                SessionModel { phase: Phase::Retry, ..m },
                ActionModel::Send {
                    request: client_request(
                        m,
                        Purpose::Reauthenticated,
                        m.url,
                        bearer_fields(m.prepared, t),
                    ),
                    hold_reply: false,
                },
            ),
            None => respond(m, Answer::Held),
        },
        _ => fail(m, ErrorModel::UnexpectedEvent),
    }
}

/// The reply to the request that went out with a token goes back to the
/// client whatever its status; the challenge does where no reply came.
pub open spec fn on_retry(m: SessionModel, e: EventModel) -> (SessionModel, ActionModel) {
    match e {
        EventModel::Reply { .. } => respond(m, Answer::Latest),
        EventModel::SendFailed => respond(m, Answer::Held),
        EventModel::Token(_) => fail(m, ErrorModel::UnexpectedEvent),
    }
}

/// A reply that replaces a refusal only where it is a success: that of the
/// Hub API, and that of the direct attempt.
pub open spec fn on_last_resort(m: SessionModel, e: EventModel) -> (SessionModel, ActionModel) {
    match e {
        EventModel::Reply { status, .. } => if crate::token::is_success(status) {
            respond(m, Answer::Latest)
        } else {
            respond(m, Answer::Held)
        },
        EventModel::SendFailed => respond(m, Answer::Held),
        EventModel::Token(_) => fail(m, ErrorModel::UnexpectedEvent),
    }
}

/// The token asked for before a blob is fetched: the fetching starts with
/// it or without it.
pub open spec fn on_pre_auth(m: SessionModel, e: EventModel) -> (
    SessionModel,
    ActionModel,
) {
    match e {
        EventModel::Token(token) => start_blob(m, usable_token(token)),
        _ => fail(m, ErrorModel::UnexpectedEvent),
    }
}

/// A reply to a blob request. A redirect is followed while fewer than the
/// maximum were; a challenge of Docker Hub is answered with a token; a
/// refusal of Docker Hub starts the fall-backs, where they are switched on;
/// anything else goes back to the client.
pub open spec fn on_blob(
    basic_auth: Option<(Seq<char>, Seq<char>)>,
    m: SessionModel,
    e: EventModel,
) -> (SessionModel, ActionModel) {
    match e {
        EventModel::Reply { status, location, challenge } => {
            if is_redirect(status) && location is Some {
                if m.redirects_followed >= MAX_REDIRECTS {
                    fail(m, ErrorModel::TooManyRedirects)
                } else {
                    (
                        SessionModel {
                            current_url: location->0,
                            redirects_followed: m.redirects_followed + 1,
                            ..m
                        },
                        ActionModel::Send {
                            request: client_request(m, Purpose::Redirect, location->0, m.current),
                            hold_reply: false,
                        },
                    )
                }
            } else if m.docker_hub && status == 401 {
                match bearer_challenge(challenge) {
                    Some(c) => ask_token(basic_auth, m, Phase::BlobAuth, c.0, c.1, c.2, true),
                    None => respond(m, Answer::Latest),
                }
            } else if m.docker_hub && status == 403 && m.fallback_enabled {
                start_fallback(basic_auth, m)
            } else {
                respond(m, Answer::Latest)
            }
        },
        EventModel::SendFailed => fail(m, ErrorModel::UpstreamTransport),
        EventModel::Token(_) => fail(m, ErrorModel::UnexpectedEvent),
    }
}

/// The token that answers a challenge to a blob request: with it the
/// request goes out once more, and no redirect is counted; without it the
/// challenge goes back to the client.
pub open spec fn on_blob_auth(m: SessionModel, e: EventModel) -> (
    SessionModel,
    ActionModel,
) {
    match e {
        EventModel::Token(token) => match usable_token(token) {
            Some(t) => (
                SessionModel {
                    phase: Phase::Blob,
                    current: bearer_fields(m.current, t),
                    ..m
                },
                ActionModel::Send {
                    request: client_request(
                        m,
                        Purpose::Reauthenticated,
                        m.current_url,
                        bearer_fields(m.current, t),
                    ),
                    hold_reply: false,
                },
            ),
            None => respond(m, Answer::Held),
        },
        _ => fail(m, ErrorModel::UnexpectedEvent),
    }
}

/// A reply to an attempt at a fall-back address.
pub open spec fn on_candidate(
    basic_auth: Option<(Seq<char>, Seq<char>)>,
    m: SessionModel,
    index: int,
    attempt: int,
    e: EventModel,
) -> (SessionModel, ActionModel) {
    match e {
        EventModel::Reply { status, location, challenge } => {
            if crate::token::is_success(status) {
                respond(m, Answer::Latest)
            } else if is_redirect(status) && location is Some {
                (
                    SessionModel {
                        phase: Phase::CandidateRedirect {
                            index: index as usize,
                            attempt: attempt as usize,
                        },
                        ..m
                    },
                    ActionModel::Send {
                        request: plain_get(
                            Purpose::CandidateRedirect,
                            location->0,
                            agent_fields(candidate_agent(index)),
                            0,
                        ),
                        hold_reply: false,
                    },
                )
            } else {
                next_candidate(basic_auth, m, index)
            }
        },
        EventModel::SendFailed => retry_candidate(basic_auth, m, index, attempt),
        EventModel::Token(_) => fail(m, ErrorModel::UnexpectedEvent),
    }
}

/// A reply from the address that a fall-back address redirected to.
pub open spec fn on_candidate_redirect(
    basic_auth: Option<(Seq<char>, Seq<char>)>,
    m: SessionModel,
    index: int,
    attempt: int,
    e: EventModel,
) -> (SessionModel, ActionModel) {
    match e {
        EventModel::Reply { status, .. } => {
            if crate::token::is_success(status) {
                respond(m, Answer::Latest)
            } else {
                next_candidate(basic_auth, m, index)
            }
        },
        EventModel::SendFailed => retry_candidate(basic_auth, m, index, attempt),
        EventModel::Token(_) => fail(m, ErrorModel::UnexpectedEvent),
    }
}

/// The token asked for before the direct attempt: the attempt goes out
/// with it or without it.
pub open spec fn on_direct_auth(m: SessionModel, e: EventModel) -> (
    SessionModel,
    ActionModel,
) {
    match e {
        EventModel::Token(token) => (
            SessionModel {
                phase: Phase::Direct,
                fallback_requests: m.fallback_requests + 1,
                ..m
            },
            ActionModel::Send {
                request: plain_get(
                    Purpose::Direct,
                    m.current_url,
                    direct_fields(usable_token(token)),
                    0,
                ),
                hold_reply: false,
            },
        ),
        _ => fail(m, ErrorModel::UnexpectedEvent),
    }
}

/// What an event leads to: the next state and the action to take.
/// `basic_auth` is what goes with token requests.
pub open spec fn step(
    basic_auth: Option<(Seq<char>, Seq<char>)>,
    m: SessionModel,
    e: EventModel,
) -> (SessionModel, ActionModel) {
    match m.phase {
        Phase::First => on_first(basic_auth, m, e),
        Phase::Challenge => on_challenge(m, e),
        Phase::Retry => on_retry(m, e),
        Phase::HubApi => on_last_resort(m, e),
        Phase::PreAuth => on_pre_auth(m, e),
        Phase::Blob => on_blob(basic_auth, m, e),
        Phase::BlobAuth => on_blob_auth(m, e),
        Phase::Candidate { index, attempt } => on_candidate(
            basic_auth,
            m,
            index as int,
            attempt as int,
            e,
        ),
        Phase::CandidateRedirect { index, attempt } => on_candidate_redirect(
            basic_auth,
            m,
            index as int,
            attempt as int,
            e,
        ),
        Phase::DirectAuth => on_direct_auth(m, e),
        Phase::Direct => on_last_resort(m, e),
        Phase::Done => fail(m, ErrorModel::UnexpectedEvent),
    }
}

/// How a request is taken up: the upstream is resolved, the path rewritten
/// for Docker Hub, the address and the header set built, and the first
/// action chosen. A blob at Docker Hub is asked for only after a token was;
/// any other request goes out at once. `fallback_enabled` says whether a
/// blob that Docker Hub refuses is looked for elsewhere; `inbound_names` is
/// the number of names in the inbound header set. A request whose host no
/// header can carry, or whose inbound header set lacks the room, is not
/// taken up.
pub open spec fn start(
    config: RegistryConfig,
    basic_auth: Option<(Seq<char>, Seq<char>)>,
    fallback_enabled: bool,
    registry_key: Seq<char>,
    path: Seq<char>,
    query: Option<Seq<char>>,
    inbound: Map<Seq<char>, Seq<Seq<u8>>>,
    inbound_names: nat,
    has_body: bool,
    verb: Seq<char>,
) -> Result<(SessionModel, ActionModel), ErrorModel> {
    match resolve_host(config, registry_key) {
        None => Err(ErrorModel::UnsupportedRegistry(registry_key)),
        Some(host) => match method_of(verb) {
            None => Err(ErrorModel::UnsupportedMethod(verb)),
            Some(method) => {
                let docker_hub = host == DOCKER_HUB_HOST@;
                let out_path = if docker_hub {
                    canonical_path(registry_key, path)
                } else {
                    path
                };
                let url = upstream_url(host, out_path, query);
                let prepared = prepared_fields(inbound, host, is_blob_path(out_path));
                let m = SessionModel {
                    host,
                    docker_hub,
                    method,
                    send_body: has_body && method != HttpMethod::Head,
                    path: out_path,
                    blob: is_blob_path(out_path),
                    fallback_enabled,
                    url,
                    prepared,
                    phase: Phase::First,
                    current_url: url,
                    current: prepared,
                    redirects_followed: 0,
                    fallback_requests: 0,
                };
                if !is_value(host) || !has_room(inbound_names, SESSION_FIELDS as nat) {
                    Err(ErrorModel::HeaderRejected)
                } else if is_blob_path(out_path) && docker_hub {
                    Ok(
                        ask_token(
                            basic_auth,
                            m,
                            Phase::PreAuth,
                            AUTH_REALM@,
                            AUTH_SERVICE@,
                            pull_scope(repository_in(out_path)),
                            false,
                        ),
                    )
                } else if is_blob_path(out_path) {
                    Ok(start_blob(m, None))
                } else {
                    Ok(
                        (
                            m,
                            ActionModel::Send {
                                request: client_request(m, Purpose::Upstream, url, prepared),
                                hold_reply: false,
                            },
                        ),
                    )
                }
            },
        },
    }
}

} // verus!
