//! The engine: it takes up a request, and says after each event what the
//! network code is to do next.

use crate::blob::{
    build_upstream_url, candidates_for, fallback_candidates, hub_api_url_of, path_is_blob,
    pull_scope_of, repository_of,
};
use crate::challenge::parse_www_authenticate_header;
use crate::config::RegistryConfig;
use crate::error::ProxyError;
use crate::headers::{
    agent_headers, blob_headers, copy_map, count_names, direct_headers, header_fields,
    header_names, is_value, is_value_text, lemma_agents_are_values, names_with, prepare_headers,
    with_bearer, BLOB_FIELDS, BROWSER_USER_AGENT, DOCKER_HUB_HOST, FIELD_NAMES_LIMIT,
    GO_USER_AGENT, PROXY_USER_AGENT,
};
use crate::method::{parse_method, HttpMethod};
use crate::path::format_docker_hub_path;
use crate::session::{
    error_model, text_model, Action, ActionModel, Answer, ErrorModel, Event, OutboundRequest,
    Phase, Purpose, SessionModel,
};
use crate::step::{
    ask_direct_token, ask_token, bearer_challenge, candidate_agent, delay_before, fail,
    next_candidate, on_blob, on_blob_auth, on_candidate, on_candidate_redirect, on_challenge,
    on_direct_auth, on_first, on_last_resort, on_pre_auth, on_retry, respond, retry_candidate,
    start, start_blob, start_fallback, step, try_candidate, usable_token, ATTEMPTS, CANDIDATES,
    MAX_REDIRECTS, REQUEST_TIMEOUT_SECS, SESSION_FIELDS,
};
use crate::text::{chars_of, opt_view, same};
use crate::token::{
    basic_auth_of, read_token, status_is_success, token_request, AUTH_REALM, AUTH_SERVICE,
};
use reqwest::header::HeaderMap;
use vstd::prelude::*;

verus! {

/// What holds of the state of every forwarded request: the counters stay
/// within their bounds, and a fall-back address is tried only where the
/// blob's address yields three of them.
pub open spec fn well_formed(m: SessionModel) -> bool {
    &&& m.redirects_followed <= MAX_REDIRECTS
    &&& match m.phase {
        Phase::Candidate { index, attempt } => {
            &&& index < CANDIDATES
            &&& 1 <= attempt <= ATTEMPTS
            &&& fallback_candidates(m.current_url).len() == CANDIDATES
            &&& m.fallback_requests <= ATTEMPTS * index + attempt
        },
        Phase::CandidateRedirect { index, attempt } => {
            &&& index < CANDIDATES
            &&& 1 <= attempt <= ATTEMPTS
            &&& fallback_candidates(m.current_url).len() == CANDIDATES
            &&& m.fallback_requests <= ATTEMPTS * index + attempt
        },
        Phase::DirectAuth => m.fallback_requests <= CANDIDATES * ATTEMPTS,
        Phase::Direct => m.fallback_requests <= CANDIDATES * ATTEMPTS + 1,
        Phase::Done => m.fallback_requests <= CANDIDATES * ATTEMPTS + 1,
        _ => m.fallback_requests == 0,
    }
}

/// The state of one forwarded request. It is made by
/// [`ProxyService::forward_request`] and moved on by
/// [`ProxyService::advance`].
#[derive(Debug)]
pub struct Session {
    host: String,
    docker_hub: bool,
    method: HttpMethod,
    send_body: bool,
    path: String,
    blob: bool,
    fallback_enabled: bool,
    url: String,
    prepared: HeaderMap,
    phase: Phase,
    current_url: String,
    current_headers: HeaderMap,
    redirects_followed: usize,
    fallback_requests: usize,
}

impl Session {
    /// The state as plain values.
    pub closed spec fn model(&self) -> SessionModel {
        SessionModel {
            host: self.host@,
            docker_hub: self.docker_hub,
            method: self.method,
            send_body: self.send_body,
            path: self.path@,
            blob: self.blob,
            fallback_enabled: self.fallback_enabled,
            url: self.url@,
            prepared: header_fields(self.prepared),
            phase: self.phase,
            current_url: self.current_url@,
            current: header_fields(self.current_headers),
            redirects_followed: self.redirects_followed as nat,
            fallback_requests: self.fallback_requests as nat,
        }
    }

    /// The state is well formed, and its header sets have the room that
    /// the rest of the request may need: the prepared one for the fields of
    /// a blob request and a token, the present one for a token.
    #[verifier::type_invariant]
    spec fn inv(self) -> bool {
        &&& well_formed(self.model())
        &&& header_names(self.prepared) + BLOB_FIELDS + 1 < FIELD_NAMES_LIMIT
        &&& names_with(
            header_names(self.current_headers),
            header_fields(self.current_headers),
            "authorization"@,
        ) < FIELD_NAMES_LIMIT
    }

    /// Where the request stands.
    pub fn phase(&self) -> (out: Phase)
        ensures
            out == self.model().phase,
    {
        self.phase
    }

    /// Whether the request is done.
    pub fn is_done(&self) -> (out: bool)
        ensures
            out == (self.model().phase == Phase::Done),
    {
        self.phase == Phase::Done
    }

    /// How many redirects were followed for the blob.
    pub fn redirects_followed(&self) -> (out: usize)
        ensures
            out == self.model().redirects_followed,
            out <= MAX_REDIRECTS,
    {
        proof {
            use_type_invariant(self);
        }
        self.redirects_followed
    }

    /// How many fall-back requests were made: attempts at the candidates
    /// and the direct attempt.
    pub fn fallback_requests(&self) -> (out: usize)
        ensures
            out == self.model().fallback_requests,
            out <= CANDIDATES * ATTEMPTS + 1,
    {
        proof {
            use_type_invariant(self);
        }
        self.fallback_requests
    }

    /// The address at the upstream registry.
    pub fn url(&self) -> (out: &String)
        ensures
            out@ == self.model().url,
    {
        &self.url
    }

    /// The path at the upstream registry.
    pub fn path(&self) -> (out: &String)
        ensures
            out@ == self.model().path,
    {
        &self.path
    }

    /// The upstream host.
    pub fn host(&self) -> (out: &String)
        ensures
            out@ == self.model().host,
    {
        &self.host
    }
}

/// What an action and a state are as plain values.
pub open spec fn outcome(out: (Session, Action)) -> (SessionModel, ActionModel) {
    (out.0.model(), out.1.model())
}

/// How taking up a request ended, as plain values.
pub open spec fn started(out: Result<(Session, Action), ProxyError>) -> Result<
    (SessionModel, ActionModel),
    ErrorModel,
> {
    match out {
        Ok(first) => Ok(outcome(first)),
        Err(error) => Err(error_model(error)),
    }
}

/// The engine: the registry table and the account, and the decisions that
/// forwarding a request takes.
pub struct ProxyService {
    pub config: RegistryConfig,
    /// Whether a blob that Docker Hub refuses is looked for at the
    /// fall-back addresses.
    pub cdn_fallback: bool,
}

/// The request ends with an answer.
fn respond_with(session: Session, answer: Answer) -> (out: (Session, Action))
    ensures
        outcome(out) == respond(session.model(), answer),
{
    proof {
        use_type_invariant(&session);
    }
    (Session { phase: Phase::Done, ..session }, Action::Respond(answer))
}

/// The request ends with an error.
fn fail_with(session: Session, error: ProxyError) -> (out: (Session, Action))
    ensures
        outcome(out) == fail(session.model(), error_model(error)),
{
    proof {
        use_type_invariant(&session);
    }
    (Session { phase: Phase::Done, ..session }, Action::Fail(error))
}

/// A copy of an optional text.
fn text_or_empty(text: Option<&String>) -> (out: String)
    ensures
        out@ == match text {
            Some(t) => t@,
            None => Seq::<char>::empty(),
        },
{
    match text {
        Some(t) => t.clone(),
        None => String::new(),
    }
}

/// The realm, service and scope of a Bearer challenge.
pub fn read_bearer_challenge(field: &Option<String>) -> (out: Option<(String, String, String)>)
    ensures
        match out {
            Some(c) => bearer_challenge(text_model(*field)) == Some((c.0@, c.1@, c.2@)),
            None => bearer_challenge(text_model(*field)) is None,
        },
{
    match field {
        Some(value) => match parse_www_authenticate_header(value.as_str()) {
            Some(challenge) => {
                if challenge.is_bearer() {
                    let realm = text_or_empty(challenge.get("realm"));
                    let service = text_or_empty(challenge.get("service"));
                    let scope = text_or_empty(challenge.get("scope"));
                    Some((realm, service, scope))
                } else {
                    None
                }
            },
            None => None,
        },
        None => None,
    }
}

/// The token of an event, if it is one that a header can carry.
fn usable_token_of(status: u16, body: Option<crate::token::TokenResponse>) -> (out: Option<
    String,
>)
    ensures
        text_model(out) == usable_token((Event::Token { status, body }).model()->Token_0),
        out matches Some(token) ==> is_value(token@),
{
    match read_token(status, body) {
        Ok(token) => {
            if is_value_text(token.as_str()) {
                Some(token)
            } else {
                None
            }
        },
        Err(_) => None,
    }
}

/// The user agent with which fall-back address `index` is asked.
fn agent_of(index: usize) -> (out: &'static str)
    ensures
        out@ == candidate_agent(index as int),
        is_value(out@),
{
    proof {
        lemma_agents_are_values();
    }
    if index == 0 {
        PROXY_USER_AGENT
    } else if index == 1 {
        GO_USER_AGENT
    } else {
        BROWSER_USER_AGENT
    }
}

/// The seconds to wait before attempt `attempt` at a fall-back address.
fn delay_of(attempt: usize) -> (out: u64)
    ensures
        out == delay_before(attempt as int),
{
    if attempt <= 1 {
        0
    } else if attempt == 2 {
        1
    } else {
        2
    }
}

/// A GET without a body.
fn get_request(purpose: Purpose, url: String, headers: HeaderMap, delay_secs: u64) -> (out:
    OutboundRequest)
    ensures
        out.model() == crate::step::plain_get(purpose, url@, header_fields(headers), delay_secs),
{
    OutboundRequest {
        purpose,
        method: HttpMethod::Get,
        url,
        headers,
        send_body: false,
        timeout_secs: REQUEST_TIMEOUT_SECS,
        delay_secs,
        follow_redirects: purpose == Purpose::HubApi,
    }
}

impl ProxyService {
    /// The engine over `config`, with the fall-backs for refused blobs
    /// switched on.
    pub fn new(config: RegistryConfig) -> (out: Self)
        ensures
            out.config == config,
            out.cdn_fallback,
    {
        ProxyService { config, cdn_fallback: true }
    }

    /// The same engine with the fall-backs for refused blobs switched on or
    /// off.
    pub fn with_cdn_fallback(self, enabled: bool) -> (out: Self)
        ensures
            out.config == self.config,
            out.cdn_fallback == enabled,
    {
        ProxyService { config: self.config, cdn_fallback: enabled }
    }

    /// What goes with token requests: the account, where one is configured.
    pub open spec fn basic_auth(&self) -> Option<(Seq<char>, Seq<char>)> {
        basic_auth_of(self.config.docker_hub_credentials)
    }

    /// The host that `registry_key` stands for.
    pub fn resolve_host(&self, registry_key: &str) -> (out: Option<String>)
        ensures
            text_model(out) == crate::step::resolve_host(self.config, registry_key@),
    {
        if same(&chars_of(registry_key), &chars_of("v2")) {
            Some(DOCKER_HUB_HOST.to_owned())
        } else {
            match self.config.get_registry_url(registry_key) {
                Some(host) => Some(host.clone()),
                None => None,
            }
        }
    }

    /// A token is asked for, and the state moves to `phase`.
    fn ask_token(
        &self,
        session: Session,
        phase: Phase,
        realm: &str,
        service: &str,
        scope: &str,
        hold_reply: bool,
    ) -> (out: (Session, Action))
        requires
            well_formed(SessionModel { phase, ..session.model() }),
        ensures
            outcome(out) == ask_token(
                self.basic_auth(),
                session.model(),
                phase,
                realm@,
                service@,
                scope@,
                hold_reply,
            ),
    {
        proof {
            use_type_invariant(&session);
        }
        let token_request = token_request(
            &self.config.docker_hub_credentials,
            realm,
            service,
            scope,
        );
        (Session { phase, ..session }, Action::FetchToken { token_request, hold_reply })
    }

    /// A token is asked for, with which the direct attempt will go out.
    fn ask_direct_token(&self, session: Session, hold_reply: bool) -> (out: (Session, Action))
        requires
            session.model().fallback_requests <= CANDIDATES * ATTEMPTS,
        ensures
            outcome(out) == ask_direct_token(self.basic_auth(), session.model(), hold_reply),
    {
        proof {
            use_type_invariant(&session);
        }
        let repository = repository_of(session.current_url.as_str());
        let scope = pull_scope_of(repository.as_str());
        self.ask_token(
            session,
            Phase::DirectAuth,
            AUTH_REALM,
            AUTH_SERVICE,
            scope.as_str(),
            hold_reply,
        )
    }

    /// Attempt `attempt` at fall-back address `index` goes out.
    fn try_candidate(session: Session, index: usize, attempt: usize, hold_reply: bool) -> (out: (
        Session,
        Action,
    ))
        requires
            index < CANDIDATES,
            1 <= attempt <= ATTEMPTS,
            fallback_candidates(session.model().current_url).len() == CANDIDATES,
            session.model().fallback_requests + 1 <= ATTEMPTS * index + attempt,
        ensures
            outcome(out) == try_candidate(
                session.model(),
                index as int,
                attempt as int,
                hold_reply,
            ),
    {
        proof {
            use_type_invariant(&session);
        }
        let candidates = candidates_for(session.current_url.as_str());
        let headers = agent_headers(agent_of(index)).unwrap();
        let request = get_request(
            Purpose::Candidate,
            candidates[index].clone(),
            headers,
            delay_of(attempt),
        );
        (
            Session {
                phase: Phase::Candidate { index, attempt },
                fallback_requests: session.fallback_requests + 1,
                ..session
            },
            Action::Send { request, hold_reply },
        )
    }

    /// Fall-back address `index` is given up.
    fn next_candidate(&self, session: Session, index: usize) -> (out: (Session, Action))
        requires
            index < CANDIDATES,
            fallback_candidates(session.model().current_url).len() == CANDIDATES,
            session.model().fallback_requests <= ATTEMPTS * index + ATTEMPTS,
        ensures
            outcome(out) == next_candidate(self.basic_auth(), session.model(), index as int),
    {
        if index + 1 < CANDIDATES {
            Self::try_candidate(session, index + 1, 1, false)
        } else {
            self.ask_direct_token(session, false)
        }
    }

    /// An attempt failed on the network.
    fn retry_candidate(&self, session: Session, index: usize, attempt: usize) -> (out: (
        Session,
        Action,
    ))
        requires
            index < CANDIDATES,
            1 <= attempt <= ATTEMPTS,
            fallback_candidates(session.model().current_url).len() == CANDIDATES,
            session.model().fallback_requests <= ATTEMPTS * index + attempt,
        ensures
            outcome(out) == retry_candidate(
                self.basic_auth(),
                session.model(),
                index as int,
                attempt as int,
            ),
    {
        if attempt < ATTEMPTS {
            Self::try_candidate(session, index, attempt + 1, false)
        } else {
            self.next_candidate(session, index)
        }
    }

    /// Docker Hub refused the blob.
    fn start_fallback(&self, session: Session) -> (out: (Session, Action))
        requires
            session.model().fallback_requests == 0,
        ensures
            outcome(out) == start_fallback(self.basic_auth(), session.model()),
    {
        let candidates = candidates_for(session.current_url.as_str());
        if candidates.len() == CANDIDATES {
            Self::try_candidate(session, 0, 1, true)
        } else {
            self.ask_direct_token(session, true)
        }
    }

    /// The fetching of a blob starts.
    fn start_blob(session: Session, token: Option<String>) -> (out: (Session, Action))
        requires
            session.model().fallback_requests == 0,
            token matches Some(t) ==> is_value(t@),
        ensures
            outcome(out) == start_blob(session.model(), text_model(token)),
    {
        proof {
            use_type_invariant(&session);
        }
        let seeded = blob_headers(&session.prepared).unwrap();
        let headers = match token {
            Some(t) => with_bearer(&seeded, t.as_str()).unwrap(),
            None => seeded,
        };
        let request = OutboundRequest {
            purpose: Purpose::Upstream,
            method: session.method,
            url: session.url.clone(),
            headers: copy_map(&headers),
            send_body: session.send_body,
            timeout_secs: REQUEST_TIMEOUT_SECS,
            delay_secs: 0,
            follow_redirects: !session.blob,
        };
        let current_url = session.url.clone();
        (
            Session { phase: Phase::Blob, current_url, current_headers: headers, ..session },
            Action::Send { request, hold_reply: false },
        )
    }

    /// The first reply to a request that is no blob request.
    fn on_first(&self, session: Session, event: Event) -> (out: (Session, Action))
        requires
            session.model().phase == Phase::First,
        ensures
            outcome(out) == on_first(self.basic_auth(), session.model(), event.model()),
    {
        proof {
            use_type_invariant(&session);
        }
        match event {
            Event::Reply(reply) => {
                if session.docker_hub && reply.status == 401 {
                    match read_bearer_challenge(&reply.www_authenticate) {
                        Some(c) => self.ask_token(
                            session,
                            Phase::Challenge,
                            c.0.as_str(),
                            c.1.as_str(),
                            c.2.as_str(),
                            true,
                        ),
                        None => respond_with(session, Answer::Latest),
                    }
                } else if session.docker_hub && reply.status == 403 {
                    match hub_api_url_of(session.path.as_str()) {
                        Some(url) => {
                            proof {
                                lemma_agents_are_values();
                            }
                            let headers = agent_headers(PROXY_USER_AGENT).unwrap();
                            let request = get_request(Purpose::HubApi, url, headers, 0);
                            (
                                Session { phase: Phase::HubApi, ..session },
                                Action::Send { request, hold_reply: true },
                            )
                        },
                        None => respond_with(session, Answer::Latest),
                    }
                } else {
                    respond_with(session, Answer::Latest)
                }
            },
            Event::SendFailed => fail_with(session, ProxyError::UpstreamTransport),
            Event::Token { .. } => fail_with(session, ProxyError::UnexpectedEvent),
            Event::TokenFailed => fail_with(session, ProxyError::UnexpectedEvent),
        }
    }

    /// The token that answers a challenge.
    fn on_challenge(session: Session, event: Event) -> (out: (Session, Action))
        requires
            session.model().phase == Phase::Challenge,
        ensures
            outcome(out) == on_challenge(session.model(), event.model()),
    {
        proof {
            use_type_invariant(&session);
        }
        let token = match event {
            Event::Token { status, body } => usable_token_of(status, body),
            Event::TokenFailed => None,
            _ => {
                return fail_with(session, ProxyError::UnexpectedEvent);
            },
        };
        match token {
            Some(t) => {
                let headers = with_bearer(&session.prepared, t.as_str()).unwrap();
                let request = OutboundRequest {
                    purpose: Purpose::Reauthenticated,
                    method: session.method,
                    url: session.url.clone(),
                    headers,
                    send_body: session.send_body,
                    timeout_secs: REQUEST_TIMEOUT_SECS,
                    delay_secs: 0,
                    follow_redirects: !session.blob,
                };
                (
                    Session { phase: Phase::Retry, ..session },
                    Action::Send { request, hold_reply: false },
                )
            },
            None => respond_with(session, Answer::Held),
        }
    }

    /// The reply to the request that went out with a token.
    fn on_retry(session: Session, event: Event) -> (out: (Session, Action))
        ensures
            outcome(out) == on_retry(session.model(), event.model()),
    {
        match event {
            Event::Reply(_) => respond_with(session, Answer::Latest),
            Event::SendFailed => respond_with(session, Answer::Held),
            _ => fail_with(session, ProxyError::UnexpectedEvent),
        }
    }

    /// A reply that replaces a refusal only where it is a success.
    fn on_last_resort(session: Session, event: Event) -> (out: (Session, Action))
        ensures
            outcome(out) == on_last_resort(session.model(), event.model()),
    {
        match event {
            Event::Reply(reply) => {
                if status_is_success(reply.status) {
                    respond_with(session, Answer::Latest)
                } else {
                    respond_with(session, Answer::Held)
                }
            },
            Event::SendFailed => respond_with(session, Answer::Held),
            _ => fail_with(session, ProxyError::UnexpectedEvent),
        }
    }

    /// The token asked for before a blob is fetched.
    fn on_pre_auth(session: Session, event: Event) -> (out: (Session, Action))
        requires
            session.model().phase == Phase::PreAuth,
        ensures
            outcome(out) == on_pre_auth(session.model(), event.model()),
    {
        proof {
            use_type_invariant(&session);
        }
        match event {
            Event::Token { status, body } => {
                let token = usable_token_of(status, body);
                Self::start_blob(session, token)
            },
            Event::TokenFailed => Self::start_blob(session, None),
            _ => fail_with(session, ProxyError::UnexpectedEvent),
        }
    }

    /// A reply to a blob request.
    fn on_blob(&self, session: Session, event: Event) -> (out: (Session, Action))
        requires
            session.model().phase == Phase::Blob,
        ensures
            outcome(out) == on_blob(self.basic_auth(), session.model(), event.model()),
    {
        proof {
            use_type_invariant(&session);
        }
        match event {
            Event::Reply(reply) => {
                let redirect = 300 <= reply.status && reply.status < 400;
                match (redirect, reply.location) {
                    (true, Some(location)) => {
                        if session.redirects_followed >= MAX_REDIRECTS {
                            return fail_with(session, ProxyError::TooManyRedirects);
                        }
                        let request = OutboundRequest {
                            purpose: Purpose::Redirect,
                            method: session.method,
                            url: location.clone(),
                            headers: copy_map(&session.current_headers),
                            send_body: session.send_body,
                            timeout_secs: REQUEST_TIMEOUT_SECS,
                            delay_secs: 0,
                            follow_redirects: !session.blob,
                        };
                        (
                            Session {
                                current_url: location,
                                redirects_followed: session.redirects_followed + 1,
                                ..session
                            },
                            Action::Send { request, hold_reply: false },
                        )
                    },
                    _ => {
                        if session.docker_hub && reply.status == 401 {
                            match read_bearer_challenge(&reply.www_authenticate) {
                                Some(c) => self.ask_token(
                                    session,
                                    Phase::BlobAuth,
                                    c.0.as_str(),
                                    c.1.as_str(),
                                    c.2.as_str(),
                                    true,
                                ),
                                None => respond_with(session, Answer::Latest),
                            }
                        } else if session.docker_hub && reply.status == 403
                            && session.fallback_enabled {
                            self.start_fallback(session)
                        } else {
                            respond_with(session, Answer::Latest)
                        }
                    },
                }
            },
            Event::SendFailed => fail_with(session, ProxyError::UpstreamTransport),
            _ => fail_with(session, ProxyError::UnexpectedEvent),
        }
    }

    /// The token that answers a challenge to a blob request.
    fn on_blob_auth(session: Session, event: Event) -> (out: (Session, Action))
        requires
            session.model().phase == Phase::BlobAuth,
        ensures
            outcome(out) == on_blob_auth(session.model(), event.model()),
    {
        proof {
            use_type_invariant(&session);
        }
        let token = match event {
            Event::Token { status, body } => usable_token_of(status, body),
            Event::TokenFailed => None,
            _ => {
                return fail_with(session, ProxyError::UnexpectedEvent);
            },
        };
        match token {
            Some(t) => {
                let headers = with_bearer(&session.current_headers, t.as_str()).unwrap();
                let request = OutboundRequest {
                    purpose: Purpose::Reauthenticated,
                    method: session.method,
                    url: session.current_url.clone(),
                    headers: copy_map(&headers),
                    send_body: session.send_body,
                    timeout_secs: REQUEST_TIMEOUT_SECS,
                    delay_secs: 0,
                    follow_redirects: !session.blob,
                };
                (
                    Session { phase: Phase::Blob, current_headers: headers, ..session },
                    Action::Send { request, hold_reply: false },
                )
            },
            None => respond_with(session, Answer::Held),
        }
    }

    /// A reply to an attempt at a fall-back address.
    fn on_candidate(&self, session: Session, index: usize, attempt: usize, event: Event) -> (out: (
        Session,
        Action,
    ))
        requires
            session.model().phase == (Phase::Candidate { index, attempt }),
        ensures
            outcome(out) == on_candidate(
                self.basic_auth(),
                session.model(),
                index as int,
                attempt as int,
                event.model(),
            ),
    {
        proof {
            use_type_invariant(&session);
        }
        match event {
            Event::Reply(reply) => {
                if status_is_success(reply.status) {
                    return respond_with(session, Answer::Latest);
                }
                let redirect = 300 <= reply.status && reply.status < 400;
                match (redirect, reply.location) {
                    (true, Some(location)) => {
                        let headers = agent_headers(agent_of(index)).unwrap();
                        let request = get_request(
                            Purpose::CandidateRedirect,
                            location,
                            headers,
                            0,
                        );
                        (
                            Session {
                                phase: Phase::CandidateRedirect { index, attempt },
                                ..session
                            },
                            Action::Send { request, hold_reply: false },
                        )
                    },
                    _ => self.next_candidate(session, index),
                }
            },
            Event::SendFailed => self.retry_candidate(session, index, attempt),
            _ => fail_with(session, ProxyError::UnexpectedEvent),
        }
    }

    /// A reply from the address that a fall-back address redirected to.
    fn on_candidate_redirect(
        &self,
        session: Session,
        index: usize,
        attempt: usize,
        event: Event,
    ) -> (out: (Session, Action))
        requires
            session.model().phase == (Phase::CandidateRedirect { index, attempt }),
        ensures
            outcome(out) == on_candidate_redirect(
                self.basic_auth(),
                session.model(),
                index as int,
                attempt as int,
                event.model(),
            ),
    {
        proof {
            use_type_invariant(&session);
        }
        match event {
            Event::Reply(reply) => {
                if status_is_success(reply.status) {
                    respond_with(session, Answer::Latest)
                } else {
                    self.next_candidate(session, index)
                }
            },
            Event::SendFailed => self.retry_candidate(session, index, attempt),
            _ => fail_with(session, ProxyError::UnexpectedEvent),
        }
    }

    /// The token asked for before the direct attempt.
    fn on_direct_auth(session: Session, event: Event) -> (out: (Session, Action))
        requires
            session.model().phase == Phase::DirectAuth,
        ensures
            outcome(out) == on_direct_auth(session.model(), event.model()),
    {
        proof {
            use_type_invariant(&session);
        }
        let token = match event {
            Event::Token { status, body } => usable_token_of(status, body),
            Event::TokenFailed => None,
            _ => {
                return fail_with(session, ProxyError::UnexpectedEvent);
            },
        };
        let headers = match &token {
            Some(t) => direct_headers(Some(t.as_str())).unwrap(),
            None => direct_headers(None).unwrap(),
        };
        let request = get_request(Purpose::Direct, session.current_url.clone(), headers, 0);
        (
            Session {
                phase: Phase::Direct,
                fallback_requests: session.fallback_requests + 1,
                ..session
            },
            Action::Send { request, hold_reply: false },
        )
    }

    /// Says what to do after `event`: what [`step`] gives for the state and
    /// the event.
    pub fn advance(&self, session: Session, event: Event) -> (out: (Session, Action))
        ensures
            outcome(out) == step(self.basic_auth(), session.model(), event.model()),
            well_formed(out.0.model()),
    {
        proof {
            use_type_invariant(&session);
        }
        let out = match session.phase {
            Phase::First => self.on_first(session, event),
            Phase::Challenge => Self::on_challenge(session, event),
            Phase::Retry => Self::on_retry(session, event),
            Phase::HubApi => Self::on_last_resort(session, event),
            Phase::PreAuth => Self::on_pre_auth(session, event),
            Phase::Blob => self.on_blob(session, event),
            Phase::BlobAuth => Self::on_blob_auth(session, event),
            Phase::Candidate { index, attempt } => self.on_candidate(
                session,
                index,
                attempt,
                event,
            ),
            Phase::CandidateRedirect { index, attempt } => self.on_candidate_redirect(
                session,
                index,
                attempt,
                event,
            ),
            Phase::DirectAuth => Self::on_direct_auth(session, event),
            Phase::Direct => Self::on_last_resort(session, event),
            Phase::Done => fail_with(session, ProxyError::UnexpectedEvent),
        };
        proof {
            use_type_invariant(&out.0);
        }
        out
    }

    /// Takes up a request: resolves the upstream, rewrites the path for
    /// Docker Hub, builds the address and the header set, and chooses the
    /// first action. The inbound header set stays as it is. A request is
    /// refused where its registry key or its verb is not known, where no
    /// header can carry the upstream host, and where the inbound header set
    /// has no room for the fields that the request may add.
    pub fn forward_request(
        &self,
        registry_key: &str,
        path: &str,
        query: Option<&str>,
        headers: &HeaderMap,
        has_body: bool,
        method: &str,
    ) -> (out: Result<(Session, Action), ProxyError>)
        ensures
            started(out) == start(
                self.config,
                self.basic_auth(),
                self.cdn_fallback,
                registry_key@,
                path@,
                opt_view(query),
                header_fields(*headers),
                header_names(*headers),
                has_body,
                method@,
            ),
            out matches Ok(first) ==> well_formed(first.0.model()),
    {
        let host = match self.resolve_host(registry_key) {
            Some(host) => host,
            None => {
                return Err(ProxyError::UnsupportedRegistry(registry_key.to_owned()));
            },
        };
        let verb = match parse_method(method) {
            Some(verb) => verb,
            None => {
                return Err(ProxyError::UnsupportedMethod(method.to_owned()));
            },
        };
        if !is_value_text(host.as_str()) || count_names(headers) > FIELD_NAMES_LIMIT
            - SESSION_FIELDS {
            return Err(ProxyError::HeaderRejected);
        }
        let docker_hub = same(&chars_of(host.as_str()), &chars_of(DOCKER_HUB_HOST));
        let out_path = if docker_hub {
            format_docker_hub_path(registry_key, path)
        } else {
            path.to_owned()
        };
        let url = build_upstream_url(host.as_str(), out_path.as_str(), query);
        let is_blob = path_is_blob(out_path.as_str());
        let prepared = prepare_headers(headers, host.as_str(), is_blob).unwrap();
        let current_headers = copy_map(&prepared);
        let current_url = url.clone();
        let first = OutboundRequest {
            purpose: Purpose::Upstream,
            method: verb,
            url: url.clone(),
            headers: copy_map(&prepared),
            send_body: has_body && verb != HttpMethod::Head,
            timeout_secs: REQUEST_TIMEOUT_SECS,
            delay_secs: 0,
            follow_redirects: !is_blob,
        };
        let session = Session {
            host,
            docker_hub,
            method: verb,
            send_body: has_body && verb != HttpMethod::Head,
            path: out_path,
            blob: is_blob,
            fallback_enabled: self.cdn_fallback,
            url,
            prepared,
            phase: Phase::First,
            current_url,
            current_headers,
            redirects_followed: 0,
            fallback_requests: 0,
        };
        if is_blob && docker_hub {
            let repository = repository_of(session.path.as_str());
            let scope = pull_scope_of(repository.as_str());
            Ok(
                self.ask_token(
                    session,
                    Phase::PreAuth,
                    AUTH_REALM,
                    AUTH_SERVICE,
                    scope.as_str(),
                    false,
                ),
            )
        } else if is_blob {
            Ok(Self::start_blob(session, None))
        } else {
            Ok((session, Action::Send { request: first, hold_reply: false }))
        }
    }
}

} // verus!
