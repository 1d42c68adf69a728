//! What holds of the engine on every request and after every event.

use crate::blob::upstream_url;
use crate::config::RegistryConfig;
use crate::headers::{
    agent_fields, bearer, bearer_fields, blob_fields, direct_fields, field_key, prepared_fields,
    DOCKER_HUB_HOST,
};
use crate::path::lemma_canonical_starts_with_v2;
use crate::proxy::well_formed;
use crate::session::{ActionModel, Answer, EventModel, Phase, Purpose, SessionModel};
use crate::step::{
    resolve_host, start, step, usable_token, ATTEMPTS, CANDIDATES, MAX_REDIRECTS,
};
use crate::text::has_prefix;
use vstd::prelude::*;
use vstd::utf8::encode_utf8;

verus! {

/// The events reported in the course of a request, in their order.
pub type Reports = Seq<EventModel>;

/// Whether an action follows a redirect for a blob.
pub open spec fn is_redirect_hop(action: ActionModel) -> bool {
    action matches ActionModel::Send { request, .. } && request.purpose == Purpose::Redirect
}

/// Whether an action is a fall-back request for a refused blob: an attempt
/// at one of the candidates, or the direct attempt.
pub open spec fn is_fallback_request(action: ActionModel) -> bool {
    action matches ActionModel::Send { request, .. } && (request.purpose == Purpose::Candidate
        || request.purpose == Purpose::Direct)
}

/// How many redirects are followed while `reports` come in, from state `m` on.
pub open spec fn redirect_hops(
    basic_auth: Option<(Seq<char>, Seq<char>)>,
    m: SessionModel,
    reports: Reports,
) -> nat
    decreases reports.len(),
{
    if reports.len() == 0 {
        0
    } else {
        let next = step(basic_auth, m, reports.first());
        redirect_hops(basic_auth, next.0, reports.drop_first()) + if is_redirect_hop(next.1) {
            1nat
        } else {
            0nat
        }
    }
}

/// How many fall-back requests are made while `reports` come in, from
/// state `m` on.
pub open spec fn fallback_requests(
    basic_auth: Option<(Seq<char>, Seq<char>)>,
    m: SessionModel,
    reports: Reports,
) -> nat
    decreases reports.len(),
{
    if reports.len() == 0 {
        0
    } else {
        let next = step(basic_auth, m, reports.first());
        fallback_requests(basic_auth, next.0, reports.drop_first()) + if is_fallback_request(
            next.1,
        ) {
            1nat
        } else {
            0nat
        }
    }
}

/// How many fall-back requests a state still allows.
pub open spec fn fallback_budget(m: SessionModel) -> int {
    match m.phase {
        Phase::PreAuth => CANDIDATES * ATTEMPTS + 1,
        Phase::Blob => CANDIDATES * ATTEMPTS + 1,
        Phase::BlobAuth => CANDIDATES * ATTEMPTS + 1,
        Phase::Candidate { index, attempt } => ATTEMPTS * (CANDIDATES - index) - attempt + 1,
        Phase::CandidateRedirect { index, attempt } => ATTEMPTS * (CANDIDATES - index) - attempt
            + 1,
        Phase::DirectAuth => 1,
        _ => 0,
    }
}

/// A step leaves a well-formed state well formed.
pub proof fn lemma_step_well_formed(
    basic_auth: Option<(Seq<char>, Seq<char>)>,
    m: SessionModel,
    e: EventModel,
)
    requires
        well_formed(m),
    ensures
        well_formed(step(basic_auth, m, e).0),
{
    assert(ATTEMPTS == 3 && CANDIDATES == 3 && MAX_REDIRECTS == 10);
    match m.phase {
        Phase::Blob => match e {
            EventModel::Reply { .. } => {},
            _ => {},
        },
        Phase::Candidate { .. } => match e {
            EventModel::Reply { .. } => {},
            EventModel::SendFailed => {},
            _ => {},
        },
        Phase::CandidateRedirect { .. } => match e {
            EventModel::Reply { .. } => {},
            EventModel::SendFailed => {},
            _ => {},
        },
        Phase::First => {},
        Phase::Challenge => {},
        Phase::Retry => {},
        Phase::HubApi => {},
        Phase::PreAuth => {},
        Phase::BlobAuth => {},
        Phase::DirectAuth => {},
        Phase::Direct => {},
        Phase::Done => {},
    }
}

/// A step counts a redirect exactly when it follows one, and follows one
/// only while fewer than the maximum were followed.
pub proof fn lemma_step_counts_redirects(
    basic_auth: Option<(Seq<char>, Seq<char>)>,
    m: SessionModel,
    e: EventModel,
)
    requires
        well_formed(m),
    ensures
        ({
            let next = step(basic_auth, m, e);
            if is_redirect_hop(next.1) {
                next.0.redirects_followed == m.redirects_followed + 1 && m.redirects_followed
                    < MAX_REDIRECTS
            } else {
                next.0.redirects_followed == m.redirects_followed
            }
        }),
{
    assert(ATTEMPTS == 3 && CANDIDATES == 3 && MAX_REDIRECTS == 10);
    match m.phase {
        Phase::Blob => match e {
            EventModel::Reply { .. } => {},
            _ => {},
        },
        Phase::Candidate { .. } => match e {
            EventModel::Reply { .. } => {},
            EventModel::SendFailed => {},
            _ => {},
        },
        Phase::CandidateRedirect { .. } => match e {
            EventModel::Reply { .. } => {},
            EventModel::SendFailed => {},
            _ => {},
        },
        Phase::First => {},
        Phase::Challenge => {},
        Phase::Retry => {},
        Phase::HubApi => {},
        Phase::PreAuth => {},
        Phase::BlobAuth => {},
        Phase::DirectAuth => {},
        Phase::Direct => {},
        Phase::Done => {},
    }
}

/// A step that makes a fall-back request uses up one of those the state
/// allowed; no step adds to them.
pub proof fn lemma_step_spends_budget(
    basic_auth: Option<(Seq<char>, Seq<char>)>,
    m: SessionModel,
    e: EventModel,
)
    requires
        well_formed(m),
    ensures
        ({
            let next = step(basic_auth, m, e);
            &&& 0 <= fallback_budget(next.0)
            &&& fallback_budget(next.0) + if is_fallback_request(next.1) {
                1int
            } else {
                0int
            } <= fallback_budget(m)
        }),
{
    assert(ATTEMPTS == 3 && CANDIDATES == 3 && MAX_REDIRECTS == 10);
    match m.phase {
        Phase::Blob => match e {
            EventModel::Reply { .. } => {},
            _ => {},
        },
        Phase::Candidate { .. } => match e {
            EventModel::Reply { .. } => {},
            EventModel::SendFailed => {},
            _ => {},
        },
        Phase::CandidateRedirect { .. } => match e {
            EventModel::Reply { .. } => {},
            EventModel::SendFailed => {},
            _ => {},
        },
        Phase::First => {},
        Phase::Challenge => {},
        Phase::Retry => {},
        Phase::HubApi => {},
        Phase::PreAuth => {},
        Phase::BlobAuth => {},
        Phase::DirectAuth => {},
        Phase::Direct => {},
        Phase::Done => {},
    }
}

/// However a request goes on, the redirects followed for its blob, those
/// already followed included, are no more than the maximum.
pub proof fn lemma_redirects_bounded(
    basic_auth: Option<(Seq<char>, Seq<char>)>,
    m: SessionModel,
    reports: Reports,
)
    requires
        well_formed(m),
    ensures
        m.redirects_followed + redirect_hops(basic_auth, m, reports) <= MAX_REDIRECTS,
    decreases reports.len(),
{
    if reports.len() > 0 {
        let next = step(basic_auth, m, reports.first());
        lemma_step_well_formed(basic_auth, m, reports.first());
        lemma_step_counts_redirects(basic_auth, m, reports.first());
        lemma_redirects_bounded(basic_auth, next.0, reports.drop_first());
    }
}

/// However a request goes on, the fall-back requests made for its blob are
/// no more than three attempts at each of three candidates and one direct
/// attempt. The requests to which a candidate redirects, and the token
/// requests, are not among them.
pub proof fn lemma_fallback_bounded(
    basic_auth: Option<(Seq<char>, Seq<char>)>,
    m: SessionModel,
    reports: Reports,
)
    requires
        well_formed(m),
    ensures
        fallback_requests(basic_auth, m, reports) <= fallback_budget(m),
        fallback_budget(m) <= CANDIDATES * ATTEMPTS + 1,
    decreases reports.len(),
{
    if reports.len() > 0 {
        let next = step(basic_auth, m, reports.first());
        lemma_step_well_formed(basic_auth, m, reports.first());
        lemma_step_spends_budget(basic_auth, m, reports.first());
        lemma_fallback_bounded(basic_auth, next.0, reports.drop_first());
    }
}

/// A request that is taken up starts well formed, with no redirect
/// followed and no fall-back request made.
pub proof fn lemma_start_well_formed(
    config: RegistryConfig,
    basic_auth: Option<(Seq<char>, Seq<char>)>,
    fallback_enabled: bool,
    registry_key: Seq<char>,
    path: Seq<char>,
    query: Option<Seq<char>>,
    inbound: Map<Seq<char>, Seq<Seq<u8>>>,
    inbound_names: nat,
    has_body: bool,
    verb: Seq<char>,
)
    ensures
        start(
            config,
            basic_auth,
            fallback_enabled,
            registry_key, path, query, inbound, inbound_names, has_body, verb)
            matches Ok(first) ==> well_formed(first.0) && first.0.redirects_followed == 0
            && first.0.fallback_requests == 0 && !is_redirect_hop(first.1) && !is_fallback_request(
            first.1,
        ),
{
}

/// Where a request goes. Under every key that stands for a registry, the
/// address is `https://`, the host that the key stands for, the path and
/// the query. At Docker Hub the path begins with `/v2`; elsewhere it is the
/// path that came in, so that there it begins with `/v2` only where the
/// inbound path did.
pub proof fn lemma_start_route(
    config: RegistryConfig,
    basic_auth: Option<(Seq<char>, Seq<char>)>,
    fallback_enabled: bool,
    registry_key: Seq<char>,
    path: Seq<char>,
    query: Option<Seq<char>>,
    inbound: Map<Seq<char>, Seq<Seq<u8>>>,
    inbound_names: nat,
    has_body: bool,
    verb: Seq<char>,
)
    ensures
        start(
            config,
            basic_auth,
            fallback_enabled,
            registry_key, path, query, inbound, inbound_names, has_body, verb)
            matches Ok(first) ==> {
            let m = first.0;
            &&& resolve_host(config, registry_key) == Some(m.host)
            &&& m.url == upstream_url(m.host, m.path, query)
            &&& m.docker_hub == (m.host == DOCKER_HUB_HOST@)
            &&& m.docker_hub ==> has_prefix(m.path, "/v2"@)
            &&& !m.docker_hub ==> m.path == path
            &&& !has_prefix(path, "/v2"@) ==> (has_prefix(m.path, "/v2"@) <==> m.docker_hub)
            &&& first.1 matches ActionModel::Send { request, .. } ==> request.url == m.url
        },
{
    lemma_canonical_starts_with_v2(registry_key, path);
}

/// Whether a reply is put aside while a request stands in `phase`.
pub open spec fn holds_reply(phase: Phase) -> bool {
    match phase {
        Phase::Challenge => true,
        Phase::Retry => true,
        Phase::HubApi => true,
        Phase::BlobAuth => true,
        Phase::Candidate { .. } => true,
        Phase::CandidateRedirect { .. } => true,
        Phase::DirectAuth => true,
        Phase::Direct => true,
        _ => false,
    }
}

/// Whether an action asks to put the latest reply aside.
pub open spec fn asks_to_hold(action: ActionModel) -> bool {
    match action {
        ActionModel::Send { hold_reply, .. } => hold_reply,
        ActionModel::FetchToken { hold_reply, .. } => hold_reply,
        _ => false,
    }
}

/// The engine asks only for replies that are there. It answers with the
/// latest reply, or puts it aside, only when a reply was just reported; it
/// answers with the reply put aside only in a phase in which one is; and it
/// enters such a phase only from another such, or by putting a reply aside.
pub proof fn lemma_step_answers_exist(
    basic_auth: Option<(Seq<char>, Seq<char>)>,
    m: SessionModel,
    e: EventModel,
)
    ensures
        ({
            let next = step(basic_auth, m, e);
            &&& next.1 == ActionModel::Respond(Answer::Latest) ==> e is Reply
            &&& asks_to_hold(next.1) ==> e is Reply
            &&& next.1 == ActionModel::Respond(Answer::Held) ==> holds_reply(m.phase)
            &&& holds_reply(next.0.phase) ==> holds_reply(m.phase) || asks_to_hold(next.1)
        }),
{
    match m.phase {
        Phase::Blob => match e {
            EventModel::Reply { .. } => {},
            _ => {},
        },
        Phase::Candidate { .. } => match e {
            EventModel::Reply { .. } => {},
            EventModel::SendFailed => {},
            _ => {},
        },
        Phase::CandidateRedirect { .. } => match e {
            EventModel::Reply { .. } => {},
            EventModel::SendFailed => {},
            _ => {},
        },
        Phase::First => match e {
            EventModel::Reply { .. } => {},
            _ => {},
        },
        Phase::Challenge => {},
        Phase::Retry => {},
        Phase::HubApi => {},
        Phase::PreAuth => {},
        Phase::BlobAuth => {},
        Phase::DirectAuth => {},
        Phase::Direct => {},
        Phase::Done => {},
    }
}

/// Taking up a request puts no reply aside and chooses no answer: there
/// is no reply yet.
pub proof fn lemma_start_answers_exist(
    config: RegistryConfig,
    basic_auth: Option<(Seq<char>, Seq<char>)>,
    fallback_enabled: bool,
    registry_key: Seq<char>,
    path: Seq<char>,
    query: Option<Seq<char>>,
    inbound: Map<Seq<char>, Seq<Seq<u8>>>,
    inbound_names: nat,
    has_body: bool,
    verb: Seq<char>,
)
    ensures
        start(
            config,
            basic_auth,
            fallback_enabled,
            registry_key, path, query, inbound, inbound_names, has_body, verb)
            matches Ok(first) ==> {
            &&& !asks_to_hold(first.1)
            &&& !holds_reply(first.0.phase)
            &&& !(first.1 is Respond)
        },
{
}

/// The name under which the upstream host is filed.
pub open spec fn host_key() -> Seq<char> {
    field_key("host"@)
}

/// The name under which credentials are filed.
pub open spec fn authorization_key() -> Seq<char> {
    field_key("authorization"@)
}

/// Whether a header set says that it goes to `host`, and to no other.
pub open spec fn names_host(fields: Map<Seq<char>, Seq<Seq<u8>>>, host: Seq<char>) -> bool {
    fields.contains_key(host_key()) && fields[host_key()] == seq![encode_utf8(host)]
}

/// Whether a header set carries credentials.
pub open spec fn carries_authorization(fields: Map<Seq<char>, Seq<Seq<u8>>>) -> bool {
    fields.contains_key(authorization_key())
}

/// Whether two header sets carry the same credentials, or both none.
pub open spec fn same_credentials(
    a: Map<Seq<char>, Seq<Seq<u8>>>,
    b: Map<Seq<char>, Seq<Seq<u8>>>,
) -> bool {
    &&& carries_authorization(a) == carries_authorization(b)
    &&& carries_authorization(a) ==> a[authorization_key()] == b[authorization_key()]
}

/// Whether a header set carries the Bearer token `token` as its credentials.
pub open spec fn carries_bearer(fields: Map<Seq<char>, Seq<Seq<u8>>>, token: Seq<char>) -> bool {
    carries_authorization(fields) && fields[authorization_key()] == seq![
        encode_utf8(bearer(token)),
    ]
}

/// Whether a request is the client's own: the request as it came in, at the
/// upstream registry or where that redirected it, with or without a token.
pub open spec fn is_client_request(action: ActionModel) -> bool {
    action matches ActionModel::Send { request, .. } && (request.purpose == Purpose::Upstream
        || request.purpose == Purpose::Redirect || request.purpose == Purpose::Reauthenticated)
}

/// Whether the header sets that a state keeps name its upstream host.
pub open spec fn routed(m: SessionModel) -> bool {
    names_host(m.prepared, m.host) && names_host(m.current, m.host)
}

/// The names of the fields that the engine sets differ from `host` and,
/// but for itself, from `authorization`.
pub proof fn lemma_field_keys_differ()
    ensures
        host_key() != field_key("docker-distribution-api-version"@),
        host_key() != field_key("user-agent"@),
        host_key() != field_key("accept-encoding"@),
        host_key() != field_key("connection"@),
        host_key() != field_key("cache-control"@),
        host_key() != field_key("accept"@),
        host_key() != field_key("range"@),
        host_key() != authorization_key(),
        authorization_key() != field_key("docker-distribution-api-version"@),
        authorization_key() != field_key("user-agent"@),
        authorization_key() != field_key("accept-encoding"@),
        authorization_key() != field_key("connection"@),
        authorization_key() != field_key("cache-control"@),
        authorization_key() != field_key("accept"@),
        authorization_key() != field_key("range"@),
{
    reveal_strlit("host");
    reveal_strlit("authorization");
    reveal_strlit("docker-distribution-api-version");
    reveal_strlit("user-agent");
    reveal_strlit("accept-encoding");
    reveal_strlit("connection");
    reveal_strlit("cache-control");
    reveal_strlit("accept");
    reveal_strlit("range");
    assert(field_key("host"@).len() == 4);
    assert(field_key("authorization"@).len() == 13);
    assert(field_key("docker-distribution-api-version"@).len() == 31);
    assert(field_key("user-agent"@).len() == 10);
    assert(field_key("accept-encoding"@).len() == 15);
    assert(field_key("connection"@).len() == 10);
    assert(field_key("cache-control"@).len() == 13);
    assert(field_key("accept"@).len() == 6);
    assert(field_key("range"@).len() == 5);
    assert(field_key("authorization"@)[0] == 'a');
    assert(field_key("cache-control"@)[0] == 'c');
}

/// The prepared header set names the upstream host, and carries the
/// credentials of the inbound header set, if that had any, and no others.
pub proof fn lemma_prepared_fields(
    inbound: Map<Seq<char>, Seq<Seq<u8>>>,
    host: Seq<char>,
    is_blob: bool,
)
    ensures
        names_host(prepared_fields(inbound, host, is_blob), host),
        same_credentials(prepared_fields(inbound, host, is_blob), inbound),
{
    lemma_field_keys_differ();
}

/// The header set with which the fetching of a blob starts names the host
/// that the prepared one names, and carries the credentials that it carries.
pub proof fn lemma_blob_fields(prepared: Map<Seq<char>, Seq<Seq<u8>>>, host: Seq<char>)
    ensures
        names_host(prepared, host) ==> names_host(blob_fields(prepared), host),
        same_credentials(blob_fields(prepared), prepared),
{
    lemma_field_keys_differ();
}

/// A header set that was given a Bearer token names the host that it named
/// before, and carries that token and nothing else as its credentials.
pub proof fn lemma_bearer_fields(
    fields: Map<Seq<char>, Seq<Seq<u8>>>,
    host: Seq<char>,
    token: Seq<char>,
)
    ensures
        names_host(fields, host) ==> names_host(bearer_fields(fields, token), host),
        carries_authorization(bearer_fields(fields, token)),
        bearer_fields(fields, token)[authorization_key()] == seq![encode_utf8(bearer(token))],
{
    lemma_field_keys_differ();
}

/// The header sets of the fall-backs carry credentials only where a token
/// was given: the direct attempt then carries that token.
pub proof fn lemma_fallback_fields(agent: Seq<char>, token: Option<Seq<char>>)
    ensures
        !carries_authorization(agent_fields(agent)),
        carries_authorization(direct_fields(token)) == (token is Some),
        token matches Some(t) ==> direct_fields(token)[authorization_key()] == seq![
            encode_utf8(bearer(t)),
        ],
{
    lemma_field_keys_differ();
}

/// Every request of the client that goes out when a request is taken up
/// names the upstream host in its `Host` field, and so do the header sets
/// that the state keeps.
pub proof fn lemma_start_names_host(
    config: RegistryConfig,
    basic_auth: Option<(Seq<char>, Seq<char>)>,
    fallback_enabled: bool,
    registry_key: Seq<char>,
    path: Seq<char>,
    query: Option<Seq<char>>,
    inbound: Map<Seq<char>, Seq<Seq<u8>>>,
    inbound_names: nat,
    has_body: bool,
    verb: Seq<char>,
)
    ensures
        start(
            config,
            basic_auth,
            fallback_enabled,
            registry_key, path, query, inbound, inbound_names, has_body, verb)
            matches Ok(first) ==> {
            &&& routed(first.0)
            &&& first.1 matches ActionModel::Send { request, .. } ==> names_host(
                request.fields,
                first.0.host,
            )
        },
{
    match start(
            config,
            basic_auth,
            fallback_enabled,
            registry_key, path, query, inbound, inbound_names, has_body, verb) {
        Ok(first) => {
            let m = first.0;
            lemma_prepared_fields(inbound, m.host, crate::blob::is_blob_path(m.path));
            lemma_blob_fields(m.prepared, m.host);
        },
        Err(_) => {},
    }
}

/// Every request of the client that goes out after an event names the
/// upstream host in its `Host` field, whatever address it goes to, and the
/// header sets that the state keeps go on naming it.
pub proof fn lemma_step_names_host(
    basic_auth: Option<(Seq<char>, Seq<char>)>,
    m: SessionModel,
    e: EventModel,
)
    requires
        routed(m),
    ensures
        ({
            let next = step(basic_auth, m, e);
            &&& routed(next.0)
            &&& next.0.host == m.host
            &&& next.1 matches ActionModel::Send { request, .. } ==> (is_client_request(next.1)
                ==> names_host(request.fields, m.host))
        }),
{
    lemma_blob_fields(m.prepared, m.host);
    match e {
        EventModel::Token(token) => {
            match usable_token(token) {
                Some(t) => {
                    lemma_bearer_fields(m.prepared, m.host, t);
                    lemma_bearer_fields(m.current, m.host, t);
                    lemma_bearer_fields(blob_fields(m.prepared), m.host, t);
                },
                None => {},
            }
        },
        _ => {},
    }
    match m.phase {
        Phase::Blob => match e {
            EventModel::Reply { .. } => {},
            _ => {},
        },
        Phase::Candidate { .. } => match e {
            EventModel::Reply { .. } => {},
            EventModel::SendFailed => {},
            _ => {},
        },
        Phase::CandidateRedirect { .. } => match e {
            EventModel::Reply { .. } => {},
            EventModel::SendFailed => {},
            _ => {},
        },
        Phase::First => match e {
            EventModel::Reply { .. } => {},
            _ => {},
        },
        Phase::Challenge => {},
        Phase::Retry => {},
        Phase::HubApi => {},
        Phase::PreAuth => {},
        Phase::BlobAuth => {},
        Phase::DirectAuth => {},
        Phase::Direct => {},
        Phase::Done => {},
    }
}

/// Where credentials come from, when a request is taken up: the first
/// request carries those of the inbound request, if that had any, and so
/// do the header sets that the state keeps; a token request carries what
/// the account gives, and nothing where none is configured.
pub proof fn lemma_start_authorization(
    config: RegistryConfig,
    basic_auth: Option<(Seq<char>, Seq<char>)>,
    fallback_enabled: bool,
    registry_key: Seq<char>,
    path: Seq<char>,
    query: Option<Seq<char>>,
    inbound: Map<Seq<char>, Seq<Seq<u8>>>,
    inbound_names: nat,
    has_body: bool,
    verb: Seq<char>,
)
    ensures
        start(
            config,
            basic_auth,
            fallback_enabled,
            registry_key,
            path,
            query,
            inbound,
            inbound_names,
            has_body,
            verb,
        ) matches Ok(first) ==> {
            &&& same_credentials(first.0.prepared, inbound)
            &&& same_credentials(first.0.current, inbound)
            &&& first.1 matches ActionModel::Send { request, .. } ==> same_credentials(
                request.fields,
                inbound,
            )
            &&& first.1 matches ActionModel::FetchToken { token_request, .. }
                ==> token_request.basic_auth == basic_auth
        },
{
    match start(
        config,
        basic_auth,
        fallback_enabled,
        registry_key,
        path,
        query,
        inbound,
        inbound_names,
        has_body,
        verb,
    ) {
        Ok(first) => {
            let m = first.0;
            lemma_prepared_fields(inbound, m.host, crate::blob::is_blob_path(m.path));
            lemma_blob_fields(m.prepared, m.host);
        },
        Err(_) => {},
    }
}

/// Whether a header set has its credentials from one of three places: from
/// the header set `prepared`, from the header set `current`, or from the
/// token that the event `e` brought.
pub open spec fn credentials_from(
    fields: Map<Seq<char>, Seq<Seq<u8>>>,
    prepared: Map<Seq<char>, Seq<Seq<u8>>>,
    current: Map<Seq<char>, Seq<Seq<u8>>>,
    e: EventModel,
) -> bool {
    carries_authorization(fields) ==> {
        ||| same_credentials(fields, prepared)
        ||| same_credentials(fields, current)
        ||| e matches EventModel::Token(Some(t)) && carries_bearer(fields, t)
    }
}

/// Where credentials come from, after an event. A request that goes out
/// with an `Authorization` field has it from the prepared header set, from
/// the present one, or carries in it the Bearer token that the event
/// brought. The same holds of the header set that becomes the present one;
/// the prepared one stays as it is. A token request carries what the
/// account gives, and nothing where none is configured.
pub proof fn lemma_step_authorization(
    basic_auth: Option<(Seq<char>, Seq<char>)>,
    m: SessionModel,
    e: EventModel,
)
    ensures
        ({
            let next = step(basic_auth, m, e);
            &&& next.0.prepared == m.prepared
            &&& credentials_from(next.0.current, m.prepared, m.current, e)
            &&& next.1 matches ActionModel::Send { request, .. } ==> credentials_from(
                request.fields,
                m.prepared,
                m.current,
                e,
            )
            &&& next.1 matches ActionModel::FetchToken { token_request, .. }
                ==> token_request.basic_auth == basic_auth
        }),
{
    lemma_blob_fields(m.prepared, m.host);
    lemma_fallback_fields(crate::step::candidate_agent(0), None);
    lemma_fallback_fields(crate::step::candidate_agent(1), None);
    lemma_fallback_fields(crate::step::candidate_agent(2), None);
    match e {
        EventModel::Token(token) => {
            lemma_fallback_fields(crate::step::candidate_agent(0), usable_token(token));
            match usable_token(token) {
                Some(t) => {
                    lemma_bearer_fields(m.prepared, m.host, t);
                    lemma_bearer_fields(m.current, m.host, t);
                    lemma_bearer_fields(blob_fields(m.prepared), m.host, t);
                },
                None => {},
            }
        },
        _ => {},
    }
    match m.phase {
        Phase::Blob => match e {
            EventModel::Reply { .. } => {},
            _ => {},
        },
        Phase::Candidate { .. } => match e {
            EventModel::Reply { .. } => {},
            EventModel::SendFailed => {},
            _ => {},
        },
        Phase::CandidateRedirect { .. } => match e {
            EventModel::Reply { .. } => {},
            EventModel::SendFailed => {},
            _ => {},
        },
        Phase::First => match e {
            EventModel::Reply { .. } => {},
            _ => {},
        },
        Phase::Challenge => {},
        Phase::Retry => {},
        Phase::HubApi => {},
        Phase::PreAuth => {},
        Phase::BlobAuth => {},
        Phase::DirectAuth => {},
        Phase::Direct => {},
        Phase::Done => {},
    }
}

/// The state that a request has reached after the first `k` of `reports`.
pub open spec fn state_after(
    basic_auth: Option<(Seq<char>, Seq<char>)>,
    m: SessionModel,
    reports: Reports,
    k: int,
) -> SessionModel
    decreases k,
{
    if k <= 0 {
        m
    } else {
        step(
            basic_auth,
            state_after(basic_auth, m, reports, k - 1),
            reports[k - 1],
        ).0
    }
}

/// The action that report `k` of `reports` leads to.
pub open spec fn action_at(
    basic_auth: Option<(Seq<char>, Seq<char>)>,
    m: SessionModel,
    reports: Reports,
    k: int,
) -> ActionModel {
    step(basic_auth, state_after(basic_auth, m, reports, k), reports[k]).1
}

/// Whether one of the first `k` of `reports` brought the token `token`.
pub open spec fn brought_before(reports: Reports, k: int, token: Seq<char>) -> bool {
    exists|j: int|
        0 <= j < k && j < reports.len() && #[trigger] reports[j] == EventModel::Token(
            Some(token),
        )
}

/// Whether the credentials of a header set, if it has any, are a Bearer
/// token that one of the first `k` of `reports` brought.
pub open spec fn credentials_accounted(
    fields: Map<Seq<char>, Seq<Seq<u8>>>,
    reports: Reports,
    k: int,
) -> bool {
    carries_authorization(fields) ==> exists|t: Seq<char>|
        #[trigger] brought_before(reports, k, t) && carries_bearer(fields, t)
}

/// However a request goes on, every request of the client that goes out
/// in its course names the upstream host in its `Host` field.
pub proof fn lemma_run_names_host(
    basic_auth: Option<(Seq<char>, Seq<char>)>,
    m: SessionModel,
    reports: Reports,
    k: int,
)
    requires
        routed(m),
        0 <= k < reports.len(),
    ensures
        routed(state_after(basic_auth, m, reports, k)),
        state_after(basic_auth, m, reports, k).host == m.host,
        action_at(basic_auth, m, reports, k) matches ActionModel::Send { request, .. } ==> (
        is_client_request(action_at(basic_auth, m, reports, k)) ==> names_host(
            request.fields,
            m.host,
        )),
    decreases k,
{
    if k > 0 {
        lemma_run_names_host(basic_auth, m, reports, k - 1);
        lemma_step_names_host(
            basic_auth,
            state_after(basic_auth, m, reports, k - 1),
            reports[k - 1],
        );
    }
    lemma_step_names_host(
        basic_auth,
        state_after(basic_auth, m, reports, k),
        reports[k],
    );
}

/// The header sets that a state keeps carry no credentials but Bearer
/// tokens that the first `k` of `reports` brought.
pub open spec fn accounted(m: SessionModel, reports: Reports, k: int) -> bool {
    !carries_authorization(m.prepared) && credentials_accounted(m.current, reports, k)
}

/// A token that was brought before stays brought.
proof fn lemma_brought_later(reports: Reports, k: int, fields: Map<Seq<char>, Seq<Seq<u8>>>)
    requires
        credentials_accounted(fields, reports, k),
    ensures
        credentials_accounted(fields, reports, k + 1),
{
    if carries_authorization(fields) {
        let t = choose|t: Seq<char>| #[trigger]
            brought_before(reports, k, t) && carries_bearer(fields, t);
        let j = choose|j: int|
            0 <= j < k && j < reports.len() && #[trigger] reports[j] == EventModel::Token(
                Some(t),
            );
        assert(brought_before(reports, k + 1, t));
    }
}

/// One step keeps the credentials accounted for.
proof fn lemma_step_accounted(
    basic_auth: Option<(Seq<char>, Seq<char>)>,
    m: SessionModel,
    reports: Reports,
    k: int,
)
    requires
        0 <= k < reports.len(),
        accounted(m, reports, k),
    ensures
        ({
            let next = step(basic_auth, m, reports[k]);
            &&& accounted(next.0, reports, k + 1)
            &&& next.1 matches ActionModel::Send { request, .. } ==> credentials_accounted(
                request.fields,
                reports,
                k + 1,
            )
        }),
{
    let e = reports[k];
    let next = step(basic_auth, m, e);
    lemma_step_authorization(basic_auth, m, e);
    lemma_brought_later(reports, k, m.current);
    match e {
        EventModel::Token(Some(t)) => {
            assert(brought_before(reports, k + 1, t));
        },
        _ => {},
    }
}

/// However a request that came in without credentials goes on, every
/// request that goes out in its course with an `Authorization` field
/// carries in it a Bearer token that the token service gave in the course of
/// that same request, and nothing else.
pub proof fn lemma_run_authorization(
    basic_auth: Option<(Seq<char>, Seq<char>)>,
    m: SessionModel,
    reports: Reports,
    k: int,
)
    requires
        !carries_authorization(m.prepared),
        !carries_authorization(m.current),
        0 <= k < reports.len(),
    ensures
        accounted(state_after(basic_auth, m, reports, k), reports, k),
        action_at(basic_auth, m, reports, k) matches ActionModel::Send { request, .. }
            ==> credentials_accounted(request.fields, reports, k + 1),
        action_at(basic_auth, m, reports, k) matches ActionModel::FetchToken { token_request, .. }
            ==> token_request.basic_auth == basic_auth,
    decreases k,
{
    if k > 0 {
        lemma_run_authorization(basic_auth, m, reports, k - 1);
        lemma_step_accounted(
            basic_auth,
            state_after(basic_auth, m, reports, k - 1),
            reports,
            k - 1,
        );
    }
    lemma_step_accounted(basic_auth, state_after(basic_auth, m, reports, k), reports, k);
    lemma_step_authorization(
        basic_auth,
        state_after(basic_auth, m, reports, k),
        reports[k],
    );
}

/// For every request that is taken up, however it goes on: no more than
/// ten redirects are followed for its blob, and no more than ten fall-back
/// requests are made, three attempts at each of three candidates and one
/// direct attempt.
pub proof fn lemma_request_bounded(
    config: RegistryConfig,
    basic_auth: Option<(Seq<char>, Seq<char>)>,
    fallback_enabled: bool,
    registry_key: Seq<char>,
    path: Seq<char>,
    query: Option<Seq<char>>,
    inbound: Map<Seq<char>, Seq<Seq<u8>>>,
    inbound_names: nat,
    has_body: bool,
    verb: Seq<char>,
    reports: Reports,
)
    ensures
        start(
            config,
            basic_auth,
            fallback_enabled,
            registry_key,
            path,
            query,
            inbound,
            inbound_names,
            has_body,
            verb,
        ) matches Ok(first) ==> {
            &&& redirect_hops(basic_auth, first.0, reports) <= MAX_REDIRECTS
            &&& fallback_requests(basic_auth, first.0, reports) <= CANDIDATES * ATTEMPTS + 1
        },
{
    lemma_start_well_formed(
        config,
        basic_auth,
        fallback_enabled,
        registry_key,
        path,
        query,
        inbound,
        inbound_names,
        has_body,
        verb,
    );
    match start(
            config,
            basic_auth,
            fallback_enabled,
            registry_key,
            path,
            query,
            inbound,
            inbound_names,
            has_body,
            verb,
        ) {
        Ok(first) => {
            lemma_redirects_bounded(basic_auth, first.0, reports);
            lemma_fallback_bounded(basic_auth, first.0, reports);
        },
        Err(_) => {},
    }
}

/// For every request that is taken up, however it goes on: each request of
/// the client that goes out, the first and every later one, names in its
/// `Host` field the host that the registry key stands for.
pub proof fn lemma_request_names_host(
    config: RegistryConfig,
    basic_auth: Option<(Seq<char>, Seq<char>)>,
    fallback_enabled: bool,
    registry_key: Seq<char>,
    path: Seq<char>,
    query: Option<Seq<char>>,
    inbound: Map<Seq<char>, Seq<Seq<u8>>>,
    inbound_names: nat,
    has_body: bool,
    verb: Seq<char>,
    reports: Reports,
    k: int,
)
    requires
        0 <= k < reports.len(),
    ensures
        start(
            config,
            basic_auth,
            fallback_enabled,
            registry_key,
            path,
            query,
            inbound,
            inbound_names,
            has_body,
            verb,
        ) matches Ok(first) ==> {
            &&& resolve_host(config, registry_key) == Some(first.0.host)
            &&& first.1 matches ActionModel::Send { request, .. } ==> names_host(
                request.fields,
                first.0.host,
            )
            &&& action_at(basic_auth, first.0, reports, k) matches ActionModel::Send {
                request,
                ..
            } ==> (is_client_request(action_at(basic_auth, first.0, reports, k)) ==> names_host(
                request.fields,
                first.0.host,
            ))
        },
{
    lemma_start_names_host(
        config,
        basic_auth,
        fallback_enabled,
        registry_key,
        path,
        query,
        inbound,
        inbound_names,
        has_body,
        verb,
    );
    lemma_start_route(
        config,
        basic_auth,
        fallback_enabled,
        registry_key,
        path,
        query,
        inbound,
        inbound_names,
        has_body,
        verb,
    );
    match start(
            config,
            basic_auth,
            fallback_enabled,
            registry_key,
            path,
            query,
            inbound,
            inbound_names,
            has_body,
            verb,
        ) {
        Ok(first) => {
            lemma_run_names_host(basic_auth, first.0, reports, k);
        },
        Err(_) => {},
    }
}

/// For every request that comes in without credentials and is taken up,
/// however it goes on: the first request that goes out carries none; a
/// later one that carries any carries a Bearer token that the token service
/// gave in the course of the request; and a token request carries what the
/// account gives, which is nothing where no account is configured.
pub proof fn lemma_request_authorization(
    config: RegistryConfig,
    basic_auth: Option<(Seq<char>, Seq<char>)>,
    fallback_enabled: bool,
    registry_key: Seq<char>,
    path: Seq<char>,
    query: Option<Seq<char>>,
    inbound: Map<Seq<char>, Seq<Seq<u8>>>,
    inbound_names: nat,
    has_body: bool,
    verb: Seq<char>,
    reports: Reports,
    k: int,
)
    requires
        !carries_authorization(inbound),
        0 <= k < reports.len(),
    ensures
        start(
            config,
            basic_auth,
            fallback_enabled,
            registry_key,
            path,
            query,
            inbound,
            inbound_names,
            has_body,
            verb,
        ) matches Ok(first) ==> {
            &&& first.1 matches ActionModel::Send { request, .. } ==> !carries_authorization(
                request.fields,
            )
            &&& first.1 matches ActionModel::FetchToken { token_request, .. }
                ==> token_request.basic_auth == basic_auth
            &&& action_at(basic_auth, first.0, reports, k) matches ActionModel::Send {
                request,
                ..
            } ==> credentials_accounted(request.fields, reports, k + 1)
            &&& action_at(basic_auth, first.0, reports, k) matches ActionModel::FetchToken {
                token_request,
                ..
            } ==> token_request.basic_auth == basic_auth
        },
{
    lemma_start_authorization(
        config,
        basic_auth,
        fallback_enabled,
        registry_key,
        path,
        query,
        inbound,
        inbound_names,
        has_body,
        verb,
    );
    match start(
            config,
            basic_auth,
            fallback_enabled,
            registry_key,
            path,
            query,
            inbound,
            inbound_names,
            has_body,
            verb,
        ) {
        Ok(first) => {
            lemma_run_authorization(basic_auth, first.0, reports, k);
        },
        Err(_) => {},
    }
}

} // verus!
