//! Header sets of outbound requests.
//!
//! The sets are `reqwest::header::HeaderMap` values. What such a map holds is
//! known here only through [`header_fields`] and [`header_names`], and
//! through the few functions below whose contracts are taken on trust from
//! the map's own source.

use crate::text::{chars_of, join, lower, opt_view};
use reqwest::header::{HeaderMap, HeaderName, HeaderValue};
use vstd::prelude::*;
use vstd::utf8::{decode_utf8, encode_utf8, encode_utf8_decode_utf8};

verus! {

/// `reqwest::header::HeaderMap`, declared so that it can stand in
/// signatures and fields. Nothing of its inside is known.
#[verifier::external_type_specification]
#[verifier::external_body]
#[verifier::reject_recursive_types(T)]
pub struct ExHeaderMap<T>(HeaderMap<T>);

/// `reqwest::header::HeaderValue`, the kind of value that the maps here
/// hold. Nothing of its inside is known.
#[verifier::external_type_specification]
#[verifier::external_body]
pub struct ExHeaderValue(HeaderValue);

/// What a header map holds: under each name, as `HeaderName::as_str` gives
/// it, the bytes of the values stored under that name, in their order.
pub uninterp spec fn header_fields(map: HeaderMap) -> Map<Seq<char>, Seq<Seq<u8>>>;

/// How many names a header map holds, as `HeaderMap::keys_len` gives it.
pub uninterp spec fn header_names(map: HeaderMap) -> nat;

/// A number of names below which a header map is sure to take one more.
/// `HeaderMap::try_insert` refuses a field only where the map cannot grow,
/// and a map that cannot grow holds more names than this.
pub const FIELD_NAMES_LIMIT: usize = 4096;

/// A character of the header names that are set here: a lower-case ASCII
/// letter, a digit or a hyphen.
pub open spec fn is_name_char(c: char) -> bool {
    ('a' <= c && c <= 'z') || ('0' <= c && c <= '9') || c == '-'
}

/// A header name as they are set here: one to sixty-four such characters.
/// `HeaderName::from_bytes` admits each of them, and more.
pub open spec fn is_field_name(name: Seq<char>) -> bool {
    &&& 1 <= name.len() <= 64
    &&& forall|i: int| 0 <= i < name.len() ==> is_name_char(#[trigger] name[i])
}

/// How many names a map holds after `name` was set in it: one more than
/// before, unless a field of that name was there already.
pub open spec fn names_with(
    names: nat,
    fields: Map<Seq<char>, Seq<Seq<u8>>>,
    name: Seq<char>,
) -> nat {
    if fields.contains_key(field_key(name)) {
        names
    } else {
        names + 1
    }
}

/// Whether a map that holds `names` names is sure to take `more` fields.
pub open spec fn has_room(names: nat, more: nat) -> bool {
    names + more <= FIELD_NAMES_LIMIT
}

/// The name under which a map files a field: header names do not
/// distinguish the case of ASCII letters, and are kept in lower case.
pub open spec fn field_key(name: Seq<char>) -> Seq<char> {
    name.map_values(|c: char| lower(c))
}

/// A byte that `HeaderValue::to_str` takes for text: visible ASCII or a tab.
pub open spec fn is_text_byte(b: u8) -> bool {
    (32 <= b && b < 127) || b == 9
}

/// Bytes that `HeaderValue::to_str` takes for text.
pub open spec fn is_text(bytes: Seq<u8>) -> bool {
    forall|i: int| 0 <= i < bytes.len() ==> is_text_byte(#[trigger] bytes[i])
}

/// A character that `HeaderValue::from_str` admits: anything but the ASCII
/// control characters, the tab excepted.
pub open spec fn is_value_char(c: char) -> bool {
    (c >= ' ' && c != '\x7f') || c == '\t'
}

/// A text that `HeaderValue::from_str` admits.
pub open spec fn is_value(text: Seq<char>) -> bool {
    forall|i: int| 0 <= i < text.len() ==> is_value_char(#[trigger] text[i])
}

/// No field at all.
pub open spec fn no_fields() -> Map<Seq<char>, Seq<Seq<u8>>> {
    Map::empty()
}

/// `fields` after `name` was set to the single value `value`.
pub open spec fn with_field(
    fields: Map<Seq<char>, Seq<Seq<u8>>>,
    name: Seq<char>,
    value: Seq<char>,
) -> Map<Seq<char>, Seq<Seq<u8>>> {
    fields.insert(field_key(name), seq![encode_utf8(value)])
}

/// The first value under `name` as text, where it is text.
pub open spec fn text_of(fields: Map<Seq<char>, Seq<Seq<u8>>>, name: Seq<char>) -> Option<
    Seq<char>,
> {
    if fields.contains_key(field_key(name)) && fields[field_key(name)].len() > 0 && is_text(
        fields[field_key(name)][0],
    ) {
        Some(decode_utf8(fields[field_key(name)][0]))
    } else {
        None
    }
}

/// Whether the first value under `name` is the text `text`.
pub open spec fn holds_text(
    fields: Map<Seq<char>, Seq<Seq<u8>>>,
    name: Seq<char>,
    text: Seq<char>,
) -> bool {
    &&& fields.contains_key(field_key(name))
    &&& fields[field_key(name)].len() > 0
    &&& fields[field_key(name)][0] == encode_utf8(text)
    &&& is_text(encode_utf8(text))
}

/// `HeaderMap::new`: a map that holds nothing.
#[verifier::external_body]
pub(crate) fn empty_map() -> (out: HeaderMap)
    ensures
        header_fields(out) == no_fields(),
        header_names(out) == 0,
{
    HeaderMap::new()
}

/// `HeaderMap::clone`: a map that holds what `map` holds.
#[verifier::external_body]
pub(crate) fn copy_map(map: &HeaderMap) -> (out: HeaderMap)
    ensures
        header_fields(out) == header_fields(*map),
        header_names(out) == header_names(*map),
{
    map.clone()
}

/// `HeaderName::from_bytes`, `HeaderValue::from_str` and
/// `HeaderMap::try_insert`: sets `name` to the single value `value`, in place
/// of whatever stood under that name, which adds a name to the map exactly
/// where none of its fields had that name. Where the name or the value is
/// refused, or the map takes no more, nothing changes and the answer is
/// `false`.
///
/// The field is taken for certain where the name is one of lower-case
/// letters, digits and hyphens, the value holds no control character but
/// tabs, and the map holds fewer than `FIELD_NAMES_LIMIT` names: the two
/// conversions admit such a name and such a value, and `try_insert` fails
/// only where the table of the map would have to grow beyond 32768 places,
/// which it need not before the map holds 6554 names.
#[verifier::external_body]
pub(crate) fn put_field(map: &mut HeaderMap, name: &str, value: &str) -> (done: bool)
    ensures
        done ==> header_fields(*final(map)) == with_field(header_fields(*old(map)), name@, value@),
        done ==> header_names(*final(map)) == names_with(
            header_names(*old(map)),
            header_fields(*old(map)),
            name@,
        ),
        done ==> is_value(value@),
        !done ==> header_fields(*final(map)) == header_fields(*old(map)),
        !done ==> header_names(*final(map)) == header_names(*old(map)),
        is_field_name(name@) && is_value(value@) && header_names(*old(map)) < FIELD_NAMES_LIMIT
            ==> done,
{
    match (HeaderName::from_bytes(name.as_bytes()), HeaderValue::from_str(value)) {
        (Ok(n), Ok(v)) => map.try_insert(n, v).is_ok(),
        _ => false,
    }
}

/// `HeaderMap::keys_len`: how many names the map holds.
#[verifier::external_body]
pub(crate) fn count_names(map: &HeaderMap) -> (out: usize)
    ensures
        out == header_names(*map),
{
    map.keys_len()
}

/// `HeaderMap::contains_key`: whether the map holds a value under `name`.
#[verifier::external_body]
pub(crate) fn holds_field(map: &HeaderMap, name: &str) -> (r: bool)
    ensures
        r == header_fields(*map).contains_key(field_key(name@)),
{
    map.contains_key(name)
}

/// `HeaderMap::get` and `HeaderValue::to_str`: the first value under `name`
/// as text, where there is one and all its bytes are visible ASCII or tabs.
#[verifier::external_body]
pub(crate) fn field_text(map: &HeaderMap, name: &str) -> (out: Option<String>)
    ensures
        out matches Some(text) ==> holds_text(header_fields(*map), name@, text@),
        out is None ==> text_of(header_fields(*map), name@) is None,
{
    match map.get(name) {
        Some(value) => match value.to_str() {
            Ok(text) => Some(text.to_string()),
            Err(_) => None,
        },
        None => None,
    }
}

/// The host of Docker Hub's registry.
pub const DOCKER_HUB_HOST: &'static str = "registry-1.docker.io";

/// The version of the registry API that every upstream request names.
pub const API_VERSION: &'static str = "registry/2.0";

/// How the proxy presents itself to Docker Hub: as a Docker client.
pub const DOCKER_USER_AGENT: &'static str =
    "docker/20.10.12 go/go1.16.12 git-commit/459d0df kernel/5.10.47 os/linux arch/amd64 UpstreamClient(Docker-Client/20.10.12 \\(linux\\))";

/// What a request for a blob accepts.
pub const BLOB_ACCEPT: &'static str =
    "application/octet-stream, application/vnd.docker.image.rootfs.diff.tar.gzip, application/vnd.oci.image.layer.v1.tar+gzip";

/// What any other request accepts.
pub const API_ACCEPT: &'static str =
    "application/json, application/vnd.docker.distribution.manifest.v2+json, application/vnd.docker.distribution.manifest.list.v2+json, application/vnd.oci.image.manifest.v1+json, application/vnd.oci.image.index.v1+json";

/// The user agent of the first fall-back candidate, and of questions to
/// the Hub API.
pub const PROXY_USER_AGENT: &'static str = "docker-registry-proxy";

/// The user agent of the second fall-back candidate.
pub const GO_USER_AGENT: &'static str = "docker/20.10.12 go/go1.16.12";

/// The user agent of the third fall-back candidate, and of the direct attempt.
pub const BROWSER_USER_AGENT: &'static str =
    "Mozilla/5.0 (Macintosh; Intel Mac OS X 10_15_7) AppleWebKit/537.36";

/// The header set of an upstream request: the inbound fields, with `Host`
/// set to the upstream host, the API version named, a Docker client's
/// identity and connection hints where the upstream is Docker Hub, and
/// `Accept` set to what a blob or any other request accepts.
pub open spec fn prepared_fields(
    inbound: Map<Seq<char>, Seq<Seq<u8>>>,
    host: Seq<char>,
    is_blob: bool,
) -> Map<Seq<char>, Seq<Seq<u8>>> {
    let named = with_field(
        with_field(inbound, "host"@, host),
        "docker-distribution-api-version"@,
        API_VERSION@,
    );
    let hinted = if host == DOCKER_HUB_HOST@ {
        with_field(
            with_field(
                with_field(
                    with_field(named, "user-agent"@, DOCKER_USER_AGENT@),
                    "accept-encoding"@,
                    "gzip"@,
                ),
                "connection"@,
                "keep-alive"@,
            ),
            "cache-control"@,
            "max-age=0"@,
        )
    } else {
        named
    };
    with_field(
        hinted,
        "accept"@,
        if is_blob {
            BLOB_ACCEPT@
        } else {
            API_ACCEPT@
        },
    )
}

/// `fields` with `name` set to `value` unless a value stands there already.
pub open spec fn with_default(
    fields: Map<Seq<char>, Seq<Seq<u8>>>,
    name: Seq<char>,
    value: Seq<char>,
) -> Map<Seq<char>, Seq<Seq<u8>>> {
    if fields.contains_key(field_key(name)) {
        fields
    } else {
        with_field(fields, name, value)
    }
}

/// The header set with which the fetching of a blob starts: `Accept` and
/// `Range` are filled in where they are missing, caching is switched off
/// and the connection kept alive.
pub open spec fn blob_fields(prepared: Map<Seq<char>, Seq<Seq<u8>>>) -> Map<
    Seq<char>,
    Seq<Seq<u8>>,
> {
    with_field(
        with_field(
            with_default(
                with_default(prepared, "accept"@, "application/octet-stream"@),
                "range"@,
                "bytes=0-"@,
            ),
            "cache-control"@,
            "no-cache"@,
        ),
        "connection"@,
        "keep-alive"@,
    )
}

/// The value of an `Authorization` field that carries a Bearer token.
pub open spec fn bearer(token: Seq<char>) -> Seq<char> {
    "Bearer "@ + token
}

/// `fields` with the Bearer token in its `Authorization` field.
pub open spec fn bearer_fields(fields: Map<Seq<char>, Seq<Seq<u8>>>, token: Seq<char>) -> Map<
    Seq<char>,
    Seq<Seq<u8>>,
> {
    with_field(fields, "authorization"@, bearer(token))
}

/// A header set that names a user agent and nothing else.
pub open spec fn agent_fields(agent: Seq<char>) -> Map<Seq<char>, Seq<Seq<u8>>> {
    with_field(no_fields(), "user-agent"@, agent)
}

/// The header set of the last, direct attempt at a refused blob.
pub open spec fn direct_fields(token: Option<Seq<char>>) -> Map<Seq<char>, Seq<Seq<u8>>> {
    let plain = with_field(
        with_field(agent_fields(BROWSER_USER_AGENT@), "accept"@, "*/*"@),
        "accept-encoding"@,
        "gzip, deflate, br"@,
    );
    match token {
        Some(t) => bearer_fields(plain, t),
        None => plain,
    }
}

/// What follows in a text that a header can carry, a header can carry.
proof fn lemma_value_suffix(a: Seq<char>, b: Seq<char>)
    requires
        is_value(a + b),
    ensures
        is_value(b),
{
    assert forall|i: int| 0 <= i < b.len() implies is_value_char(#[trigger] b[i]) by {
        assert((a + b)[a.len() + i] == b[i]);
    }
}

/// Two texts that a header can carry make one that a header can carry.
proof fn lemma_value_concat(a: Seq<char>, b: Seq<char>)
    requires
        is_value(a),
        is_value(b),
    ensures
        is_value(a + b),
{
    assert forall|i: int| 0 <= i < (a + b).len() implies is_value_char(#[trigger] (a + b)[i]) by {
        if i < a.len() {
            assert((a + b)[i] == a[i]);
        } else {
            assert((a + b)[i] == b[i - a.len()]);
        }
    }
}

/// The names of the fields that are set here are header names.
proof fn lemma_names_are_names()
    ensures
        is_field_name("host"@),
        is_field_name("docker-distribution-api-version"@),
        is_field_name("user-agent"@),
        is_field_name("accept-encoding"@),
        is_field_name("connection"@),
        is_field_name("cache-control"@),
        is_field_name("accept"@),
        is_field_name("range"@),
        is_field_name("authorization"@),
{
    reveal_strlit("host");
    reveal_strlit("docker-distribution-api-version");
    reveal_strlit("user-agent");
    reveal_strlit("accept-encoding");
    reveal_strlit("connection");
    reveal_strlit("cache-control");
    reveal_strlit("accept");
    reveal_strlit("range");
    reveal_strlit("authorization");
}

/// The short values that are set here are header values.
proof fn lemma_short_values_are_values()
    ensures
        is_value(API_VERSION@),
        is_value("gzip"@),
        is_value("keep-alive"@),
        is_value("max-age=0"@),
        is_value("application/octet-stream"@),
        is_value("bytes=0-"@),
        is_value("no-cache"@),
        is_value("*/*"@),
        is_value("gzip, deflate, br"@),
        is_value("Bearer "@),
{
    reveal_strlit("registry/2.0");
    reveal_strlit("gzip");
    reveal_strlit("keep-alive");
    reveal_strlit("max-age=0");
    reveal_strlit("application/octet-stream");
    reveal_strlit("bytes=0-");
    reveal_strlit("no-cache");
    reveal_strlit("*/*");
    reveal_strlit("gzip, deflate, br");
    reveal_strlit("Bearer ");
}

/// The user agents that are set here are header values.
pub proof fn lemma_agents_are_values()
    ensures
        is_value(DOCKER_USER_AGENT@),
        is_value(PROXY_USER_AGENT@),
        is_value(GO_USER_AGENT@),
        is_value(BROWSER_USER_AGENT@),
{
    reveal_strlit(
        "docker/20.10.12 go/go1.16.12 git-commit/459d0df kernel/5.10.47 os/linux arch/amd64 UpstreamClient(Docker-Client/20.10.12 \\(linux\\))",
    );
    reveal_strlit("docker-registry-proxy");
    reveal_strlit("docker/20.10.12 go/go1.16.12");
    reveal_strlit("Mozilla/5.0 (Macintosh; Intel Mac OS X 10_15_7) AppleWebKit/537.36");
}

/// What a request for a blob accepts is a header value.
proof fn lemma_blob_accept_is_value()
    ensures
        is_value(BLOB_ACCEPT@),
{
    reveal_strlit(
        "application/octet-stream, application/vnd.docker.image.rootfs.diff.tar.gzip, application/vnd.oci.image.layer.v1.tar+gzip",
    );
}

/// What any other request accepts is a header value.
proof fn lemma_api_accept_is_value()
    ensures
        is_value(API_ACCEPT@),
{
    reveal_strlit(
        "application/json, application/vnd.docker.distribution.manifest.v2+json, application/vnd.docker.distribution.manifest.list.v2+json, application/vnd.oci.image.manifest.v1+json, application/vnd.oci.image.index.v1+json",
    );
}

/// How many fields the preparing of a header set writes at most.
pub const PREPARED_FIELDS: usize = 7;

/// How many fields the seeding of a blob's header set writes at most.
pub const BLOB_FIELDS: usize = 4;

/// How many fields the header set of the direct attempt holds at most.
pub const DIRECT_FIELDS: usize = 4;

/// Builds the header set of an upstream request from the inbound one, which
/// stays as it is. The set is built for certain where the host is a text
/// that a header can carry and the inbound set has room for the fields
/// that are written; it is never built for a host that no header can carry.
pub fn prepare_headers(headers: &HeaderMap, registry_url: &str, is_blob_request: bool) -> (out:
    Option<HeaderMap>)
    ensures
        out matches Some(prepared) ==> header_fields(prepared) == prepared_fields(
            header_fields(*headers),
            registry_url@,
            is_blob_request,
        ),
        out matches Some(prepared) ==> header_names(prepared) <= header_names(*headers)
            + PREPARED_FIELDS,
        !is_value(registry_url@) ==> out is None,
        is_value(registry_url@) && has_room(header_names(*headers), PREPARED_FIELDS as nat)
            ==> out is Some,
{
    proof {
        lemma_names_are_names();
        lemma_short_values_are_values();
        lemma_agents_are_values();
        lemma_blob_accept_is_value();
        lemma_api_accept_is_value();
    }
    let mut map = copy_map(headers);
    if !put_field(&mut map, "host", registry_url) {
        return None;
    }
    if !put_field(&mut map, "docker-distribution-api-version", API_VERSION) {
        return None;
    }
    if crate::text::same(&chars_of(registry_url), &chars_of(DOCKER_HUB_HOST)) {
        if !put_field(&mut map, "user-agent", DOCKER_USER_AGENT) {
            return None;
        }
        if !put_field(&mut map, "accept-encoding", "gzip") {
            return None;
        }
        if !put_field(&mut map, "connection", "keep-alive") {
            return None;
        }
        if !put_field(&mut map, "cache-control", "max-age=0") {
            return None;
        }
    }
    let accept = if is_blob_request {
        BLOB_ACCEPT
    } else {
        API_ACCEPT
    };
    if !put_field(&mut map, "accept", accept) {
        return None;
    }
    Some(map)
}

/// Builds the header set with which the fetching of a blob starts. The set
/// is built for certain where the prepared set has room for the fields that
/// are written.
pub fn blob_headers(prepared: &HeaderMap) -> (out: Option<HeaderMap>)
    ensures
        out matches Some(seeded) ==> header_fields(seeded) == blob_fields(header_fields(*prepared)),
        out matches Some(seeded) ==> header_names(seeded) <= header_names(*prepared) + BLOB_FIELDS,
        has_room(header_names(*prepared), BLOB_FIELDS as nat) ==> out is Some,
{
    proof {
        lemma_names_are_names();
        lemma_short_values_are_values();
    }
    let mut map = copy_map(prepared);
    if !holds_field(&map, "accept") {
        if !put_field(&mut map, "accept", "application/octet-stream") {
            return None;
        }
    }
    if !holds_field(&map, "range") {
        if !put_field(&mut map, "range", "bytes=0-") {
            return None;
        }
    }
    if !put_field(&mut map, "cache-control", "no-cache") {
        return None;
    }
    if !put_field(&mut map, "connection", "keep-alive") {
        return None;
    }
    Some(map)
}

/// Builds a copy of `headers` with the Bearer token in its `Authorization`
/// field. The copy is built for certain where the token is a text that a
/// header can carry and the set has room for one more field; it is never
/// built for a token that no header can carry.
pub fn with_bearer(headers: &HeaderMap, token: &str) -> (out: Option<HeaderMap>)
    ensures
        out matches Some(authorized) ==> header_fields(authorized) == bearer_fields(
            header_fields(*headers),
            token@,
        ),
        out matches Some(authorized) ==> header_names(authorized) == names_with(
            header_names(*headers),
            header_fields(*headers),
            "authorization"@,
        ),
        !is_value(token@) ==> out is None,
        is_value(token@) && has_room(header_names(*headers), 1) ==> out is Some,
{
    proof {
        lemma_names_are_names();
        lemma_short_values_are_values();
        if is_value(token@) {
            lemma_value_concat("Bearer "@, token@);
        }
    }
    let mut map = copy_map(headers);
    let value = join("Bearer ", token);
    if !put_field(&mut map, "authorization", value.as_str()) {
        return None;
    }
    proof {
        lemma_value_suffix("Bearer "@, token@);
    }
    Some(map)
}

/// Builds a header set that names a user agent and nothing else. The set
/// is built if and only if the agent is a text that a header can carry.
pub fn agent_headers(agent: &str) -> (out: Option<HeaderMap>)
    ensures
        out matches Some(headers) ==> header_fields(headers) == agent_fields(agent@),
        out matches Some(headers) ==> header_names(headers) <= 1,
        out is Some <==> is_value(agent@),
{
    proof {
        lemma_names_are_names();
    }
    let mut map = empty_map();
    if !put_field(&mut map, "user-agent", agent) {
        return None;
    }
    Some(map)
}

/// Builds the header set of the last, direct attempt at a refused blob. The
/// set is built if and only if the token, where there is one, is a text
/// that a header can carry.
pub fn direct_headers(token: Option<&str>) -> (out: Option<HeaderMap>)
    ensures
        out matches Some(headers) ==> header_fields(headers) == direct_fields(opt_view(token)),
        out matches Some(headers) ==> header_names(headers) <= DIRECT_FIELDS,
        out is Some <==> (token matches Some(t) ==> is_value(t@)),
{
    proof {
        lemma_names_are_names();
        lemma_short_values_are_values();
        lemma_agents_are_values();
    }
    let mut map = empty_map();
    if !put_field(&mut map, "user-agent", BROWSER_USER_AGENT) {
        return None;
    }
    if !put_field(&mut map, "accept", "*/*") {
        return None;
    }
    if !put_field(&mut map, "accept-encoding", "gzip, deflate, br") {
        return None;
    }
    match token {
        Some(t) => {
            proof {
                if is_value(t@) {
                    lemma_value_concat("Bearer "@, t@);
                }
            }
            let value = join("Bearer ", t);
            if !put_field(&mut map, "authorization", value.as_str()) {
                return None;
            }
            proof {
                lemma_value_suffix("Bearer "@, t@);
            }
        },
        None => {},
    }
    Some(map)
}

/// The first value under `name` as text, where there is one and it is text.
pub fn header_text(headers: &HeaderMap, name: &str) -> (out: Option<String>)
    ensures
        match out {
            Some(text) => text_of(header_fields(*headers), name@) == Some(text@),
            None => text_of(header_fields(*headers), name@) is None,
        },
{
    let out = field_text(headers, name);
    proof {
        if out is Some {
            encode_utf8_decode_utf8(out->0@);
        }
    }
    out
}

/// Whether every character of `text` may stand in a header value.
pub fn is_value_text(text: &str) -> (r: bool)
    ensures
        r == is_value(text@),
{
    let chars = chars_of(text);
    let mut i: usize = 0;
    while i < chars.len()
        invariant
            i <= chars.len(),
            chars@ == text@,
            forall|k: int| 0 <= k < i ==> is_value_char(#[trigger] chars@[k]),
        decreases chars.len() - i,
    {
        let c = chars[i];
        if !((c >= ' ' && c != '\x7f') || c == '\t') {
            return false;
        }
        i += 1;
    }
    true
}

} // verus!
