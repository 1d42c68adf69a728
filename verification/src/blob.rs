//! Addresses: the upstream address of a request, the repository and digest
//! that a blob address names, and the addresses tried when Docker Hub
//! refuses a blob.

use crate::text::{
    chars_of, contains, find, find_in, has_prefix, join, lemma_position_props, matches_at,
    opt_view, position, slice,
};
use vstd::prelude::*;
use vstd::string::StringExecFns;

verus! {

/// The repository assumed where an address names none.
pub const DEFAULT_REPOSITORY: &'static str = "library/redis";

/// The address of a request at its upstream registry.
pub open spec fn upstream_url(host: Seq<char>, path: Seq<char>, query: Option<Seq<char>>) -> Seq<
    char,
> {
    "https://"@ + host + path + match query {
        Some(q) => q,
        None => Seq::<char>::empty(),
    }
}

/// Whether a path asks for a blob.
pub open spec fn is_blob_path(path: Seq<char>) -> bool {
    contains(path, "/blobs/"@)
}

/// What stands between the first `open` and the first `close`, where the
/// first `close` begins at or after the end of the first `open`.
pub open spec fn between(text: Seq<char>, open: Seq<char>, close: Seq<char>) -> Option<Seq<char>> {
    match (position(text, open), position(text, close)) {
        (Some(a), Some(b)) => if a + open.len() <= b {
            Some(text.subrange(a + open.len(), b))
        } else {
            None
        },
        _ => None,
    }
}

/// The repository that a blob path or address names: what stands between
/// `/v2/` and `/blobs/`, or the default where that is nothing.
pub open spec fn repository_in(text: Seq<char>) -> Seq<char> {
    match between(text, "/v2/"@, "/blobs/"@) {
        Some(name) => if name.len() > 0 {
            name
        } else {
            DEFAULT_REPOSITORY@
        },
        None => DEFAULT_REPOSITORY@,
    }
}

/// The scope of a token that allows pulling from `repository`.
pub open spec fn pull_scope(repository: Seq<char>) -> Seq<char> {
    "repository:"@ + repository + ":pull"@
}

/// The digest that a blob address names: what follows the first `/blobs/`.
pub open spec fn digest_in(url: Seq<char>) -> Option<Seq<char>> {
    match position(url, "/blobs/"@) {
        Some(b) => Some(url.skip(b + "/blobs/"@.len())),
        None => None,
    }
}

/// `text` with a slash in place of every colon.
pub open spec fn colons_to_slashes(text: Seq<char>) -> Seq<char>
    decreases text.len(),
{
    match position(text, seq![':']) {
        Some(k) => if 0 <= k < text.len() {
            text.take(k) + "/"@ + colons_to_slashes(text.skip(k + 1))
        } else {
            text
        },
        None => text,
    }
}

/// The content-delivery address of a blob, sharded by the two characters
/// of the digest at offsets 7 and 8.
pub open spec fn cloudflare_url(digest: Seq<char>) -> Seq<char> {
    "https://production.cloudflare.docker.com/registry-v2/docker/registry/v2/blobs/sha256/"@
        + digest.subrange(7, 9) + "/"@ + colons_to_slashes(digest) + "/data"@
}

/// The address of a blob at a registry mirror whose address starts with `base`.
pub open spec fn mirror_url(base: Seq<char>, repository: Seq<char>, digest: Seq<char>) -> Seq<
    char,
> {
    base + repository + "/blobs/"@ + digest
}

/// The addresses tried in turn for a blob that Docker Hub refused at `url`:
/// three where `url` names a digest of at least nine characters, else none.
pub open spec fn fallback_candidates(url: Seq<char>) -> Seq<Seq<char>> {
    match digest_in(url) {
        Some(digest) => if digest.len() >= 9 {
            seq![
                cloudflare_url(digest),
                mirror_url("https://registry.hub.docker.com/v2/"@, repository_in(url), digest),
                mirror_url("https://registry-cdn.docker.io/v2/"@, repository_in(url), digest),
            ]
        } else {
            Seq::<Seq<char>>::empty()
        },
        None => Seq::<Seq<char>>::empty(),
    }
}

/// The address at which the Hub API describes the tag that a manifest path
/// names. The path has the form `/v2/<name>/manifests/<reference>`; a
/// `library/` at the start of the name is left out.
pub open spec fn hub_api_url(path: Seq<char>) -> Option<Seq<char>> {
    match position(path, "/manifests/"@) {
        Some(m) => if has_prefix(path, "/v2/"@) && "/v2/"@.len() < m {
            let name = path.subrange("/v2/"@.len() as int, m);
            let reference = path.skip(m + "/manifests/"@.len());
            let short = if has_prefix(name, "library/"@) {
                name.skip("library/"@.len() as int)
            } else {
                name
            };
            Some("https://hub.docker.com/v2/repositories/"@ + short + "/tags/"@ + reference)
        } else {
            None
        },
        None => None,
    }
}

/// Builds the address of a request at its upstream registry.
pub fn build_upstream_url(host: &str, path: &str, query: Option<&str>) -> (out: String)
    ensures
        out@ == upstream_url(host@, path@, opt_view(query)),
{
    let a = join("https://", host);
    let mut out = join(a.as_str(), path);
    match query {
        Some(q) => {
            out.append(q);
        },
        None => {
            assert(out@ + Seq::<char>::empty() =~= out@);
        },
    }
    out
}

/// Whether `path` asks for a blob.
pub fn path_is_blob(path: &str) -> (r: bool)
    ensures
        r == is_blob_path(path@),
{
    let found = find(&chars_of(path), &chars_of("/blobs/"));
    proof {
        lemma_position_props(path@, "/blobs/"@);
    }
    found.is_some()
}

/// The repository that a blob path or address names.
pub fn repository_of(text: &str) -> (out: String)
    ensures
        out@ == repository_in(text@),
{
    let chars = chars_of(text);
    let open = chars_of("/v2/");
    let close = chars_of("/blobs/");
    match (find(&chars, &open), find(&chars, &close)) {
        (Some(a), Some(b)) => {
            if a + open.len() < b {
                slice(text, a + open.len(), b)
            } else {
                DEFAULT_REPOSITORY.to_owned()
            }
        },
        _ => DEFAULT_REPOSITORY.to_owned(),
    }
}

/// The scope of a token that allows pulling from `repository`.
pub fn pull_scope_of(repository: &str) -> (out: String)
    ensures
        out@ == pull_scope(repository@),
{
    let a = join("repository:", repository);
    join(a.as_str(), ":pull")
}

/// `text` with a slash in place of every colon.
pub fn replace_colons(text: &str) -> (out: String)
    ensures
        out@ == colons_to_slashes(text@),
{
    let chars = chars_of(text);
    let len: usize = chars.len();
    let colon: Vec<char> = vec![':'];
    assert(colon@ =~= seq![':']);
    let mut out = String::new();
    let mut from: usize = 0;
    assert(chars@.subrange(0, len as int) =~= chars@);
    assert(out@ + colons_to_slashes(chars@) =~= colons_to_slashes(chars@));
    loop
        invariant
            chars@ == text@,
            len == chars.len(),
            colon@ == seq![':'],
            from <= len,
            colons_to_slashes(text@) == out@ + colons_to_slashes(
                chars@.subrange(from as int, len as int),
            ),
        decreases len - from,
    {
        let ghost part = chars@.subrange(from as int, len as int);
        match find_in(&chars, &colon, from, len) {
            Some(k) => {
                assert(part.take(k - from) =~= chars@.subrange(from as int, k as int));
                assert(part.skip(k - from + 1) =~= chars@.subrange(k + 1, len as int));
                let ghost before = out@;
                out.append(slice(text, from, k).as_str());
                out.append("/");
                assert(out@ + colons_to_slashes(part.skip(k - from + 1)) =~= before + (part.take(
                    k - from,
                ) + "/"@ + colons_to_slashes(part.skip(k - from + 1))));
                from = k + 1;
            },
            None => {
                out.append(slice(text, from, len).as_str());
                return out;
            },
        }
    }
}

/// The addresses tried in turn for a blob that Docker Hub refused at `url`.
pub fn candidates_for(url: &str) -> (out: Vec<String>)
    ensures
        out@.len() == fallback_candidates(url@).len(),
        forall|i: int|
            0 <= i < out@.len() ==> (#[trigger] out@[i])@ == fallback_candidates(url@)[i],
{
    let chars = chars_of(url);
    let marker = chars_of("/blobs/");
    let mut out: Vec<String> = Vec::new();
    let start = match find(&chars, &marker) {
        Some(b) => b + marker.len(),
        None => {
            return out;
        },
    };
    if chars.len() - start < 9 {
        return out;
    }
    let digest = slice(url, start, chars.len());
    assert(digest@ =~= url@.skip(start as int));
    let repository = repository_of(url);
    let shard = slice(digest.as_str(), 7, 9);
    let flat = replace_colons(digest.as_str());
    let mut first = join(
        "https://production.cloudflare.docker.com/registry-v2/docker/registry/v2/blobs/sha256/",
        shard.as_str(),
    );
    first.append("/");
    first.append(flat.as_str());
    first.append("/data");
    let mut second = join("https://registry.hub.docker.com/v2/", repository.as_str());
    second.append("/blobs/");
    second.append(digest.as_str());
    let mut third = join("https://registry-cdn.docker.io/v2/", repository.as_str());
    third.append("/blobs/");
    third.append(digest.as_str());
    out.push(first);
    out.push(second);
    out.push(third);
    out
}

/// The address at which the Hub API describes the tag that a manifest path names.
pub fn hub_api_url_of(path: &str) -> (out: Option<String>)
    ensures
        match out {
            Some(url) => hub_api_url(path@) == Some(url@),
            None => hub_api_url(path@) is None,
        },
{
    let chars = chars_of(path);
    let root = chars_of("/v2/");
    let marker = chars_of("/manifests/");
    let library = chars_of("library/");
    let m = match find(&chars, &marker) {
        Some(m) => m,
        None => {
            return None;
        },
    };
    if !matches_at(&chars, &root, 0) || root.len() >= m {
        return None;
    }
    let name = slice(path, root.len(), m);
    let reference = slice(path, m + marker.len(), chars.len());
    assert(reference@ =~= path@.skip(m + marker.len()));
    let name_chars = chars_of(name.as_str());
    let short = if matches_at(&name_chars, &library, 0) {
        let s = slice(name.as_str(), library.len(), name_chars.len());
        assert(s@ =~= name@.skip(library.len() as int));
        s
    } else {
        name
    };
    let mut url = join("https://hub.docker.com/v2/repositories/", short.as_str());
    url.append("/tags/");
    url.append(reference.as_str());
    Some(url)
}

} // verus!
