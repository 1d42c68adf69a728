//! Rewriting of request paths into the `/v2/...` form that Docker Hub expects.

use crate::text::{chars_of, count, count_char, has_prefix, join, matches_at, same};
use vstd::prelude::*;

verus! {

/// The path under which Docker Hub serves what `path` asks for, given the
/// registry key the request came in under. The first rule that fits decides.
pub open spec fn canonical_path(registry_key: Seq<char>, path: Seq<char>) -> Seq<char> {
    if registry_key == "v2"@ && path == "/"@ {
        "/v2/"@
    } else if registry_key == "v2"@ {
        "/v2"@ + path
    } else if has_prefix(path, "/v2"@) {
        path
    } else if has_prefix(path, "/library/"@) {
        "/v2"@ + path
    } else if has_prefix(path, "/"@) {
        if count_char(path, '/') >= 2 {
            "/v2"@ + path
        } else {
            "/v2/library"@ + path
        }
    } else {
        "/v2/"@ + path
    }
}

/// Rewrites `path` for Docker Hub.
pub fn format_docker_hub_path(registry_key: &str, path: &str) -> (out: String)
    ensures
        out@ == canonical_path(registry_key@, path@),
        has_prefix(out@, "/v2"@),
{
    proof {
        lemma_canonical_starts_with_v2(registry_key@, path@);
    }
    let key = chars_of(registry_key);
    let p = chars_of(path);
    if same(&key, &chars_of("v2")) {
        if same(&p, &chars_of("/")) {
            return "/v2/".to_owned();
        }
        return join("/v2", path);
    }
    if matches_at(&p, &chars_of("/v2"), 0) {
        return path.to_owned();
    }
    if matches_at(&p, &chars_of("/library/"), 0) {
        return join("/v2", path);
    }
    if matches_at(&p, &chars_of("/"), 0) {
        if count(&p, '/') >= 2 {
            return join("/v2", path);
        }
        return join("/v2/library", path);
    }
    join("/v2/", path)
}

/// A text that starts with `a` followed by anything starts with `a`.
pub proof fn lemma_prefix_of_concat(a: Seq<char>, b: Seq<char>)
    ensures
        has_prefix(a + b, a),
{
    assert((a + b).subrange(0, a.len() as int) =~= a);
}

/// Every canonical path begins with `/v2`.
pub proof fn lemma_canonical_starts_with_v2(registry_key: Seq<char>, path: Seq<char>)
    ensures
        has_prefix(canonical_path(registry_key, path), "/v2"@),
{
    reveal_strlit("/v2");
    reveal_strlit("/v2/");
    reveal_strlit("/v2/library");
    let v2 = "/v2"@;
    lemma_prefix_of_concat(v2, path);
    assert("/v2/"@.subrange(0, 3) =~= v2);
    assert(("/v2/"@ + path).subrange(0, 3) =~= v2);
    assert(("/v2/library"@ + path).subrange(0, 3) =~= v2);
}

/// Rewriting a path that was already rewritten leaves it as it is, under
/// every registry key but `v2`, which puts `/v2` in front of whatever it is
/// given.
pub proof fn lemma_canonical_idempotent(registry_key: Seq<char>, path: Seq<char>)
    requires
        registry_key != "v2"@,
    ensures
        canonical_path(registry_key, canonical_path(registry_key, path)) == canonical_path(
            registry_key,
            path,
        ),
{
    lemma_canonical_starts_with_v2(registry_key, path);
}

} // verus!
