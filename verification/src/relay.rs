//! What the listener computes around the engine: the path and the query
//! that it hands in, and the status and the body that it hands back.

use crate::error::{error_text, ProxyError};
use crate::text::join;
use crate::token::{is_success, status_is_success};
use vstd::prelude::*;
use vstd::string::StringExecFns;

verus! {

/// The status with which the proxy answers where forwarding failed.
pub const FAILURE_STATUS: u16 = 500;

/// The path that the engine is given: the tail of the route after the
/// registry key, with a slash in front.
pub fn inbound_path(path_tail: &str) -> (out: String)
    ensures
        out@ == "/"@ + path_tail@,
{
    join("/", path_tail)
}

/// The names and values of query parameters.
pub open spec fn pairs_model(pairs: Seq<(String, String)>) -> Seq<(Seq<char>, Seq<char>)> {
    pairs.map_values(|p: (String, String)| (p.0@, p.1@))
}

/// Parameters written as `name=value`, with `&` between them.
pub open spec fn joined_pairs(pairs: Seq<(Seq<char>, Seq<char>)>) -> Seq<char>
    decreases pairs.len(),
{
    if pairs.len() == 0 {
        Seq::<char>::empty()
    } else if pairs.len() == 1 {
        pairs.last().0 + "="@ + pairs.last().1
    } else {
        joined_pairs(pairs.drop_last()) + "&"@ + pairs.last().0 + "="@ + pairs.last().1
    }
}

/// The query of the upstream address: nothing where there are no
/// parameters, else `?` and the parameters in the order given.
pub open spec fn query_text(pairs: Seq<(Seq<char>, Seq<char>)>) -> Option<Seq<char>> {
    if pairs.len() == 0 {
        None
    } else {
        Some("?"@ + joined_pairs(pairs))
    }
}

/// Writes the query of the upstream address.
pub fn query_string(pairs: &Vec<(String, String)>) -> (out: Option<String>)
    ensures
        match out {
            Some(q) => query_text(pairs_model(pairs@)) == Some(q@),
            None => query_text(pairs_model(pairs@)) is None,
        },
{
    if pairs.len() == 0 {
        return None;
    }
    let ghost all = pairs_model(pairs@);
    let mut text = join(pairs[0].0.as_str(), "=");
    text.append(pairs[0].1.as_str());
    assert(all.take(1).drop_last() =~= Seq::<(Seq<char>, Seq<char>)>::empty());
    let mut i: usize = 1;
    while i < pairs.len()
        invariant
            1 <= i <= pairs.len(),
            all == pairs_model(pairs@),
            text@ == joined_pairs(all.take(i as int)),
        decreases pairs.len() - i,
    {
        assert(all.take(i + 1).drop_last() =~= all.take(i as int));
        text.append("&");
        text.append(pairs[i].0.as_str());
        text.append("=");
        text.append(pairs[i].1.as_str());
        i += 1;
    }
    assert(all.take(pairs@.len() as int) =~= all);
    Some(join("?", text.as_str()))
}

/// The status that goes back to the client for an upstream status: the
/// same where it has three digits, else that of a failure.
pub fn relay_status(status: u16) -> (out: u16)
    ensures
        out == if 100 <= status && status < 1000 {
            status
        } else {
            FAILURE_STATUS
        },
{
    if 100 <= status && status < 1000 {
        status
    } else {
        FAILURE_STATUS
    }
}

/// Whether the proxy writes the body of the answer itself: it does where
/// the upstream reported no success and sent no body.
pub fn substitutes_body(status: u16, body_len: usize) -> (out: bool)
    ensures
        out == (!is_success(status) && body_len == 0),
{
    !status_is_success(status) && body_len == 0
}

/// The body that the proxy writes in place of an empty upstream body.
/// `status` is the status as the client is to read it.
pub fn upstream_error_body(status: &str) -> (out: String)
    ensures
        out@ == "Upstream error: "@ + status@,
{
    join("Upstream error: ", status)
}

/// The status and the body with which the proxy answers where forwarding
/// failed.
pub fn failure_reply(error: &ProxyError) -> (out: (u16, String))
    ensures
        out.0 == FAILURE_STATUS,
        out.1@ == error_text(*error),
{
    (FAILURE_STATUS, error.message())
}

} // verus!
