//! The verbs that the proxy forwards.

use crate::text::{chars_of, same};
use vstd::prelude::*;

verus! {

/// A verb that the proxy forwards.
#[derive(Clone, Copy, Debug, PartialEq, Eq, Structural)]
pub enum HttpMethod {
    Get,
    Post,
    Put,
    Delete,
    Head,
    Patch,
}

/// The verb that a text names. Only the upper-case forms count.
pub open spec fn method_of(verb: Seq<char>) -> Option<HttpMethod> {
    if verb == "GET"@ {
        Some(HttpMethod::Get)
    } else if verb == "POST"@ {
        Some(HttpMethod::Post)
    } else if verb == "PUT"@ {
        Some(HttpMethod::Put)
    } else if verb == "DELETE"@ {
        Some(HttpMethod::Delete)
    } else if verb == "HEAD"@ {
        Some(HttpMethod::Head)
    } else if verb == "PATCH"@ {
        Some(HttpMethod::Patch)
    } else {
        None
    }
}

/// Reads a verb.
pub fn parse_method(verb: &str) -> (out: Option<HttpMethod>)
    ensures
        out == method_of(verb@),
{
    let chars = chars_of(verb);
    if same(&chars, &chars_of("GET")) {
        Some(HttpMethod::Get)
    } else if same(&chars, &chars_of("POST")) {
        Some(HttpMethod::Post)
    } else if same(&chars, &chars_of("PUT")) {
        Some(HttpMethod::Put)
    } else if same(&chars, &chars_of("DELETE")) {
        Some(HttpMethod::Delete)
    } else if same(&chars, &chars_of("HEAD")) {
        Some(HttpMethod::Head)
    } else if same(&chars, &chars_of("PATCH")) {
        Some(HttpMethod::Patch)
    } else {
        None
    }
}

} // verus!
