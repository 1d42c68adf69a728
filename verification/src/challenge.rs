//! Reading of `WWW-Authenticate` challenges.

use crate::text::{
    chars_of, find_in, lemma_position_props, position, same_ignore_case, same_ignoring_case, slice,
    trim, trim_bounds, unquote, unquote_bounds,
};
use vstd::prelude::*;

verus! {

/// The parameters that one term between commas holds: a name and a value
/// where it has an `=`, nothing where it has none. Name and value lose the
/// white space around them, the value one pair of double quotes as well.
pub open spec fn parse_term(term: Seq<char>) -> Seq<(Seq<char>, Seq<char>)> {
    match position(term, seq!['=']) {
        Some(e) => seq![(trim(term.take(e)), unquote(trim(term.skip(e + 1))))],
        None => seq![],
    }
}

/// The parameters of a list of terms with commas between them, in the order
/// in which they stand. A comma inside quotes ends a term like any other.
pub open spec fn parse_terms(rest: Seq<char>) -> Seq<(Seq<char>, Seq<char>)>
    decreases rest.len(),
{
    match position(rest, seq![',']) {
        Some(k) => if 0 <= k < rest.len() {
            parse_term(rest.take(k)) + parse_terms(rest.skip(k + 1))
        } else {
            parse_term(rest)
        },
        None => parse_term(rest),
    }
}

/// The scheme and the parameters of a challenge: the scheme is what stands
/// before the first space, the parameters are read from what follows it.
/// A value without a space is no challenge.
pub open spec fn parse_challenge(value: Seq<char>) -> Option<
    (Seq<char>, Seq<(Seq<char>, Seq<char>)>),
> {
    match position(value, seq![' ']) {
        Some(k) => Some((value.take(k), parse_terms(value.skip(k + 1)))),
        None => None,
    }
}

/// The value of the last parameter whose name is `name`, whatever the case
/// of its letters.
pub open spec fn param_value(params: Seq<(Seq<char>, Seq<char>)>, name: Seq<char>) -> Option<
    Seq<char>,
>
    decreases params.len(),
{
    if params.len() == 0 {
        None
    } else if same_ignoring_case(params.last().0, name) {
        Some(params.last().1)
    } else {
        param_value(params.drop_last(), name)
    }
}

/// One parameter of a challenge.
pub struct ChallengeParam {
    pub name: String,
    pub value: String,
}

/// A challenge: its scheme and its parameters, in the order of the header.
pub struct Challenge {
    pub scheme: String,
    pub params: Vec<ChallengeParam>,
}

/// The names and values of a list of parameters.
pub open spec fn pairs_of(params: Seq<ChallengeParam>) -> Seq<(Seq<char>, Seq<char>)> {
    params.map_values(|p: ChallengeParam| (p.name@, p.value@))
}

impl Challenge {
    /// The names and values of the parameters.
    pub open spec fn pairs(&self) -> Seq<(Seq<char>, Seq<char>)> {
        pairs_of(self.params@)
    }

    /// Whether the scheme is `bearer`, in any case of its letters.
    pub fn is_bearer(&self) -> (r: bool)
        ensures
            r == same_ignoring_case(self.scheme@, "bearer"@),
    {
        same_ignore_case(&chars_of(self.scheme.as_str()), &chars_of("bearer"))
    }

    /// The value of the parameter `name`; of the last one, where several
    /// have that name.
    pub fn get(&self, name: &str) -> (out: Option<&String>)
        ensures
            match out {
                Some(v) => param_value(self.pairs(), name@) == Some(v@),
                None => param_value(self.pairs(), name@) is None,
            },
    {
        let wanted = chars_of(name);
        let mut i: usize = self.params.len();
        assert(self.pairs().take(i as int) =~= self.pairs());
        while i > 0
            invariant
                i <= self.params.len(),
                wanted@ == name@,
                param_value(self.pairs(), name@) == param_value(self.pairs().take(i as int), name@),
            decreases i,
        {
            assert(self.pairs().take(i as int).drop_last() =~= self.pairs().take(i - 1));
            i -= 1;
            if same_ignore_case(&chars_of(self.params[i].name.as_str()), &wanted) {
                return Some(&self.params[i].value);
            }
        }
        None
    }
}

/// Reads the term `text[from..to]` and adds what it holds to `out`.
fn read_term(text: &str, chars: &Vec<char>, from: usize, to: usize, out: &mut Vec<ChallengeParam>)
    requires
        chars@ == text@,
        from <= to <= chars.len(),
    ensures
        pairs_of(final(out)@) == pairs_of(old(out)@) + parse_term(
            chars@.subrange(from as int, to as int),
        ),
{
    let ghost term = chars@.subrange(from as int, to as int);
    let eq: Vec<char> = vec!['='];
    assert(eq@ =~= seq!['=']);
    match find_in(chars, &eq, from, to) {
        Some(e) => {
            assert(term.take(e - from) =~= chars@.subrange(from as int, e as int));
            assert(term.skip(e - from + 1) =~= chars@.subrange(e + 1, to as int));
            let name = trim_bounds(chars, from, e);
            let inner = trim_bounds(chars, e + 1, to);
            let value = unquote_bounds(chars, inner.0, inner.1);
            let param = ChallengeParam {
                name: slice(text, name.0, name.1),
                value: slice(text, value.0, value.1),
            };
            out.push(param);
            assert(pairs_of(out@) =~= pairs_of(old(out)@) + parse_term(term));
        },
        None => {
            assert(pairs_of(out@) =~= pairs_of(old(out)@) + parse_term(term));
        },
    }
}

/// Reads a `WWW-Authenticate` header value into its scheme and parameters.
pub fn parse_www_authenticate_header(header_value: &str) -> (out: Option<Challenge>)
    ensures
        match out {
            Some(c) => parse_challenge(header_value@) == Some((c.scheme@, c.pairs())),
            None => parse_challenge(header_value@) is None,
        },
{
    let chars = chars_of(header_value);
    let len: usize = chars.len();
    let space: Vec<char> = vec![' '];
    let comma: Vec<char> = vec![','];
    assert(space@ =~= seq![' ']);
    assert(comma@ =~= seq![',']);
    assert(chars@.subrange(0, len as int) =~= chars@);
    let k = match find_in(&chars, &space, 0, len) {
        Some(k) => k,
        None => {
            return None;
        },
    };
    let scheme = slice(header_value, 0, k);
    assert(scheme@ =~= chars@.take(k as int));
    let mut params: Vec<ChallengeParam> = Vec::new();
    let mut from: usize = k + 1;
    let ghost rest = chars@.skip(k + 1);
    assert(chars@.subrange(from as int, len as int) =~= rest);
    assert(pairs_of(params@) =~= Seq::empty());
    loop
        invariant
            chars@ == header_value@,
            len == chars.len(),
            comma@ == seq![','],
            from <= len,
            position(chars@, seq![' ']) == Some(k as int),
            scheme@ == chars@.take(k as int),
            rest == chars@.skip(k + 1),
            parse_terms(rest) == pairs_of(params@) + parse_terms(
                chars@.subrange(from as int, len as int),
            ),
        decreases len - from,
    {
        let ghost part = chars@.subrange(from as int, len as int);
        proof {
            lemma_position_props(part, comma@);
        }
        match find_in(&chars, &comma, from, len) {
            Some(c) => {
                assert(part.take(c - from) =~= chars@.subrange(from as int, c as int));
                assert(part.skip(c - from + 1) =~= chars@.subrange(c + 1, len as int));
                read_term(header_value, &chars, from, c, &mut params);
                from = c + 1;
            },
            None => {
                read_term(header_value, &chars, from, len, &mut params);
                return Some(Challenge { scheme, params });
            },
        }
    }
}

} // verus!
