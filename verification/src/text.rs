//! Text as sequences of characters: searching, trimming and slicing.
//!
//! Every contract here is stated over `Seq<char>`, the view of `str` and
//! `String`. Positions count characters, not bytes.

use vstd::prelude::*;
use vstd::string::StringExecFns;

verus! {

/// `p` stands in `s` at position `i`.
pub open spec fn occurs_at(s: Seq<char>, p: Seq<char>, i: int) -> bool {
    0 <= i && i + p.len() <= s.len() && s.subrange(i, i + p.len()) == p
}

/// `s` begins with `p`.
pub open spec fn has_prefix(s: Seq<char>, p: Seq<char>) -> bool {
    occurs_at(s, p, 0)
}

/// `p` stands somewhere in `s`.
pub open spec fn contains(s: Seq<char>, p: Seq<char>) -> bool {
    exists|i: int| occurs_at(s, p, i)
}

/// `i` is the leftmost position at which `p` stands in `s`.
pub open spec fn is_first_at(s: Seq<char>, p: Seq<char>, i: int) -> bool {
    occurs_at(s, p, i) && forall|j: int| 0 <= j < i ==> !occurs_at(s, p, j)
}

/// The leftmost position of `p` in `s`, if it stands there at all.
pub open spec fn position(s: Seq<char>, p: Seq<char>) -> Option<int> {
    if exists|i: int| is_first_at(s, p, i) {
        Some(choose|i: int| is_first_at(s, p, i))
    } else {
        None
    }
}

/// How often the character `c` stands in `s`.
pub open spec fn count_char(s: Seq<char>, c: char) -> nat
    decreases s.len(),
{
    if s.len() == 0 {
        0
    } else {
        count_char(s.drop_last(), c) + if s.last() == c {
            1nat
        } else {
            0nat
        }
    }
}

/// ASCII white space: space, tab, line feed, form feed, carriage return.
pub open spec fn is_space(c: char) -> bool {
    c == ' ' || c == '\t' || c == '\n' || c == '\x0C' || c == '\r'
}

/// `s` without the white space at its start.
pub open spec fn trim_start(s: Seq<char>) -> Seq<char>
    decreases s.len(),
{
    if s.len() > 0 && is_space(s.first()) {
        trim_start(s.drop_first())
    } else {
        s
    }
}

/// `s` without the white space at its end.
pub open spec fn trim_end(s: Seq<char>) -> Seq<char>
    decreases s.len(),
{
    if s.len() > 0 && is_space(s.last()) {
        trim_end(s.drop_last())
    } else {
        s
    }
}

/// `s` without the white space at either end.
pub open spec fn trim(s: Seq<char>) -> Seq<char> {
    trim_end(trim_start(s))
}

/// `s` without one pair of double quotes around it, where it has one.
pub open spec fn unquote(s: Seq<char>) -> Seq<char> {
    if s.len() >= 2 && s.first() == '"' && s.last() == '"' {
        s.subrange(1, s.len() - 1)
    } else {
        s
    }
}

/// The lower-case form of an ASCII capital; any other character unchanged.
pub open spec fn lower(c: char) -> char {
    if 'A' <= c && c <= 'Z' {
        ((c as u8) + 32) as char
    } else {
        c
    }
}

/// `a` and `b` are equal but for the case of ASCII letters.
pub open spec fn same_ignoring_case(a: Seq<char>, b: Seq<char>) -> bool {
    a.len() == b.len() && forall|i: int| 0 <= i < a.len() ==> lower(a[i]) == lower(b[i])
}

/// The view of a text that may be missing.
pub open spec fn opt_view(text: Option<&str>) -> Option<Seq<char>> {
    match text {
        Some(t) => Some(t@),
        None => None,
    }
}

/// A first occurrence is the position.
pub proof fn lemma_position_found(s: Seq<char>, p: Seq<char>, k: int)
    requires
        is_first_at(s, p, k),
    ensures
        position(s, p) == Some(k),
{
    let c = choose|i: int| is_first_at(s, p, i);
    assert(is_first_at(s, p, c));
    if c < k {
        assert(!occurs_at(s, p, c));
    }
    if k < c {
        assert(!occurs_at(s, p, k));
    }
}

/// Without an occurrence there is no position.
pub proof fn lemma_position_absent(s: Seq<char>, p: Seq<char>)
    requires
        forall|i: int| !occurs_at(s, p, i),
    ensures
        position(s, p) is None,
        !contains(s, p),
{
}

/// What a position says: the pattern stands there, and nowhere before.
pub proof fn lemma_position_props(s: Seq<char>, p: Seq<char>)
    ensures
        position(s, p) matches Some(k) ==> is_first_at(s, p, k),
        position(s, p) is Some <==> contains(s, p),
{
    if contains(s, p) {
        let w = choose|i: int| occurs_at(s, p, i);
        lemma_first_exists(s, p, w);
    }
}

/// Below any occurrence there is a first one.
proof fn lemma_first_exists(s: Seq<char>, p: Seq<char>, w: int)
    requires
        occurs_at(s, p, w),
    ensures
        exists|i: int| is_first_at(s, p, i),
    decreases w,
{
    if exists|j: int| 0 <= j < w && occurs_at(s, p, j) {
        let j = choose|j: int| 0 <= j < w && occurs_at(s, p, j);
        lemma_first_exists(s, p, j);
    } else {
        assert(is_first_at(s, p, w));
    }
}

/// Copies the characters of `s` into a vector.
pub fn chars_of(s: &str) -> (out: Vec<char>)
    ensures
        out@ == s@,
{
    let mut out: Vec<char> = Vec::new();
    for c in it: s.chars()
        invariant
            out@ == it.seq().take(it.index() as int),
            it.seq() == s@,
    {
        out.push(c);
    }
    out
}

/// Whether `p` stands in `s` at position `i`.
pub fn matches_at(s: &Vec<char>, p: &Vec<char>, i: usize) -> (r: bool)
    ensures
        r == occurs_at(s@, p@, i as int),
{
    if p.len() > s.len() || i > s.len() - p.len() {
        return false;
    }
    let mut j: usize = 0;
    while j < p.len()
        invariant
            j <= p.len(),
            i + p.len() <= s.len(),
            forall|k: int| 0 <= k < j ==> s@[i + k] == p@[k],
        decreases p.len() - j,
    {
        if s[i + j] != p[j] {
            assert(s@.subrange(i as int, i + p.len())[j as int] != p@[j as int]);
            return false;
        }
        j += 1;
    }
    assert(s@.subrange(i as int, i + p.len()) =~= p@);
    true
}

/// Where `p` stands in a part of `s`, it stands in `s`, and the other way round.
pub proof fn lemma_occurs_in_part(s: Seq<char>, p: Seq<char>, from: int, to: int, j: int)
    requires
        0 <= from <= to <= s.len(),
    ensures
        occurs_at(s.subrange(from, to), p, j) <==> (0 <= j && from + j + p.len() <= to && occurs_at(
            s,
            p,
            from + j,
        )),
{
    if 0 <= j && from + j + p.len() <= to {
        assert(s.subrange(from, to).subrange(j, j + p.len()) =~= s.subrange(
            from + j,
            from + j + p.len(),
        ));
    }
}

/// The leftmost position of `p` in `s[from..to]`, counted in `s`.
pub fn find_in(s: &Vec<char>, p: &Vec<char>, from: usize, to: usize) -> (r: Option<usize>)
    requires
        from <= to <= s.len(),
    ensures
        match r {
            Some(k) => from <= k && k + p.len() <= to && position(
                s@.subrange(from as int, to as int),
                p@,
            ) == Some(k - from),
            None => position(s@.subrange(from as int, to as int), p@) is None && !contains(
                s@.subrange(from as int, to as int),
                p@,
            ),
        },
{
    let ghost part = s@.subrange(from as int, to as int);
    if p.len() > to - from {
        proof {
            lemma_position_absent(part, p@);
        }
        return None;
    }
    let last: usize = to - p.len();
    let mut i: usize = from;
    loop
        invariant
            from <= to <= s.len(),
            part == s@.subrange(from as int, to as int),
            last == to - p.len(),
            from <= i <= last,
            forall|j: int| 0 <= j < i - from ==> !occurs_at(part, p@, j),
        decreases last - i,
    {
        proof {
            lemma_occurs_in_part(s@, p@, from as int, to as int, i - from);
        }
        if matches_at(s, p, i) {
            proof {
                lemma_position_found(part, p@, i - from);
            }
            return Some(i);
        }
        if i == last {
            proof {
                lemma_position_absent(part, p@);
            }
            return None;
        }
        i += 1;
    }
}

/// The leftmost position of `p` in `s`.
pub fn find(s: &Vec<char>, p: &Vec<char>) -> (r: Option<usize>)
    ensures
        match r {
            Some(k) => position(s@, p@) == Some(k as int) && k + p.len() <= s.len(),
            None => position(s@, p@) is None && !contains(s@, p@),
        },
{
    assert(s@.subrange(0, s@.len() as int) =~= s@);
    find_in(s, p, 0, s.len())
}

/// Whether `s` and `p` are the same text.
pub fn same(s: &Vec<char>, p: &Vec<char>) -> (r: bool)
    ensures
        r == (s@ == p@),
{
    if s.len() != p.len() {
        return false;
    }
    let r = matches_at(s, p, 0);
    assert(s@.subrange(0, s@.len() as int) =~= s@);
    r
}

/// How often `c` stands in `s`.
pub fn count(s: &Vec<char>, c: char) -> (n: usize)
    ensures
        n == count_char(s@, c),
{
    let mut n: usize = 0;
    let mut i: usize = 0;
    while i < s.len()
        invariant
            i <= s.len(),
            n <= i,
            n == count_char(s@.take(i as int), c),
        decreases s.len() - i,
    {
        assert(s@.take(i + 1).drop_last() =~= s@.take(i as int));
        if s[i] == c {
            n += 1;
        }
        i += 1;
    }
    assert(s@.take(s@.len() as int) =~= s@);
    n
}

/// Whether `c` is ASCII white space.
pub fn is_space_char(c: char) -> (r: bool)
    ensures
        r == is_space(c),
{
    c == ' ' || c == '\t' || c == '\n' || c == '\x0C' || c == '\r'
}

/// The bounds of `s[from..to]` without the white space at either end.
pub fn trim_bounds(s: &Vec<char>, from: usize, to: usize) -> (r: (usize, usize))
    requires
        from <= to <= s.len(),
    ensures
        from <= r.0 <= r.1 <= to,
        s@.subrange(r.0 as int, r.1 as int) == trim(s@.subrange(from as int, to as int)),
{
    let mut a: usize = from;
    while a < to && is_space_char(s[a])
        invariant
            from <= a <= to <= s.len(),
            trim_start(s@.subrange(from as int, to as int)) == trim_start(
                s@.subrange(a as int, to as int),
            ),
        decreases to - a,
    {
        assert(s@.subrange(a as int, to as int).drop_first() =~= s@.subrange(a + 1, to as int));
        a += 1;
    }
    let mut b: usize = to;
    while b > a && is_space_char(s[b - 1])
        invariant
            a <= b <= to <= s.len(),
            trim_end(s@.subrange(a as int, to as int)) == trim_end(s@.subrange(a as int, b as int)),
        decreases b - a,
    {
        assert(s@.subrange(a as int, b as int).drop_last() =~= s@.subrange(a as int, b - 1));
        b -= 1;
    }
    (a, b)
}

/// The bounds of `s[from..to]` without one pair of double quotes around it.
pub fn unquote_bounds(s: &Vec<char>, from: usize, to: usize) -> (r: (usize, usize))
    requires
        from <= to <= s.len(),
    ensures
        from <= r.0 <= r.1 <= to,
        s@.subrange(r.0 as int, r.1 as int) == unquote(s@.subrange(from as int, to as int)),
{
    if to - from >= 2 && s[from] == '"' && s[to - 1] == '"' {
        assert(s@.subrange(from as int, to as int).subrange(1, to - from - 1) =~= s@.subrange(
            from + 1,
            to - 1,
        ));
        (from + 1, to - 1)
    } else {
        (from, to)
    }
}

/// The lower-case form of an ASCII capital; any other character unchanged.
pub fn lower_char(c: char) -> (r: char)
    ensures
        r == lower(c),
{
    if 'A' <= c && c <= 'Z' {
        ((c as u8) + 32) as char
    } else {
        c
    }
}

/// Whether `a` and `b` are equal but for the case of ASCII letters.
pub fn same_ignore_case(a: &Vec<char>, b: &Vec<char>) -> (r: bool)
    ensures
        r == same_ignoring_case(a@, b@),
{
    if a.len() != b.len() {
        return false;
    }
    let mut i: usize = 0;
    while i < a.len()
        invariant
            i <= a.len(),
            a.len() == b.len(),
            forall|k: int| 0 <= k < i ==> lower(a@[k]) == lower(b@[k]),
        decreases a.len() - i,
    {
        if lower_char(a[i]) != lower_char(b[i]) {
            return false;
        }
        i += 1;
    }
    true
}

/// The characters `from..to` of `s`, as a string of their own.
pub fn slice(s: &str, from: usize, to: usize) -> (out: String)
    requires
        from <= to <= s@.len(),
    ensures
        out@ == s@.subrange(from as int, to as int),
{
    String::from_str(s.substring_char(from, to))
}

/// `a` followed by `b`.
pub fn join(a: &str, b: &str) -> (out: String)
    ensures
        out@ == a@ + b@,
{
    String::from_str(a).concat(b)
}

} // verus!
