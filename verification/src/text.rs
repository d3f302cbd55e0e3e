//! Character-level text operations on `&str`, stated over the string's
//! sequence of characters.

use vstd::prelude::*;

verus! {

/// Unicode `White_Space` characters, as recognised by `char::is_whitespace`.
pub open spec fn spec_is_whitespace(c: char) -> bool {
    ||| c == '\t' || c == '\n' || c == '\u{0B}' || c == '\u{0C}' || c == '\r' || c == ' '
    ||| c == '\u{85}' || c == '\u{A0}' || c == '\u{1680}'
    ||| ('\u{2000}' <= c && c <= '\u{200A}')
    ||| c == '\u{2028}' || c == '\u{2029}' || c == '\u{202F}' || c == '\u{205F}'
    ||| c == '\u{3000}'
}

/// Whether `c` is a Unicode whitespace character (same set as `char::is_whitespace`).
pub fn is_whitespace(c: char) -> (b: bool)
    ensures
        b == spec_is_whitespace(c),
{
    c == '\t' || c == '\n' || c == '\u{0B}' || c == '\u{0C}' || c == '\r' || c == ' '
        || c == '\u{85}' || c == '\u{A0}' || c == '\u{1680}' || ('\u{2000}' <= c && c
        <= '\u{200A}') || c == '\u{2028}' || c == '\u{2029}' || c == '\u{202F}' || c
        == '\u{205F}' || c == '\u{3000}'
}

/// `s` with leading whitespace removed.
pub open spec fn spec_trim_start(s: Seq<char>) -> Seq<char>
    decreases s.len(),
{
    if s.len() > 0 && spec_is_whitespace(s[0]) {
        spec_trim_start(s.drop_first())
    } else {
        s
    }
}

/// `s` with trailing whitespace removed.
pub open spec fn spec_trim_end(s: Seq<char>) -> Seq<char>
    decreases s.len(),
{
    if s.len() > 0 && spec_is_whitespace(s.last()) {
        spec_trim_end(s.drop_last())
    } else {
        s
    }
}

/// `s` with leading and trailing whitespace removed (`str::trim`).
pub open spec fn spec_trim(s: Seq<char>) -> Seq<char> {
    spec_trim_end(spec_trim_start(s))
}

/// Whether `s` begins with `prefix`.
pub open spec fn spec_starts_with(s: Seq<char>, prefix: Seq<char>) -> bool {
    prefix.len() <= s.len() && s.subrange(0, prefix.len() as int) == prefix
}

/// `s` with every leading repetition of a non-empty `prefix` removed
/// (`str::trim_start_matches` with a string pattern).
pub open spec fn spec_trim_start_matches(s: Seq<char>, prefix: Seq<char>) -> Seq<char>
    decreases s.len(),
{
    if prefix.len() > 0 && spec_starts_with(s, prefix) {
        spec_trim_start_matches(s.subrange(prefix.len() as int, s.len() as int), prefix)
    } else {
        s
    }
}

/// `str::strip_prefix`: the rest of `s` after `prefix`, if `s` starts with it.
pub open spec fn spec_strip_prefix(s: Seq<char>, prefix: Seq<char>) -> Option<Seq<char>> {
    if spec_starts_with(s, prefix) {
        Some(s.subrange(prefix.len() as int, s.len() as int))
    } else {
        None
    }
}

/// The characters of `s`, in order.
pub fn chars_of(s: &str) -> (v: Vec<char>)
    ensures
        v@ == s@,
{
    let mut v: Vec<char> = Vec::new();
    for c in it: s.chars()
        invariant
            it.seq() == s@,
            v@ == s@.take(it.index() as int),
    {
        v.push(c);
    }
    assert(v@ =~= s@);
    v
}

/// Whether the characters of `s` begin with those of `prefix`, from position `at`.
fn matches_at(s: &Vec<char>, at: usize, prefix: &Vec<char>) -> (b: bool)
    requires
        at <= s.len(),
    ensures
        b == spec_starts_with(s@.subrange(at as int, s.len() as int), prefix@),
{
    if prefix.len() > s.len() - at {
        return false;
    }
    let mut i: usize = 0;
    while i < prefix.len()
        invariant
            i <= prefix.len(),
            prefix.len() <= s.len() - at,
            forall|k: int| 0 <= k < i ==> s@[at + k] == prefix@[k],
        decreases prefix.len() - i,
    {
        if s[at + i] != prefix[i] {
            assert(s@.subrange(at as int, s.len() as int).subrange(0, prefix.len() as int)[i as int]
                != prefix@[i as int]);
            return false;
        }
        i = i + 1;
    }
    assert(s@.subrange(at as int, s.len() as int).subrange(0, prefix.len() as int) =~= prefix@);
    true
}

/// Whether `s` begins with `prefix` (`str::starts_with`).
pub fn starts_with(s: &str, prefix: &str) -> (b: bool)
    ensures
        b == spec_starts_with(s@, prefix@),
{
    let cs = chars_of(s);
    let ps = chars_of(prefix);
    let b = matches_at(&cs, 0, &ps);
    assert(cs@.subrange(0, cs@.len() as int) =~= cs@);
    b
}

/// `str::trim`: `s` without leading and trailing whitespace.
pub fn trim(s: &str) -> (r: String)
    ensures
        r@ == spec_trim(s@),
{
    let cs = chars_of(s);
    let n = cs.len();
    let mut start: usize = 0;
    assert(cs@.subrange(0, n as int) =~= cs@);
    while start < n && is_whitespace(cs[start])
        invariant
            start <= n,
            n == cs@.len(),
            spec_trim_start(cs@) == spec_trim_start(cs@.subrange(start as int, n as int)),
        decreases n - start,
    {
        assert(cs@.subrange(start as int, n as int).drop_first() =~= cs@.subrange(
            start + 1,
            n as int,
        ));
        start = start + 1;
    }
    let ghost front = cs@.subrange(start as int, n as int);
    assert(spec_trim_start(cs@) == front);
    let mut end: usize = n;
    while end > start && is_whitespace(cs[end - 1])
        invariant
            start <= end <= n,
            n == cs@.len(),
            front == cs@.subrange(start as int, n as int),
            spec_trim_end(front) == spec_trim_end(cs@.subrange(start as int, end as int)),
        decreases end - start,
    {
        assert(cs@.subrange(start as int, end as int).drop_last() =~= cs@.subrange(
            start as int,
            end - 1,
        ));
        end = end - 1;
    }
    let r = s.substring_char(start, end).to_owned();
    r
}

/// `str::trim_start_matches` with a non-empty string pattern: strips every
/// leading repetition of `prefix` from `s`.
pub fn trim_start_matches(s: &str, prefix: &str) -> (r: String)
    ensures
        r@ == spec_trim_start_matches(s@, prefix@),
{
    let cs = chars_of(s);
    let ps = chars_of(prefix);
    let n = cs.len();
    if ps.len() == 0 {
        return s.to_owned();
    }
    let mut at: usize = 0;
    assert(cs@.subrange(0, n as int) =~= cs@);
    while matches_at(&cs, at, &ps)
        invariant
            at <= n,
            n == cs@.len(),
            ps@.len() > 0,
            spec_trim_start_matches(cs@, ps@) == spec_trim_start_matches(
                cs@.subrange(at as int, n as int),
                ps@,
            ),
        decreases n - at,
    {
        assert(cs@.subrange(at as int, n as int).subrange(ps@.len() as int, (n - at) as int)
            =~= cs@.subrange(at + ps@.len(), n as int));
        at = at + ps.len();
    }
    assert(cs@.subrange(0, n as int) =~= cs@);
    s.substring_char(at, n).to_owned()
}

/// `str::strip_prefix`: the rest of `s` after `prefix`, or `None` when `s`
/// does not start with `prefix`.
pub fn strip_prefix(s: &str, prefix: &str) -> (r: Option<String>)
    ensures
        r matches Some(rest) ==> spec_strip_prefix(s@, prefix@) == Some(rest@),
        r is None <==> spec_strip_prefix(s@, prefix@) is None,
{
    let cs = chars_of(s);
    let ps = chars_of(prefix);
    assert(cs@.subrange(0, cs@.len() as int) =~= cs@);
    if matches_at(&cs, 0, &ps) {
        Some(s.substring_char(ps.len(), cs.len()).to_owned())
    } else {
        None
    }
}

/// Stripping every leading copy of a non-empty prefix gives the same text
/// whether or not one more copy of the prefix stood in front.
pub proof fn lemma_trim_start_matches_absorbs_prefix(s: Seq<char>, prefix: Seq<char>)
    requires
        prefix.len() > 0,
    ensures
        spec_trim_start_matches(prefix + s, prefix) == spec_trim_start_matches(s, prefix),
{
    let t = prefix + s;
    assert(t.subrange(0, prefix.len() as int) =~= prefix);
    assert(t.subrange(prefix.len() as int, t.len() as int) =~= s);
}

/// The result of stripping leading copies of a non-empty prefix no longer
/// starts with that prefix.
pub proof fn lemma_trim_start_matches_done(s: Seq<char>, prefix: Seq<char>)
    requires
        prefix.len() > 0,
    ensures
        !spec_starts_with(spec_trim_start_matches(s, prefix), prefix),
    decreases s.len(),
{
    if spec_starts_with(s, prefix) {
        lemma_trim_start_matches_done(s.subrange(prefix.len() as int, s.len() as int), prefix);
    }
}

} // verus!
