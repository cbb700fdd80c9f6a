//! Semantic versions: `major.minor.patch`, then an optional `-` and
//! prerelease identifiers, then an optional `+` and build identifiers.

use crate::text::{all_in, chars_of, find_char, is_digit, none_is, run_end, spans, CharClass};
use vstd::prelude::*;

verus! {

/// The two kinds of dot-separated identifiers that may follow the core.
#[derive(Clone, Copy, Debug, PartialEq, Eq)]
pub enum IdKind {
    Prerelease,
    Build,
}

/// From `lo` up to `hi`: one or more digits, with a leading `0` only where
/// it stands alone.
pub open spec fn is_numeric(s: Seq<char>, lo: int, hi: int) -> bool {
    &&& lo < hi
    &&& all_in(s, lo, hi, CharClass::Digit)
    &&& (hi - lo == 1 || s[lo] != '0')
}

/// From `lo` up to `hi`: a numeric identifier, or identifier characters of
/// which at least one is no digit.
pub open spec fn is_prerelease_id(s: Seq<char>, lo: int, hi: int) -> bool {
    ||| is_numeric(s, lo, hi)
    ||| (all_in(s, lo, hi, CharClass::Identifier) && exists|k: int|
        lo <= k < hi && !is_digit(#[trigger] s[k]))
}

/// From `lo` up to `hi`: one or more identifier characters.
pub open spec fn is_build_id(s: Seq<char>, lo: int, hi: int) -> bool {
    lo < hi && all_in(s, lo, hi, CharClass::Identifier)
}

/// From `lo` up to `hi`: an identifier of the kind `kind`.
pub open spec fn is_id(kind: IdKind, s: Seq<char>, lo: int, hi: int) -> bool {
    match kind {
        IdKind::Prerelease => is_prerelease_id(s, lo, hi),
        IdKind::Build => is_build_id(s, lo, hi),
    }
}

/// Within `lo..hi`, the stretch `i..j` holds no dot and cannot be made
/// longer on either side.
pub open spec fn is_part(s: Seq<char>, lo: int, hi: int, i: int, j: int) -> bool {
    &&& lo <= i <= j <= hi
    &&& (i == lo || s[i - 1] == '.')
    &&& (j == hi || s[j] == '.')
    &&& none_is(s, i, j, '.')
}

/// From `lo` up to `hi`: identifiers of the given kind separated by single
/// dots, at least one of them.
pub open spec fn is_dotted(s: Seq<char>, lo: int, hi: int, kind: IdKind) -> bool {
    forall|i: int, j: int| #[trigger] is_part(s, lo, hi, i, j) ==> is_id(kind, s, i, j)
}

/// `s` is a version whose major number ends at `a`, minor at `b`, patch at
/// `c`, and whose prerelease part, if any, ends at `d`.
pub open spec fn is_version_split(s: Seq<char>, a: int, b: int, c: int, d: int) -> bool {
    &&& 0 < a < b < c <= d <= s.len()
    &&& is_numeric(s, 0, a)
    &&& s[a] == '.'
    &&& is_numeric(s, a + 1, b)
    &&& s[b] == '.'
    &&& is_numeric(s, b + 1, c)
    &&& (c == d || (s[c] == '-' && is_dotted(s, c + 1, d, IdKind::Prerelease)))
    &&& (d == s.len() || (s[d] == '+' && is_dotted(s, d + 1, s.len() as int, IdKind::Build)))
}

/// The grammar of semantic versions.
pub open spec fn is_version(s: Seq<char>) -> bool {
    exists|a: int, b: int, c: int, d: int| is_version_split(s, a, b, c, d)
}

/// Every position of `lo..hi` that holds no dot lies in a part.
pub proof fn lemma_part_around(s: Seq<char>, lo: int, hi: int, k: int) -> (part: (int, int))
    requires
        0 <= lo <= k < hi <= s.len(),
        s[k] != '.',
    ensures
        is_part(s, lo, hi, part.0, part.1),
        part.0 <= k < part.1,
{
    let i = part_start(s, lo, k);
    let j = part_end(s, hi, k + 1);
    (i, j)
}

proof fn part_start(s: Seq<char>, lo: int, k: int) -> (i: int)
    requires
        0 <= lo <= k <= s.len(),
    ensures
        lo <= i <= k,
        i == lo || s[i - 1] == '.',
        none_is(s, i, k, '.'),
    decreases k - lo,
{
    if k == lo || s[k - 1] == '.' {
        k
    } else {
        part_start(s, lo, k - 1)
    }
}

proof fn part_end(s: Seq<char>, hi: int, k: int) -> (j: int)
    requires
        0 <= k <= hi <= s.len(),
    ensures
        k <= j <= hi,
        j == hi || s[j] == '.',
        none_is(s, k, j, '.'),
    decreases hi - k,
{
    if k == hi || s[k] == '.' {
        k
    } else {
        part_end(s, hi, k + 1)
    }
}

fn matches_numeric(s: &Vec<char>, lo: usize, hi: usize) -> (yes: bool)
    requires
        lo <= hi <= s.len(),
        all_in(s@, lo as int, hi as int, CharClass::Digit),
    ensures
        yes == is_numeric(s@, lo as int, hi as int),
{
    lo < hi && (hi - lo == 1 || s[lo] != '0')
}

fn matches_id(s: &Vec<char>, lo: usize, hi: usize, kind: IdKind) -> (yes: bool)
    requires
        lo <= hi <= s.len(),
    ensures
        yes == is_id(kind, s@, lo as int, hi as int),
{
    if lo == hi || !spans(s, lo, hi, CharClass::Identifier) {
        return false;
    }
    match kind {
        IdKind::Build => true,
        IdKind::Prerelease => {
            let digits = run_end(s, lo, hi, CharClass::Digit);
            if digits == hi {
                matches_numeric(s, lo, hi)
            } else {
                true
            }
        },
    }
}

fn matches_dotted(s: &Vec<char>, lo: usize, hi: usize, kind: IdKind) -> (yes: bool)
    requires
        lo <= hi <= s.len(),
    ensures
        yes == is_dotted(s@, lo as int, hi as int, kind),
{
    let mut start: usize = lo;
    loop
        invariant
            lo <= start <= hi <= s.len(),
            start == lo || s@[start - 1] == '.',
            forall|i: int, j: int| #[trigger]
                is_part(s@, lo as int, hi as int, i, j) && i < start ==> is_id(kind, s@, i, j),
        decreases hi - start,
    {
        let dot = find_char(s, start, hi, '.');
        assert(is_part(s@, lo as int, hi as int, start as int, dot as int));
        assert forall|i: int, j: int| #[trigger]
            is_part(s@, lo as int, hi as int, i, j) && start <= i <= dot implies i == start && j
            == dot by {
            if i > start {
                assert(s@[i - 1] != '.');
            }
            if j < dot {
                assert(s@[j] != '.');
            }
            if j > dot {
                assert(s@[dot as int] != '.');
            }
        }
        if !matches_id(s, start, dot, kind) {
            return false;
        }
        if dot == hi {
            return true;
        }
        start = dot + 1;
    }
}

/// Decides the grammar of semantic versions.
pub fn matches_version(text: &str) -> (yes: bool)
    ensures
        yes == is_version(text@),
{
    let s = chars_of(text);
    let n = s.len();
    let a = run_end(&s, 0, n, CharClass::Digit);
    if !matches_numeric(&s, 0, a) || a == n || s[a] != '.' {
        return false;
    }
    let b = run_end(&s, a + 1, n, CharClass::Digit);
    if !matches_numeric(&s, a + 1, b) || b == n || s[b] != '.' {
        return false;
    }
    let c = run_end(&s, b + 1, n, CharClass::Digit);
    if !matches_numeric(&s, b + 1, c) {
        return false;
    }
    assert forall|a2: int, b2: int, c2: int, d2: int|
        is_version_split(s@, a2, b2, c2, d2) implies a2 == a && b2 == b && c2 == c by {
        assert(a2 == a);
        assert(b2 == b);
    }
    if c == n {
        assert(is_version_split(s@, a as int, b as int, c as int, c as int));
        return true;
    }
    if s[c] == '+' {
        let yes = matches_dotted(&s, c + 1, n, IdKind::Build);
        assert(yes == is_version_split(s@, a as int, b as int, c as int, c as int));
        return yes;
    }
    if s[c] != '-' {
        return false;
    }
    let d = find_char(&s, c + 1, n, '+');
    assert forall|a2: int, b2: int, c2: int, d2: int|
        is_version_split(s@, a2, b2, c2, d2) implies d2 == d by {
        if d2 > d {
            let part = lemma_part_around(s@, c + 1, d2, d as int);
            assert(is_id(IdKind::Prerelease, s@, part.0, part.1));
            assert(CharClass::Identifier.contains(s@[d as int]));
        }
    }
    let yes = matches_dotted(&s, c + 1, d, IdKind::Prerelease) && (d == n || matches_dotted(
        &s,
        d + 1,
        n,
        IdKind::Build,
    ));
    assert(yes == is_version_split(s@, a as int, b as int, c as int, d as int));
    yes
}

} // verus!
