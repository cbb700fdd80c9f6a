//! Package names: `name`, or `@scope/name` with a scope that may be empty.

use crate::text::{all_in, chars_of, find_char, spans, CharClass};
use vstd::prelude::*;

verus! {

/// The characters of `s` from `lo` up to `hi` form a scope: nothing, or a
/// scope head followed by scope characters.
pub open spec fn is_scope(s: Seq<char>, lo: int, hi: int) -> bool {
    lo == hi || (lo < hi && CharClass::ScopeHead.contains(s[lo]) && all_in(
        s,
        lo + 1,
        hi,
        CharClass::ScopeChar,
    ))
}

/// `s` is `@`, a scope, `/` at position `slash`, and one or more name
/// characters.
pub open spec fn is_scoped_name(s: Seq<char>, slash: int) -> bool {
    &&& 1 <= slash < s.len() - 1
    &&& s[0] == '@'
    &&& s[slash] == '/'
    &&& is_scope(s, 1, slash)
    &&& all_in(s, slash + 1, s.len() as int, CharClass::NameChar)
}

/// `s` is a name head followed by name characters.
pub open spec fn is_plain_name(s: Seq<char>) -> bool {
    &&& s.len() >= 1
    &&& CharClass::NameHead.contains(s[0])
    &&& all_in(s, 1, s.len() as int, CharClass::NameChar)
}

/// The package-name grammar.
pub open spec fn is_package_name(s: Seq<char>) -> bool {
    is_plain_name(s) || exists|slash: int| is_scoped_name(s, slash)
}

/// Decides the package-name grammar.
pub fn matches_package_name(text: &str) -> (yes: bool)
    ensures
        yes == is_package_name(text@),
{
    let s = chars_of(text);
    let n = s.len();
    if n == 0 {
        return false;
    }
    if s[0] != '@' {
        return CharClass::NameHead.has(s[0]) && spans(&s, 1, n, CharClass::NameChar);
    }
    let slash = find_char(&s, 1, n, '/');
    if slash >= n - 1 {
        return false;
    }
    assert forall|other: int| is_scoped_name(s@, other) implies other == slash by {
        if other > slash {
            assert(CharClass::ScopeChar.contains(s@[slash as int]));
        }
    }
    let scope_ok = slash == 1 || (CharClass::ScopeHead.has(s[1]) && spans(
        &s,
        2,
        slash,
        CharClass::ScopeChar,
    ));
    let yes = scope_ok && spans(&s, slash + 1, n, CharClass::NameChar);
    assert(yes == is_scoped_name(s@, slash as int));
    yes
}

} // verus!
