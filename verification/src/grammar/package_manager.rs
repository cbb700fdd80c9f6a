//! Package manager pins: a tool, `@`, and a release `major.minor.patch`
//! that a `-` and a suffix may follow.

use crate::text::{all_in, chars_of, find_char, run_end, spans, spells, CharClass};
use vstd::prelude::*;

verus! {

/// The tools that a pin may name.
pub open spec fn is_tool(s: Seq<char>) -> bool {
    s == "npm"@ || s == "pnpm"@ || s == "yarn"@ || s == "bun"@
}

/// From `lo` up to `hi`: one or more digits.
pub open spec fn is_digits(s: Seq<char>, lo: int, hi: int) -> bool {
    lo < hi && all_in(s, lo, hi, CharClass::Digit)
}

/// From `c` to the end of `s`: nothing, or `-` and one or more characters
/// of one line.
pub open spec fn is_suffix(s: Seq<char>, c: int) -> bool {
    c == s.len() || (s[c] == '-' && c + 1 < s.len() && all_in(
        s,
        c + 1,
        s.len() as int,
        CharClass::NotNewline,
    ))
}

/// `s` is a pin whose tool ends at `at`, and whose three numbers end at
/// `a`, `b` and `c`.
pub open spec fn is_pin_split(s: Seq<char>, at: int, a: int, b: int, c: int) -> bool {
    &&& 0 <= at < a < b < c <= s.len()
    &&& is_tool(s.subrange(0, at))
    &&& s[at] == '@'
    &&& is_digits(s, at + 1, a)
    &&& s[a] == '.'
    &&& is_digits(s, a + 1, b)
    &&& s[b] == '.'
    &&& is_digits(s, b + 1, c)
    &&& is_suffix(s, c)
}

/// The grammar of package manager pins.
pub open spec fn is_package_manager(s: Seq<char>) -> bool {
    exists|at: int, a: int, b: int, c: int| is_pin_split(s, at, a, b, c)
}

/// No tool's name holds an `@`.
pub proof fn lemma_tool_has_no_at(s: Seq<char>, k: int)
    requires
        is_tool(s),
        0 <= k < s.len(),
    ensures
        s[k] != '@',
{
    reveal_strlit("npm");
    reveal_strlit("pnpm");
    reveal_strlit("yarn");
    reveal_strlit("bun");
}

/// Decides the grammar of package manager pins.
pub fn matches_package_manager(text: &str) -> (yes: bool)
    ensures
        yes == is_package_manager(text@),
{
    let s = chars_of(text);
    let n = s.len();
    let at = find_char(&s, 0, n, '@');
    assert forall|at2: int, a2: int, b2: int, c2: int|
        is_pin_split(s@, at2, a2, b2, c2) implies at2 == at by {
        if at2 > at {
            lemma_tool_has_no_at(s@.subrange(0, at2), at as int);
        }
    }
    if at == n {
        return false;
    }
    let tool = spells(&s, 0, at, "npm") || spells(&s, 0, at, "pnpm") || spells(&s, 0, at, "yarn")
        || spells(&s, 0, at, "bun");
    if !tool {
        return false;
    }
    let a = run_end(&s, at + 1, n, CharClass::Digit);
    if a == at + 1 || a == n || s[a] != '.' {
        return false;
    }
    let b = run_end(&s, a + 1, n, CharClass::Digit);
    if b == a + 1 || b == n || s[b] != '.' {
        return false;
    }
    let c = run_end(&s, b + 1, n, CharClass::Digit);
    if c == b + 1 {
        return false;
    }
    assert forall|at2: int, a2: int, b2: int, c2: int|
        is_pin_split(s@, at2, a2, b2, c2) implies a2 == a && b2 == b && c2 == c by {
        assert(a2 == a);
        assert(b2 == b);
    }
    let yes = c == n || (s[c] == '-' && c + 1 < n && spans(&s, c + 1, n, CharClass::NotNewline));
    assert(yes == is_pin_split(s@, at as int, a as int, b as int, c as int));
    yes
}

} // verus!
