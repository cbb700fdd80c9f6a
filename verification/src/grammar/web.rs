//! Web addresses and e-mail addresses.

use crate::text::{
    all_in, chars_of, find_char, has_word_at, run_end, run_start, spans, starts_at, CharClass,
};
use vstd::prelude::*;

verus! {

/// `s` is an e-mail address whose local part ends at `at` and whose last
/// label starts after `dot`: a local part, `@`, a domain, `.`, and two or
/// more letters.
pub open spec fn is_email_split(s: Seq<char>, at: int, dot: int) -> bool {
    &&& 0 < at
    &&& at + 1 < dot
    &&& dot + 2 < s.len()
    &&& all_in(s, 0, at, CharClass::EmailLocal)
    &&& s[at] == '@'
    &&& all_in(s, at + 1, dot, CharClass::EmailDomain)
    &&& s[dot] == '.'
    &&& all_in(s, dot + 1, s.len() as int, CharClass::Letter)
}

/// The grammar of e-mail addresses.
pub open spec fn is_email(s: Seq<char>) -> bool {
    exists|at: int, dot: int| is_email_split(s, at, dot)
}

/// Decides the grammar of e-mail addresses.
pub fn matches_email(text: &str) -> (yes: bool)
    ensures
        yes == is_email(text@),
{
    let s = chars_of(text);
    let n = s.len();
    let at = find_char(&s, 0, n, '@');
    let label = run_start(&s, 0, n, CharClass::Letter);
    assert forall|at2: int, dot2: int| is_email_split(s@, at2, dot2) implies at2 == at && dot2
        + 1 == label by {
        if at2 > at {
            assert(CharClass::EmailLocal.contains(s@[at as int]));
        }
        if dot2 + 1 < label {
            assert(CharClass::Letter.contains(s@[label - 1]));
        }
    }
    if at == 0 || label <= at || label - at <= 2 || n - label <= 1 {
        return false;
    }
    let dot = label - 1;
    let yes = spans(&s, 0, at, CharClass::EmailLocal) && spans(
        &s,
        at + 1,
        dot,
        CharClass::EmailDomain,
    ) && s[dot] == '.';
    assert(yes == is_email_split(s@, at as int, dot as int));
    yes
}

/// Position `i` of `s` lies between a word character and something else:
/// another character, or an end of `s`.
pub open spec fn is_word_boundary(s: Seq<char>, i: int) -> bool {
    (0 < i <= s.len() && CharClass::Word.contains(s[i - 1])) != (0 <= i < s.len()
        && CharClass::Word.contains(s[i]))
}

/// The scheme of `s` ends at `p`: `s` begins with `http://` or `https://`.
pub open spec fn is_scheme_end(s: Seq<char>, p: int) -> bool {
    (p == 7 && has_word_at(s, 0, "http://"@)) || (p == 8 && has_word_at(s, 0, "https://"@))
}

/// The host of `s` may start at `start`: where the scheme ends, or after a
/// `www.` that follows the scheme.
pub open spec fn is_host_start(s: Seq<char>, start: int) -> bool {
    is_scheme_end(s, start) || (is_scheme_end(s, start - 4) && has_word_at(
        s,
        start - 4,
        "www."@,
    ))
}

/// After the `.` at `dot`: one to six suffix characters up to `end`, a word
/// boundary at `end`, and tail characters to the end of `s`.
pub open spec fn is_url_end(s: Seq<char>, dot: int, end: int) -> bool {
    &&& dot + 1 < end <= s.len()
    &&& end - (dot + 1) <= 6
    &&& all_in(s, dot + 1, end, CharClass::UrlSuffix)
    &&& is_word_boundary(s, end)
    &&& all_in(s, end, s.len() as int, CharClass::UrlTail)
}

/// From `start`: one to 256 host characters, a `.` at `dot`, and an ending
/// as `is_url_end` has it.
pub open spec fn is_url_rest(s: Seq<char>, start: int, dot: int, end: int) -> bool {
    &&& 0 <= start < dot < s.len()
    &&& dot - start <= 256
    &&& all_in(s, start, dot, CharClass::UrlHost)
    &&& s[dot] == '.'
    &&& is_url_end(s, dot, end)
}

/// The grammar of web addresses.
pub open spec fn is_url(s: Seq<char>) -> bool {
    exists|start: int, dot: int, end: int|
        is_host_start(s, start) && is_url_rest(s, start, dot, end)
}

fn at_word_boundary(s: &Vec<char>, i: usize) -> (yes: bool)
    requires
        i <= s.len(),
    ensures
        yes == is_word_boundary(s@, i as int),
{
    let before = 0 < i && CharClass::Word.has(s[i - 1]);
    let after = i < s.len() && CharClass::Word.has(s[i]);
    before != after
}

fn matches_url_end(s: &Vec<char>, dot: usize, tail: usize) -> (yes: bool)
    requires
        dot < s.len(),
        tail <= s.len(),
        all_in(s@, tail as int, s.len() as int, CharClass::UrlTail),
        0 < tail ==> !CharClass::UrlTail.contains(s@[tail - 1]),
    ensures
        yes == exists|end: int| is_url_end(s@, dot as int, end),
{
    let n = s.len();
    let mut end: usize = dot + 1;
    while end < n && end - dot <= 6
        invariant
            dot + 1 <= end <= n == s.len(),
            end - dot <= 7,
            tail <= n,
            all_in(s@, tail as int, n as int, CharClass::UrlTail),
            0 < tail ==> !CharClass::UrlTail.contains(s@[tail - 1]),
            all_in(s@, dot + 1, end as int, CharClass::UrlSuffix),
            forall|e: int| e <= end ==> !is_url_end(s@, dot as int, e),
        decreases n - end,
    {
        if !CharClass::UrlSuffix.has(s[end]) {
            assert forall|e: int| !is_url_end(s@, dot as int, e) by {
                if e > end && is_url_end(s@, dot as int, e) {
                    assert(CharClass::UrlSuffix.contains(s@[end as int]));
                }
            }
            return false;
        }
        end += 1;
        if end - dot <= 7 && end >= tail && at_word_boundary(s, end) {
            assert(is_url_end(s@, dot as int, end as int));
            return true;
        }
        assert(!is_url_end(s@, dot as int, end as int)) by {
            if end < tail {
                assert(!CharClass::UrlTail.contains(s@[tail - 1]));
            }
        }
    }
    false
}

fn matches_url_rest(s: &Vec<char>, start: usize, tail: usize) -> (yes: bool)
    requires
        start <= s.len(),
        tail <= s.len(),
        all_in(s@, tail as int, s.len() as int, CharClass::UrlTail),
        0 < tail ==> !CharClass::UrlTail.contains(s@[tail - 1]),
    ensures
        yes == exists|dot: int, end: int| is_url_rest(s@, start as int, dot, end),
{
    let n = s.len();
    let host = run_end(s, start, n, CharClass::UrlHost);
    let mut dot: usize = start;
    while dot < host && dot - start < 256
        invariant
            start <= dot <= host <= n == s.len(),
            dot - start <= 256,
            tail <= n,
            all_in(s@, tail as int, n as int, CharClass::UrlTail),
            0 < tail ==> !CharClass::UrlTail.contains(s@[tail - 1]),
            all_in(s@, start as int, host as int, CharClass::UrlHost),
            host < n ==> !CharClass::UrlHost.contains(s@[host as int]),
            forall|d: int, e: int| d <= dot ==> !is_url_rest(s@, start as int, d, e),
        decreases host - dot,
    {
        dot += 1;
        if dot < n && s[dot] == '.' && matches_url_end(s, dot, tail) {
            let ghost end = choose|end: int| is_url_end(s@, dot as int, end);
            assert(is_url_rest(s@, start as int, dot as int, end));
            return true;
        }
    }
    assert forall|d: int, e: int| !is_url_rest(s@, start as int, d, e) by {
        if d > dot && is_url_rest(s@, start as int, d, e) {
            if dot == host {
                if host < n {
                    assert(CharClass::UrlHost.contains(s@[host as int]));
                }
            }
        }
    }
    false
}

/// Decides the grammar of web addresses.
pub fn matches_url(text: &str) -> (yes: bool)
    ensures
        yes == is_url(text@),
{
    let s = chars_of(text);
    let n = s.len();
    proof {
        reveal_strlit("http://");
        reveal_strlit("https://");
        reveal_strlit("www.");
    }
    let p: usize = if starts_at(&s, 0, "http://") {
        7
    } else if starts_at(&s, 0, "https://") {
        8
    } else {
        return false;
    };
    assert forall|q: int| is_scheme_end(s@, q) implies q == p by {
        if q != p {
            assert(s@.subrange(0, 7)[4] == s@[4]);
            assert(s@.subrange(0, 8)[4] == s@[4]);
        }
    }
    let tail = run_start(&s, 0, n, CharClass::UrlTail);
    if matches_url_rest(&s, p, tail) {
        assert(is_host_start(s@, p as int));
        return true;
    }
    if starts_at(&s, p, "www.") && matches_url_rest(&s, p + 4, tail) {
        assert(is_host_start(s@, p + 4));
        return true;
    }
    assert forall|start: int, dot: int, end: int|
        !(is_host_start(s@, start) && is_url_rest(s@, start, dot, end)) by {
        if is_host_start(s@, start) {
            assert(start == p || start == p + 4);
        }
    }
    false
}

} // verus!
