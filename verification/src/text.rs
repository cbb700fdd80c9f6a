//! Strings as sequences of characters, and the character classes that the
//! manifest grammars are built from.

use vstd::prelude::*;

verus! {

/// The characters of `s`, in order, as an indexable vector.
pub fn chars_of(s: &str) -> (out: Vec<char>)
    ensures
        out@ == s@,
{
    let mut out: Vec<char> = Vec::new();
    for c in it: s.chars()
        invariant
            it.seq() == s@,
            out@ == it.seq().take(it.index() as int),
    {
        out.push(c);
    }
    out
}

/// Whether two strings hold the same characters.
pub fn str_eq(a: &str, b: &str) -> (same: bool)
    ensures
        same == (a@ == b@),
{
    let x = chars_of(a);
    let y = chars_of(b);
    if x.len() != y.len() {
        return false;
    }
    let mut i: usize = 0;
    while i < x.len()
        invariant
            i <= x.len(),
            x.len() == y.len(),
            x@ == a@,
            y@ == b@,
            forall|j: int| 0 <= j < i ==> x@[j] == y@[j],
        decreases x.len() - i,
    {
        if x[i] != y[i] {
            return false;
        }
        i += 1;
    }
    assert(x@ =~= y@);
    true
}

/// `a` to `z`.
pub open spec fn is_lower(c: char) -> bool {
    'a' <= c <= 'z'
}

/// `A` to `Z`.
pub open spec fn is_upper(c: char) -> bool {
    'A' <= c <= 'Z'
}

/// `0` to `9`.
pub open spec fn is_digit(c: char) -> bool {
    '0' <= c <= '9'
}

/// A letter of either case.
pub open spec fn is_letter(c: char) -> bool {
    is_lower(c) || is_upper(c)
}

/// A letter or a digit.
pub open spec fn is_alnum(c: char) -> bool {
    is_letter(c) || is_digit(c)
}

/// The sets of characters that the manifest grammars are written with.
#[derive(Clone, Copy, Debug, PartialEq, Eq)]
pub enum CharClass {
    /// `0` to `9`.
    Digit,
    /// `a` to `z` and `A` to `Z`.
    Letter,
    /// Letters, digits and `_`: the characters of a word.
    Word,
    /// Letters, digits and `-`.
    Identifier,
    /// Lower-case letters, digits, `-` and `~`.
    NameHead,
    /// Lower-case letters, digits, `-`, `.`, `_` and `~`.
    NameChar,
    /// Lower-case letters, digits, `-`, `*` and `~`.
    ScopeHead,
    /// Lower-case letters, digits, `-`, `*`, `.`, `_` and `~`.
    ScopeChar,
    /// Letters, digits, `-`, `_` and `.`.
    Tag,
    /// Letters, digits and `.`, `_`, `%`, `+`, `-`.
    EmailLocal,
    /// Letters, digits, `.` and `-`.
    EmailDomain,
    /// Letters, digits and `-`, `@`, `:`, `%`, `.`, `_`, `+`, `~`, `#`, `=`.
    UrlHost,
    /// Letters, digits, `(` and `)`.
    UrlSuffix,
    /// Letters, digits and `-`, `(`, `)`, `@`, `:`, `%`, `_`, `+`, `.`, `~`, `#`,
    /// `?`, `&`, `/`, `=`.
    UrlTail,
    /// Every character but the line feed.
    NotNewline,
}

impl CharClass {
    /// Whether `c` belongs to the class.
    pub open spec fn contains(self, c: char) -> bool {
        match self {
            CharClass::Digit => is_digit(c),
            CharClass::Letter => is_letter(c),
            CharClass::Word => is_alnum(c) || c == '_',
            CharClass::Identifier => is_alnum(c) || c == '-',
            CharClass::NameHead => is_lower(c) || is_digit(c) || c == '-' || c == '~',
            CharClass::NameChar => is_lower(c) || is_digit(c) || c == '-' || c == '.' || c == '_'
                || c == '~',
            CharClass::ScopeHead => is_lower(c) || is_digit(c) || c == '-' || c == '*' || c == '~',
            CharClass::ScopeChar => is_lower(c) || is_digit(c) || c == '-' || c == '*' || c == '.'
                || c == '_' || c == '~',
            CharClass::Tag => is_alnum(c) || c == '-' || c == '_' || c == '.',
            CharClass::EmailLocal => is_alnum(c) || c == '.' || c == '_' || c == '%' || c == '+'
                || c == '-',
            CharClass::EmailDomain => is_alnum(c) || c == '.' || c == '-',
            CharClass::UrlHost => is_alnum(c) || c == '-' || c == '@' || c == ':' || c == '%'
                || c == '.' || c == '_' || c == '+' || c == '~' || c == '#' || c == '=',
            CharClass::UrlSuffix => is_alnum(c) || c == '(' || c == ')',
            CharClass::UrlTail => is_alnum(c) || c == '-' || c == '(' || c == ')' || c == '@'
                || c == ':' || c == '%' || c == '_' || c == '+' || c == '.' || c == '~' || c == '#'
                || c == '?' || c == '&' || c == '/' || c == '=',
            CharClass::NotNewline => c != '\n',
        }
    }

    /// Whether `c` belongs to the class.
    pub fn has(self, c: char) -> (yes: bool)
        ensures
            yes == self.contains(c),
    {
        let lower = 'a' <= c && c <= 'z';
        let upper = 'A' <= c && c <= 'Z';
        let digit = '0' <= c && c <= '9';
        let alnum = lower || upper || digit;
        match self {
            CharClass::Digit => digit,
            CharClass::Letter => lower || upper,
            CharClass::Word => alnum || c == '_',
            CharClass::Identifier => alnum || c == '-',
            CharClass::NameHead => lower || digit || c == '-' || c == '~',
            CharClass::NameChar => lower || digit || c == '-' || c == '.' || c == '_' || c == '~',
            CharClass::ScopeHead => lower || digit || c == '-' || c == '*' || c == '~',
            CharClass::ScopeChar => lower || digit || c == '-' || c == '*' || c == '.' || c == '_'
                || c == '~',
            CharClass::Tag => alnum || c == '-' || c == '_' || c == '.',
            CharClass::EmailLocal => alnum || c == '.' || c == '_' || c == '%' || c == '+' || c
                == '-',
            CharClass::EmailDomain => alnum || c == '.' || c == '-',
            CharClass::UrlHost => alnum || c == '-' || c == '@' || c == ':' || c == '%' || c == '.'
                || c == '_' || c == '+' || c == '~' || c == '#' || c == '=',
            CharClass::UrlSuffix => alnum || c == '(' || c == ')',
            CharClass::UrlTail => alnum || c == '-' || c == '(' || c == ')' || c == '@' || c == ':'
                || c == '%' || c == '_' || c == '+' || c == '.' || c == '~' || c == '#' || c == '?'
                || c == '&' || c == '/' || c == '=',
            CharClass::NotNewline => c != '\n',
        }
    }
}

/// Every character of `s` from `lo` up to `hi` belongs to `class`.
pub open spec fn all_in(s: Seq<char>, lo: int, hi: int, class: CharClass) -> bool {
    forall|k: int| lo <= k < hi ==> class.contains(#[trigger] s[k])
}

/// No character of `s` from `lo` up to `hi` is `c`.
pub open spec fn none_is(s: Seq<char>, lo: int, hi: int, c: char) -> bool {
    forall|k: int| lo <= k < hi ==> #[trigger] s[k] != c
}

/// The end of the longest run of `class` characters that starts at `lo` and
/// stays below `hi`.
pub fn run_end(s: &Vec<char>, lo: usize, hi: usize, class: CharClass) -> (end: usize)
    requires
        lo <= hi <= s.len(),
    ensures
        lo <= end <= hi,
        all_in(s@, lo as int, end as int, class),
        end < hi ==> !class.contains(s@[end as int]),
{
    let mut end: usize = lo;
    while end < hi && class.has(s[end])
        invariant
            lo <= end <= hi <= s.len(),
            all_in(s@, lo as int, end as int, class),
        decreases hi - end,
    {
        end += 1;
    }
    end
}

/// The start of the longest run of `class` characters that ends at `hi` and
/// stays at or above `lo`.
pub fn run_start(s: &Vec<char>, lo: usize, hi: usize, class: CharClass) -> (start: usize)
    requires
        lo <= hi <= s.len(),
    ensures
        lo <= start <= hi,
        all_in(s@, start as int, hi as int, class),
        lo < start ==> !class.contains(s@[start - 1]),
{
    let mut start: usize = hi;
    while lo < start && class.has(s[start - 1])
        invariant
            lo <= start <= hi <= s.len(),
            all_in(s@, start as int, hi as int, class),
        decreases start - lo,
    {
        start -= 1;
    }
    start
}

/// Whether every character of `s` from `lo` up to `hi` belongs to `class`.
pub fn spans(s: &Vec<char>, lo: usize, hi: usize, class: CharClass) -> (yes: bool)
    requires
        lo <= hi <= s.len(),
    ensures
        yes == all_in(s@, lo as int, hi as int, class),
{
    let end = run_end(s, lo, hi, class);
    end == hi
}

/// The first position from `lo` up to `hi` that holds `c`, or `hi`.
pub fn find_char(s: &Vec<char>, lo: usize, hi: usize, c: char) -> (at: usize)
    requires
        lo <= hi <= s.len(),
    ensures
        lo <= at <= hi,
        none_is(s@, lo as int, at as int, c),
        at < hi ==> s@[at as int] == c,
{
    let mut at: usize = lo;
    while at < hi && s[at] != c
        invariant
            lo <= at <= hi <= s.len(),
            none_is(s@, lo as int, at as int, c),
        decreases hi - at,
    {
        at += 1;
    }
    at
}

/// `word` stands in `s` at position `lo`.
pub open spec fn has_word_at(s: Seq<char>, lo: int, word: Seq<char>) -> bool {
    0 <= lo && lo + word.len() <= s.len() && s.subrange(lo, lo + word.len()) == word
}

/// Whether `word` stands in `s` at position `lo`.
pub fn starts_at(s: &Vec<char>, lo: usize, word: &str) -> (yes: bool)
    requires
        lo <= s.len(),
    ensures
        yes == has_word_at(s@, lo as int, word@),
{
    let w = chars_of(word);
    if w.len() > s.len() - lo {
        return false;
    }
    let mut i: usize = 0;
    while i < w.len()
        invariant
            lo + w.len() <= s.len(),
            w@ == word@,
            i <= w.len(),
            forall|j: int| 0 <= j < i ==> s@[lo + j] == w@[j],
        decreases w.len() - i,
    {
        if s[lo + i] != w[i] {
            assert(s@.subrange(lo as int, lo + w.len())[i as int] != word@[i as int]);
            return false;
        }
        i += 1;
    }
    assert(s@.subrange(lo as int, lo + w.len()) =~= word@);
    true
}

/// Whether the characters of `s` from `lo` up to `hi` spell `word`.
pub fn spells(s: &Vec<char>, lo: usize, hi: usize, word: &str) -> (yes: bool)
    requires
        lo <= hi <= s.len(),
    ensures
        yes == (s@.subrange(lo as int, hi as int) == word@),
{
    let w = chars_of(word);
    if w.len() != hi - lo {
        return false;
    }
    let mut i: usize = 0;
    while i < w.len()
        invariant
            lo <= hi <= s.len(),
            w.len() == hi - lo,
            w@ == word@,
            i <= w.len(),
            forall|j: int| 0 <= j < i ==> s@[lo + j] == w@[j],
        decreases w.len() - i,
    {
        if s[lo + i] != w[i] {
            assert(s@.subrange(lo as int, hi as int)[i as int] != word@[i as int]);
            return false;
        }
        i += 1;
    }
    assert(s@.subrange(lo as int, hi as int) =~= word@);
    true
}

} // verus!
