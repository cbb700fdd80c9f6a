//! The fields whose value is one of a fixed list of words, and the
//! distribution tag.

use crate::text::{all_in, chars_of, spans, spells, CharClass};
use vstd::prelude::*;

verus! {

/// The module systems that `type` may name.
pub open spec fn is_module_type(s: Seq<char>) -> bool {
    s == "commonjs"@ || s == "module"@
}

/// The access levels that `publishConfig.access` may name.
pub open spec fn is_access(s: Seq<char>) -> bool {
    s == "public"@ || s == "restricted"@ || s == "private"@
}

/// The license identifiers that `license` may name.
pub open spec fn is_license(s: Seq<char>) -> bool {
    ||| s == "AGPL-3.0-only"@
    ||| s == "Apache-2.0"@
    ||| s == "BSD-2-Clause"@
    ||| s == "BSD-3-Clause"@
    ||| s == "BSL-1.0"@
    ||| s == "CC0-1.0"@
    ||| s == "CDDL-1.0"@
    ||| s == "CDDL-1.1"@
    ||| s == "EPL-1.0"@
    ||| s == "EPL-2.0"@
    ||| s == "GPL-2.0-only"@
    ||| s == "GPL-3.0-only"@
    ||| s == "ISC"@
    ||| s == "LGPL-2.0-only"@
    ||| s == "LGPL-2.1-only"@
    ||| s == "LGPL-2.1-or-later"@
    ||| s == "LGPL-3.0-only"@
    ||| s == "LGPL-3.0-or-later"@
    ||| s == "MIT"@
    ||| s == "MPL-2.0"@
    ||| s == "MSPL"@
    ||| s == "UnLicense"@
}

/// One or more tag characters.
pub open spec fn is_tag(s: Seq<char>) -> bool {
    s.len() >= 1 && all_in(s, 0, s.len() as int, CharClass::Tag)
}

/// Whether the whole of `s` spells `word`.
pub fn is_word(s: &Vec<char>, word: &str) -> (yes: bool)
    ensures
        yes == (s@ == word@),
{
    assert(s@.subrange(0, s.len() as int) =~= s@);
    spells(s, 0, s.len(), word)
}

/// Decides whether `text` names a module system.
pub fn matches_module_type(text: &str) -> (yes: bool)
    ensures
        yes == is_module_type(text@),
{
    let s = chars_of(text);
    is_word(&s, "commonjs") || is_word(&s, "module")
}

/// Decides whether `text` names an access level.
pub fn matches_access(text: &str) -> (yes: bool)
    ensures
        yes == is_access(text@),
{
    let s = chars_of(text);
    is_word(&s, "public") || is_word(&s, "restricted") || is_word(&s, "private")
}

/// Decides whether `text` is a license identifier of the list.
pub fn matches_license(text: &str) -> (yes: bool)
    ensures
        yes == is_license(text@),
{
    let s = chars_of(text);
    is_word(&s, "AGPL-3.0-only") || is_word(&s, "Apache-2.0") || is_word(&s, "BSD-2-Clause")
        || is_word(&s, "BSD-3-Clause") || is_word(&s, "BSL-1.0") || is_word(&s, "CC0-1.0")
        || is_word(&s, "CDDL-1.0") || is_word(&s, "CDDL-1.1") || is_word(&s, "EPL-1.0")
        || is_word(&s, "EPL-2.0") || is_word(&s, "GPL-2.0-only") || is_word(&s, "GPL-3.0-only")
        || is_word(&s, "ISC") || is_word(&s, "LGPL-2.0-only") || is_word(&s, "LGPL-2.1-only")
        || is_word(&s, "LGPL-2.1-or-later") || is_word(&s, "LGPL-3.0-only") || is_word(
        &s,
        "LGPL-3.0-or-later",
    ) || is_word(&s, "MIT") || is_word(&s, "MPL-2.0") || is_word(&s, "MSPL") || is_word(
        &s,
        "UnLicense",
    )
}

/// Decides whether `text` is a tag.
pub fn matches_tag(text: &str) -> (yes: bool)
    ensures
        yes == is_tag(text@),
{
    let s = chars_of(text);
    s.len() >= 1 && spans(&s, 0, s.len(), CharClass::Tag)
}

} // verus!
