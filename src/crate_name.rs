use vstd::prelude::*;
use crate::text::has_prefix;

verus! {

/// The pattern that finds the leading crate of a function name: an optional
/// `_<`, then a run of identifier characters, ended by `..` or `::`.
pub open spec fn crate_pattern() -> Seq<char> {
    "^(?:_<)?([a-zA-Z0-9_]+?)(?:\\.\\.|::)"@
}

pub open spec fn is_ident_char(c: char) -> bool {
    ('a' <= c && c <= 'z') || ('A' <= c && c <= 'Z') || ('0' <= c && c <= '9') || c == '_'
}

/// A path separator, `..` or `::`, starts at index `i` of `s`.
pub open spec fn separator_at(s: Seq<char>, i: int) -> bool {
    0 <= i && i + 2 <= s.len() && ((s[i] == '.' && s[i + 1] == '.') || (s[i] == ':' && s[i + 1]
        == ':'))
}

/// The `n` characters from `start` are identifier characters and a separator
/// follows them.
pub open spec fn name_then_separator(s: Seq<char>, start: int, n: int) -> bool {
    &&& n >= 1
    &&& start + n <= s.len()
    &&& forall|k: int| start <= k < start + n ==> is_ident_char(#[trigger] s[k])
    &&& separator_at(s, start + n)
}

/// The identifier matched from `start`, if any.  Separator characters are not
/// identifier characters, so at most one length fits.
pub open spec fn name_from(s: Seq<char>, start: int) -> Option<Seq<char>> {
    if exists|n: int| name_then_separator(s, start, n) {
        let n = choose|n: int| name_then_separator(s, start, n);
        Some(s.subrange(start, start + n))
    } else {
        None
    }
}

/// The crate name that `crate_pattern` captures in `s`: the match after `_<`
/// is preferred, then the match from the first character.
pub open spec fn crate_name_of(s: Seq<char>) -> Option<Seq<char>> {
    if has_prefix(s, "_<"@) && name_from(s, 2) is Some {
        name_from(s, 2)
    } else {
        name_from(s, 0)
    }
}

/// Relies on `regex::Regex::new` and `Regex::captures`: with `crate_pattern`
/// the first capture group of the leftmost-first match is `crate_name_of`.
#[verifier::external_body]
fn first_capture(pattern: &str, haystack: &str) -> (r: Option<String>)
    requires
        pattern@ == crate_pattern(),
    ensures
        crate::text::opt_view(r) == crate_name_of(haystack@),
{
    let re = regex::Regex::new(pattern).ok()?;
    re.captures(haystack).and_then(|caps| caps.get(1)).map(|m| m.as_str().to_string())
}

/// Tries to parse the leading crate name from a function name.
pub fn parse_crate_name(func_name: &str) -> (r: Option<String>)
    ensures
        crate::text::opt_view(r) == crate_name_of(func_name@),
{
    let pattern = "^(?:_<)?([a-zA-Z0-9_]+?)(?:\\.\\.|::)";
    first_capture(pattern, func_name)
}

} // verus!
