use vstd::prelude::*;

verus! {

/// `p` is a prefix of `s`.
pub open spec fn has_prefix(s: Seq<char>, p: Seq<char>) -> bool {
    p.len() <= s.len() && s.subrange(0, p.len() as int) == p
}

/// Some element of `ps` is a prefix of `s`.
pub open spec fn has_any_prefix(s: Seq<char>, ps: Seq<String>) -> bool {
    exists|i: int| 0 <= i < ps.len() && has_prefix(s, #[trigger] ps[i]@)
}

/// Some element of `ps` equals `s`.
pub open spec fn contains_text(ps: Seq<String>, s: Seq<char>) -> bool {
    exists|i: int| 0 <= i < ps.len() && #[trigger] ps[i]@ == s
}

/// The view of an optional string.
pub open spec fn opt_view(o: Option<String>) -> Option<Seq<char>> {
    match o {
        Some(s) => Some(s@),
        None => None,
    }
}

/// Whether `s` starts with `p`.
pub fn starts_with(s: &str, p: &str) -> (r: bool)
    ensures
        r == has_prefix(s@, p@),
{
    let n = p.unicode_len();
    if n > s.unicode_len() {
        return false;
    }
    let mut i: usize = 0;
    while i < n
        invariant
            n == p@.len(),
            n <= s@.len(),
            i <= n,
            forall|j: int| 0 <= j < i ==> s@[j] == p@[j],
        decreases n - i,
    {
        if s.get_char(i) != p.get_char(i) {
            assert(s@.subrange(0, n as int)[i as int] != p@[i as int]);
            return false;
        }
        i = i + 1;
    }
    assert(s@.subrange(0, n as int) =~= p@);
    true
}

/// Whether `s` starts with one of `prefixes`.
pub fn starts_with_any(s: &str, prefixes: &Vec<String>) -> (r: bool)
    ensures
        r == has_any_prefix(s@, prefixes@),
{
    let mut i: usize = 0;
    while i < prefixes.len()
        invariant
            i <= prefixes@.len(),
            forall|j: int| 0 <= j < i ==> !has_prefix(s@, #[trigger] prefixes@[j]@),
        decreases prefixes.len() - i,
    {
        if starts_with(s, prefixes[i].as_str()) {
            return true;
        }
        i = i + 1;
    }
    false
}

/// Whether one of `items` equals `s`.
pub fn contains_string(items: &Vec<String>, s: &String) -> (r: bool)
    ensures
        r == contains_text(items@, s@),
{
    let mut i: usize = 0;
    while i < items.len()
        invariant
            i <= items@.len(),
            forall|j: int| 0 <= j < i ==> #[trigger] items@[j]@ != s@,
        decreases items.len() - i,
    {
        if items[i] == *s {
            return true;
        }
        i = i + 1;
    }
    false
}

/// Whether two strings are equal.
pub fn text_eq(a: &str, b: &str) -> (r: bool)
    ensures
        r == (a@ == b@),
{
    if a.unicode_len() != b.unicode_len() {
        return false;
    }
    let r = starts_with(a, b);
    proof {
        if r {
            assert(a@ =~= a@.subrange(0, b@.len() as int));
        }
        if a@ == b@ {
            assert(a@.subrange(0, b@.len() as int) =~= b@);
        }
    }
    r
}

} // verus!
