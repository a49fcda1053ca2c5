//! Checks on URLs.
use vstd::prelude::*;
use vstd::string::*;

verus! {

pub open spec fn is_prefix_of(p: Seq<char>, s: Seq<char>) -> bool {
    p.len() <= s.len() && s.subrange(0, p.len() as int) == p
}

/// Whether `s` starts with `p`.
pub fn has_prefix(s: &str, p: &str) -> (r: bool)
    ensures
        r == is_prefix_of(p@, s@),
{
    let n = p.unicode_len();
    if n > s.unicode_len() {
        return false;
    }
    let mut i: usize = 0;
    while i < n
        invariant
            n == p@.len(),
            n <= s@.len(),
            0 <= i <= n,
            forall|k: int| 0 <= k < i ==> s@[k] == p@[k],
        decreases n - i,
    {
        if s.get_char(i) != p.get_char(i) {
            return false;
        }
        i = i + 1;
    }
    assert(s@.subrange(0, n as int) =~= p@);
    true
}

/// Whether `s` is exactly `t`.
pub fn same_text(s: &str, t: &str) -> (r: bool)
    ensures
        r == (s@ == t@),
{
    let same = s.unicode_len() == t.unicode_len() && has_prefix(s, t);
    proof {
        if s@.len() == t@.len() && is_prefix_of(t@, s@) {
            assert(s@ =~= s@.subrange(0, t@.len() as int));
        }
        if s@ == t@ {
            assert(s@.subrange(0, t@.len() as int) =~= t@);
        }
    }
    same
}

/// Whether a URL starts with the `http://` or the `https://` prefix.
pub fn is_absolute_url(url: &str) -> (r: bool)
    ensures
        r == (is_prefix_of("http://"@, url@) || is_prefix_of("https://"@, url@)),
{
    has_prefix(url, "http://") || has_prefix(url, "https://")
}

} // verus!
