//! The decision of the interactive prompt: which line of input is an answer.
use vstd::prelude::*;
use vstd::string::*;

verus! {

/// What `str::trim` returns for a text.
pub uninterp spec fn trimmed(s: Seq<char>) -> Seq<char>;

/// Relies on `str::trim`: the text without its leading and trailing white space.
#[verifier::external_body]
fn trim(s: &str) -> (r: String)
    ensures
        r@ == trimmed(s@),
{
    s.trim().to_owned()
}

/// An answer is a trimmed line that is not empty.
pub fn nonempty_answer(t: String) -> (r: Option<String>)
    ensures
        t@.len() == 0 ==> r is None,
        t@.len() > 0 ==> r == Some(t),
{
    if t.as_str().unicode_len() == 0 {
        None
    } else {
        Some(t)
    }
}

/// The answer that a line of input gives: the line trimmed, unless nothing is
/// left, in which case the prompt asks again.
pub fn prompt_answer(line: &str) -> (r: Option<String>)
    ensures
        trimmed(line@).len() == 0 ==> r is None,
        trimmed(line@).len() > 0 ==> r is Some && r->Some_0@ == trimmed(line@),
{
    nonempty_answer(trim(line))
}

} // verus!
