//! Running the program's action.
use vstd::prelude::*;

verus! {

/// Runs the action to its end.
pub fn run_or_interrupt<F: FnOnce()>(f: F)
    requires
        f.requires(()),
    ensures
        f.ensures((), ()),
{
    f();
}

} // verus!
