//! Critical sections: short stretches of code that run with interrupts masked.

use vstd::prelude::*;

verus! {

/// Runs `f(state, arg)` inside `critical_section::with` and returns what `f`
/// returned.
///
/// Trusted: the contract says that `critical_section::with` calls the closure
/// it is given exactly once and hands its result back. It is the contract of
/// the plain call `f(state, arg)`: `f` is called on the value that `state`
/// holds, `state` holds afterwards what `f` left there, and the result is
/// that of `f`.
#[verifier::external_body]
pub(crate) fn with_interrupts_masked<S, A, R, F: FnOnce(&mut S, A) -> R>(
    state: &mut S,
    arg: A,
    f: F,
) -> (r: R)
    requires
        forall|s: &mut S| *s == *old(state) ==> #[trigger] f.requires((s, arg)),
    ensures
        exists|s: &mut S|
            *s == *old(state) && *final(s) == *final(state) && #[trigger] f.ensures((s, arg), r),
{
    critical_section::with(|_| f(state, arg))
}

} // verus!
