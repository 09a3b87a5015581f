use rand::Rng;
use vstd::prelude::*;

verus! {

/// Draws a number from `low..high`, each with the same chance.
///
/// This is `Rng::gen_range` of the crate `rand`, called on the generator
/// that `rand::thread_rng` keeps for the running thread. `gen_range` panics
/// on an empty range, which `requires` leaves out, and hands back a member of
/// the range; the contract claims no more than that. Nothing is said of which
/// member comes: two calls may differ. The generator seeds itself from the
/// operating system on its first use, and again after it has handed out a
/// set amount of output or the process has forked; it panics if that source
/// fails on either occasion. That is of the machine, not of an argument, so
/// no `requires` can leave it out.
#[verifier::external_body]
pub(crate) fn uniform(low: i32, high: i32) -> (drawn: i32)
    requires
        low < high,
    ensures
        low <= drawn < high,
{
    rand::thread_rng().gen_range(low..high)
}

} // verus!
