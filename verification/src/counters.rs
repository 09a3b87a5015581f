use vstd::prelude::*;

verus! {

/// A tick count one higher, unless the counter is full.
pub open spec fn ticked(count: u32) -> u32 {
    if count < u32::MAX {
        (count + 1) as u32
    } else {
        count
    }
}

/// A magnitude after one step of decay, never below zero.
pub open spec fn lowered(magnitude: u32, step: u32) -> u32 {
    if magnitude > step {
        (magnitude - step) as u32
    } else {
        0
    }
}

} // verus!
