use vstd::prelude::*;

verus! {

/// One of the two half-height offscreen targets.
#[derive(Clone, Copy, Debug, PartialEq, Eq, Structural)]
pub enum Slot {
    First,
    Second,
}

/// The slot that receives the new half-frame while the frame counter is `frame`.
pub open spec fn slot_for_frame(frame: u64) -> Slot {
    if frame % 2 == 0 {
        Slot::First
    } else {
        Slot::Second
    }
}

impl Slot {
    /// The slot that is not `self`.
    pub open spec fn other(self) -> Slot {
        match self {
            Slot::First => Slot::Second,
            Slot::Second => Slot::First,
        }
    }
}

/// The slot that receives the new half-frame while the frame counter is `frame`.
pub fn slot_of_frame(frame: u64) -> (r: Slot)
    ensures
        r == slot_for_frame(frame),
{
    if frame % 2 == 0 {
        Slot::First
    } else {
        Slot::Second
    }
}

} // verus!
