use vstd::prelude::*;

use crate::snake::Direction;

verus! {

/// The single-slot buffer the driving loop keeps between ticks: a
/// directional input is not applied at once but held until the next tick,
/// and while one is held, further directional inputs are dropped.
pub struct PendingInput {
    pub slot: Option<Direction>,
}

impl PendingInput {
    /// An empty buffer.
    pub fn new() -> (b: PendingInput)
        ensures
            b.slot is None,
    {
        PendingInput { slot: None }
    }

    /// Offer a directional input: it is kept only if the slot is empty, so of
    /// the inputs arriving within one tick window the first survives.
    pub fn offer(&mut self, d: Direction)
        ensures
            final(self).slot == (if old(self).slot is Some {
                old(self).slot
            } else {
                Some(d)
            }),
    {
        if self.slot.is_none() {
            self.slot = Some(d);
        }
    }

    /// Take whatever is buffered, leaving the buffer empty.
    pub fn take(&mut self) -> (r: Option<Direction>)
        ensures
            r == old(self).slot,
            final(self).slot is None,
    {
        let r = self.slot;
        self.slot = None;
        r
    }
}

} // verus!
