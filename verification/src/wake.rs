//! The wake signal: a single-slot, coalescing cross-thread notification.
//!
//! A producer raises the signal after queueing an item; the consumer's event
//! loop clears it when it runs. Raising an already-pending signal changes
//! nothing, so rapid raises coalesce into a single wake-up.

use vstd::prelude::*;

verus! {

/// A coalescing, payload-free wake signal, modelled as a single-slot
/// semaphore: raising is idempotent while the signal is unconsumed, and
/// taking it clears the slot.
pub struct WakeSignal {
    pub pending: bool,
}

impl WakeSignal {
    /// A fresh signal with nothing pending.
    pub fn new() -> (w: WakeSignal)
        ensures
            !w.pending,
    {
        WakeSignal { pending: false }
    }

    /// The state after a raise, whatever the state before.
    pub open spec fn raised(self) -> WakeSignal {
        WakeSignal { pending: true }
    }

    /// Raise the signal. Idempotent: the result does not depend on how many
    /// raises preceded the next take.
    pub fn raise(&mut self)
        ensures
            *final(self) == old(self).raised(),
    {
        self.pending = true;
    }

    /// Consume the signal: reports whether a wake was pending and clears it.
    pub fn take(&mut self) -> (was_pending: bool)
        ensures
            was_pending == old(self).pending,
            !final(self).pending,
    {
        let was: bool = self.pending;
        self.pending = false;
        was
    }
}

/// Coalescing law: raising a signal twice leaves exactly the state one raise
/// leaves, so any run of raises before a take is indistinguishable from one.
pub proof fn lemma_raise_coalesces(w: WakeSignal)
    ensures
        w.raised().raised() == w.raised(),
{
}

} // verus!
