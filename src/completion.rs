//! The completion notifier: a single boolean cell that the worker flips
//! after every job, read by any number of independent waiters.
//!
//! Each flip also advances a change counter, so that a waiter can tell
//! "changed since I last looked" even when two flips brought the boolean
//! back to the value it saw.

use vstd::prelude::*;

verus! {

/// The change counter after one more change (it wraps around at the top).
pub open spec fn next_version(v: u64) -> u64 {
    if v == u64::MAX {
        0
    } else {
        (v + 1) as u64
    }
}

/// The shared completion cell.
#[derive(Debug)]
pub struct CompletionSignal {
    value: bool,
    version: u64,
}

/// One waiter's memory of the last change it consumed.
#[derive(Debug, Clone, Copy)]
pub struct CompletionWaiter {
    seen: u64,
}

impl CompletionSignal {
    /// The boolean that the cell holds.
    pub closed spec fn value(&self) -> bool {
        self.value
    }

    /// How many changes the cell has been through (modulo 2^64).
    pub closed spec fn version(&self) -> u64 {
        self.version
    }

    /// A cell holding `false`, with no change yet.
    pub fn new() -> (r: CompletionSignal)
        ensures
            r.value() == false,
            r.version() == 0,
    {
        CompletionSignal { value: false, version: 0 }
    }

    /// Flips the cell: a job has just finished.
    pub fn notify_completed(&mut self)
        ensures
            final(self).value() == !old(self).value(),
            final(self).version() == next_version(old(self).version()),
    {
        self.value = !self.value;
        self.version = self.version.wrapping_add(1);
    }

    /// The boolean that the cell holds.
    pub fn current(&self) -> (r: bool)
        ensures
            r == self.value(),
    {
        self.value
    }

    /// A new waiter, which counts the present value as already seen.
    pub fn subscribe(&self) -> (w: CompletionWaiter)
        ensures
            w.seen() == self.version(),
    {
        CompletionWaiter { seen: self.version }
    }
}

impl CompletionWaiter {
    /// The change counter that this waiter saw last.
    pub closed spec fn seen(&self) -> u64 {
        self.seen
    }

    /// Whether the cell changed since this waiter last consumed a change;
    /// nothing is consumed.
    pub fn has_changed(&self, signal: &CompletionSignal) -> (r: bool)
        ensures
            r == resolves(self.seen(), signal.version()),
    {
        self.seen != signal.version
    }

    /// One poll of "await next change": resolves (returns `true`) when the
    /// cell changed since this waiter last looked, and marks the present
    /// value as seen either way.
    pub fn poll_changed(&mut self, signal: &CompletionSignal) -> (r: bool)
        ensures
            r == resolves(old(self).seen(), signal.version()),
            final(self).seen() == signal.version(),
    {
        let changed = self.seen != signal.version;
        self.seen = signal.version;
        changed
    }
}

/// Whether a poll by a waiter that last saw change `seen` resolves while
/// the cell stands at change `current`.
pub open spec fn resolves(seen: u64, current: u64) -> bool {
    seen != current
}

/// A waiter that has just polled (and so saw the present change) does not
/// resolve a second time while no job completes, and resolves once the cell
/// is flipped by the next completion.
pub proof fn lemma_second_poll_waits_for_completion(signal: CompletionSignal, w: CompletionWaiter)
    requires
        w.seen() == signal.version(),
    ensures
        !resolves(w.seen(), signal.version()),
        resolves(w.seen(), next_version(signal.version())),
{
}

} // verus!
