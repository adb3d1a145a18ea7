//! The fleet-wide shutdown signal.
//!
//! The signal is a flag that starts lowered, can be raised once and is never
//! lowered again. The coordinator owns the [`ShutdownSignal`]; every shard
//! worker holds a [`SignalObserver`] that reads the same flag.

use std::sync::atomic::AtomicBool;
use std::sync::Arc;
use vstd::prelude::*;

verus! {

/// What a reader reports after it had already seen `seen` and now loads `loaded`
/// from the shared flag: a signal that was seen once stays seen.
pub open spec fn latch(seen: bool, loaded: bool) -> bool {
    seen || loaded
}

/// What a reader reports after it had already seen `seen` and then loads the
/// values of `loads`, one after the other.
pub open spec fn latch_all(seen: bool, loads: Seq<bool>) -> bool
    decreases loads.len(),
{
    if loads.len() == 0 {
        seen
    } else {
        latch(latch_all(seen, loads.drop_last()), loads.last())
    }
}

/// The writing end of the shutdown signal.
pub struct ShutdownSignal {
    raised: bool,
    shared: Arc<AtomicBool>,
}

/// A reading end of the shutdown signal, one per shard worker.
pub struct SignalObserver {
    seen: bool,
    shared: Arc<AtomicBool>,
}

impl ShutdownSignal {
    /// Whether the signal has been raised.
    pub closed spec fn is_raised(&self) -> bool {
        self.raised
    }

    /// A fresh signal, not yet raised.
    pub fn new() -> (signal: ShutdownSignal)
        ensures
            !signal.is_raised(),
    {
        ShutdownSignal { raised: false, shared: Arc::new(AtomicBool::new(false)) }
    }

    /// Raises the signal and publishes it to every observer. Raising a signal
    /// that is already raised changes nothing.
    pub fn raise(&mut self)
        ensures
            final(self).is_raised(),
    {
        self.raised = true;
        self.shared.store(true, std::sync::atomic::Ordering::Relaxed);
    }

    /// Reads the signal on the writing end.
    pub fn raised(&self) -> (raised: bool)
        ensures
            raised == self.is_raised(),
    {
        self.raised
    }

    /// A new reading end. It starts out having seen what the writing end
    /// holds now.
    pub fn observer(&self) -> (observer: SignalObserver)
        ensures
            observer.has_seen() == self.is_raised(),
    {
        SignalObserver { seen: self.raised, shared: Arc::clone(&self.shared) }
    }
}

impl SignalObserver {
    /// Whether this reader has seen the signal raised.
    pub closed spec fn has_seen(&self) -> bool {
        self.seen
    }

    /// Takes in one value loaded from the shared flag and reports the signal
    /// as this reader now sees it.
    pub fn absorb(&mut self, loaded: bool) -> (raised: bool)
        ensures
            raised == latch(old(self).has_seen(), loaded),
            final(self).has_seen() == raised,
    {
        self.seen = self.seen || loaded;
        self.seen
    }

    /// Reads the shared flag. Whatever the flag holds at that moment, a reader
    /// that has seen the signal raised reports it raised from then on.
    pub fn observe(&mut self) -> (raised: bool)
        ensures
            old(self).has_seen() ==> raised,
            final(self).has_seen() == raised,
    {
        let loaded = self.shared.load(std::sync::atomic::Ordering::Relaxed);
        self.absorb(loaded)
    }
}

/// Raising is a one-way transition for every reader: once a reader has seen
/// the signal, no later load makes it report the signal as lowered.
pub proof fn lemma_signal_is_one_way(seen: bool, loads: Seq<bool>, earlier: int, later: int)
    requires
        0 <= earlier <= later <= loads.len(),
        latch_all(seen, loads.take(earlier)),
    ensures
        latch_all(seen, loads.take(later)),
    decreases later - earlier,
{
    if earlier < later {
        lemma_signal_is_one_way(seen, loads, earlier, later - 1);
        assert(loads.take(later).drop_last() =~= loads.take(later - 1));
    }
}

/// A reader reports the signal raised exactly when it had seen it before or
/// one of its loads found the flag raised.
pub proof fn lemma_latch_all_is_any(seen: bool, loads: Seq<bool>)
    ensures
        latch_all(seen, loads) <==> (seen || exists|i: int| 0 <= i < loads.len() && loads[i]),
    decreases loads.len(),
{
    if loads.len() > 0 {
        let front = loads.drop_last();
        lemma_latch_all_is_any(seen, front);
        if exists|i: int| 0 <= i < front.len() && front[i] {
            let i = choose|i: int| 0 <= i < front.len() && front[i];
            assert(loads[i]);
        }
        if exists|i: int| 0 <= i < loads.len() && loads[i] {
            let i = choose|i: int| 0 <= i < loads.len() && loads[i];
            if i < front.len() {
                assert(front[i]);
            }
        }
    }
}

} // verus!
