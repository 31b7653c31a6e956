//! A "when did this last happen" marker whose stored instant can move
//! forward in time but never backwards.
//!
//! The stored value is a tick count from whatever monotonic clock the
//! caller uses; every operation takes the current tick as an argument,
//! so the same contract holds on any platform's time source.
//!
//! Zero is the sentinel for "never set". A real tick value of zero is
//! therefore indistinguishable from "unset"; this collision is kept
//! deliberately rather than widening the representation.

use vstd::prelude::*;

verus! {

/// Records the most recent instant at which some event happened,
/// or that it never happened.
pub struct MonotonicMarker {
    /// The last recorded tick, with zero meaning "never set".
    tick: u64,
}

impl MonotonicMarker {
    /// The tick currently stored; zero means "never set".
    pub closed spec fn stored(self) -> u64 {
        self.tick
    }

    /// True iff the marker has been set since construction or the
    /// last `clear`.
    pub open spec fn is_set(self) -> bool {
        self.stored() != 0
    }

    /// The marker after `advance_to(now)`: the stored tick never
    /// decreases.
    pub closed spec fn advanced_to(self, now: u64) -> MonotonicMarker {
        if now > self.tick {
            MonotonicMarker { tick: now }
        } else {
            self
        }
    }

    /// The marker after `advance_if_unset(now)`.
    pub closed spec fn advanced_if_unset(self, now: u64) -> MonotonicMarker {
        if self.tick == 0 {
            MonotonicMarker { tick: now }
        } else {
            self
        }
    }

    /// The duration reported at instant `now`: the time since the
    /// stored tick, or `None` when the marker is unset or `now`
    /// precedes the stored tick (a clock that ran backwards is treated
    /// like "never set", never as a negative duration).
    pub open spec fn elapsed_at(self, now: u64) -> Option<u64> {
        if self.stored() != 0 && now >= self.stored() {
            Some((now - self.stored()) as u64)
        } else {
            None
        }
    }

    /// Construct a marker that has never been set.
    pub fn new() -> (r: MonotonicMarker)
        ensures
            !r.is_set(),
            r.stored() == 0,
    {
        MonotonicMarker { tick: 0 }
    }

    /// Move the stored tick to at least `now`; a no-op when `now` is
    /// not later than the current value.
    pub fn advance_to(&mut self, now: u64)
        ensures
            *final(self) == old(self).advanced_to(now),
    {
        if now > self.tick {
            self.tick = now;
        }
    }

    /// Set the stored tick to `now` only when the marker is unset;
    /// leave a set marker untouched.
    pub fn advance_if_unset(&mut self, now: u64)
        ensures
            *final(self) == old(self).advanced_if_unset(now),
    {
        if self.tick == 0 {
            self.tick = now;
        }
    }

    /// Reset the marker to "never set". This is the only operation
    /// allowed to decrease the stored tick.
    pub fn clear(&mut self)
        ensures
            !final(self).is_set(),
            final(self).stored() == 0,
    {
        self.tick = 0;
    }

    /// Report the time between the stored tick and `now`, or `None`
    /// when unset or when `now` precedes the stored tick.
    pub fn elapsed_since(&self, now: u64) -> (r: Option<u64>)
        ensures
            r == self.elapsed_at(now),
    {
        if self.tick != 0 && now >= self.tick {
            Some(now - self.tick)
        } else {
            None
        }
    }
}

/// The marker's lifecycle, stated once over the model: a fresh marker
/// reports "unset" at every instant; after `advance_to(t)` with a
/// nonzero `t` it reports zero elapsed at `t` and "unset" at any
/// earlier instant; advancing to an earlier tick is a no-op;
/// `advance_if_unset` is a no-op once any value is stored; and `clear`
/// returns it to the unset state.
pub proof fn lemma_marker_lifecycle(m: MonotonicMarker, t: u64, earlier: u64, later: u64)
    requires
        !m.is_set(),
        0 < t,
        earlier < t,
        later <= m.advanced_to(t).stored(),
    ensures
        m.elapsed_at(t) is None,
        m.advanced_to(t).elapsed_at(t) == Some(0u64),
        m.advanced_to(t).elapsed_at(earlier) is None,
        m.advanced_to(t).advanced_to(later) == m.advanced_to(t),
        m.advanced_to(t).advanced_if_unset(later) == m.advanced_to(t),
{
}

} // verus!
