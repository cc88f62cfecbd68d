use vstd::prelude::*;

verus! {

/// Minimum number of milliseconds that must elapse between two accepted
/// triggers.
pub const DEBOUNCE_WINDOW_MS: u64 = 1000;

/// Debounce gate over a single "last accepted trigger" timestamp.
///
/// A trigger passes exactly when no trigger was accepted before, or when
/// the elapsed time since the last accepted one is at least
/// [`DEBOUNCE_WINDOW_MS`].  The check and the update of the timestamp happen
/// in one call, so a caller that serialises its calls (for instance behind a
/// mutex) can never let two triggers inside one window both pass.
pub struct CooldownGate {
    last_accepted_ms: Option<u64>,
}

impl CooldownGate {
    /// The timestamp of the last accepted trigger, if any.
    pub closed spec fn last_trigger(self) -> Option<u64> {
        self.last_accepted_ms
    }

    /// True when a trigger arriving at `now_ms` would be accepted.
    pub open spec fn accepts(self, now_ms: u64) -> bool {
        match self.last_trigger() {
            Option::None => true,
            Option::Some(last) => last <= now_ms && now_ms - last >= DEBOUNCE_WINDOW_MS,
        }
    }

    /// A fresh gate that has accepted nothing yet.
    pub fn new() -> (gate: CooldownGate)
        ensures
            gate.last_trigger() is None,
    {
        CooldownGate { last_accepted_ms: None }
    }

    /// Check-and-set in a single step: accepts the trigger and records
    /// `now_ms` exactly when the debounce window has passed; a rejected
    /// trigger leaves the recorded timestamp unchanged.
    pub fn try_acquire(&mut self, now_ms: u64) -> (accepted: bool)
        ensures
            accepted == old(self).accepts(now_ms),
            accepted ==> final(self).last_trigger() == Some(now_ms),
            !accepted ==> *final(self) == *old(self),
    {
        let ok = match self.last_accepted_ms {
            None => true,
            Some(last) => last <= now_ms && now_ms - last >= DEBOUNCE_WINDOW_MS,
        };
        if ok {
            self.last_accepted_ms = Some(now_ms);
        }
        ok
    }
}

/// Once a trigger has been accepted at `t1`, any attempt whose timestamp lies
/// inside the debounce window that starts at `t1` is rejected, whichever of
/// the two attempts was checked first.  Under a debounce gate whose calls are
/// serialised this rules out a double capture from two concurrent triggers.
pub proof fn lemma_within_window_rejected(gate: CooldownGate, t1: u64, t2: u64)
    requires
        gate.last_trigger() == Some(t1),
        t2 < t1 + DEBOUNCE_WINDOW_MS,
    ensures
        !gate.accepts(t2),
{
}

/// Once a trigger has been accepted at `t1`, an attempt a full debounce
/// window or more later is accepted again.
pub proof fn lemma_spaced_attempt_accepted(gate: CooldownGate, t1: u64, t2: u64)
    requires
        gate.last_trigger() == Some(t1),
        t1 + DEBOUNCE_WINDOW_MS <= t2,
    ensures
        gate.accepts(t2),
{
}

} // verus!
