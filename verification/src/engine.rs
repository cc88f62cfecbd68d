use vstd::prelude::*;
use vstd::string::*;
use crate::cooldown::CooldownGate;
use crate::keys::KeyComboTracker;
use crate::keys::TrackedKey;

verus! {

/// The decision core of the global hotkey listener: every system-wide key
/// event is fed into the combination tracker, and a satisfied combination is
/// let through the debounce gate.  The caller owns the listener thread and
/// performs the capture; this type only decides.
pub struct TriggerEngine {
    tracker: KeyComboTracker,
    gate: CooldownGate,
}

impl TriggerEngine {
    /// The combination tracker.
    pub closed spec fn tracker(self) -> KeyComboTracker {
        self.tracker
    }

    /// The debounce gate.
    pub closed spec fn gate(self) -> CooldownGate {
        self.gate
    }

    /// The tracker's held-flag table is complete.
    pub open spec fn wf(self) -> bool {
        self.tracker().wf()
    }

    /// A fresh engine: the given combination, no key held, no trigger
    /// accepted yet.
    pub fn new(combination: Vec<TrackedKey>) -> (engine: TriggerEngine)
        ensures
            engine.wf(),
            engine.tracker().combo() == combination@,
            forall|k: TrackedKey| !(#[trigger] engine.tracker().is_held(k)),
            engine.gate().last_trigger() is None,
    {
        TriggerEngine { tracker: KeyComboTracker::new(combination), gate: CooldownGate::new() }
    }

    /// Feeds one key event through: the tracker records the new held flag,
    /// and exactly when the whole combination is then held and the debounce
    /// gate accepts `now_ms`, a capture is to be dispatched.
    pub fn on_key_event(&mut self, key: TrackedKey, pressed: bool, now_ms: u64) -> (fire: bool)
        requires
            old(self).wf(),
        ensures
            final(self).wf(),
            final(self).tracker().combo() == old(self).tracker().combo(),
            final(self).tracker().is_held(key) == pressed,
            forall|k: TrackedKey|
                k != key ==> #[trigger] final(self).tracker().is_held(k) == old(
                    self,
                ).tracker().is_held(k),
            fire == (final(self).tracker().combo_satisfied() && old(self).gate().accepts(now_ms)),
            fire ==> final(self).gate().last_trigger() == Some(now_ms),
            !fire ==> final(self).gate() == old(self).gate(),
    {
        let satisfied = self.tracker.on_key_event(key, pressed);
        if satisfied {
            self.gate.try_acquire(now_ms)
        } else {
            false
        }
    }

    /// A direct programmatic trigger, equivalent to "capture now": only the
    /// debounce gate stands between the request and the dispatch.
    pub fn request_capture(&mut self, now_ms: u64) -> (fire: bool)
        requires
            old(self).wf(),
        ensures
            final(self).wf(),
            final(self).tracker() == old(self).tracker(),
            fire == old(self).gate().accepts(now_ms),
            fire ==> final(self).gate().last_trigger() == Some(now_ms),
            !fire ==> final(self).gate() == old(self).gate(),
    {
        self.gate.try_acquire(now_ms)
    }
}

/// Whether a key string reported by the application shell asks for a quick
/// capture: the comma-period chord or the period key alone.
pub fn quick_capture_requested(key: &str) -> (fire: bool)
    ensures
        fire == (key@ == ",+."@ || key@ == "."@),
{
    let k = String::from_str(key);
    let chord = String::from_str(",+.");
    let period = String::from_str(".");
    k == chord || k == period
}

} // verus!
