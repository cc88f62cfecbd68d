use vstd::prelude::*;

verus! {

/// The fixed set of tracked key classes.  The two physical control keys (and
/// likewise the two shift keys) share one class, so releasing either clears
/// the class, exactly as the live listener treats them.  Keys outside this
/// set never reach the tracker.
#[derive(Clone, Copy, PartialEq, Eq, Structural, Debug)]
pub enum TrackedKey {
    Ctrl,
    Shift,
    KeyS,
    KeyQ,
    KeyW,
}

/// How many tracked key classes there are.
pub const TRACKED_KEY_COUNT: usize = 5;

/// The slot of a tracked key in the held-flag table.
pub open spec fn key_slot(key: TrackedKey) -> int {
    match key {
        TrackedKey::Ctrl => 0,
        TrackedKey::Shift => 1,
        TrackedKey::KeyS => 2,
        TrackedKey::KeyQ => 3,
        TrackedKey::KeyW => 4,
    }
}

fn key_slot_exec(key: TrackedKey) -> (slot: usize)
    ensures
        slot == key_slot(key),
{
    match key {
        TrackedKey::Ctrl => 0,
        TrackedKey::Shift => 1,
        TrackedKey::KeyS => 2,
        TrackedKey::KeyQ => 3,
        TrackedKey::KeyW => 4,
    }
}

proof fn lemma_key_slot_injective(k1: TrackedKey, k2: TrackedKey)
    requires
        key_slot(k1) == key_slot(k2),
    ensures
        k1 == k2,
{
}

/// Live pressed/released state of the tracked keys, together with the
/// configured combination that fires a capture.
pub struct KeyComboTracker {
    combination: Vec<TrackedKey>,
    held: Vec<bool>,
}

impl KeyComboTracker {
    /// The held-flag table has one slot per tracked key.
    pub closed spec fn wf(self) -> bool {
        self.held@.len() == TRACKED_KEY_COUNT
    }

    /// The configured combination.
    pub closed spec fn combo(self) -> Seq<TrackedKey> {
        self.combination@
    }

    /// Whether `key` is currently held.
    pub closed spec fn is_held(self, key: TrackedKey) -> bool {
        self.held@[key_slot(key)]
    }

    /// Every key of the configured combination is simultaneously held.
    pub open spec fn combo_satisfied(self) -> bool {
        forall|i: int|
            0 <= i < self.combo().len() ==> self.is_held(#[trigger] self.combo()[i])
    }

    /// A fresh tracker: the given combination, no key held.
    pub fn new(combination: Vec<TrackedKey>) -> (tracker: KeyComboTracker)
        ensures
            tracker.wf(),
            tracker.combo() == combination@,
            forall|k: TrackedKey| !(#[trigger] tracker.is_held(k)),
    {
        let mut held: Vec<bool> = Vec::new();
        let mut i: usize = 0;
        while i < TRACKED_KEY_COUNT
            invariant
                i <= TRACKED_KEY_COUNT,
                held@.len() == i,
                forall|j: int| 0 <= j < i ==> !held@[j],
            decreases TRACKED_KEY_COUNT - i,
        {
            held.push(false);
            i += 1;
        }
        let tracker = KeyComboTracker { combination, held };
        proof {
            assert forall|k: TrackedKey| !(#[trigger] tracker.is_held(k)) by {
                assert(0 <= key_slot(k) < TRACKED_KEY_COUNT);
            }
        }
        tracker
    }

    /// Records the new held flag of `key` and reports whether, after the
    /// update, the whole combination is simultaneously held.  A repeated
    /// press of an already held key changes nothing and still re-evaluates
    /// the combination; a release always clears the flag, whatever order the
    /// events arrived in.
    pub fn on_key_event(&mut self, key: TrackedKey, pressed: bool) -> (satisfied: bool)
        requires
            old(self).wf(),
        ensures
            final(self).wf(),
            final(self).combo() == old(self).combo(),
            final(self).is_held(key) == pressed,
            forall|k: TrackedKey|
                k != key ==> #[trigger] final(self).is_held(k) == old(self).is_held(k),
            satisfied == final(self).combo_satisfied(),
    {
        let slot = key_slot_exec(key);
        self.held.set(slot, pressed);
        proof {
            assert forall|k: TrackedKey| k != key implies #[trigger] self.is_held(k) == old(
                self,
            ).is_held(k) by {
                if key_slot(k) == key_slot(key) {
                    lemma_key_slot_injective(k, key);
                }
            }
        }
        let mut i: usize = 0;
        let mut all_held = true;
        while i < self.combination.len()
            invariant
                self.wf(),
                i <= self.combination@.len(),
                all_held == forall|j: int|
                    0 <= j < i ==> self.is_held(#[trigger] self.combo()[j]),
            decreases self.combination@.len() - i,
        {
            let k = self.combination[i];
            let held_k = self.held[key_slot_exec(k)];
            let ghost prev_all: bool = all_held;
            if !held_k {
                all_held = false;
            }
            proof {
                assert(k == self.combo()[i as int]);
                assert(held_k == self.is_held(k));
                if prev_all && held_k {
                    assert forall|j: int|
                        0 <= j < i + 1 implies self.is_held(#[trigger] self.combo()[j]) by {
                        if j < i {
                            assert(self.is_held(self.combo()[j]));
                        }
                    }
                } else if prev_all {
                    assert(!self.is_held(self.combo()[i as int]));
                } else {
                    let j0 = choose|j: int| 0 <= j < i && !self.is_held(#[trigger] self.combo()[j]);
                    assert(!self.is_held(self.combo()[j0]));
                }
            }
            i += 1;
        }
        all_held
    }
}

/// Releasing any one key of a satisfied combination breaks the combination,
/// and pressing that key again while the remaining keys stay held detects it
/// anew.  The three states are related exactly as two `on_key_event` calls
/// (a release of `key`, then a press of `key`) relate them.
pub proof fn lemma_release_repress_retriggers(
    before: KeyComboTracker,
    after_release: KeyComboTracker,
    after_repress: KeyComboTracker,
    key: TrackedKey,
)
    requires
        before.combo().contains(key),
        before.combo_satisfied(),
        after_release.combo() == before.combo(),
        !after_release.is_held(key),
        forall|k: TrackedKey|
            k != key ==> #[trigger] after_release.is_held(k) == before.is_held(k),
        after_repress.combo() == after_release.combo(),
        after_repress.is_held(key),
        forall|k: TrackedKey|
            k != key ==> #[trigger] after_repress.is_held(k) == after_release.is_held(k),
    ensures
        !after_release.combo_satisfied(),
        after_repress.combo_satisfied(),
{
    let i = choose|i: int| 0 <= i < before.combo().len() && before.combo()[i] == key;
    assert(!after_release.is_held(after_release.combo()[i]));
    assert forall|j: int|
        0 <= j < after_repress.combo().len() implies after_repress.is_held(
        #[trigger] after_repress.combo()[j],
    ) by {
        let k = after_repress.combo()[j];
        if k != key {
            assert(before.is_held(k));
        }
    }
}

} // verus!
