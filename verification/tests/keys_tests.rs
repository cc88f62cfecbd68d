use capture_trigger::keys::KeyComboTracker;
use capture_trigger::keys::TrackedKey;

fn ctrl_shift_s() -> Vec<TrackedKey> {
    vec![TrackedKey::Ctrl, TrackedKey::Shift, TrackedKey::KeyS]
}

#[test]
fn combo_fires_only_when_all_held() {
    let mut tracker = KeyComboTracker::new(ctrl_shift_s());
    assert!(!tracker.on_key_event(TrackedKey::Ctrl, true));
    assert!(!tracker.on_key_event(TrackedKey::Shift, true));
    assert!(tracker.on_key_event(TrackedKey::KeyS, true));
}

#[test]
fn release_of_any_combo_key_breaks_detection() {
    let mut tracker = KeyComboTracker::new(ctrl_shift_s());
    tracker.on_key_event(TrackedKey::Ctrl, true);
    tracker.on_key_event(TrackedKey::Shift, true);
    assert!(tracker.on_key_event(TrackedKey::KeyS, true));
    assert!(!tracker.on_key_event(TrackedKey::Shift, false));
}

#[test]
fn repress_after_release_retriggers() {
    let mut tracker = KeyComboTracker::new(ctrl_shift_s());
    tracker.on_key_event(TrackedKey::Ctrl, true);
    tracker.on_key_event(TrackedKey::Shift, true);
    assert!(tracker.on_key_event(TrackedKey::KeyS, true));
    assert!(!tracker.on_key_event(TrackedKey::KeyS, false));
    assert!(tracker.on_key_event(TrackedKey::KeyS, true));
}

#[test]
fn repeated_press_still_reports_satisfied() {
    let mut tracker = KeyComboTracker::new(ctrl_shift_s());
    tracker.on_key_event(TrackedKey::Ctrl, true);
    tracker.on_key_event(TrackedKey::Shift, true);
    assert!(tracker.on_key_event(TrackedKey::KeyS, true));
    // key-repeat: the flag is already set, the combination re-evaluates
    assert!(tracker.on_key_event(TrackedKey::KeyS, true));
}

#[test]
fn unexpected_release_is_clear_even_out_of_order() {
    let mut tracker = KeyComboTracker::new(ctrl_shift_s());
    // a release that arrives before any press leaves the key clear
    assert!(!tracker.on_key_event(TrackedKey::Ctrl, false));
    tracker.on_key_event(TrackedKey::Ctrl, true);
    tracker.on_key_event(TrackedKey::Shift, true);
    assert!(tracker.on_key_event(TrackedKey::KeyS, true));
}

#[test]
fn keys_outside_combination_do_not_matter() {
    let mut tracker = KeyComboTracker::new(ctrl_shift_s());
    tracker.on_key_event(TrackedKey::Ctrl, true);
    tracker.on_key_event(TrackedKey::Shift, true);
    assert!(!tracker.on_key_event(TrackedKey::KeyW, true));
    assert!(tracker.on_key_event(TrackedKey::KeyS, true));
    // releasing a non-combination key keeps the combination satisfied
    assert!(tracker.on_key_event(TrackedKey::KeyW, false));
}

#[test]
fn empty_combination_is_always_satisfied() {
    let mut tracker = KeyComboTracker::new(Vec::new());
    assert!(tracker.on_key_event(TrackedKey::KeyQ, true));
    assert!(tracker.on_key_event(TrackedKey::KeyQ, false));
}
