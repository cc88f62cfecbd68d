use capture_trigger::engine::TriggerEngine;
use capture_trigger::engine::quick_capture_requested;
use capture_trigger::keys::TrackedKey;

fn ctrl_shift_s() -> Vec<TrackedKey> {
    vec![TrackedKey::Ctrl, TrackedKey::Shift, TrackedKey::KeyS]
}

#[test]
fn combo_plus_open_gate_fires_once() {
    let mut engine = TriggerEngine::new(ctrl_shift_s());
    assert!(!engine.on_key_event(TrackedKey::Ctrl, true, 0));
    assert!(!engine.on_key_event(TrackedKey::Shift, true, 0));
    assert!(engine.on_key_event(TrackedKey::KeyS, true, 0));
}

#[test]
fn key_repeat_within_window_is_debounced() {
    let mut engine = TriggerEngine::new(ctrl_shift_s());
    engine.on_key_event(TrackedKey::Ctrl, true, 0);
    engine.on_key_event(TrackedKey::Shift, true, 0);
    assert!(engine.on_key_event(TrackedKey::KeyS, true, 0));
    // key-repeat of the trigger key inside the window stays suppressed
    assert!(!engine.on_key_event(TrackedKey::KeyS, true, 400));
    assert!(!engine.on_key_event(TrackedKey::KeyS, true, 800));
    // a repeat after the window fires again
    assert!(engine.on_key_event(TrackedKey::KeyS, true, 1200));
}

#[test]
fn incomplete_combo_never_consults_the_gate() {
    let mut engine = TriggerEngine::new(ctrl_shift_s());
    assert!(!engine.on_key_event(TrackedKey::Ctrl, true, 0));
    assert!(!engine.on_key_event(TrackedKey::KeyS, true, 0));
    // nothing was ever acquired, so a full combo fires at once
    assert!(engine.on_key_event(TrackedKey::Shift, true, 1));
}

#[test]
fn direct_request_is_debounced_like_the_hotkey() {
    let mut engine = TriggerEngine::new(ctrl_shift_s());
    assert!(engine.request_capture(100));
    assert!(!engine.request_capture(900));
    assert!(engine.request_capture(1100));
}

#[test]
fn hotkey_and_direct_request_share_one_window() {
    let mut engine = TriggerEngine::new(ctrl_shift_s());
    engine.on_key_event(TrackedKey::Ctrl, true, 0);
    engine.on_key_event(TrackedKey::Shift, true, 0);
    assert!(engine.on_key_event(TrackedKey::KeyS, true, 0));
    assert!(!engine.request_capture(500));
    assert!(engine.request_capture(1500));
}

#[test]
fn key_strings_that_request_a_quick_capture() {
    assert!(quick_capture_requested(",+."));
    assert!(quick_capture_requested("."));
    assert!(!quick_capture_requested(","));
    assert!(!quick_capture_requested(""));
    assert!(!quick_capture_requested("ctrl+shift+s"));
}
