//! Debounce policy.

use cua::DebounceGate;

#[test]
fn debounce_pattern_fires_first_third_fourth() {
    // window W, observations at t0, t0+W/2, t0+W, t0+2W:
    // exactly t0, t0+W and t0+2W fire.
    let w: u64 = 100;
    let t0: u64 = 1_000;
    let mut gate = DebounceGate::new(Some(w));
    assert!(gate.observe(t0));
    assert!(!gate.observe(t0 + w / 2));
    assert!(gate.observe(t0 + w));
    assert!(gate.observe(t0 + 2 * w));
}

#[test]
fn no_window_every_call_fires() {
    let mut gate = DebounceGate::new(None);
    assert!(gate.observe(5));
    assert!(gate.observe(5));
    assert!(gate.observe(6));
    assert!(gate.observe(6));
}

#[test]
fn exact_window_boundary_fires() {
    let mut gate = DebounceGate::new(Some(10));
    assert!(gate.observe(0));
    assert!(!gate.observe(9));
    // 9 was suppressed, so the last accepted time is still 0
    assert!(gate.observe(10));
}

#[test]
fn suppressed_calls_are_dropped_not_buffered() {
    let mut gate = DebounceGate::new(Some(10));
    assert!(gate.observe(100));
    assert!(!gate.observe(101));
    assert!(!gate.observe(102));
    assert!(!gate.observe(109));
    assert!(gate.observe(110));
}
