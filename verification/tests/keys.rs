use rhombus_instinct::keys::{ContinuousKey, KeyState, MultiKey, SingleKey};

#[test]
fn a_single_key_fires_once_for_a_press() {
    let mut key = SingleKey::new();
    assert!(!key.service());
    key.trigger(true);
    assert!(key.service());
    for _ in 0..100 {
        assert!(!key.service());
    }
}

#[test]
fn a_single_key_fires_again_after_a_release() {
    let mut key = SingleKey::new();
    key.trigger(true);
    assert!(key.service());
    key.trigger(false);
    assert!(!key.service());
    key.trigger(true);
    assert!(key.service());
    assert!(!key.service());
}

#[test]
fn a_repeated_press_edge_does_not_fire_again() {
    let mut key = SingleKey::new();
    key.trigger(true);
    assert!(key.service());
    key.trigger(true);
    assert!(!key.service());
}

#[test]
fn a_single_key_released_before_its_service_does_not_fire() {
    let mut key = SingleKey::new();
    key.trigger(true);
    key.trigger(false);
    assert!(!key.service());
    assert_eq!(key, SingleKey { triggered: false, needs_service: true });
    key.trigger(true);
    assert!(key.service());
    assert!(!key.service());
}

#[test]
fn a_multi_key_fires_on_the_press_and_repeats_from_the_fourteenth_tick() {
    let mut key = MultiKey::new();
    assert!(!key.service());
    key.trigger(true);
    let fired: Vec<bool> = (0..20).map(|_| key.service()).collect();
    let mut expected = vec![false; 20];
    expected[0] = true;
    for tick in 13..20 {
        expected[tick] = true;
    }
    assert_eq!(fired, expected);
    assert_eq!(key.hold_frames, 20);
}

#[test]
fn a_release_sets_the_hold_back() {
    let mut key = MultiKey::new();
    key.trigger(true);
    for _ in 0..16 {
        key.service();
    }
    assert_eq!(key.hold_frames, 16);
    key.trigger(false);
    assert_eq!(key.hold_frames, 0);
    assert!(!key.service());
    assert_eq!(key.hold_frames, 0);
    key.trigger(true);
    assert!(key.service());
    for _ in 0..12 {
        assert!(!key.service());
    }
    assert!(key.service());
}

#[test]
fn a_multi_key_that_is_up_does_not_count() {
    let mut key = MultiKey::new();
    for _ in 0..30 {
        assert!(!key.service());
    }
    assert_eq!(key.hold_frames, 0);
}

#[test]
fn a_continuous_key_reports_its_state() {
    let mut key = ContinuousKey::new();
    assert!(!key.service());
    key.trigger(true);
    for _ in 0..5 {
        assert!(key.service());
    }
    key.trigger(false);
    assert!(!key.service());
}

#[test]
fn new_keys_are_all_up() {
    let keys = KeyState::new();
    assert_eq!(keys.left, MultiKey::new());
    assert_eq!(keys.right, MultiKey::new());
    assert_eq!(keys.sonic_drop, MultiKey::new());
    assert_eq!(keys.fast_drop, ContinuousKey { pressed: false });
    assert_eq!(keys.r_left, SingleKey { triggered: false, needs_service: false });
    assert_eq!(keys.r_right, SingleKey { triggered: false, needs_service: false });
    assert_eq!(keys.left.hold_frames, 0);
}
