use gamepilot::governor::{
    capture_interval_ms, current_mode, current_vision_mode, mode_from_u8, mode_to_u8,
    set_mode, set_vision_mode, telemetry_interval_ms, GovernorMode, GovernorState, VisionMode,
};

#[test]
fn new_state_is_normal_and_active() {
    let s = GovernorState::new();
    assert_eq!(current_mode(&s), GovernorMode::Normal);
    assert_eq!(current_vision_mode(&s), VisionMode::Active);
    assert_eq!(telemetry_interval_ms(&s), 5000);
    assert_eq!(capture_interval_ms(&s), 3000);
}

#[test]
fn set_then_read_back() {
    let mut s = GovernorState::new();
    for m in [GovernorMode::Lite, GovernorMode::Minimal, GovernorMode::Paused, GovernorMode::Normal] {
        set_mode(&mut s, m);
        assert_eq!(current_mode(&s), m);
        assert_eq!(current_vision_mode(&s), VisionMode::Active);
    }
    set_vision_mode(&mut s, VisionMode::Disabled);
    assert_eq!(capture_interval_ms(&s), u64::MAX);
    set_mode(&mut s, GovernorMode::Paused);
    assert_eq!(telemetry_interval_ms(&s), 60000);
    assert_eq!(current_vision_mode(&s), VisionMode::Disabled);
}

#[test]
fn codes_round_trip() {
    for v in 0u8..=255 {
        let m = mode_from_u8(v);
        if v <= 3 {
            assert_eq!(mode_to_u8(m), v);
        } else {
            assert_eq!(m, GovernorMode::Normal);
        }
    }
}
