use rboy::{event_from_code, GBEvent, KeypadKey};

#[test]
fn key_down_codes_map_to_key_down_events() {
    assert_eq!(event_from_code(1), Some(GBEvent::KeyDown(KeypadKey::A)));
    assert_eq!(event_from_code(2), Some(GBEvent::KeyDown(KeypadKey::B)));
    assert_eq!(event_from_code(3), Some(GBEvent::KeyDown(KeypadKey::Up)));
    assert_eq!(event_from_code(4), Some(GBEvent::KeyDown(KeypadKey::Down)));
    assert_eq!(event_from_code(5), Some(GBEvent::KeyDown(KeypadKey::Left)));
    assert_eq!(event_from_code(6), Some(GBEvent::KeyDown(KeypadKey::Right)));
    assert_eq!(event_from_code(7), Some(GBEvent::KeyDown(KeypadKey::Select)));
    assert_eq!(event_from_code(8), Some(GBEvent::KeyDown(KeypadKey::Start)));
}

#[test]
fn key_up_codes_map_to_key_up_events() {
    assert_eq!(event_from_code(9), Some(GBEvent::KeyUp(KeypadKey::A)));
    assert_eq!(event_from_code(10), Some(GBEvent::KeyUp(KeypadKey::B)));
    assert_eq!(event_from_code(11), Some(GBEvent::KeyUp(KeypadKey::Up)));
    assert_eq!(event_from_code(12), Some(GBEvent::KeyUp(KeypadKey::Down)));
    assert_eq!(event_from_code(13), Some(GBEvent::KeyUp(KeypadKey::Left)));
    assert_eq!(event_from_code(14), Some(GBEvent::KeyUp(KeypadKey::Right)));
    assert_eq!(event_from_code(15), Some(GBEvent::KeyUp(KeypadKey::Select)));
    assert_eq!(event_from_code(16), Some(GBEvent::KeyUp(KeypadKey::Start)));
}

#[test]
fn control_codes_map_to_stop_and_speed_toggles() {
    assert_eq!(event_from_code(101), Some(GBEvent::Stop));
    assert_eq!(event_from_code(202), Some(GBEvent::SpeedUp));
    assert_eq!(event_from_code(203), Some(GBEvent::SpeedDown));
}

#[test]
fn unknown_codes_are_rejected() {
    for code in [i32::MIN, -1, 0, 17, 42, 100, 102, 201, 204, i32::MAX] {
        assert_eq!(event_from_code(code), None, "code {} must be refused", code);
    }
}
