use nuimo::event::{
    characteristic_for_uuid, parse_fly, parse_notification, parse_touch_or_swipe,
    parse_uuid_notification, NuimoCharacteristic,
};
use nuimo::gatt;
use nuimo::NuimoEvent;

#[test]
fn touch_codes_decode_to_gestures() {
    let expected = [
        NuimoEvent::SwipeLeft,
        NuimoEvent::SwipeRight,
        NuimoEvent::SwipeUp,
        NuimoEvent::SwipeDown,
        NuimoEvent::TouchLeft,
        NuimoEvent::TouchRight,
        NuimoEvent::TouchTop,
        NuimoEvent::TouchBottom,
        NuimoEvent::LongTouchLeft,
        NuimoEvent::LongTouchRight,
        NuimoEvent::LongTouchTop,
        NuimoEvent::LongTouchBottom,
    ];
    for (code, ev) in expected.iter().enumerate() {
        assert_eq!(parse_touch_or_swipe(code as u8), Some(*ev));
    }
    for code in 12..=255u8 {
        assert_eq!(parse_touch_or_swipe(code), None);
    }
}

#[test]
fn fly_payloads() {
    assert_eq!(parse_fly(&[]), None);
    assert_eq!(parse_fly(&[0]), Some(NuimoEvent::FlyLeft));
    assert_eq!(parse_fly(&[1, 9]), Some(NuimoEvent::FlyRight));
    assert_eq!(parse_fly(&[4]), None);
    assert_eq!(parse_fly(&[2, 0]), None);
    assert_eq!(parse_fly(&[4, 0]), Some(NuimoEvent::Hover { steps: 0 }));
    assert_eq!(parse_fly(&[4, 2]), Some(NuimoEvent::Hover { steps: 0 }));
    assert_eq!(parse_fly(&[4, 100]), Some(NuimoEvent::Hover { steps: 98 }));
    assert_eq!(parse_fly(&[4, 249]), Some(NuimoEvent::Hover { steps: 247 }));
    assert_eq!(parse_fly(&[4, 255]), Some(NuimoEvent::Hover { steps: 247 }));
}

#[test]
fn hover_steps_match_float_proximity() {
    // proximity = ((raw - 2) / (250 - 2 - 1)).clamp(0, 1) == steps / 247
    for raw in 0..=255u8 {
        let p = ((raw as f64 - 2.0) / (250.0 - 2.0 - 1.0)).clamp(0.0, 1.0);
        match parse_fly(&[4, raw]) {
            Some(NuimoEvent::Hover { steps }) => assert_eq!(steps as f64 / 247.0, p),
            other => panic!("unexpected {:?}", other),
        }
    }
}

#[test]
fn rotation_is_little_endian_signed() {
    let ch = NuimoCharacteristic::Rotation;
    assert_eq!(parse_notification(ch, &[0x10, 0x00]), Some(NuimoEvent::Rotate { points: 16 }));
    assert_eq!(parse_notification(ch, &[0xff, 0xff]), Some(NuimoEvent::Rotate { points: -1 }));
    assert_eq!(parse_notification(ch, &[0x00, 0x80]), Some(NuimoEvent::Rotate { points: i16::MIN }));
    assert_eq!(parse_notification(ch, &[0x01]), None);
    for v in [-2650i16, -1, 0, 1, 300, 2650, i16::MAX] {
        let b = v.to_le_bytes();
        assert_eq!(parse_notification(ch, &[b[0], b[1], 7]), Some(NuimoEvent::Rotate { points: v }));
    }
}

#[test]
fn button_and_battery_payloads() {
    let b = NuimoCharacteristic::ButtonClick;
    assert_eq!(parse_notification(b, &[1]), Some(NuimoEvent::ButtonDown));
    assert_eq!(parse_notification(b, &[0]), Some(NuimoEvent::ButtonUp));
    assert_eq!(parse_notification(b, &[2]), None);
    assert_eq!(parse_notification(b, &[]), None);
    let bat = NuimoCharacteristic::BatteryLevel;
    assert_eq!(parse_notification(bat, &[87, 1]), Some(NuimoEvent::BatteryLevel(87)));
    assert_eq!(parse_notification(bat, &[]), None);
    assert_eq!(parse_notification(NuimoCharacteristic::LedMatrix, &[1]), None);
    assert_eq!(
        parse_notification(NuimoCharacteristic::TouchOrSwipe, &[6]),
        Some(NuimoEvent::TouchTop)
    );
}

#[test]
fn characteristics_are_found_by_uuid() {
    assert_eq!(characteristic_for_uuid(gatt::LED_MATRIX), Some(NuimoCharacteristic::LedMatrix));
    assert_eq!(characteristic_for_uuid(gatt::BATTERY_LEVEL), Some(NuimoCharacteristic::BatteryLevel));
    assert_eq!(characteristic_for_uuid(gatt::BUTTON_CLICK), Some(NuimoCharacteristic::ButtonClick));
    assert_eq!(characteristic_for_uuid(gatt::ROTATION), Some(NuimoCharacteristic::Rotation));
    assert_eq!(characteristic_for_uuid(gatt::TOUCH_OR_SWIPE), Some(NuimoCharacteristic::TouchOrSwipe));
    assert_eq!(characteristic_for_uuid(gatt::FLY), Some(NuimoCharacteristic::Fly));
    assert_eq!(characteristic_for_uuid(gatt::NUIMO_SERVICE), None);
    assert_eq!(parse_uuid_notification(gatt::FLY, &[1]), Some(NuimoEvent::FlyRight));
    assert_eq!(parse_uuid_notification(gatt::BATTERY_SERVICE, &[1]), None);
}
