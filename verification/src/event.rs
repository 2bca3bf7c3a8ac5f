//! Events of a Nuimo and the decoding of its notification payloads.
use vstd::prelude::*;
use crate::gatt;

verus! {

/// Events emitted by a Nuimo device, with the payloads the device reports.
///
/// Rotation is reported in raw rotation points (a full turn of the dial is
/// `gatt::ROTATION_POINTS_PER_CYCLE` points); hover proximity in steps from
/// 0 (closest) to `HOVER_PROXIMITY_STEPS` (farthest).
#[derive(Debug, Clone, Copy, PartialEq, Eq, Structural)]
pub enum NuimoEvent {
    // Connection
    Connected,
    Disconnected,
    // Button
    ButtonDown,
    ButtonUp,
    // Rotation, in rotation points since the previous report
    Rotate { points: i16 },
    // Swipe (on screen surface)
    SwipeUp,
    SwipeDown,
    SwipeLeft,
    SwipeRight,
    // Touch (tap on screen edge)
    TouchTop,
    TouchBottom,
    TouchLeft,
    TouchRight,
    // Long touch (prolonged hold on screen edge)
    LongTouchLeft,
    LongTouchRight,
    LongTouchTop,
    LongTouchBottom,
    // Fly (in-air gesture)
    FlyLeft,
    FlyRight,
    // Hover (hand proximity, 0 = closest, HOVER_PROXIMITY_STEPS = farthest)
    Hover { steps: u8 },
    // Device state
    BatteryLevel(u8),
    Rssi(i16),
}

/// Number of distinct hover proximity steps above 0: the raw range of the
/// sensor minus the clamped ends.
pub const HOVER_PROXIMITY_STEPS: u8 = 247;

/// The characteristics of a Nuimo that the SDK uses.
#[derive(Debug, Clone, Copy, PartialEq, Eq, Structural)]
pub enum NuimoCharacteristic {
    LedMatrix,
    BatteryLevel,
    ButtonClick,
    Rotation,
    TouchOrSwipe,
    Fly,
}

/// The event a touch/swipe code stands for.
pub open spec fn touch_or_swipe_event(code: u8) -> Option<NuimoEvent> {
    match code {
        0 => Some(NuimoEvent::SwipeLeft),
        1 => Some(NuimoEvent::SwipeRight),
        2 => Some(NuimoEvent::SwipeUp),
        3 => Some(NuimoEvent::SwipeDown),
        4 => Some(NuimoEvent::TouchLeft),
        5 => Some(NuimoEvent::TouchRight),
        6 => Some(NuimoEvent::TouchTop),
        7 => Some(NuimoEvent::TouchBottom),
        8 => Some(NuimoEvent::LongTouchLeft),
        9 => Some(NuimoEvent::LongTouchRight),
        10 => Some(NuimoEvent::LongTouchTop),
        11 => Some(NuimoEvent::LongTouchBottom),
        _ => None,
    }
}

/// Hover steps of a raw proximity reading: the reading minus the near clamp,
/// limited to `0..=HOVER_PROXIMITY_STEPS`.
pub open spec fn hover_steps(raw: u8) -> int {
    let shifted: int = raw - gatt::HOVER_PROXIMITY_MIN_CLAMP;
    if shifted < 0 {
        0
    } else if shifted > HOVER_PROXIMITY_STEPS {
        HOVER_PROXIMITY_STEPS as int
    } else {
        shifted
    }
}

/// The event of a fly/hover payload.
pub open spec fn fly_event(data: Seq<u8>) -> Option<NuimoEvent> {
    if data.len() == 0 {
        None
    } else if data[0] == 0 {
        Some(NuimoEvent::FlyLeft)
    } else if data[0] == 1 {
        Some(NuimoEvent::FlyRight)
    } else if data[0] == 4 && data.len() >= 2 {
        Some(NuimoEvent::Hover { steps: hover_steps(data[1]) as u8 })
    } else {
        None
    }
}

/// A signed 16-bit value stored little-endian, two's complement.
pub open spec fn le_i16(lo: u8, hi: u8) -> int {
    lo + 256 * hi - (if hi >= 128 {
        65536int
    } else {
        0int
    })
}

/// The event of a notification payload of a characteristic.
pub open spec fn notification_event(ch: NuimoCharacteristic, data: Seq<u8>) -> Option<NuimoEvent> {
    match ch {
        NuimoCharacteristic::BatteryLevel => if data.len() > 0 {
            Some(NuimoEvent::BatteryLevel(data[0]))
        } else {
            None
        },
        NuimoCharacteristic::ButtonClick => if data.len() > 0 && data[0] == 1 {
            Some(NuimoEvent::ButtonDown)
        } else if data.len() > 0 && data[0] == 0 {
            Some(NuimoEvent::ButtonUp)
        } else {
            None
        },
        NuimoCharacteristic::Rotation => if data.len() >= 2 {
            Some(NuimoEvent::Rotate { points: le_i16(data[0], data[1]) as i16 })
        } else {
            None
        },
        NuimoCharacteristic::TouchOrSwipe => if data.len() > 0 {
            touch_or_swipe_event(data[0])
        } else {
            None
        },
        NuimoCharacteristic::Fly => fly_event(data),
        NuimoCharacteristic::LedMatrix => None,
    }
}

/// The characteristic a GATT UUID identifies.
pub open spec fn characteristic_with_uuid(uuid: u128) -> Option<NuimoCharacteristic> {
    if uuid == gatt::LED_MATRIX {
        Some(NuimoCharacteristic::LedMatrix)
    } else if uuid == gatt::BATTERY_LEVEL {
        Some(NuimoCharacteristic::BatteryLevel)
    } else if uuid == gatt::BUTTON_CLICK {
        Some(NuimoCharacteristic::ButtonClick)
    } else if uuid == gatt::ROTATION {
        Some(NuimoCharacteristic::Rotation)
    } else if uuid == gatt::TOUCH_OR_SWIPE {
        Some(NuimoCharacteristic::TouchOrSwipe)
    } else if uuid == gatt::FLY {
        Some(NuimoCharacteristic::Fly)
    } else {
        None
    }
}

/// Raw touch/swipe codes from the BLE characteristic.
pub fn parse_touch_or_swipe(code: u8) -> (ev: Option<NuimoEvent>)
    ensures
        ev == touch_or_swipe_event(code),
{
    match code {
        0 => Some(NuimoEvent::SwipeLeft),
        1 => Some(NuimoEvent::SwipeRight),
        2 => Some(NuimoEvent::SwipeUp),
        3 => Some(NuimoEvent::SwipeDown),
        4 => Some(NuimoEvent::TouchLeft),
        5 => Some(NuimoEvent::TouchRight),
        6 => Some(NuimoEvent::TouchTop),
        7 => Some(NuimoEvent::TouchBottom),
        8 => Some(NuimoEvent::LongTouchLeft),
        9 => Some(NuimoEvent::LongTouchRight),
        10 => Some(NuimoEvent::LongTouchTop),
        11 => Some(NuimoEvent::LongTouchBottom),
        _ => None,
    }
}

/// Raw fly codes from the BLE characteristic: fly left/right, or a hover
/// reading (code 4 followed by the raw proximity).
pub fn parse_fly(data: &[u8]) -> (ev: Option<NuimoEvent>)
    ensures
        ev == fly_event(data@),
{
    if data.len() == 0 {
        return None;
    }
    let code: u8 = data[0];
    if code == 0 {
        Some(NuimoEvent::FlyLeft)
    } else if code == 1 {
        Some(NuimoEvent::FlyRight)
    } else if code == 4 && data.len() >= 2 {
        let raw: u8 = data[1];
        let min_clamp: u8 = gatt::HOVER_PROXIMITY_MIN_CLAMP as u8;
        let steps: u8 = if raw < min_clamp {
            0u8
        } else if raw - min_clamp > HOVER_PROXIMITY_STEPS {
            HOVER_PROXIMITY_STEPS
        } else {
            raw - min_clamp
        };
        Some(NuimoEvent::Hover { steps })
    } else {
        None
    }
}

/// Decode a little-endian signed 16-bit value.
fn i16_from_le(lo: u8, hi: u8) -> (v: i16)
    ensures
        v as int == le_i16(lo, hi),
{
    if hi < 128 {
        (hi as i16) * 256 + (lo as i16)
    } else {
        ((hi as i16) - 256) * 256 + (lo as i16)
    }
}

/// Decode the payload of a notification (or read) of a characteristic.
pub fn parse_notification(ch: NuimoCharacteristic, data: &[u8]) -> (ev: Option<NuimoEvent>)
    ensures
        ev == notification_event(ch, data@),
{
    match ch {
        NuimoCharacteristic::BatteryLevel => {
            if data.len() > 0 {
                Some(NuimoEvent::BatteryLevel(data[0]))
            } else {
                None
            }
        },
        NuimoCharacteristic::ButtonClick => {
            if data.len() > 0 {
                match data[0] {
                    1 => Some(NuimoEvent::ButtonDown),
                    0 => Some(NuimoEvent::ButtonUp),
                    _ => None,
                }
            } else {
                None
            }
        },
        NuimoCharacteristic::Rotation => {
            if data.len() >= 2 {
                Some(NuimoEvent::Rotate { points: i16_from_le(data[0], data[1]) })
            } else {
                None
            }
        },
        NuimoCharacteristic::TouchOrSwipe => {
            if data.len() > 0 {
                parse_touch_or_swipe(data[0])
            } else {
                None
            }
        },
        NuimoCharacteristic::Fly => parse_fly(data),
        NuimoCharacteristic::LedMatrix => None,
    }
}

/// The characteristic that a GATT UUID identifies, if it is one the SDK uses.
pub fn characteristic_for_uuid(uuid: u128) -> (ch: Option<NuimoCharacteristic>)
    ensures
        ch == characteristic_with_uuid(uuid),
{
    if uuid == gatt::LED_MATRIX {
        Some(NuimoCharacteristic::LedMatrix)
    } else if uuid == gatt::BATTERY_LEVEL {
        Some(NuimoCharacteristic::BatteryLevel)
    } else if uuid == gatt::BUTTON_CLICK {
        Some(NuimoCharacteristic::ButtonClick)
    } else if uuid == gatt::ROTATION {
        Some(NuimoCharacteristic::Rotation)
    } else if uuid == gatt::TOUCH_OR_SWIPE {
        Some(NuimoCharacteristic::TouchOrSwipe)
    } else if uuid == gatt::FLY {
        Some(NuimoCharacteristic::Fly)
    } else {
        None
    }
}

/// Decode a notification identified by the UUID of its characteristic;
/// payloads of other characteristics, and of the LED matrix, give no event.
pub fn parse_uuid_notification(uuid: u128, data: &[u8]) -> (ev: Option<NuimoEvent>)
    ensures
        ev == (match characteristic_with_uuid(uuid) {
            Some(ch) => notification_event(ch, data@),
            None => None,
        }),
{
    match characteristic_for_uuid(uuid) {
        Some(ch) => parse_notification(ch, data),
        None => None,
    }
}

/// Exactly the codes 0 to 11 are gestures, and distinct codes are distinct
/// gestures: the touch/swipe vocabulary is decoded without overlap.
pub proof fn law_touch_codes_are_distinct(a: u8, b: u8)
    ensures
        touch_or_swipe_event(a) is Some <==> a <= 11,
        touch_or_swipe_event(a) is Some && a != b ==> touch_or_swipe_event(a) != touch_or_swipe_event(b),
{
}

/// Swipes on the surface and flies in the air are different events: no
/// touch/swipe code decodes to a fly, and no fly payload to a swipe or touch.
pub proof fn law_fly_is_not_swipe(code: u8, data: Seq<u8>)
    ensures
        touch_or_swipe_event(code) != Some(NuimoEvent::FlyLeft),
        touch_or_swipe_event(code) != Some(NuimoEvent::FlyRight),
        fly_event(data) matches Some(ev) ==> (ev is FlyLeft || ev is FlyRight || ev is Hover),
{
}

/// Hover steps always lie in `0..=HOVER_PROXIMITY_STEPS`, and grow with the
/// raw reading.
pub proof fn law_hover_steps_monotone(a: u8, b: u8)
    ensures
        0 <= hover_steps(a) <= HOVER_PROXIMITY_STEPS,
        a <= b ==> hover_steps(a) <= hover_steps(b),
{
}

/// Decoding a rotation reverses the little-endian two's-complement encoding:
/// every `i16` is read back from its two bytes.
pub proof fn law_rotation_roundtrip(points: i16)
    ensures
        ({
            let u: int = if points < 0 {
                points + 65536
            } else {
                points as int
            };
            le_i16((u % 256) as u8, (u / 256) as u8) == points
        }),
{
}

/// A touch/swipe notification is read from its first byte alone, by the
/// code table: code 0 is a swipe left, 1 a swipe right, 2 up, 3 down, 4 to 7
/// touch the left, right, top and bottom, 8 to 11 long-touch the left,
/// right, top and bottom. Payloads whose first bytes are distinct gesture
/// codes decode to distinct events; an empty payload decodes to nothing.
pub proof fn law_touch_payload_read_by_code(a: Seq<u8>, b: Seq<u8>)
    ensures
        a.len() == 0 ==> notification_event(NuimoCharacteristic::TouchOrSwipe, a) is None,
        a.len() > 0 ==> notification_event(NuimoCharacteristic::TouchOrSwipe, a)
            == touch_or_swipe_event(a[0]),
        a.len() > 0 ==> (notification_event(NuimoCharacteristic::TouchOrSwipe, a) is Some <==> a[0]
            <= 11),
        a.len() > 0 && b.len() > 0 && a[0] <= 11 && a[0] != b[0] ==> notification_event(
            NuimoCharacteristic::TouchOrSwipe,
            a,
        ) != notification_event(NuimoCharacteristic::TouchOrSwipe, b),
        notification_event(NuimoCharacteristic::TouchOrSwipe, a) == Some(NuimoEvent::SwipeLeft)
            <==> a.len() > 0 && a[0] == 0,
        notification_event(NuimoCharacteristic::TouchOrSwipe, a) == Some(NuimoEvent::SwipeRight)
            <==> a.len() > 0 && a[0] == 1,
        notification_event(NuimoCharacteristic::TouchOrSwipe, a) == Some(NuimoEvent::SwipeUp)
            <==> a.len() > 0 && a[0] == 2,
        notification_event(NuimoCharacteristic::TouchOrSwipe, a) == Some(NuimoEvent::SwipeDown)
            <==> a.len() > 0 && a[0] == 3,
        notification_event(NuimoCharacteristic::TouchOrSwipe, a) == Some(NuimoEvent::TouchLeft)
            <==> a.len() > 0 && a[0] == 4,
        notification_event(NuimoCharacteristic::TouchOrSwipe, a) == Some(NuimoEvent::TouchRight)
            <==> a.len() > 0 && a[0] == 5,
        notification_event(NuimoCharacteristic::TouchOrSwipe, a) == Some(NuimoEvent::TouchTop)
            <==> a.len() > 0 && a[0] == 6,
        notification_event(NuimoCharacteristic::TouchOrSwipe, a) == Some(NuimoEvent::TouchBottom)
            <==> a.len() > 0 && a[0] == 7,
        notification_event(NuimoCharacteristic::TouchOrSwipe, a) == Some(NuimoEvent::LongTouchLeft)
            <==> a.len() > 0 && a[0] == 8,
        notification_event(NuimoCharacteristic::TouchOrSwipe, a) == Some(
            NuimoEvent::LongTouchRight,
        ) <==> a.len() > 0 && a[0] == 9,
        notification_event(NuimoCharacteristic::TouchOrSwipe, a) == Some(NuimoEvent::LongTouchTop)
            <==> a.len() > 0 && a[0] == 10,
        notification_event(NuimoCharacteristic::TouchOrSwipe, a) == Some(
            NuimoEvent::LongTouchBottom,
        ) <==> a.len() > 0 && a[0] == 11,
{
}

/// A button notification is a press when its first byte is 1 and a release
/// when it is 0, and the two are different events; a battery notification
/// carries its first byte as the level. Other payloads decode to nothing,
/// and the LED matrix never reports an event.
pub proof fn law_button_and_battery_payloads(a: Seq<u8>)
    ensures
        notification_event(NuimoCharacteristic::ButtonClick, a) == Some(NuimoEvent::ButtonDown)
            <==> a.len() > 0 && a[0] == 1,
        notification_event(NuimoCharacteristic::ButtonClick, a) == Some(NuimoEvent::ButtonUp)
            <==> a.len() > 0 && a[0] == 0,
        notification_event(NuimoCharacteristic::ButtonClick, a) is None <==> (a.len() == 0 || a[0]
            > 1),
        NuimoEvent::ButtonDown != NuimoEvent::ButtonUp,
        a.len() > 0 ==> notification_event(NuimoCharacteristic::BatteryLevel, a) == Some(
            NuimoEvent::BatteryLevel(a[0]),
        ),
        a.len() == 0 ==> notification_event(NuimoCharacteristic::BatteryLevel, a) is None,
        notification_event(NuimoCharacteristic::LedMatrix, a) is None,
{
}

} // verus!
