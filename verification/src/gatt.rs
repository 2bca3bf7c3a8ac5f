//! GATT identifiers and device constants of the Nuimo.
//!
//! UUIDs are kept as their 128-bit integer value, which is how the
//! classification logic compares them.
use vstd::prelude::*;

verus! {

/// Battery service.
pub const BATTERY_SERVICE: u128 = 0x0000180f_0000_1000_8000_00805f9b34fb;

/// LED matrix service.
pub const LED_SERVICE: u128 = 0xf29b1523_cb19_40f3_be5c_7241ecb82fd1;

/// Nuimo input service.
pub const NUIMO_SERVICE: u128 = 0xf29b1525_cb19_40f3_be5c_7241ecb82fd2;

/// Battery level characteristic (read, notify).
pub const BATTERY_LEVEL: u128 = 0x00002a19_0000_1000_8000_00805f9b34fb;

/// LED matrix characteristic (write).
pub const LED_MATRIX: u128 = 0xf29b1524_cb19_40f3_be5c_7241ecb82fd1;

/// Button characteristic (notify).
pub const BUTTON_CLICK: u128 = 0xf29b1529_cb19_40f3_be5c_7241ecb82fd2;

/// Fly / hover characteristic (notify).
pub const FLY: u128 = 0xf29b1526_cb19_40f3_be5c_7241ecb82fd2;

/// Rotation characteristic (notify).
pub const ROTATION: u128 = 0xf29b1528_cb19_40f3_be5c_7241ecb82fd2;

/// Touch / swipe characteristic (notify).
pub const TOUCH_OR_SWIPE: u128 = 0xf29b1527_cb19_40f3_be5c_7241ecb82fd2;

/// Advertised name of a Nuimo.
pub const DEVICE_NAME: &'static str = "Nuimo";

/// Rotation points reported for one full turn of the dial.
pub const ROTATION_POINTS_PER_CYCLE: u32 = 2650;

/// Number of raw proximity steps of the hover sensor.
pub const HOVER_PROXIMITY_POINTS: u32 = 250;

/// Raw hover readings at or below this value mean "closest".
pub const HOVER_PROXIMITY_MIN_CLAMP: u32 = 2;

/// Steps cut off at the far end of the hover range.
pub const HOVER_PROXIMITY_MAX_CLAMP: u32 = 1;

/// Seconds allowed for a BLE connection attempt.
pub const CONNECT_TIMEOUT_SECS: u64 = 30;

/// Rows of the LED matrix.
pub const LED_ROWS: usize = 9;

/// Columns of the LED matrix.
pub const LED_COLS: usize = 9;

/// Bytes of the packed LED bitmap (81 pixel bits, rounded up).
pub const LED_BITMAP_BYTES: usize = 11;

/// Bit of the last bitmap byte that disables the cross-fade.
pub const LED_FADE_FLAG: u8 = 0x10;

} // verus!
