//! Decisions of a Nuimo device handle that do not touch the radio: what it
//! remembers of the events it forwards, and what a display write sends.
use vstd::prelude::*;
use crate::error::NuimoError;
use crate::event::NuimoEvent;
use crate::glyph::{is_display_payload, DisplayOptions, DisplayTransition, Glyph};

verus! {

broadcast use vstd::string::group_string_axioms;

/// Rotation mode for the dial.
#[derive(Debug, Clone, Copy, PartialEq, Eq, Structural)]
pub enum RotationMode {
    /// Rotation clamped between min and max values.
    Clamped,
    /// Continuous rotation with unbounded delta.
    Continuous,
}

/// Name reported when the LED matrix characteristic is missing.
pub const LED_MATRIX_NAME: &'static str = "LED Matrix";

/// The last battery level and RSSI seen among the forwarded events.
#[derive(Debug, Clone, Copy, PartialEq, Eq, Structural)]
pub struct EventCache {
    pub battery: Option<u8>,
    pub rssi: Option<i16>,
}

/// The cache after seeing an event: a battery report replaces the battery
/// level, an RSSI report the RSSI; other events change nothing.
pub open spec fn observed(c: EventCache, event: NuimoEvent) -> EventCache {
    match event {
        NuimoEvent::BatteryLevel(level) => EventCache { battery: Some(level), ..c },
        NuimoEvent::Rssi(v) => EventCache { rssi: Some(v), ..c },
        _ => c,
    }
}

/// The cache after seeing a sequence of events, in order.
pub open spec fn observed_all(c: EventCache, events: Seq<NuimoEvent>) -> EventCache
    decreases events.len(),
{
    if events.len() == 0 {
        c
    } else {
        observed(observed_all(c, events.drop_last()), events.last())
    }
}

/// The level of the last battery report among `events`.
pub open spec fn last_battery_report(events: Seq<NuimoEvent>) -> Option<u8>
    decreases events.len(),
{
    if events.len() == 0 {
        None
    } else {
        match events.last() {
            NuimoEvent::BatteryLevel(level) => Some(level),
            _ => last_battery_report(events.drop_last()),
        }
    }
}

/// The RSSI of the last RSSI report among `events`.
pub open spec fn last_rssi_report(events: Seq<NuimoEvent>) -> Option<i16>
    decreases events.len(),
{
    if events.len() == 0 {
        None
    } else {
        match events.last() {
            NuimoEvent::Rssi(v) => Some(v),
            _ => last_rssi_report(events.drop_last()),
        }
    }
}

impl EventCache {
    /// Nothing seen yet.
    pub fn new() -> (c: Self)
        ensures
            c.battery is None,
            c.rssi is None,
    {
        EventCache { battery: None, rssi: None }
    }

    /// Remember the battery level or RSSI an event carries; other events
    /// leave the cache as it was.
    pub fn observe(&mut self, event: &NuimoEvent)
        ensures
            *final(self) == observed(*old(self), *event),
    {
        match *event {
            NuimoEvent::BatteryLevel(level) => {
                self.battery = Some(level);
            },
            NuimoEvent::Rssi(v) => {
                self.rssi = Some(v);
            },
            _ => {},
        }
    }

    /// Current battery level (0-100), if one was reported.
    pub fn battery_level(&self) -> (level: Option<u8>)
        ensures
            level == self.battery,
    {
        self.battery
    }
}

/// The bytes a display write sends to a connected device: the glyph's
/// display payload; `NotConnected` when there is no connection.
pub fn display_payload(connected: bool, glyph: &Glyph, opts: &DisplayOptions) -> (payload: Result<
    Vec<u8>,
    NuimoError,
>)
    ensures
        !connected ==> payload matches Err(NuimoError::NotConnected),
        connected ==> (payload matches Ok(bytes) && is_display_payload(bytes@, glyph@, *opts)),
{
    if !connected {
        return Err(NuimoError::NotConnected);
    }
    Ok(glyph.to_display_bytes(opts))
}

/// Whether the LED matrix characteristic can be written: an error naming
/// it when it was not discovered.
pub fn led_matrix_target(found: bool) -> (r: Result<(), NuimoError>)
    ensures
        found <==> r is Ok,
        r matches Err(e) ==> e matches NuimoError::CharacteristicNotFound(name) && name@
            == LED_MATRIX_NAME@,
{
    if found {
        Ok(())
    } else {
        Err(NuimoError::CharacteristicNotFound(String::from_str(LED_MATRIX_NAME)))
    }
}

/// Options that clear the display: dark, no timeout, cross-fade.
pub fn clear_display_options() -> (opts: DisplayOptions)
    ensures
        opts.brightness == 0,
        opts.timeout_ms == 0,
        opts.transition == DisplayTransition::CrossFade,
{
    DisplayOptions { brightness: 0, timeout_ms: 0, transition: DisplayTransition::CrossFade }
}

/// The battery level a device reports is the one of the last battery
/// event it forwarded (and what it knew before, if there was none); the
/// same holds of the RSSI.
pub proof fn law_cache_keeps_last_report(c: EventCache, events: Seq<NuimoEvent>)
    ensures
        observed_all(c, events).battery == match last_battery_report(events) {
            Some(level) => Some(level),
            None => c.battery,
        },
        observed_all(c, events).rssi == match last_rssi_report(events) {
            Some(v) => Some(v),
            None => c.rssi,
        },
    decreases events.len(),
{
    if events.len() > 0 {
        law_cache_keeps_last_report(c, events.drop_last());
    }
}

} // verus!
