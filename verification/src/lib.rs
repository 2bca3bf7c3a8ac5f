//! Verified core of the Nuimo SDK: the LED glyph model and its wire
//! encoding, the decoding of the device's notification payloads, the
//! discovery filter, and the decisions of the MQTT bridge.
pub mod gatt;
pub mod glyph;
pub mod event;
pub mod glyphs;
pub mod registry;
pub mod error;
pub mod discovery;
pub mod text;
pub mod device;
pub mod config;
pub mod bridge;

pub use device::RotationMode;
pub use discovery::DiscoveredNuimo;
pub use error::NuimoError;
pub use event::NuimoEvent;
pub use glyph::{DisplayOptions, DisplayTransition, Glyph};
