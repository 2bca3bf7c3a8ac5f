//! Errors of the Nuimo SDK.
use vstd::prelude::*;

verus! {

/// `std::io::Error`, carried as it is by `NuimoError::Io`.
#[verifier::external_type_specification]
#[verifier::external_body]
pub struct ExIoError(std::io::Error);

/// Errors of the Nuimo SDK.
#[derive(Debug)]
pub enum NuimoError {
    /// The BLE stack reported an error (its message).
    Ble(String),
    /// Connecting did not finish within the given number of seconds.
    ConnectionTimeout(u64),
    /// The device is not connected.
    NotConnected,
    /// The device is not available.
    NotAvailable,
    /// A required characteristic was not discovered (its name).
    CharacteristicNotFound(String),
    /// An I/O error.
    Io(std::io::Error),
}

} // verus!
