//! The errors of discovery and of a session.
use vstd::prelude::*;

use crate::height::DecodeError;

verus! {

/// Why discovering the desk, or an operation on it, failed.
#[derive(Debug, Clone, Copy, PartialEq, Eq, Structural)]
pub enum DeskError {
    /// No Bluetooth adapter is present on the host.
    AdapterUnavailable,
    /// No scanned peripheral advertises a name containing "Desk".
    DeviceNotFound,
    /// The connection to the desk was refused or timed out.
    ConnectionFailed,
    /// The peripheral lacks the control or the status characteristic.
    CharacteristicMissing,
    /// A write or read on a bound characteristic failed.
    TransportIo,
    /// The status payload could not be decoded.
    Decode(DecodeError),
}

} // verus!
