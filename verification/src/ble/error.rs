//! Errors of BLE advertisement decoding.
use vstd::prelude::*;

verus! {

/// Why a BLE advertisement could not be decoded.
#[derive(Debug, Clone, PartialEq, Eq)]
pub enum BleError {
    /// The frame names a device id that is no known Xiaomi device type.
    UnpackError(u16),
    /// The payload carries an object code that is no known value type.
    BleValueTypeError(u16),
    /// The object data does not have the shape its type needs.
    UnpackDataError(&'static str),
    /// The frame uses a feature that is not handled.
    NotSupported(&'static str),
    /// The advertisement comes from a platform that is not handled.
    NotSupportedPlatform(u16),
}

} // verus!
