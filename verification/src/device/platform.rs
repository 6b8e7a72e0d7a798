//! The platforms that devices come from.
use vstd::prelude::*;

verus! {

/// The platform a device comes from.
#[derive(Debug, Clone, Copy, PartialEq, Eq, Structural)]
pub enum SourcePlatform {
    /// The Mi Home (Mijia) ecosystem.
    Mijia,
    /// A BLE sensor read from the local adapter.
    BleNative,
}

/// The name under which a platform is stored.
pub open spec fn source_platform_name(p: SourcePlatform) -> Seq<char> {
    match p {
        SourcePlatform::Mijia => "mijia"@,
        SourcePlatform::BleNative => "ble-native"@,
    }
}

impl SourcePlatform {
    /// The name under which this platform is stored.
    pub fn as_ref(&self) -> (s: &'static str)
        ensures
            s@ == source_platform_name(*self),
    {
        match self {
            SourcePlatform::Mijia => "mijia",
            SourcePlatform::BleNative => "ble-native",
        }
    }
}

/// The error of a device that is asked for its local BLE side but has none.
#[derive(Debug)]
pub struct NotSupportNativeBleDeviceError;

impl NotSupportNativeBleDeviceError {
    /// The message that reports the error.
    pub fn message(&self) -> (m: &'static str)
        ensures
            m@ == "该设备不是蓝牙设备类型"@,
    {
        "该设备不是蓝牙设备类型"
    }
}

} // verus!
