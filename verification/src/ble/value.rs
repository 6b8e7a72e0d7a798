//! Typed values carried in the object part of a Xiaomi BLE advertisement.
use vstd::prelude::*;

use crate::ble::error::BleError;

verus! {

/// A decoded sensor reading.
#[derive(Debug, Clone, PartialEq, Eq, Structural)]
pub enum BleValue {
    U8(u8),
    I16(i16),
}

/// Object type of a Xiaomi BLE payload, identified on the air by a 16-bit code.
#[derive(Debug, Copy, Clone, PartialEq, Eq, Structural)]
pub enum BleValueType {
    Action,
    Sleep,
    Temperature,
    Kettle,
    Humidity,
    Battery,
    ContactValue,
}

/// The 16-bit object code of each value type.
pub open spec fn value_type_code(t: BleValueType) -> u16 {
    match t {
        BleValueType::Action => 0x1001,
        BleValueType::Sleep => 0x1002,
        BleValueType::Temperature => 0x1004,
        BleValueType::Kettle => 0x1005,
        BleValueType::Humidity => 0x1006,
        BleValueType::Battery => 0x100a,
        BleValueType::ContactValue => 3,
    }
}

/// The value type whose code is `code`, if there is one.
pub open spec fn value_type_of_code(code: u16) -> Option<BleValueType> {
    if code == 0x1001 {
        Some(BleValueType::Action)
    } else if code == 0x1002 {
        Some(BleValueType::Sleep)
    } else if code == 0x1004 {
        Some(BleValueType::Temperature)
    } else if code == 0x1005 {
        Some(BleValueType::Kettle)
    } else if code == 0x1006 {
        Some(BleValueType::Humidity)
    } else if code == 0x100a {
        Some(BleValueType::Battery)
    } else if code == 3 {
        Some(BleValueType::ContactValue)
    } else {
        None
    }
}

/// Each value type is found again from its code, and a code names a value type only
/// when it is that type's code.
pub proof fn lemma_value_type_code_roundtrip(t: BleValueType, code: u16)
    ensures
        value_type_of_code(value_type_code(t)) == Some(t),
        value_type_of_code(code) matches Some(u) ==> value_type_code(u) == code,
{
}

/// The signed 16-bit integer stored least significant byte first in `lo`, `hi`.
pub open spec fn lsb_i16_value(lo: u8, hi: u8) -> int {
    let raw = lo + 256 * hi;
    if raw < 32768 {
        raw
    } else {
        raw - 65536
    }
}

/// What unpacking `edata` as a value of type `t` gives.
pub open spec fn unpack_spec(t: BleValueType, edata: Seq<u8>) -> Result<BleValue, BleError> {
    match t {
        BleValueType::Battery => Ok(BleValue::U8(edata[0])),
        _ => if edata.len() == 2 {
            Ok(BleValue::I16(lsb_i16_value(edata[0], edata[1]) as i16))
        } else {
            Err(BleError::UnpackDataError(unpack_data_error_text()))
        },
    }
}

/// How object data reads: a battery level is its first byte; any other value is a
/// signed 16-bit integer stored low byte first in exactly two bytes (so bytes
/// `ae 01` read as 430 and `ff ff` as -1), and other lengths are refused.
pub proof fn lemma_value_encoding(t: BleValueType, edata: Seq<u8>)
    ensures
        t == BleValueType::Battery ==> unpack_spec(t, edata) == Ok::<BleValue, BleError>(
            BleValue::U8(edata[0]),
        ),
        t != BleValueType::Battery && edata.len() == 2 ==> (unpack_spec(t, edata) matches Ok(
            BleValue::I16(v),
        ) && v as int == edata[0] + 256 * edata[1] - (if edata[1] >= 128 {
            65536int
        } else {
            0int
        })),
        t != BleValueType::Battery && edata.len() != 2 ==> unpack_spec(t, edata) is Err,
{
}

/// The text carried by the error for a value that is not two bytes long.
pub open spec fn unpack_data_error_text() -> &'static str {
    "数据转换错误:{e}"
}

impl BleValueType {
    /// The 16-bit object code of this type.
    pub fn code(&self) -> (code: u16)
        ensures
            code == value_type_code(*self),
    {
        match self {
            BleValueType::Action => 0x1001,
            BleValueType::Sleep => 0x1002,
            BleValueType::Temperature => 0x1004,
            BleValueType::Kettle => 0x1005,
            BleValueType::Humidity => 0x1006,
            BleValueType::Battery => 0x100a,
            BleValueType::ContactValue => 3,
        }
    }

    /// The value type whose object code is `code`; `None` for a code that names no type.
    pub fn try_from_code(code: u16) -> (t: Option<BleValueType>)
        ensures
            t == value_type_of_code(code),
            t matches Some(v) ==> value_type_code(v) == code,
    {
        if code == 0x1001 {
            Some(BleValueType::Action)
        } else if code == 0x1002 {
            Some(BleValueType::Sleep)
        } else if code == 0x1004 {
            Some(BleValueType::Temperature)
        } else if code == 0x1005 {
            Some(BleValueType::Kettle)
        } else if code == 0x1006 {
            Some(BleValueType::Humidity)
        } else if code == 0x100a {
            Some(BleValueType::Battery)
        } else if code == 3 {
            Some(BleValueType::ContactValue)
        } else {
            None
        }
    }

    /// Decodes the object data of a payload of this type: a battery level is its first
    /// byte; every other type is a little-endian `i16` and must be exactly two bytes long.
    pub fn unpack(&self, edata: &[u8]) -> (res: Result<BleValue, BleError>)
        requires
            *self == BleValueType::Battery ==> edata@.len() >= 1,
        ensures
            res == unpack_spec(*self, edata@),
    {
        match self {
            BleValueType::Battery => Ok(BleValue::U8(edata[0])),
            _ => {
                if edata.len() != 2 {
                    return Err(BleError::UnpackDataError("数据转换错误:{e}"));
                }
                let bytes: [u8; 2] = [edata[0], edata[1]];
                let v = ValueLsbI16::unpack(&bytes);
                Ok(BleValue::I16(v.value))
            },
        }
    }
}

/// A signed 16-bit value stored least significant byte first.
#[derive(Debug, Clone)]
pub struct ValueLsbI16 {
    pub value: i16,
}

impl ValueLsbI16 {
    /// Reads the value from its two bytes, least significant first.
    pub fn unpack(bytes: &[u8; 2]) -> (v: ValueLsbI16)
        ensures
            v.value as int == lsb_i16_value(bytes[0], bytes[1]),
    {
        let raw: u32 = bytes[0] as u32 + 256 * (bytes[1] as u32);
        let value: i16 = if raw < 32768 {
            raw as i16
        } else {
            (raw as i32 - 65536) as i16
        };
        ValueLsbI16 { value }
    }
}

} // verus!
