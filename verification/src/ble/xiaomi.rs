//! Xiaomi BLE service-data frames ("MiBeacon"): frame header and object payload.
use vstd::prelude::*;

use crate::ble::error::BleError;
use crate::ble::value::{
    unpack_spec, value_type_code, value_type_of_code, BleValue, BleValueType,
};

verus! {

/// Xiaomi device models that advertise service data.
#[derive(Debug, Copy, Clone, PartialEq, Eq, Structural)]
pub enum XiaomiType {
    /// E-ink temperature and humidity sensor.
    LYWSD02,
}

/// The 16-bit device id of each model.
pub open spec fn xiaomi_type_code(t: XiaomiType) -> u16 {
    match t {
        XiaomiType::LYWSD02 => 0x045B,
    }
}

/// The model whose device id is `code`, if there is one.
pub open spec fn xiaomi_type_of_code(code: u16) -> Option<XiaomiType> {
    if code == 0x045B {
        Some(XiaomiType::LYWSD02)
    } else {
        None
    }
}

/// Each model is found again from its device id, and an id names a model only when
/// it is that model's id.
pub proof fn lemma_xiaomi_type_code_roundtrip(t: XiaomiType, code: u16)
    ensures
        xiaomi_type_of_code(xiaomi_type_code(t)) == Some(t),
        xiaomi_type_of_code(code) matches Some(u) ==> xiaomi_type_code(u) == code,
{
}

impl XiaomiType {
    /// The 16-bit device id of this model.
    pub fn code(&self) -> (code: u16)
        ensures
            code == xiaomi_type_code(*self),
    {
        match self {
            XiaomiType::LYWSD02 => 0x045B,
        }
    }

    /// The model whose device id is `code`; `None` for an unknown id.
    pub fn try_from_code(code: u16) -> (t: Option<XiaomiType>)
        ensures
            t == xiaomi_type_of_code(code),
    {
        if code == 0x045B {
            Some(XiaomiType::LYWSD02)
        } else {
            None
        }
    }
}

/// Placeholder entry point kept for the parser module; it does nothing.
pub fn parse_xiaomi() {
}

/// The frame-control flags of a frame.
#[derive(Debug, Clone, PartialEq, Eq, Structural)]
pub struct Ctrl {
    pub mesh: bool,
    pub version: u16,
    pub auth_mode: u16,
    pub encrypted: bool,
    pub mac_include: bool,
    pub capability_include: bool,
}

/// The decoded header of a frame.
#[derive(Debug)]
pub struct Packet {
    pub ctrl: Ctrl,
    /// Device model.
    pub device_type: XiaomiType,
    /// Frame counter.
    pub packet_id: u8,
    /// Device MAC address, most significant byte first.
    pub mac: [u8; 6],
    pub payload: Vec<u8>,
}

/// A decoded object of a service-data frame.
#[derive(Debug, Clone)]
pub struct ServiceDataPacket {
    /// Object type code.
    pub etype: u16,
    /// Device MAC address, most significant byte first.
    pub mac: [u8; 6],
    /// Decoded object value.
    pub edata: BleValue,
}

/// The little-endian 16-bit number at positions `i`, `i + 1`.
pub open spec fn le_u16_at(data: Seq<u8>, i: int) -> int {
    data[i] + 256 * data[i + 1]
}

/// The frame-control flags that the first two bytes of a frame encode
/// (bit 3 encrypted, bit 4 MAC present, bit 5 capability present, bit 7 mesh,
/// bits 10-11 authentication mode, bits 12-15 version).
pub open spec fn ctrl_spec(data: Seq<u8>) -> Ctrl {
    Ctrl {
        mesh: data[0] & 0x80 != 0,
        version: (data[1] >> 4u8) as u16,
        auth_mode: ((data[1] >> 2u8) & 3) as u16,
        encrypted: data[0] & 0x08 != 0,
        mac_include: data[0] & 0x10 != 0,
        capability_include: data[0] & 0x20 != 0,
    }
}

/// The device id of a frame.
pub open spec fn device_id_spec(data: Seq<u8>) -> u16 {
    le_u16_at(data, 2) as u16
}

/// The MAC address of a frame: bytes 5 to 10 in reverse order.
pub open spec fn mac_spec(data: Seq<u8>) -> Seq<u8> {
    Seq::new(6, |i: int| data[10 - i])
}

/// Position right after the MAC address field (or where it would stand).
pub open spec fn after_mac(data: Seq<u8>) -> int {
    if ctrl_spec(data).mac_include {
        11
    } else {
        5
    }
}

/// Position of the first object of the frame.
pub open spec fn payload_start(data: Seq<u8>) -> int {
    if ctrl_spec(data).capability_include {
        after_mac(data) + 1 + (if data[after_mac(data)] & 0x20 != 0 {
            1int
        } else {
            0int
        })
    } else {
        after_mac(data)
    }
}

/// Object type code of the first object.
pub open spec fn object_code(data: Seq<u8>) -> u16 {
    le_u16_at(data, payload_start(data)) as u16
}

/// Declared data length of the first object.
pub open spec fn object_len(data: Seq<u8>) -> int {
    data[payload_start(data) + 2] as int
}

/// Data bytes of the first object.
pub open spec fn object_data(data: Seq<u8>) -> Seq<u8> {
    data.subrange(payload_start(data) + 3, payload_start(data) + 3 + object_len(data))
}

/// The outcome of reading a frame header.
pub open spec fn packet_failure(data: Seq<u8>) -> Option<BleError> {
    if xiaomi_type_of_code(device_id_spec(data)) is None {
        Some(BleError::UnpackError(device_id_spec(data)))
    } else {
        None
    }
}

/// The frame is long enough for every byte that parsing reads: the header, and,
/// for a frame of a known non-mesh device, the capability byte, the object header
/// and the object data (and at least one byte for a battery level).
pub open spec fn frame_in_bounds(data: Seq<u8>) -> bool {
    &&& data.len() >= 11
    &&& (packet_failure(data) is None && !ctrl_spec(data).mesh) ==> {
        &&& ctrl_spec(data).capability_include ==> after_mac(data) < data.len()
        &&& payload_start(data) + 3 <= data.len()
        &&& payload_start(data) + 3 + object_len(data) <= data.len()
        &&& object_code(data) == value_type_code(BleValueType::Battery) ==> object_len(data) >= 1
    }
}

/// Why a frame is refused, or `None` when it decodes.
pub open spec fn parse_failure(data: Seq<u8>) -> Option<BleError> {
    if packet_failure(data) is Some {
        packet_failure(data)
    } else if ctrl_spec(data).mesh {
        Some(BleError::NotSupported("mesh"))
    } else if value_type_of_code(object_code(data)) is None {
        Some(BleError::BleValueTypeError(object_code(data)))
    } else {
        match unpack_spec(value_type_of_code(object_code(data)).unwrap(), object_data(data)) {
            Err(e) => Some(e),
            Ok(_) => None,
        }
    }
}

/// The value of the first object of a frame that decodes.
pub open spec fn parse_value(data: Seq<u8>) -> BleValue {
    unpack_spec(value_type_of_code(object_code(data)).unwrap(), object_data(data)).unwrap()
}

proof fn lemma_le_u16(lo: u8, hi: u8)
    ensures
        ((lo as u16) | ((hi as u16) << 8u16)) as int == lo + 256 * hi,
{
    assert(((lo as u16) | ((hi as u16) << 8u16)) == (lo as u16) + 256 * (hi as u16)) by (bit_vector);
}

proof fn lemma_ctrl_bits(lo: u8, hi: u8)
    ensures
        ({
            let fr = (lo as u16) | ((hi as u16) << 8u16);
            &&& ((fr >> 7u16) & 1 == 1) == (lo & 0x80 != 0)
            &&& ((fr >> 3u16) & 1 == 1) == (lo & 0x08 != 0)
            &&& ((fr >> 4u16) & 1 == 1) == (lo & 0x10 != 0)
            &&& ((fr >> 5u16) & 1 == 1) == (lo & 0x20 != 0)
            &&& fr >> 12u16 == (hi >> 4u8) as u16
            &&& (fr >> 10u16) & 3 == ((hi >> 2u8) & 3) as u16
        }),
{
    assert({
        let fr = (lo as u16) | ((hi as u16) << 8u16);
        &&& ((fr >> 7u16) & 1 == 1) == (lo & 0x80 != 0)
        &&& ((fr >> 3u16) & 1 == 1) == (lo & 0x08 != 0)
        &&& ((fr >> 4u16) & 1 == 1) == (lo & 0x10 != 0)
        &&& ((fr >> 5u16) & 1 == 1) == (lo & 0x20 != 0)
        &&& fr >> 12u16 == (hi >> 4u8) as u16
        &&& (fr >> 10u16) & 3 == ((hi >> 2u8) & 3) as u16
    }) by (bit_vector);
}

/// Whether a frame is long enough for every byte that parsing it reads (see
/// `frame_in_bounds`); parsing a shorter frame would read past its end.
pub fn frame_is_in_bounds(data: &[u8]) -> (b: bool)
    ensures
        b == frame_in_bounds(data@),
{
    let len = data.len();
    if len < 11 {
        return false;
    }
    let device_id: u16 = data[2] as u16 | (data[3] as u16) << 8;
    proof {
        lemma_le_u16(data@[2], data@[3]);
        lemma_ctrl_bits(data@[0], data@[1]);
    }
    if XiaomiType::try_from_code(device_id).is_none() || data[0] & 0x80 != 0 {
        return true;
    }
    let mut index: usize = if data[0] & 0x10 != 0 {
        11
    } else {
        5
    };
    if data[0] & 0x20 != 0 {
        if index >= len {
            return false;
        }
        index = index + 1 + if data[index] & 0x20 != 0 {
            1
        } else {
            0
        };
    }
    assert(index == payload_start(data@));
    if index + 3 > len {
        return false;
    }
    let etype: u16 = data[index] as u16 | (data[index + 1] as u16) << 8;
    proof {
        lemma_le_u16(data@[index as int], data@[index + 1]);
    }
    let obj_len = data[index + 2] as usize;
    if index + 3 + obj_len > len {
        return false;
    }
    if etype == 0x100a && obj_len < 1 {
        return false;
    }
    true
}

impl Packet {
    /// Reads the header of a frame: frame control, device id, frame counter and MAC
    /// address. Fails with `UnpackError` when the device id names no known model.
    pub fn unpack(data: &[u8]) -> (res: Result<Packet, BleError>)
        requires
            data@.len() >= 11,
        ensures
            res is Err <==> packet_failure(data@) is Some,
            res matches Err(e) ==> packet_failure(data@) == Some(e),
            res matches Ok(p) ==> {
                &&& p.ctrl == ctrl_spec(data@)
                &&& xiaomi_type_code(p.device_type) == device_id_spec(data@)
                &&& p.packet_id == data@[4]
                &&& p.mac@ == mac_spec(data@)
                &&& p.payload@.len() == 0
            },
    {
        let fr_ctrl: u16 = data[0] as u16 | (data[1] as u16) << 8;
        proof {
            lemma_ctrl_bits(data@[0], data@[1]);
        }
        let ctrl = Ctrl {
            mesh: (fr_ctrl >> 7) & 1 == 1,
            version: fr_ctrl >> 12,
            auth_mode: (fr_ctrl >> 10) & 3,
            encrypted: fr_ctrl >> 3 & 1 == 1,
            mac_include: fr_ctrl >> 4 & 1 == 1,
            capability_include: ((fr_ctrl >> 5) & 1) == 1,
        };
        let device_id: u16 = data[2] as u16 | (data[3] as u16) << 8;
        proof {
            lemma_le_u16(data@[2], data@[3]);
        }
        let packet_id = data[4];
        let mac: [u8; 6] = [data[10], data[9], data[8], data[7], data[6], data[5]];
        assert(mac@ =~= mac_spec(data@));
        let device_type = match XiaomiType::try_from_code(device_id) {
            Some(t) => t,
            None => {
                return Err(BleError::UnpackError(device_id));
            },
        };
        Ok(Packet { ctrl, device_type, packet_id, mac, payload: Vec::new() })
    }
}

/// Where the first object of a frame stands, read from the frame-control bits
/// alone: after the 5 header bytes, after the 6 MAC bytes when bit 4 of the first
/// byte is set, and after the capability byte (and one byte more when that byte
/// has bit 5 set) only when bit 5 of the first byte is set. So a frame with the MAC
/// flag and no capability flag has its object type in bytes 11-12, and one with
/// neither flag in bytes 5-6.
pub proof fn lemma_first_object_position(data: Seq<u8>)
    requires
        data.len() >= 11,
        data[0] & 0x20 != 0 ==> (if data[0] & 0x10 != 0 { 11int } else { 5int }) < data.len(),
    ensures
        ({
            let mac_end: int = if data[0] & 0x10 != 0 { 11 } else { 5 };
            let start: int = if data[0] & 0x20 != 0 {
                mac_end + 1 + (if data[mac_end] & 0x20 != 0 { 1int } else { 0int })
            } else {
                mac_end
            };
            &&& payload_start(data) == start
            &&& object_code(data) == (data[start] + 256 * data[start + 1]) as u16
            &&& object_len(data) == data[start + 2]
            &&& object_data(data) == data.subrange(start + 3, start + 3 + data[start + 2])
        }),
        data[0] & 0x10 != 0 && data[0] & 0x20 == 0 ==> object_code(data) == (data[11] + 256
            * data[12]) as u16,
        data[0] & 0x10 == 0 && data[0] & 0x20 == 0 ==> object_code(data) == (data[5] + 256
            * data[6]) as u16,
        mac_spec(data) == seq![data[10], data[9], data[8], data[7], data[6], data[5]],
        device_id_spec(data) == (data[2] + 256 * data[3]) as u16,
        packet_failure(data) is None && data[0] & 0x80 != 0 ==> parse_failure(data) == Some(
            BleError::NotSupported("mesh"),
        ),
{
    assert(mac_spec(data) =~= seq![data[10], data[9], data[8], data[7], data[6], data[5]]);
}

/// Decoder of Xiaomi service-data frames.
pub struct XiaomiParser;

impl XiaomiParser {
    /// A decoder.
    pub fn new() -> (p: XiaomiParser) {
        XiaomiParser
    }

    /// Decodes the first object of a frame. A mesh frame is refused; the MAC address
    /// and the capability byte (plus one more byte when its bit 5 is set) are skipped
    /// when the frame control announces them; the object is a 16-bit little-endian
    /// type code, a length byte and that many data bytes.
    pub fn parse(&self, data: &[u8]) -> (res: Result<ServiceDataPacket, BleError>)
        requires
            frame_in_bounds(data@),
        ensures
            res is Err <==> parse_failure(data@) is Some,
            res matches Err(e) ==> parse_failure(data@) == Some(e),
            res matches Ok(p) ==> {
                &&& p.etype == object_code(data@)
                &&& p.mac@ == mac_spec(data@)
                &&& p.edata == parse_value(data@)
            },
    {
        let mut index: usize = 5;
        let packet = match Packet::unpack(data) {
            Ok(p) => p,
            Err(e) => {
                return Err(e);
            },
        };
        if packet.ctrl.mesh {
            return Err(BleError::NotSupported("mesh"));
        }
        if packet.ctrl.mac_include {
            index += 6;
        }
        if packet.ctrl.capability_include {
            index += 1;
            let capability_types = data[index - 1];
            if (capability_types & 0x20) != 0 {
                index += 1;
            }
        }
        assert(index == payload_start(data@));
        let payload = &data[index..data.len()];
        let payload_start: usize = 0;
        let etype: u16 = payload[payload_start] as u16 | ((payload[payload_start + 1] as u16) << 8);
        proof {
            lemma_le_u16(payload@[0], payload@[1]);
        }
        let obj_length = payload[payload_start + 2];
        let next_start = payload_start + 3 + obj_length as usize;
        let edata = &payload[payload_start + 3..next_start];
        assert(edata@ =~= object_data(data@));
        let tp = match BleValueType::try_from_code(etype) {
            Some(t) => t,
            None => {
                return Err(BleError::BleValueTypeError(etype));
            },
        };
        let value = match tp.unpack(edata) {
            Ok(v) => v,
            Err(e) => {
                return Err(e);
            },
        };
        Ok(ServiceDataPacket { etype, mac: packet.mac, edata: value })
    }
}

} // verus!
