use homelink::ble::error::BleError;
use homelink::ble::value::{BleValue, BleValueType, ValueLsbI16};
use homelink::ble::xiaomi::{parse_xiaomi, Packet, XiaomiParser, XiaomiType};

#[test]
fn test_parse_xiaomi() -> Result<(), BleError> {
    //                  mac address      type  len  data
    // 70205b0446 (22b961bd7517) (09) (0610) (02) (ae01): a humidity frame
    let a = "70205b044622b961bd751709061002ae01";
    let data = hex::decode(a).unwrap();
    let mut index = 5;
    let packet = Packet::unpack(data.as_slice())?;
    if packet.ctrl.mac_include {
        index += 6;
    };

    if packet.ctrl.capability_include {
        index += 1;
        let capability_types = data[index - 1];
        if (capability_types & 0x20) != 0 {
            index += 1;
        }
    }

    let payload = &data[index..];
    let payload_start = 0;
    let obj_typecode = payload[payload_start] as u16 | ((payload[payload_start + 1] as u16) << 8);
    let obj_length = payload[payload_start + 2];
    let next_start = payload_start + 3 + obj_length as usize;
    let edata = &payload[payload_start + 3..next_start];
    let tp = BleValueType::try_from_code(obj_typecode).ok_or(BleError::BleValueTypeError(obj_typecode))?;
    let value = tp.unpack(edata)?;
    println!("type:{:?}.value:{:?}", tp, value);
    println!("payload len:{:?}", hex::encode(payload));
    println!("device_id{:?}", packet);
    assert_eq!(tp, BleValueType::Humidity);
    assert_eq!(value, BleValue::I16(430));
    println!("xiaomi_1");
    Ok(())
}

#[test]
fn packet_header_fields() {
    let data = hex::decode("70205b044622b961bd751709061002ae01").unwrap();
    let p = Packet::unpack(&data).unwrap();
    assert!(!p.ctrl.mesh);
    assert!(p.ctrl.mac_include);
    assert!(p.ctrl.capability_include);
    assert!(!p.ctrl.encrypted);
    assert_eq!(p.ctrl.version, 2);
    assert_eq!(p.ctrl.auth_mode, 0);
    assert_eq!(p.device_type, XiaomiType::LYWSD02);
    assert_eq!(p.packet_id, 0x46);
    assert_eq!(p.mac, [0x17, 0x75, 0xbd, 0x61, 0xb9, 0x22]);
    assert!(p.payload.is_empty());
}

#[test]
fn packet_header_bits() {
    // encrypted (bit 3) and mesh (bit 7) set, auth mode 3, version 5
    let data = [0x88, 0x5c, 0x5b, 0x04, 1, 1, 2, 3, 4, 5, 6];
    let p = Packet::unpack(&data).unwrap();
    assert!(p.ctrl.mesh);
    assert!(p.ctrl.encrypted);
    assert!(!p.ctrl.mac_include);
    assert!(!p.ctrl.capability_include);
    assert_eq!(p.ctrl.auth_mode, 3);
    assert_eq!(p.ctrl.version, 5);
    assert_eq!(p.mac, [6, 5, 4, 3, 2, 1]);
}

#[test]
fn unknown_device_is_refused() {
    let data = [0x70, 0x20, 0x34, 0x12, 0, 0, 0, 0, 0, 0, 0, 0, 0, 0];
    assert_eq!(Packet::unpack(&data).unwrap_err(), BleError::UnpackError(0x1234));
    assert_eq!(XiaomiParser::new().parse(&data).unwrap_err(), BleError::UnpackError(0x1234));
}

#[test]
fn parse_humidity_frame() {
    let data = hex::decode("70205b044622b961bd751709061002ae01").unwrap();
    let p = XiaomiParser::new().parse(&data).unwrap();
    assert_eq!(p.etype, 0x1006);
    assert_eq!(p.mac, [0x17, 0x75, 0xbd, 0x61, 0xb9, 0x22]);
    assert_eq!(p.edata, BleValue::I16(430));
}

#[test]
fn parse_mesh_frame_is_refused() {
    let data = hex::decode("f0205b044622b961bd751709061002ae01").unwrap();
    assert_eq!(XiaomiParser::new().parse(&data).unwrap_err(), BleError::NotSupported("mesh"));
}

#[test]
fn parse_frame_without_mac_and_capability() {
    // no MAC (bit 4 clear), no capability (bit 5 clear): the object starts at byte 5;
    // the MAC still comes from bytes 5..11
    let data = [0x40, 0x20, 0x5b, 0x04, 7, 0x04, 0x10, 0x02, 0xf6, 0xff, 0, 0];
    let p = XiaomiParser::new().parse(&data).unwrap();
    assert_eq!(p.etype, 0x1004);
    assert_eq!(p.edata, BleValue::I16(-10));
    assert_eq!(p.mac, [0, 0xff, 0xf6, 0x02, 0x10, 0x04]);
}

#[test]
fn parse_skips_extra_capability_byte() {
    // capability byte 0x20: one more byte is skipped before the object
    let data = hex::decode("70205b044622b961bd751720ee0a10014b").unwrap();
    let p = XiaomiParser::new().parse(&data).unwrap();
    assert_eq!(p.etype, 0x100a);
    assert_eq!(p.edata, BleValue::U8(0x4b));
}

#[test]
fn parse_unknown_object_type() {
    let data = hex::decode("70205b044622b961bd751709341202ae01").unwrap();
    assert_eq!(XiaomiParser::new().parse(&data).unwrap_err(), BleError::BleValueTypeError(0x1234));
}

#[test]
fn parse_wrong_object_length() {
    let data = hex::decode("70205b044622b961bd751709041003ae0100").unwrap();
    assert!(matches!(XiaomiParser::new().parse(&data).unwrap_err(), BleError::UnpackDataError(_)));
}

#[test]
fn unpack_values() {
    assert_eq!(BleValueType::Battery.unpack(&[100]).unwrap(), BleValue::U8(100));
    assert_eq!(BleValueType::Battery.unpack(&[100, 3]).unwrap(), BleValue::U8(100));
    assert_eq!(BleValueType::Temperature.unpack(&[0xe8, 0x00]).unwrap(), BleValue::I16(232));
    assert_eq!(BleValueType::Temperature.unpack(&[0x00, 0x80]).unwrap(), BleValue::I16(-32768));
    assert!(BleValueType::Humidity.unpack(&[1]).is_err());
    assert!(BleValueType::Humidity.unpack(&[1, 2, 3]).is_err());
    assert_eq!(ValueLsbI16::unpack(&[0xff, 0x7f]).value, 32767);
    assert_eq!(ValueLsbI16::unpack(&[0xff, 0xff]).value, -1);
}

#[test]
fn value_type_codes() {
    let all = [
        BleValueType::Action,
        BleValueType::Sleep,
        BleValueType::Temperature,
        BleValueType::Kettle,
        BleValueType::Humidity,
        BleValueType::Battery,
        BleValueType::ContactValue,
    ];
    for t in all {
        assert_eq!(BleValueType::try_from_code(t.code()), Some(t));
    }
    assert_eq!(BleValueType::try_from_code(0x1003), None);
    assert_eq!(XiaomiType::try_from_code(0x045B), Some(XiaomiType::LYWSD02));
    assert_eq!(XiaomiType::LYWSD02.code(), 0x045B);
    assert_eq!(XiaomiType::try_from_code(0x045C), None);
    parse_xiaomi();
}

#[test]
fn add_sums() {
    assert_eq!(homelink::add(2, 2), 4);
}
