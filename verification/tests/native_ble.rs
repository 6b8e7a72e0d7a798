use homelink::ble::native::NativeBleDevice;

#[test]
fn reports_only_changes() {
    let mac = [23, 117, 189, 97, 185, 34];
    let mut dev = NativeBleDevice::new(mac, 1);
    assert_eq!(dev.mac(), mac);
    let first = dev.on_ble_data(mac, 0x1006, &vec![0xae, 0x01]).unwrap();
    assert_eq!((first.etype, first.edata), (0x1006, vec![0xae, 0x01]));
    assert!(dev.on_ble_data(mac, 0x1006, &vec![0xae, 0x01]).is_none());
    let changed = dev.on_ble_data(mac, 0x1006, &vec![0xaf, 0x01]).unwrap();
    assert_eq!(changed.edata, vec![0xaf, 0x01]);
    let other_type = dev.on_ble_data(mac, 0x1004, &vec![0xaf, 0x01]).unwrap();
    assert_eq!(other_type.etype, 0x1004);
    assert_eq!(dev.last_value(0x1006), Some(vec![0xaf, 0x01]));
    assert_eq!(dev.last_value(0x1004), Some(vec![0xaf, 0x01]));
    assert_eq!(dev.last_value(0x1001), None);
}

#[test]
fn ignores_other_devices() {
    let mut dev = NativeBleDevice::new([1, 2, 3, 4, 5, 6], 7);
    assert!(dev.on_ble_data([1, 2, 3, 4, 5, 7], 0x1006, &vec![1]).is_none());
    assert_eq!(dev.last_value(0x1006), None);
}

#[test]
fn native_device_reports_placeholder_info() {
    let dev = NativeBleDevice::new([23, 117, 189, 97, 185, 34], 1);
    let info = dev.get_hap_info();
    assert_eq!(info.manufacturer, "未知");
    assert_eq!(info.model, "");
    assert_eq!(info.serial_number, "xxx");
    assert_eq!(info.software_revision, None);
    assert_eq!(info.firmware_revision, None);
}
