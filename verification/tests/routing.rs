use homelink::api::device_type::DeviceType;
use homelink::device::routing::{start_order, DeviceStartInfo};
use homelink::device::ble_manager::Status;
use homelink::device::platform::{NotSupportNativeBleDeviceError, SourcePlatform};
use homelink::device::routing::{
    check_mi_device_start, child_route, convert_device_param, no_gateway_route, DeviceParam, DeviceStartRoute,
    MiDeviceStartError, MiotDeviceType,
};

#[test]
fn convert_params() {
    assert_eq!(convert_device_param(MiotDeviceType::Wifi, true, false), Ok(DeviceParam::WifiDeviceParam));
    assert_eq!(convert_device_param(MiotDeviceType::Wifi, false, true), Err("该设备无ip"));
    assert_eq!(convert_device_param(MiotDeviceType::MqttGateway, true, false), Ok(DeviceParam::MiGatewayParam));
    assert_eq!(convert_device_param(MiotDeviceType::MqttGateway, false, false), Err("该设备无ip"));
    assert_eq!(convert_device_param(MiotDeviceType::Mesh, false, true), Ok(DeviceParam::MeshParam));
    assert_eq!(convert_device_param(MiotDeviceType::Mesh, true, false), Err("网关id不能为空"));
    assert_eq!(convert_device_param(MiotDeviceType::Cloud, false, false), Ok(DeviceParam::MiCloudParam));
    assert_eq!(convert_device_param(MiotDeviceType::Ble, true, true), Err("暂不支持该设备类型"));
}

#[test]
fn start_routes() {
    assert_eq!(no_gateway_route("mijia"), Ok(DeviceStartRoute::Mijia));
    assert_eq!(no_gateway_route("ble-native"), Ok(DeviceStartRoute::NativeBle));
    assert_eq!(no_gateway_route("zigbee"), Err("暂不支持:zigbee类型设备接入".to_string()));
    assert_eq!(child_route("mijia"), Ok(DeviceStartRoute::Mijia));
    assert_eq!(child_route("ble-native"), Err("暂不支持:ble-native设备网关接入".to_string()));
    assert_eq!(no_gateway_route(SourcePlatform::BleNative.as_ref()), Ok(DeviceStartRoute::NativeBle));
    assert_eq!(SourcePlatform::Mijia.as_ref(), "mijia");
}

#[test]
fn mi_device_start() {
    assert_eq!(check_mi_device_start(MiotDeviceType::Ble, true), Ok(()));
    assert_eq!(check_mi_device_start(MiotDeviceType::Mesh, true), Ok(()));
    assert_eq!(
        check_mi_device_start(MiotDeviceType::Wifi, true),
        Err(MiDeviceStartError::NotAChildType(MiotDeviceType::Wifi))
    );
    assert_eq!(check_mi_device_start(MiotDeviceType::Cloud, false), Ok(()));
    assert_eq!(check_mi_device_start(MiotDeviceType::MqttGateway, false), Ok(()));
    assert_eq!(check_mi_device_start(MiotDeviceType::Ble, false), Err(MiDeviceStartError::NeedsGateway));
}

#[test]
fn adapter_status() {
    assert_eq!(Status::initial(), Status::EmptyAdapter);
    assert_eq!(Status::after_start(false, true), Status::Off);
    assert_eq!(Status::after_start(true, false), Status::EmptyAdapter);
    assert_eq!(Status::after_start(true, true), Status::On);
}

#[test]
fn not_native_ble_error_message() {
    assert_eq!(NotSupportNativeBleDeviceError.message(), "该设备不是蓝牙设备类型");
}

fn info(device_id: i64, disabled: bool, device_type: DeviceType) -> DeviceStartInfo {
    DeviceStartInfo { device_id, disabled, device_type }
}

#[test]
fn devices_start_before_gateway_children() {
    let devs = vec![
        info(1, false, DeviceType::Child),
        info(2, false, DeviceType::Normal),
        info(3, true, DeviceType::Gateway),
        info(4, false, DeviceType::Gateway),
        info(5, false, DeviceType::Child),
    ];
    assert_eq!(start_order(&devs, None), vec![1, 3, 0, 4]);
    assert_eq!(start_order(&devs, Some(&vec![5, 2])), vec![1, 4]);
    assert!(start_order(&devs, Some(&vec![])).is_empty());
}
