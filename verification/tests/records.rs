use homelink::api::errors::ApiError;
use homelink::api::params::MiConvertToIotParam;
use homelink::api::results::MiotDeviceResult;
use homelink::device::platform::SourcePlatform;
use homelink::device::records::{cloud_device_list, convert_to_iot_device, iot_device_record, source_lookup, sync_records};
use homelink::device::routing::MiotDeviceType;

fn param() -> MiConvertToIotParam {
    MiConvertToIotParam { did: "123".to_string(), name: "lamp".to_string(), integration: "x".to_string(), memo: None }
}

fn device(did: &str, online: Option<bool>) -> MiotDeviceResult {
    MiotDeviceResult {
        did: did.to_string(),
        token: "t".to_string(),
        name: "n".to_string(),
        model: "m".to_string(),
        localip: Some("10.0.0.2".to_string()),
        mac: None,
        is_online: online,
        full: Some("{}".to_string()),
    }
}

#[test]
fn record_of_converted_device() {
    let r = iot_device_record(&param(), "Wifi".to_string(), Some(9), 77);
    assert_eq!(r.device_id, 77);
    assert_eq!(r.device_type, "Wifi");
    assert_eq!(r.gateway_id, Some(9));
    assert_eq!(r.name, "lamp");
    assert_eq!(r.memo, None);
    assert!(!r.disabled);
    assert_eq!(r.source_platform, "mijia");
    assert_eq!(r.source_id, Some("123".to_string()));
}

#[test]
fn conversion_errors_and_success() {
    match convert_to_iot_device(&param(), None, "Wifi".to_string(), Ok(MiotDeviceType::Wifi), None, 1) {
        Err(ApiError::Msg(m)) => assert_eq!(m, "设备不存在"),
        _ => panic!(),
    }
    match convert_to_iot_device(&param(), Some(false), "Wifi".to_string(), Ok(MiotDeviceType::Wifi), None, 1) {
        Err(ApiError::StrMsg(m)) => assert_eq!(m, "该设备无ip"),
        _ => panic!(),
    }
    match convert_to_iot_device(&param(), Some(false), "Mesh".to_string(), Ok(MiotDeviceType::Mesh), None, 1) {
        Err(ApiError::StrMsg(m)) => assert_eq!(m, "网关id不能为空"),
        _ => panic!(),
    }
    let r = convert_to_iot_device(&param(), Some(true), "Cloud".to_string(), Ok(MiotDeviceType::Cloud), None, 5)
        .unwrap();
    assert_eq!(r.device_id, 5);
    assert_eq!(r.source_id, Some("123".to_string()));
}

#[test]
fn cloud_list_is_read_from_result_list() {
    let resp = "{\"code\":0,\"result\":{\"list\":[{\"did\":\"1\"},7]}}";
    assert_eq!(cloud_device_list(resp).unwrap(), vec!["{\"did\":\"1\"}".to_string(), "7".to_string()]);
    assert_eq!(cloud_device_list("{\"result\":{}}").unwrap_err(), "米家云返回数据格式错误");
    assert_eq!(cloud_device_list("{\"result\":{\"list\":3}}").unwrap_err(), "米家云返回数据格式错误");
    assert_eq!(cloud_device_list("[]").unwrap_err(), "米家云返回数据格式错误");
}

#[test]
fn sync_skips_unreadable_elements_and_counts_the_rest() {
    let elements = vec![
        ("{\"did\":\"1\"}".to_string(), Some(device("1", None))),
        ("7".to_string(), None),
        ("{\"did\":\"2\"}".to_string(), Some(device("2", Some(true)))),
    ];
    let (count, rows) = sync_records(&elements, "acc", &vec!["2".to_string()]);
    assert_eq!(count, 2);
    assert_eq!(rows.len(), 2);
    assert!(!rows[0].0.is_online);
    assert!(rows[1].0.is_online);
    assert_eq!(rows[0].0.user_id, "acc");
    assert_eq!(rows[0].0.full, "{\"did\":\"1\"}");
    assert!(rows[0].1);
    assert!(!rows[1].1);
}

#[test]
fn sync_twice_inserts_nothing_new() {
    let elements = vec![("{}".to_string(), Some(device("1", None)))];
    let (_, rows) = sync_records(&elements, "acc", &vec![]);
    let stored: Vec<String> = rows.iter().map(|r| r.0.did.clone()).collect();
    let (_, again) = sync_records(&elements, "acc", &stored);
    assert!(again.iter().all(|r| !r.1));
}

#[test]
fn source_is_looked_up_only_for_mi_home() {
    assert_eq!(source_lookup(SourcePlatform::Mijia, Some("d".to_string())), Some("d".to_string()));
    assert_eq!(source_lookup(SourcePlatform::Mijia, None), None);
    assert_eq!(source_lookup(SourcePlatform::BleNative, Some("d".to_string())), None);
}
