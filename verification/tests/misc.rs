use homelink::api::errors::ApiError;
use homelink::api::query::{parse_sort_order, text_filter_pattern, SortOrder};
use homelink::config::{get_data_dir, ServerConfig};
use homelink::db::ColumnEnumKey;
use homelink::graphql::{MutationDemo, QueryDemo};

#[test]
fn sort_orders() {
    assert_eq!(parse_sort_order("asc"), Ok(SortOrder::Asc));
    assert_eq!(parse_sort_order("ascend"), Ok(SortOrder::Asc));
    assert_eq!(parse_sort_order("desc"), Ok(SortOrder::Desc));
    assert_eq!(parse_sort_order("descend"), Ok(SortOrder::Desc));
    assert_eq!(parse_sort_order("ASC"), Err("order is not asc or desc"));
    assert_eq!(parse_sort_order(""), Err("order is not asc or desc"));
}

#[test]
fn text_filters() {
    assert_eq!(text_filter_pattern("lamp"), Some("%lamp%".to_string()));
    assert_eq!(text_filter_pattern(""), None);
}

#[test]
fn column_keys() {
    let k = ColumnEnumKey::new("iot_device", "device_type");
    assert_eq!((k.entity_name(), k.column_name()), ("iot_device", "device_type"));
    assert!(k == ColumnEnumKey::new("iot_device", "device_type"));
}

#[test]
fn demo_schema() {
    let u = QueryDemo.user("alice".to_string()).unwrap();
    assert_eq!((u.id, u.name.as_str()), (1, "alice"));
    assert!(MutationDemo.signup("a".to_string(), "b".to_string()));
    assert_eq!(MutationDemo.login("a".to_string(), "b".to_string()), "token");
}

#[test]
fn data_dir() {
    let c = ServerConfig { data_dir: "/var/lib/homelink".to_string() };
    assert_eq!(get_data_dir(&c), "/var/lib/homelink");
}

#[test]
fn error_conversions() {
    assert!(matches!(ApiError::from_anyhow(anyhow::Error::msg("设备不存在")), ApiError::Msg(m) if m == "设备不存在"));
    let io = std::io::Error::new(std::io::ErrorKind::Other, "disk");
    assert!(matches!(ApiError::from_io_error(io), ApiError::Msg(m) if m == "io error"));
}
