use homelink::api::power::{
    conditions_from_json, filter_conditions, json_to_db_value, order_by, ColumnInfo, ColumnKind, DbValue,
    FilterCond, JsonScalar, JsonTop, PowerQueryParam,
};
use homelink::api::query::SortOrder;

fn columns() -> Vec<ColumnInfo> {
    vec![
        ColumnInfo { name: "name".to_string(), kind: ColumnKind::String, enum_values: None },
        ColumnInfo {
            name: "device_type".to_string(),
            kind: ColumnKind::Integer,
            enum_values: Some(vec![("Normal".to_string(), 1), ("Gateway".to_string(), 2)]),
        },
        ColumnInfo { name: "disabled".to_string(), kind: ColumnKind::Boolean, enum_values: None },
        ColumnInfo { name: "bridge_id".to_string(), kind: ColumnKind::BigInteger, enum_values: None },
    ]
}

#[test]
fn missing_or_empty_filter_has_no_conditions() {
    assert!(matches!(filter_conditions(None, &columns()), Some(Ok(v)) if v.all.is_empty() && v.any.is_none() && v.every.is_empty()));
    assert!(matches!(filter_conditions(Some(""), &columns()), Some(Ok(v)) if v.all.is_empty()));
    assert!(matches!(filter_conditions(Some("{}"), &columns()), Some(Ok(v)) if v.all.is_empty() && v.any.is_none()));
}

#[test]
fn filter_builds_like_and_equality_conditions() {
    let r = filter_conditions(
        Some("{\"name\":\"lamp\",\"device_type\":\"Gateway\",\"disabled\":true,\"bridge_id\":\"42\"}"),
        &columns(),
    )
    .unwrap()
    .unwrap()
    .all;
    // entries are walked in key order
    assert_eq!(r.len(), 4);
    assert!(matches!(&r[0], FilterCond::Eq(3, DbValue::BigInt(42))));
    assert!(matches!(&r[1], FilterCond::Eq(1, DbValue::Int(2))));
    assert!(matches!(&r[2], FilterCond::Eq(2, DbValue::Bool(true))));
    assert!(matches!(&r[3], FilterCond::Like(0, p) if p == "%lamp%"));
}

#[test]
fn filter_errors() {
    assert_eq!(filter_conditions(Some("[1]"), &columns()).unwrap().unwrap_err(), "filter is not a json object");
    assert_eq!(filter_conditions(Some("3"), &columns()).unwrap().unwrap_err(), "filter is not a json object");
    assert_eq!(filter_conditions(Some("{\"size\":1}"), &columns()).unwrap().unwrap_err(), "column size not found");
    assert_eq!(
        filter_conditions(Some("{\"name\":5}"), &columns()).unwrap().unwrap_err(),
        "column name value is not string"
    );
    assert_eq!(
        filter_conditions(Some("{\"disabled\":\"yes\"}"), &columns()).unwrap().unwrap_err(),
        "数据转化失败,column:disabled"
    );
    assert!(filter_conditions(Some("{not json"), &columns()).unwrap().is_err());
    // an integer column given a JSON integer is where the query stops
    assert!(filter_conditions(Some("{\"device_type\":1}"), &columns()).is_none());
}

#[test]
fn empty_text_filter_and_object_values_add_nothing() {
    let r = filter_conditions(Some("{\"name\":\"\",\"bridge_id\":{\"a\":1}}"), &columns()).unwrap().unwrap();
    assert!(r.all.is_empty());
}

#[test]
fn json_values_convert_by_column_kind() {
    let cols = columns();
    assert!(matches!(json_to_db_value(&cols[1], JsonScalar::Str("Normal".to_string())), Ok(DbValue::Int(1))));
    assert_eq!(
        json_to_db_value(&cols[1], JsonScalar::Str("Child".to_string())).unwrap_err(),
        "unknown variant `Child`"
    );
    assert!(matches!(json_to_db_value(&cols[3], JsonScalar::Str("-7".to_string())), Ok(DbValue::BigInt(-7))));
    assert_eq!(
        json_to_db_value(&cols[3], JsonScalar::Str("x".to_string())).unwrap_err(),
        "column:bridge_id,值:x,转换成i64错误:invalid digit found in string"
    );
    assert!(matches!(json_to_db_value(&cols[0], JsonScalar::Number(None, Some(u64::MAX))), Ok(DbValue::BigUnsigned(u64::MAX))));
    assert!(matches!(json_to_db_value(&cols[0], JsonScalar::Number(None, None)), Ok(DbValue::FloatAsGiven)));
    assert!(matches!(json_to_db_value(&cols[0], JsonScalar::Object("{}".to_string())), Ok(DbValue::Json(s)) if s == "{}"));
    assert_eq!(json_to_db_value(&cols[3], JsonScalar::Null).unwrap_err(), "数据转化失败,column:bridge_id");
    assert_eq!(json_to_db_value(&cols[1], JsonScalar::Bool(true)).unwrap_err(), "Integer 数据转化失败,column:device_type");
}

#[test]
fn conditions_need_an_object() {
    assert_eq!(conditions_from_json(JsonTop::Other, &columns()).unwrap().unwrap_err(), "filter is not a json object");
}

#[test]
fn sort_keys() {
    let cols = columns();
    assert!(order_by(None, &cols).unwrap().is_empty());
    assert!(order_by(Some(""), &cols).unwrap().is_empty());
    assert_eq!(
        order_by(Some("{\"name\":\"descend\",\"bridge_id\":\"asc\"}"), &cols).unwrap(),
        vec![(3, SortOrder::Asc), (0, SortOrder::Desc)]
    );
    assert_eq!(order_by(Some("3"), &cols).unwrap_err(), "sort is not a json object");
    assert_eq!(order_by(Some("{\"x\":\"asc\"}"), &cols).unwrap_err(), "column x not found");
    assert_eq!(order_by(Some("{\"name\":1}"), &cols).unwrap_err(), "order is not a string");
    assert_eq!(order_by(Some("{\"name\":\"up\"}"), &cols).unwrap_err(), "order is not asc or desc");
}

#[test]
fn query_param_reads_filter_and_sort() {

    let q = PowerQueryParam {
        page_no: Some(1),
        page_size: Some(10),
        filter: Some("{\"disabled\":false}".to_string()),
        sort: Some("{\"name\":\"asc\"}".to_string()),
    };
    let conds = q.get_condition(&columns()).unwrap().unwrap().all;
    assert!(matches!(&conds[0], FilterCond::Eq(2, DbValue::Bool(false))));
    assert_eq!(q.get_order_by(&columns()).unwrap(), vec![(0, SortOrder::Asc)]);
}

#[test]
fn array_filter_gives_one_group_per_object() {
    let r = filter_conditions(Some("[{\"name\":\"a\"},{\"disabled\":true}]"), &columns()).unwrap().unwrap();
    assert!(r.all.is_empty());
    assert!(r.any.is_none());
    assert_eq!(r.every.len(), 2);
    assert!(matches!(&r.every[0][0], FilterCond::Like(0, p) if p == "%a%"));
    assert!(matches!(&r.every[1][0], FilterCond::Eq(2, DbValue::Bool(true))));
}

#[test]
fn or_filter_gives_alternative_groups() {
    let r = filter_conditions(
        Some("{\"disabled\":false,\"or\":[{\"name\":\"a\"},{\"name\":\"b\"}]}"),
        &columns(),
    )
    .unwrap()
    .unwrap();
    assert_eq!(r.all.len(), 1);
    assert!(matches!(&r.all[0], FilterCond::Eq(2, DbValue::Bool(false))));
    let any = r.any.unwrap();
    assert_eq!(any.len(), 2);
    assert!(matches!(&any[0][0], FilterCond::Like(0, p) if p == "%a%"));
    assert!(matches!(&any[1][0], FilterCond::Like(0, p) if p == "%b%"));
    assert!(r.every.is_empty());
}

#[test]
fn array_filter_members_must_be_objects() {
    assert_eq!(filter_conditions(Some("[{\"name\":\"a\"},2]"), &columns()).unwrap().unwrap_err(), "filter is not a json object");
    assert_eq!(
        filter_conditions(Some("{\"or\":[{\"size\":1}]}"), &columns()).unwrap().unwrap_err(),
        "column size not found"
    );
    assert!(filter_conditions(Some("[{\"device_type\":2}]"), &columns()).is_none());
}

#[test]
fn sort_array_is_refused() {
    assert_eq!(order_by(Some("[]"), &columns()).unwrap_err(), "sort is not a json object");
}
