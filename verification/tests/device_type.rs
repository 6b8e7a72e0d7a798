use homelink::api::device_type::DeviceType;

#[test]
fn values_roundtrip() {
    for t in [DeviceType::Normal, DeviceType::Gateway, DeviceType::Child] {
        assert_eq!(DeviceType::try_from_value(&t.to_value()).unwrap(), t);
    }
    assert_eq!(DeviceType::Normal.to_value(), 1);
    assert_eq!(DeviceType::Gateway.to_value(), 2);
    assert_eq!(DeviceType::Child.to_value(), 3);
    assert!(DeviceType::try_from_value(&0).is_err());
    assert!(DeviceType::try_from_value(&4).is_err());
}

#[test]
fn iterate_forward() {
    let mut it = DeviceType::iter();
    assert_eq!(it.len(), 3);
    assert_eq!(it.size_hint(), (3, Some(3)));
    assert_eq!(it.next(), Some(DeviceType::Normal));
    assert_eq!(it.next(), Some(DeviceType::Gateway));
    assert_eq!(it.next(), Some(DeviceType::Child));
    assert_eq!(it.next(), None);
    assert_eq!(it.next(), None);
    assert_eq!(it.len(), 0);
}

#[test]
fn iterate_from_both_ends() {
    let mut it = DeviceType::iter();
    assert_eq!(it.next_back(), Some(DeviceType::Child));
    assert_eq!(it.next(), Some(DeviceType::Normal));
    assert_eq!(it.len(), 1);
    let copy = it.clone();
    assert_eq!(it.next_back(), Some(DeviceType::Gateway));
    assert_eq!(it.next(), None);
    assert_eq!(it.next_back(), None);
    assert_eq!(copy.len(), 1);
}

#[test]
fn nth_skips() {
    let mut it = DeviceType::iter();
    assert_eq!(it.nth(1), Some(DeviceType::Gateway));
    assert_eq!(it.nth(0), Some(DeviceType::Child));
    let mut it = DeviceType::iter();
    assert_eq!(it.nth(3), None);
    assert_eq!(it.next_back(), None);
    let it = DeviceType::iter();
    assert_eq!(it.get(0), Some(DeviceType::Normal));
    assert_eq!(it.get(2), Some(DeviceType::Child));
    assert_eq!(it.get(3), None);
}

#[test]
fn unknown_value_error_text() {
    match DeviceType::try_from_value(&-12) {
        Err(sea_orm::DbErr::Type(m)) => assert_eq!(m, "unexpected value for DeviceType enum: -12"),
        _ => panic!(),
    }
    match DeviceType::try_from_value(&407) {
        Err(sea_orm::DbErr::Type(m)) => assert_eq!(m, "unexpected value for DeviceType enum: 407"),
        _ => panic!(),
    }
}
