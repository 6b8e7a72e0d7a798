use homelink::hap::bridge::{add_check, delete_check, to_model_result, HapBridgeModel};
use homelink::hap::switch_group::{ServiceKind, ServiceSlot, SwitchGroupAccessory};

#[test]
fn add_check_accepts_fresh_bridge() {
    assert_eq!(add_check(0, 0), Ok(()));
}

#[test]
fn add_check_reports_name_before_pin_code() {
    assert_eq!(add_check(1, 3), Err("该名称桥接器已存在"));
    assert_eq!(add_check(0, 2), Err("该pinCode桥接器已存在"));
}

#[test]
fn delete_check_needs_empty_bridge() {
    assert_eq!(delete_check(0), Ok(()));
    assert_eq!(delete_check(4), Err("请先删除桥接器下的配件"));
}

fn bridge(id: i64, not_paired: bool) -> HapBridgeModel {
    HapBridgeModel {
        bridge_id: id,
        name: "b".to_string(),
        pin_code: 29826556,
        category: 8,
        setup_id: "3QYT".to_string(),
        status_not_paired: not_paired,
        disabled: false,
    }
}

#[test]
fn bridge_report_holds_setup_uri() {
    let r = to_model_result(bridge(5, true), &vec![4, 5], Some(vec!["10.0.0.3:5000".to_string()]), &vec![5, 1, 5, 5]);
    assert_eq!(r.setup_uri, "X-HM://0081210CC3QYT");
    assert_eq!(r.model.bridge_id, 5);
    assert!(r.running);
    assert_eq!(r.accessory_count, 3);
    assert!(!r.is_paired);
    assert_eq!(r.peers, vec!["10.0.0.3:5000".to_string()]);
    let idle = to_model_result(bridge(6, false), &vec![4, 5], None, &vec![5]);
    assert!(!idle.running);
    assert_eq!(idle.accessory_count, 0);
    assert!(idle.is_paired);
    assert!(idle.peers.is_empty());
}

#[test]
fn switch_group_numbers_services_after_information() {
    let a = SwitchGroupAccessory::new(9, 6, 2);
    assert_eq!(a.get_id(), 9);
    assert_eq!(
        a.accessory_information,
        ServiceSlot { kind: ServiceKind::AccessoryInformation, id: 1, accessory_id: 9, primary: false, char_count: 6 }
    );
    assert_eq!(
        a.switch,
        vec![
            ServiceSlot { kind: ServiceKind::Switch, id: 8, accessory_id: 9, primary: true, char_count: 2 },
            ServiceSlot { kind: ServiceKind::Switch, id: 11, accessory_id: 9, primary: true, char_count: 2 },
        ]
    );
    let services = a.get_services();
    assert_eq!(services.len(), 3);
    assert_eq!(a.get_service(ServiceKind::Switch).map(|s| s.id), Some(8));
    assert_eq!(a.get_service(ServiceKind::AccessoryInformation).map(|s| s.id), Some(1));
}

#[test]
fn switch_group_mut_service_reaches_first_switch() {
    let mut a = SwitchGroupAccessory::new(2, 0, 1);
    if let Some(s) = a.get_mut_service(ServiceKind::Switch) {
        s.primary = false;
    }
    assert!(!a.switch[0].primary);
    assert!(a.switch[1].primary);
    a.set_id(5);
    assert_eq!(a.get_id(), 5);
}
