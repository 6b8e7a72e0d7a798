use homelink::hap::accessory::{
    check_ids, first_service_id, missing_required_characteristic, next_service_id, IdConflict, ServiceIds,
};

fn svc(sid: u64, cids: &[u64]) -> ServiceIds {
    ServiceIds { sid, cids: cids.to_vec() }
}

#[test]
fn distinct_ids_pass() {
    assert_eq!(check_ids(&vec![svc(1, &[2, 3, 4]), svc(8, &[9, 10])]), Ok(()));
    assert_eq!(check_ids(&vec![]), Ok(()));
}

#[test]
fn repeated_service_id() {
    assert_eq!(check_ids(&vec![svc(1, &[2, 3]), svc(3, &[9])]), Err(IdConflict::Service(3)));
}

#[test]
fn repeated_characteristic_id() {
    assert_eq!(check_ids(&vec![svc(1, &[2, 3]), svc(8, &[9, 2])]), Err(IdConflict::Characteristic(2)));
    assert_eq!(check_ids(&vec![svc(1, &[2, 2])]), Err(IdConflict::Characteristic(2)));
    assert_eq!(check_ids(&vec![svc(1, &[1])]), Err(IdConflict::Characteristic(1)));
}

#[test]
fn first_repeat_is_reported() {
    assert_eq!(check_ids(&vec![svc(1, &[5, 1]), svc(5, &[])]), Err(IdConflict::Characteristic(1)));
}

#[test]
fn required_characteristics() {
    let s = |v: &[&str]| v.iter().map(|x| x.to_string()).collect::<Vec<String>>();
    assert_eq!(missing_required_characteristic(&s(&["On"]), &s(&["Name", "On"])), None);
    assert_eq!(missing_required_characteristic(&s(&["On", "Brightness"]), &s(&["On"])), Some(1));
    assert_eq!(missing_required_characteristic(&s(&["Hue"]), &s(&[])), Some(0));
    assert_eq!(missing_required_characteristic(&s(&[]), &s(&[])), None);
}

#[test]
fn service_numbering() {
    assert_eq!(first_service_id(&vec![2, 3, 4, 5, 6, 7]), 8);
    assert_eq!(first_service_id(&vec![]), 1);
    assert_eq!(next_service_id(8, 3), 12);
}

#[test]
fn conflict_messages_name_the_accessory() {
    assert_eq!(IdConflict::Service(12).message("lamp"), "配件:lamp,服务id:12重复");
    assert_eq!(IdConflict::Characteristic(0).message("fan"), "配件:fan,特征id:0重复");
    assert_eq!(IdConflict::Characteristic(1234567890).message("x"), "配件:x,特征id:1234567890重复");
}
