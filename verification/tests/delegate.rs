use homelink::hap::delegate::{
    all_service_chars, resolve_accessory_fields, resolve_model_delegates, CharIdentifier, ModelDelegateParam,
    ServiceChars,
};
use homelink::template::ApplyMethod;

fn services() -> Vec<ServiceChars> {
    vec![
        ServiceChars { tag: "light".to_string(), char_types: vec!["On".to_string(), "Brightness".to_string()] },
        ServiceChars { tag: "fan".to_string(), char_types: vec!["Active".to_string()] },
    ]
}

fn ids(v: &[CharIdentifier]) -> Vec<(String, String)> {
    v.iter().map(|c| (c.service_tag.clone(), c.char_type.clone())).collect()
}

#[test]
fn all_chars_in_service_order() {
    let all = all_service_chars(&services());
    assert_eq!(
        ids(&all),
        vec![
            ("light".to_string(), "On".to_string()),
            ("light".to_string(), "Brightness".to_string()),
            ("fan".to_string(), "Active".to_string()),
        ]
    );
}

#[test]
fn single_delegate_gets_all_chars() {
    let d = ModelDelegateParam { chars: None, model: "lamp".to_string(), params: 7u32 };
    let out = resolve_model_delegates(vec![], Some(d), &services()).unwrap();
    assert_eq!(out.len(), 1);
    assert_eq!(out[0].model, "lamp");
    assert_eq!(out[0].params, 7);
    assert_eq!(ids(out[0].chars.as_ref().unwrap()).len(), 3);
}

#[test]
fn first_of_several_must_name_chars() {
    let a = ModelDelegateParam { chars: None, model: "a".to_string(), params: () };
    let b = ModelDelegateParam { chars: None, model: "b".to_string(), params: () };
    assert_eq!(resolve_model_delegates(vec![a], Some(b), &services()).unwrap_err(), "hap_delegates chars is none");
}

#[test]
fn named_chars_are_kept() {
    let a = ModelDelegateParam {
        chars: Some(vec![CharIdentifier::new("fan".to_string(), "Active".to_string())]),
        model: "a".to_string(),
        params: 1,
    };
    let b = ModelDelegateParam { chars: None, model: "b".to_string(), params: 2 };
    let out = resolve_model_delegates(vec![a, b], None, &services()).unwrap();
    assert_eq!(ids(out[0].chars.as_ref().unwrap()), vec![("fan".to_string(), "Active".to_string())]);
    assert_eq!(ids(out[1].chars.as_ref().unwrap()).len(), 3);
    assert_eq!((out[0].params, out[1].params), (1, 2));
}

#[test]
fn no_delegates() {
    let out = resolve_model_delegates::<()>(vec![], None, &services()).unwrap();
    assert!(out.is_empty());
}

#[test]
fn accessory_fields() {
    let f = resolve_accessory_fields(ApplyMethod::Create, 99, None, Some("Lamp".to_string()), Some(5), Some(6), None)
        .unwrap();
    assert_eq!((f.aid, f.name.as_str(), f.device_id, f.bridge_id, f.disabled), (99, "Lamp", 5, 6, false));
    let f = resolve_accessory_fields(ApplyMethod::Update, 99, Some(3), Some("Lamp".to_string()), Some(5), Some(6), Some(true))
        .unwrap();
    assert_eq!((f.aid, f.disabled), (3, true));
    let e = |m, aid, n: Option<&str>, d, b| {
        resolve_accessory_fields(m, 1, aid, n.map(|x| x.to_string()), d, b, None).unwrap_err()
    };
    assert_eq!(e(ApplyMethod::Update, None, Some("x"), Some(1), Some(1)), "aid不能为空");
    assert_eq!(e(ApplyMethod::Create, None, None, Some(1), Some(1)), "name不能为空");
    assert_eq!(e(ApplyMethod::Create, None, Some("x"), None, Some(1)), "device_id不能为空");
    assert_eq!(e(ApplyMethod::Create, None, Some("x"), Some(1), None), "bridge_id不能为空");
}

fn ctx() -> homelink::template::AccessoryCtx {
    homelink::template::AccessoryCtx {
        aid: 11,
        bridge_id: 22,
        dev_ctx: homelink::template::DeviceModelCtx {
            device_id: 33,
            temp_batch_id: 1,
            name: "desk lamp".to_string(),
            id: "tmpl".to_string(),
            version: "1".to_string(),
            did: "d".to_string(),
        },
    }
}

#[test]
fn accessory_record_from_template() {
    let d = ModelDelegateParam { chars: None, model: "m".to_string(), params: 5u8 };
    let r = homelink::hap::delegate::to_accessory_model(
        &ctx(), None, "light".to_string(), 5, None, vec![], Some(d), &services(), 1000,
    )
    .unwrap();
    assert_eq!((r.aid, r.bridge_id, r.device_id), (11, 22, 33));
    assert_eq!(r.name, "desk lamp");
    assert_eq!(r.tag, Some("light".to_string()));
    assert!(!r.disabled);
    assert_eq!(r.temp_id, Some("tmpl".to_string()));
    assert_eq!((r.create_at, r.update_at), (Some(1000), 1000));
    assert_eq!(r.hap_model_delegates.len(), 1);
    assert_eq!(ids(r.hap_model_delegates[0].chars.as_ref().unwrap()).len(), 3);
    let named = homelink::hap::delegate::to_accessory_model::<u8>(
        &ctx(), Some("fan".to_string()), "fan".to_string(), 3, None, vec![], None, &services(), 5,
    )
    .unwrap();
    assert_eq!(named.name, "fan");
}

#[test]
fn accessory_record_into_model() {
    let r = homelink::hap::delegate::into_accessory_model::<u8>(
        ApplyMethod::Create, 9, 100, None, Some("a".to_string()), "t".to_string(), Some(1), Some(2), None, 3,
        None, Ok(vec![]),
    )
    .unwrap();
    assert_eq!((r.aid, r.create_at, r.update_at, r.temp_id.clone()), (9, Some(100), 100, None));
    assert!(!r.disabled);
    let u = homelink::hap::delegate::into_accessory_model::<u8>(
        ApplyMethod::Update, 9, 100, Some(4), Some("a".to_string()), "t".to_string(), Some(1), Some(2), Some(true),
        3, None, Ok(vec![]),
    )
    .unwrap();
    assert_eq!((u.aid, u.create_at, u.disabled), (4, None, true));
    let e = homelink::hap::delegate::into_accessory_model::<u8>(
        ApplyMethod::Create, 9, 100, None, None, "t".to_string(), Some(1), Some(2), None, 3, None,
        Err("bad delegate".to_string()),
    );
    assert_eq!(e.unwrap_err(), "bad delegate");
    let e = homelink::hap::delegate::into_accessory_model::<u8>(
        ApplyMethod::Create, 9, 100, None, None, "t".to_string(), Some(1), Some(2), None, 3, None, Ok(vec![]),
    );
    assert_eq!(e.unwrap_err(), "name不能为空");
}
