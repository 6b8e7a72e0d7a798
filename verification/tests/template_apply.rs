use homelink::hap::delegate::ServiceChars;
use homelink::template::BridgeMode;
use homelink::template_apply::{apply_mihome_template, check_template_add, template_rows, AccessoryShape, DeviceShape};

fn template() -> Vec<DeviceShape> {
    vec![DeviceShape {
        tag: "dev".to_string(),
        accessories: vec![AccessoryShape {
            tag: "lamp".to_string(),
            services: vec![ServiceChars {
                tag: "light".to_string(),
                char_types: vec!["On".to_string(), "Brightness".to_string()],
            }],
            delegate_count: 1,
            first_delegate_has_chars: false,
        }],
    }]
}

fn known() -> Vec<String> {
    vec!["On".to_string(), "Brightness".to_string()]
}

fn s(v: &[&str]) -> Vec<String> {
    v.iter().map(|x| x.to_string()).collect()
}

#[test]
fn rows_in_write_order() {
    assert_eq!(
        template_rows(&template()),
        vec![
            s(&["dev"]),
            s(&["dev", "lamp"]),
            s(&["dev", "lamp", "light"]),
            s(&["dev", "lamp", "light", "On"]),
            s(&["dev", "lamp", "light", "Brightness"]),
        ]
    );
}

#[test]
fn missing_template_or_bridge() {
    assert_eq!(apply_mihome_template(None, BridgeMode::Parent, Some(1), &vec![], &known()).unwrap_err(), "模板不存在");
    let t = template();
    assert_eq!(apply_mihome_template(Some(&t), BridgeMode::Parent, None, &vec![], &known()).unwrap_err(), "未设置桥接器");
    let no_acc = vec![DeviceShape { tag: "dev".to_string(), accessories: vec![] }];
    let plan = apply_mihome_template(Some(&no_acc), BridgeMode::Parent, None, &vec![], &known()).unwrap();
    assert_eq!(plan.rows.len(), 1);
}

#[test]
fn first_application_inserts_second_only_updates() {
    let t = template();
    let first = apply_mihome_template(Some(&t), BridgeMode::Parent, Some(7), &vec![s(&["dev"])], &known()).unwrap();
    assert_eq!(first.rows.len(), 5);
    assert!(!first.rows[0].1);
    assert!(first.rows[1..].iter().all(|r| r.1));
    assert_eq!(first.new_bridges, 0);
    let mut stored = vec![s(&["dev"])];
    stored.extend(first.rows.iter().map(|r| r.0.clone()));
    let second = apply_mihome_template(Some(&t), BridgeMode::Parent, Some(7), &stored, &known()).unwrap();
    assert!(second.rows.iter().all(|r| !r.1));
}

#[test]
fn singer_mode_creates_a_bridge_per_accessory() {
    let t = template();
    let plan = apply_mihome_template(Some(&t), BridgeMode::Singer, None, &vec![], &known()).unwrap();
    assert_eq!(plan.new_bridges, 1);
}

#[test]
fn check_template_add_lists_devices_and_accessories() {
    let mut t = template();
    t.push(DeviceShape {
        tag: "dev2".to_string(),
        accessories: vec![AccessoryShape {
            tag: "fan".to_string(),
            services: vec![],
            delegate_count: 0,
            first_delegate_has_chars: false,
        }],
    });
    let r = check_template_add(t);
    assert_eq!(r.new_devices.len(), 2);
    let tags: Vec<&str> = r.new_accessories.iter().map(|a| a.tag.as_str()).collect();
    assert_eq!(tags, vec!["lamp", "fan"]);
    assert_eq!(r.new_accessories[0].services[0].char_types, vec!["On".to_string(), "Brightness".to_string()]);
}

#[test]
fn faults_stop_the_application() {
    let mut t = template();
    t[0].accessories[0].services[0].char_types.push("Hue".to_string());
    assert_eq!(
        apply_mihome_template(Some(&t), BridgeMode::Parent, Some(1), &vec![], &known()).unwrap_err(),
        "未找到hap默认信息"
    );
    let mut t = template();
    t[0].accessories[0].delegate_count = 2;
    assert_eq!(
        apply_mihome_template(Some(&t), BridgeMode::Singer, None, &vec![], &known()).unwrap_err(),
        "hap_delegates chars is none"
    );
    t[0].accessories[0].first_delegate_has_chars = true;
    assert!(apply_mihome_template(Some(&t), BridgeMode::Singer, None, &vec![], &known()).is_ok());
}
