use homelink::device::platform::SourcePlatform;
use homelink::template::{bridge_target, BridgeMode, BridgeTarget, TemplateManager};

#[test]
fn bridge_choice() {
    assert_eq!(bridge_target(BridgeMode::Parent, Some(42)), Ok(BridgeTarget::Existing(42)));
    assert_eq!(bridge_target(BridgeMode::Parent, None), Err("未设置桥接器"));
    assert_eq!(bridge_target(BridgeMode::Singer, Some(42)), Ok(BridgeTarget::CreateNew));
    assert_eq!(bridge_target(BridgeMode::Singer, None), Ok(BridgeTarget::CreateNew));
}

#[test]
fn template_lookup() {
    let mut m = TemplateManager::new();
    assert!(!m.has_template(SourcePlatform::Mijia, "yeelink.light.lamp22"));
    m.insert_template("lamp-template".to_string(), "yeelink.light.lamp22".to_string());
    m.insert_template("zhimi.fan.v3".to_string(), "zhimi.fan.v3".to_string());
    assert!(m.has_template(SourcePlatform::Mijia, "yeelink.light.lamp22"));
    assert!(m.has_template(SourcePlatform::Mijia, "zhimi.fan.v3"));
    assert!(m.has_template(SourcePlatform::Mijia, "lamp-template"));
    assert!(!m.has_template(SourcePlatform::Mijia, "other.model"));
    assert!(!m.has_template(SourcePlatform::BleNative, "zhimi.fan.v3"));
}
