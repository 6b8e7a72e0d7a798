use homelink::hap::characteristic::{set_default_for_cts, CharacteristicDefaults, CharacteristicSettings};

fn blank(value: i64) -> CharacteristicSettings<String, i64, u8> {
    CharacteristicSettings {
        unit: None,
        max_len: None,
        max_value: None,
        min_value: None,
        step_value: None,
        valid_values: None,
        perms: vec![1],
        value,
    }
}

fn defaults() -> CharacteristicDefaults<String, i64, u8> {
    CharacteristicDefaults {
        unit: Some("percentage".to_string()),
        max_len: Some(64),
        max_value: Some(100),
        min_value: Some(0),
        step_value: Some(1),
        valid_values: None,
        perms: vec![2, 3],
    }
}

#[test]
fn defaults_fill_unset_settings_and_start_at_min() {
    let mut cts = blank(42);
    set_default_for_cts(&mut cts, Some(defaults()));
    assert_eq!(cts.unit, Some("percentage".to_string()));
    assert_eq!(cts.max_len, Some(64));
    assert_eq!(cts.max_value, Some(100));
    assert_eq!(cts.min_value, Some(0));
    assert_eq!(cts.step_value, Some(1));
    assert_eq!(cts.valid_values, None);
    assert_eq!(cts.perms, vec![2, 3]);
    assert_eq!(cts.value, 0);
}

#[test]
fn settings_already_set_are_kept_but_perms_replaced() {
    let mut cts = blank(42);
    cts.unit = Some("celsius".to_string());
    cts.max_value = Some(50);
    cts.min_value = Some(10);
    set_default_for_cts(&mut cts, Some(defaults()));
    assert_eq!(cts.unit, Some("celsius".to_string()));
    assert_eq!(cts.max_value, Some(50));
    assert_eq!(cts.min_value, Some(10));
    assert_eq!(cts.max_len, Some(64));
    assert_eq!(cts.perms, vec![2, 3]);
    assert_eq!(cts.value, 10);
}

#[test]
fn first_valid_value_when_no_minimum() {
    let mut cts = blank(42);
    let mut d = defaults();
    d.min_value = None;
    d.valid_values = Some(vec![7, 8, 9]);
    set_default_for_cts(&mut cts, Some(d));
    assert_eq!(cts.valid_values, Some(vec![7, 8, 9]));
    assert_eq!(cts.value, 7);
}

#[test]
fn empty_valid_values_keep_value() {
    let mut cts = blank(42);
    let mut d = defaults();
    d.min_value = None;
    d.valid_values = Some(vec![]);
    set_default_for_cts(&mut cts, Some(d));
    assert_eq!(cts.value, 42);
}

#[test]
fn no_defaults_leave_settings_unchanged() {
    let mut cts = blank(42);
    cts.min_value = Some(5);
    set_default_for_cts(&mut cts, None);
    assert_eq!(cts.unit, None);
    assert_eq!(cts.perms, vec![1]);
    assert_eq!(cts.min_value, Some(5));
    assert_eq!(cts.value, 5);
}
