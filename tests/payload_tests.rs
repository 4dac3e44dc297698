use gmgr::{
    event_selected, merge_settings, parse_pin_id, parse_socket_mode, parse_value_payload, parse_value_text, AppError,
    EdgeDetect, EdgeEvent, GpioCapability, PinSettings, SettingsPayload,
};

#[test]
fn value_payload_is_trimmed_and_parsed() {
    assert_eq!(parse_value_payload(b"1").unwrap(), 1);
    assert_eq!(parse_value_payload(b" 0\n").unwrap(), 0);
    assert_eq!(parse_value_payload(b"+7").unwrap(), 7);
    assert_eq!(parse_value_payload(b"255").unwrap(), 255);
}

#[test]
fn value_payload_errors() {
    for bad in [&b""[..], b"256", b"-1", b"x", b"+", b" ", &[0xff, 0xfe][..]] {
        assert!(matches!(parse_value_payload(bad), Err(AppError::InvalidValue(_))));
    }
}

#[test]
fn value_text_is_not_trimmed() {
    assert_eq!(parse_value_text("42").unwrap(), 42);
    assert!(parse_value_text(" 1").is_err());
    assert_eq!(parse_value_text("007").unwrap(), 7);
}

#[test]
fn pin_ids() {
    assert_eq!(parse_pin_id("42").unwrap(), 42);
    assert_eq!(parse_pin_id("4294967295").unwrap(), u32::MAX);
    assert!(matches!(parse_pin_id("4294967296"), Err(AppError::InvalidValue(_))));
    assert!(matches!(parse_pin_id(""), Err(AppError::InvalidValue(_))));
    assert!(matches!(parse_pin_id("1a"), Err(AppError::InvalidValue(_))));
}

#[test]
fn settings_merge_over_current() {
    let current = PinSettings { state: GpioCapability::PullUp, edge: EdgeDetect::Both, debounce_ms: 9 };
    let p = SettingsPayload { state: None, edge: Some(EdgeDetect::Rising), debounce_ms: None };
    let m = merge_settings(&p, current);
    assert_eq!(m, PinSettings { state: GpioCapability::PullUp, edge: EdgeDetect::Rising, debounce_ms: 9 });
    let p = SettingsPayload { state: Some(GpioCapability::PushPull), edge: None, debounce_ms: Some(0) };
    let m = merge_settings(&p, PinSettings::default());
    assert_eq!(m.state, GpioCapability::PushPull);
    assert_eq!(m.edge, EdgeDetect::NoEdge);
    assert_eq!(m.debounce_ms, 0);
}

#[test]
fn subscriber_filter() {
    let e = EdgeEvent { pin_id: 5, edge: EdgeDetect::Rising, timestamp_ms: 0 };
    assert!(event_selected(None, &e));
    assert!(event_selected(Some(5), &e));
    assert!(!event_selected(Some(6), &e));
}

#[test]
fn socket_modes_in_octal() {
    assert_eq!(parse_socket_mode("0o660").unwrap(), 0o660);
    assert_eq!(parse_socket_mode("0660").unwrap(), 0o660);
    assert_eq!(parse_socket_mode("660").unwrap(), 0o660);
    assert_eq!(parse_socket_mode("7777").unwrap(), 0o7777);
    for bad in ["", "0o", "680", "17777", "0x660", "rw"] {
        assert!(matches!(parse_socket_mode(bad), Err(AppError::Config(_))));
    }
}

#[test]
fn value_payload_trims_unicode_white_space() {
    assert_eq!(parse_value_payload("\u{3000}1\u{a0}\t".as_bytes()).unwrap(), 1);
    assert_eq!(parse_value_payload("\u{2028}0\u{85}".as_bytes()).unwrap(), 0);
    assert!(parse_value_payload("\u{200b}1".as_bytes()).is_err());
}
