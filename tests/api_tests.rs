use gmgr::{
    AppConfig, AppError, EdgeDetect, GpioBackend, GpioCapability, GpioManager, HttpConfig,
    MockGpioBackend, PinConfig, PinSettings,
};

fn pin(name: &str, chip: &str, line: u32, caps: Vec<GpioCapability>) -> PinConfig {
    PinConfig { name: name.to_string(), chip: chip.to_string(), line, capabilities: caps }
}

fn sample_config() -> AppConfig {
    AppConfig {
        http: HttpConfig {
            unix_socket: None,
            unix_socket_mode: None,
            host: Some("localhost".to_string()),
            path: "/api/v1".to_string(),
            timeout: 30,
        },
        gpios: vec![
            (1, pin("LED 1", "/dev/gpiochip0", 2, vec![GpioCapability::PushPull])),
            (
                2,
                pin(
                    "BUTTON 1",
                    "/dev/gpiochip0",
                    3,
                    vec![GpioCapability::Floating, GpioCapability::PullUp, GpioCapability::PullDown],
                ),
            ),
            (
                42,
                pin(
                    "General IO 1",
                    "/dev/gpiochip1",
                    5,
                    vec![
                        GpioCapability::PushPull,
                        GpioCapability::OpenDrain,
                        GpioCapability::OpenSource,
                        GpioCapability::Floating,
                        GpioCapability::PullUp,
                        GpioCapability::PullDown,
                    ],
                ),
            ),
        ],
        broadcast_capacity: 16,
        event_history_capacity: 32,
    }
}

fn manager() -> GpioManager<MockGpioBackend> {
    GpioManager::new(sample_config(), MockGpioBackend::default())
}

fn settings(state: GpioCapability) -> PinSettings {
    PinSettings { state, edge: EdgeDetect::NoEdge, debounce_ms: 0 }
}

#[test]
fn list_gpios_returns_all() {
    let m = manager();
    let pins = m.list_pins();
    assert_eq!(pins.len(), 3);
    let (_, one) = pins.iter().find(|(id, _)| *id == 1).expect("pin 1 listed");
    assert_eq!(one.settings.state, GpioCapability::Disabled);
    assert_eq!(one.info.name, "LED 1");
    assert_eq!(one.info.chip, "/dev/gpiochip0");
    assert_eq!(one.info.line, 2);
    assert!(pins.iter().any(|(id, _)| *id == 42));
}

#[test]
fn pin_not_found_returns_404() {
    let m = manager();
    let err = m.get_pin_info(999).unwrap_err();
    assert!(matches!(err, AppError::NotFoundPin(_)));
    assert_eq!(err.status_code(), 404);
}

#[test]
fn set_state_and_value_happy_path() {
    let mut m = manager();
    assert!(m.set_pin_settings(1, &settings(GpioCapability::PushPull)).is_ok());
    assert!(m.write_value(1, 1).is_ok());
    assert_eq!(m.read_value(1).unwrap(), 1);
}

#[test]
fn reject_value_when_not_output() {
    let mut m = manager();
    let err = m.write_value(2, 1).unwrap_err();
    assert!(matches!(err, AppError::InvalidState(_)));
    assert_eq!(err.status_code(), 400);
}

#[test]
fn get_pin_info_happy_path() {
    let m = manager();
    let info = m.get_pin_info(1).unwrap();
    assert_eq!(info.name, "LED 1");
    assert_eq!(info.chip, "/dev/gpiochip0");
    assert_eq!(info.line, 2);
}

#[test]
fn get_pin_info_alias_happy_path() {
    let m = manager();
    let d = m.get_pin_descriptor(1).unwrap();
    assert_eq!(d.settings.state, GpioCapability::Disabled);
    assert_eq!(d.info.name, "LED 1");
    assert_eq!(d.info.chip, "/dev/gpiochip0");
    assert_eq!(d.info.line, 2);
}

#[test]
fn get_state_happy_path() {
    let mut m = manager();
    assert_eq!(m.get_pin_settings(1).unwrap().state, GpioCapability::Disabled);
    m.set_pin_settings(1, &settings(GpioCapability::PushPull)).unwrap();
    assert_eq!(m.get_pin_settings(1).unwrap().state, GpioCapability::PushPull);
}

#[test]
fn disabling_resets_settings_and_refuses_io() {
    let mut m = manager();
    m.set_pin_settings(42, &settings(GpioCapability::PushPull)).unwrap();
    m.write_value(42, 1).unwrap();
    m.set_pin_settings(42, &settings(GpioCapability::Disabled)).unwrap();
    let s = m.get_pin_settings(42).unwrap();
    assert_eq!(s, PinSettings::default());
    assert!(matches!(m.read_value(42), Err(AppError::InvalidState(_))));
    assert!(matches!(m.write_value(42, 1), Err(AppError::InvalidState(_))));
}

#[test]
fn unconfigured_pins_list_default_settings() {
    let m = manager();
    for (_, d) in m.list_pins() {
        assert_eq!(d.settings, PinSettings::default());
    }
}

#[test]
fn write_then_read_round_trip_both_levels() {
    let mut m = manager();
    m.set_pin_settings(42, &settings(GpioCapability::OpenDrain)).unwrap();
    m.write_value(42, 1).unwrap();
    assert_eq!(m.read_value(42).unwrap(), 1);
    m.write_value(42, 0).unwrap();
    assert_eq!(m.read_value(42).unwrap(), 0);
}

#[test]
fn capability_gating() {
    let mut m = manager();
    let err = m.set_pin_settings(1, &settings(GpioCapability::PullUp)).unwrap_err();
    assert!(matches!(err, AppError::InvalidState(_)));
    assert!(m.set_pin_settings(1, &settings(GpioCapability::Disabled)).is_ok());
    assert!(matches!(
        m.set_pin_settings(42, &settings(GpioCapability::Error)),
        Err(AppError::InvalidState(_))
    ));
}

#[test]
fn edge_detection_needs_input_state() {
    let mut m = manager();
    let s = PinSettings { state: GpioCapability::PushPull, edge: EdgeDetect::Rising, debounce_ms: 0 };
    assert!(matches!(m.set_pin_settings(42, &s), Err(AppError::InvalidState(_))));
    let s = PinSettings { state: GpioCapability::PullUp, edge: EdgeDetect::Both, debounce_ms: 5 };
    assert!(m.set_pin_settings(42, &s).is_ok());
    assert_eq!(m.get_pin_settings(42).unwrap(), s);
}

#[test]
fn invalid_value_and_unknown_pin() {
    let mut m = manager();
    assert!(matches!(m.write_value(1, 2), Err(AppError::InvalidValue(_))));
    assert!(matches!(m.write_value(7, 1), Err(AppError::NotFoundPin(_))));
    assert!(matches!(m.read_value(7), Err(AppError::NotFoundPin(_))));
    assert!(matches!(m.get_events(7, None), Err(AppError::NotFoundPin(_))));
    assert!(matches!(m.get_last_event(7), Err(AppError::NotFoundPin(_))));
    assert!(matches!(m.read_value(1), Err(AppError::InvalidState(_))));
}

#[test]
fn history_keeps_newest_events_in_order() {
    let mut m = manager();
    let s = PinSettings { state: GpioCapability::PullUp, edge: EdgeDetect::Both, debounce_ms: 0 };
    m.set_pin_settings(42, &s).unwrap();
    for k in 0..100u64 {
        let edge = if k % 2 == 0 { EdgeDetect::Rising } else { EdgeDetect::Falling };
        m.dispatch_event(gmgr::EdgeEvent { pin_id: 42, edge, timestamp_ms: 1000 + k });
    }
    let events = m.get_events(42, None).unwrap();
    assert_eq!(events.len(), 32);
    for (i, e) in events.iter().enumerate() {
        assert_eq!(e.timestamp_ms, 1000 + 68 + i as u64);
    }
    assert_eq!(events.last().unwrap().timestamp_ms, 1099);
    let last = m.get_last_event(42).unwrap().unwrap();
    assert_eq!(last.timestamp_ms, 1099);
    let limited = m.get_events(42, Some(3)).unwrap();
    let stamps: Vec<u64> = limited.iter().map(|e| e.timestamp_ms).collect();
    assert_eq!(stamps, vec![1097, 1098, 1099]);
    assert!(m.get_events(1, None).unwrap().is_empty());
    assert!(m.get_last_event(1).unwrap().is_none());
}

#[test]
fn subscribers_each_receive_an_edge_once() {
    let mut m = manager();
    let mut a = m.subscribe_events();
    let mut b = m.subscribe_events();
    let e = gmgr::EdgeEvent { pin_id: 2, edge: EdgeDetect::Rising, timestamp_ms: 5 };
    m.dispatch_event(e);
    let mut late = m.subscribe_events();
    assert_eq!(a.try_recv().unwrap(), e);
    assert!(a.try_recv().is_err());
    assert_eq!(b.try_recv().unwrap(), e);
    assert!(b.try_recv().is_err());
    assert!(late.try_recv().is_err());
    assert_eq!(m.get_events(2, None).unwrap(), vec![e]);
}

#[test]
fn backend_reports_default_for_unknown_pin() {
    let b = MockGpioBackend::default();
    assert_eq!(b.get_settings(77).unwrap(), PinSettings::default());
    assert!(matches!(b.read_value(77), Err(AppError::InvalidState(_))));
}

#[test]
fn events_of_undeclared_pins_are_dropped() {
    let mut m = manager();
    let mut rx = m.subscribe_events();
    m.dispatch_event(gmgr::EdgeEvent { pin_id: 999, edge: EdgeDetect::Rising, timestamp_ms: 1 });
    assert!(rx.try_recv().is_err());
    let e = gmgr::EdgeEvent { pin_id: 1, edge: EdgeDetect::Falling, timestamp_ms: 2 };
    m.dispatch_event(e);
    assert_eq!(rx.try_recv().unwrap(), e);
}

#[test]
fn invalid_settings_refused_by_manager() {
    let mut m = manager();
    let s = PinSettings { state: GpioCapability::PullUp, edge: EdgeDetect::NoEdge, debounce_ms: 5 };
    assert!(matches!(m.set_pin_settings(42, &s), Err(AppError::InvalidState(_))));
    assert_eq!(m.get_pin_settings(42).unwrap(), PinSettings::default());
    let s = PinSettings { state: GpioCapability::Disabled, edge: EdgeDetect::NoEdge, debounce_ms: 0 };
    assert!(m.set_pin_settings(2, &s).is_ok());
}
