use gmgr::{
    edge_matches, listener_event, make_line_settings, plan_settings_change, validate_pin_settings,
    AppError, EdgeDetect, GpioBackend, GpioCapability, HwEdgeKind, LibgpiodBackend, LineBias,
    LineDirection,
    LineDrive, LineEdge, LineHandle, MockGpioBackend, PinConfig, PinSettings,
};

fn s(state: GpioCapability, edge: EdgeDetect, debounce_ms: u64) -> PinSettings {
    PinSettings { state, edge, debounce_ms }
}

fn cfg() -> PinConfig {
    PinConfig {
        name: "IO".to_string(),
        chip: "/dev/gpiochip0".to_string(),
        line: 4,
        capabilities: vec![GpioCapability::PushPull, GpioCapability::PullUp],
    }
}

#[test]
fn validation_accepts_exactly_the_invariants() {
    assert!(validate_pin_settings(&s(GpioCapability::Disabled, EdgeDetect::NoEdge, 0)).is_ok());
    assert!(validate_pin_settings(&s(GpioCapability::PushPull, EdgeDetect::NoEdge, 0)).is_ok());
    assert!(validate_pin_settings(&s(GpioCapability::PullUp, EdgeDetect::Both, 10)).is_ok());
    assert!(validate_pin_settings(&s(GpioCapability::Floating, EdgeDetect::Rising, 0)).is_ok());
    for bad in [
        s(GpioCapability::Error, EdgeDetect::NoEdge, 0),
        s(GpioCapability::Disabled, EdgeDetect::Rising, 0),
        s(GpioCapability::Disabled, EdgeDetect::NoEdge, 5),
        s(GpioCapability::Floating, EdgeDetect::NoEdge, 5),
        s(GpioCapability::PushPull, EdgeDetect::Falling, 0),
        s(GpioCapability::OpenDrain, EdgeDetect::Both, 3),
    ] {
        assert!(matches!(validate_pin_settings(&bad), Err(AppError::InvalidState(_))));
    }
}

#[test]
fn mock_validates_settings() {
    let mut b = MockGpioBackend::default();
    let bad = s(GpioCapability::Disabled, EdgeDetect::Rising, 0);
    assert!(matches!(b.set_settings(1, &cfg(), &bad, false), Err(AppError::InvalidState(_))));
    assert_eq!(b.get_settings(1).unwrap(), PinSettings::default());
}

#[test]
fn mock_write_produces_no_event_without_edges() {
    let mut b = MockGpioBackend::default();
    b.set_settings(1, &cfg(), &s(GpioCapability::PushPull, EdgeDetect::NoEdge, 0), false).unwrap();
    assert_eq!(b.write_value_at(1, 1, 0, 100).unwrap(), None);
    assert_eq!(b.write_value_at(1, 0, 1, 101).unwrap(), None);
    assert_eq!(b.read_value(1).unwrap(), 0);
    assert!(b.write_value(1, 1).is_ok());
    assert_eq!(b.read_value(1).unwrap(), 1);
}

#[test]
fn mock_read_of_input_pin_reports_level() {
    let mut b = MockGpioBackend::default();
    b.set_settings(3, &cfg(), &s(GpioCapability::PullUp, EdgeDetect::Both, 20), true).unwrap();
    assert_eq!(b.read_value(3).unwrap(), 0);
    assert!(matches!(b.write_value_at(3, 1, 0, 0), Err(AppError::InvalidState(_))));
}

#[test]
fn edge_matching() {
    assert!(!edge_matches(EdgeDetect::NoEdge, EdgeDetect::Rising));
    assert!(edge_matches(EdgeDetect::Rising, EdgeDetect::Rising));
    assert!(!edge_matches(EdgeDetect::Rising, EdgeDetect::Falling));
    assert!(edge_matches(EdgeDetect::Falling, EdgeDetect::Falling));
    assert!(edge_matches(EdgeDetect::Both, EdgeDetect::Rising));
    assert!(edge_matches(EdgeDetect::Both, EdgeDetect::Falling));
}

#[test]
fn line_settings_follow_the_state_table() {
    let out = make_line_settings(&s(GpioCapability::OpenSource, EdgeDetect::NoEdge, 0)).unwrap();
    assert_eq!(out.direction, LineDirection::Output);
    assert_eq!(out.drive, Some(LineDrive::OpenSource));
    assert_eq!(out.bias, None);
    assert_eq!(out.edge_detection, None);
    let inp = make_line_settings(&s(GpioCapability::PullDown, EdgeDetect::Falling, 7)).unwrap();
    assert_eq!(inp.direction, LineDirection::Input);
    assert_eq!(inp.bias, Some(LineBias::PullDown));
    assert_eq!(inp.edge_detection, Some(LineEdge::Falling));
    assert!(inp.realtime_clock);
    assert_eq!(inp.debounce_ms, 7);
    let flo = make_line_settings(&s(GpioCapability::Floating, EdgeDetect::NoEdge, 0)).unwrap();
    assert_eq!(flo.bias, Some(LineBias::Unbiased));
    assert!(!flo.realtime_clock);
    assert!(matches!(
        make_line_settings(&s(GpioCapability::Disabled, EdgeDetect::NoEdge, 0)),
        Err(AppError::InvalidState(_))
    ));
}

#[test]
fn listener_is_stopped_then_restarted_once() {
    let rising = s(GpioCapability::PullUp, EdgeDetect::Rising, 0);
    let off = s(GpioCapability::PullUp, EdgeDetect::NoEdge, 0);
    let first = plan_settings_change(None, 4, &rising, true).unwrap();
    assert_eq!(first.open_line, Some(4));
    assert!(first.start_listener);
    let h: LineHandle = first.next.unwrap();
    assert!(h.listener);
    let second = plan_settings_change(Some(h), 4, &off, true).unwrap();
    assert!(second.stop_listener && !second.start_listener && second.reconfigure);
    let h = second.next.unwrap();
    assert!(!h.listener);
    let third = plan_settings_change(Some(h), 4, &rising, true).unwrap();
    assert!(!third.stop_listener && third.start_listener && third.reconfigure);
    assert!(third.next.unwrap().listener);
    let again = plan_settings_change(third.next, 4, &rising, true).unwrap();
    assert!(!again.stop_listener && !again.start_listener);
}

#[test]
fn disabling_releases_line_after_listener() {
    let h = LineHandle { line: 9, settings: s(GpioCapability::Floating, EdgeDetect::Both, 0), listener: true };
    let p = plan_settings_change(Some(h), 9, &PinSettings::default(), true).unwrap();
    assert!(p.stop_listener && p.release && p.next.is_none());
    let bad = s(GpioCapability::PushPull, EdgeDetect::Both, 0);
    assert!(matches!(plan_settings_change(Some(h), 9, &bad, true), Err(AppError::InvalidState(_))));
}

#[test]
fn listener_translates_kernel_edges() {
    let e = listener_event(3, HwEdgeKind::Falling, 1_234_567_890).unwrap();
    assert_eq!(e.pin_id, 3);
    assert_eq!(e.edge, EdgeDetect::Falling);
    assert_eq!(e.timestamp_ms, 1234);
    assert_eq!(listener_event(3, HwEdgeKind::Rising, 999_999).unwrap().timestamp_ms, 0);
    assert!(listener_event(3, HwEdgeKind::Unknown, 5).is_none());
}

#[test]
fn status_codes_per_kind() {
    assert_eq!(AppError::NotFoundPin("1".into()).status_code(), 404);
    assert_eq!(AppError::InvalidState("x".into()).status_code(), 400);
    assert_eq!(AppError::InvalidValue("x".into()).status_code(), 400);
    assert_eq!(AppError::PermissionDenied("x".into()).status_code(), 403);
    assert_eq!(AppError::Config("x".into()).status_code(), 500);
    assert_eq!(AppError::Gpio("x".into()).status_code(), 500);
}

#[test]
fn registry_follows_committed_plans() {
    let mut b = LibgpiodBackend::new().unwrap();
    let c = cfg();
    assert!(b.entry(1).is_none());
    assert!(matches!(b.read_target(1), Err(AppError::InvalidState(_))));
    let out = s(GpioCapability::PushPull, EdgeDetect::NoEdge, 0);
    let p = b.plan(1, &c, &out, false).unwrap();
    assert_eq!(p.open_line, Some(4));
    b.commit(1, &p);
    assert_eq!(b.get_settings(1), out);
    assert_eq!(b.read_target(1).unwrap(), 4);
    assert_eq!(b.write_target(1, 1).unwrap(), (4, true));
    assert_eq!(b.write_target(1, 0).unwrap(), (4, false));
    let inp = s(GpioCapability::PullUp, EdgeDetect::Rising, 0);
    let p = b.plan(1, &c, &inp, true).unwrap();
    assert!(p.reconfigure && p.start_listener && p.open_line.is_none());
    b.commit(1, &p);
    assert!(b.entry(1).unwrap().listener);
    assert!(matches!(b.write_target(1, 1), Err(AppError::InvalidState(_))));
    let p = b.plan(1, &c, &PinSettings::default(), true).unwrap();
    assert!(p.stop_listener && p.release);
    b.commit(1, &p);
    assert!(b.entry(1).is_none());
    assert_eq!(b.get_settings(1), PinSettings::default());
    assert!(matches!(b.plan(1, &c, &s(GpioCapability::Error, EdgeDetect::NoEdge, 0), false), Err(AppError::InvalidState(_))));
}
