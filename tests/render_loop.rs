use nmea_status::{
    is_quit, select_source, step, tick_period_nanos, InputEvent, InputSource, Key, LoopAction,
    LoopEvent, LoopState, SourceType, DEFAULT_TICK_RATE_HZ,
};

#[test]
fn tick_renders_while_running() {
    assert_eq!(step(LoopState::Running, LoopEvent::Tick), (LoopState::Running, LoopAction::Render));
}

#[test]
fn quit_before_pending_tick_terminates_without_render() {
    let quit = LoopEvent::Input(InputEvent::Key(Key::Esc));
    let (state, action) = step(LoopState::Running, quit);
    assert_eq!((state, action), (LoopState::Terminated, LoopAction::Stop));
    assert_eq!(step(state, LoopEvent::Tick), (LoopState::Terminated, LoopAction::Stop));
}

#[test]
fn other_input_is_ignored() {
    let q = LoopEvent::Input(InputEvent::Key(Key::Char('q')));
    assert_eq!(step(LoopState::Running, q), (LoopState::Running, LoopAction::Wait));
    let other = LoopEvent::Input(InputEvent::Other);
    assert_eq!(step(LoopState::Running, other), (LoopState::Running, LoopAction::Wait));
}

#[test]
fn terminated_is_final() {
    for e in [LoopEvent::Tick, LoopEvent::Input(InputEvent::Key(Key::Other))] {
        assert_eq!(step(LoopState::Terminated, e), (LoopState::Terminated, LoopAction::Stop));
    }
}

#[test]
fn only_escape_quits() {
    assert!(is_quit(&InputEvent::Key(Key::Esc)));
    assert!(!is_quit(&InputEvent::Key(Key::Char('x'))));
    assert!(!is_quit(&InputEvent::Other));
}

#[test]
fn sixty_hertz_tick_period() {
    assert_eq!(tick_period_nanos(DEFAULT_TICK_RATE_HZ), 16_666_666);
    assert_eq!(tick_period_nanos(1), 1_000_000_000);
}

#[test]
fn source_selection() {
    assert_eq!(select_source(Some("log.nmea".to_string()), SourceType::File), InputSource::File("log.nmea".to_string()));
    assert_eq!(select_source(Some("log.nmea".to_string()), SourceType::Stdin), InputSource::Stdin);
    assert_eq!(select_source(None, SourceType::File), InputSource::Stdin);
    assert_eq!(SourceType::default(), SourceType::File);
    assert_eq!(SourceType::File.name(), "file");
    assert_eq!(SourceType::Stdin.name(), "stdin");
}

#[test]
fn clock_readings_do_not_go_back() {
    let mut c = nmea_status::Clock::start();
    let a = c.read();
    c.record(a);
    let b = c.read();
    assert!(b >= a);
}

#[test]
fn clamped_reading_never_below_latest() {
    assert_eq!(nmea_status::clamp_reading(3, 5), 5);
    assert_eq!(nmea_status::clamp_reading(7, 5), 7);
    assert_eq!(nmea_status::clamp_reading(5, 5), 5);
}
