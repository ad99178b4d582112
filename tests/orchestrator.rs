use rich_presence_config::{Action, Event, LoadFailure, Mode, Orchestrator, Phase};

fn started() -> Orchestrator {
    let mut o = Orchestrator::new();
    assert_eq!(o.phase(), Phase::Idle);
    assert!(matches!(o.step::<String>(Event::Started), Action::ArmWatcher));
    assert_eq!(o.phase(), Phase::Armed);
    o
}

#[test]
fn mode_follows_executable_bit() {
    assert_eq!(Mode::select(true), Mode::Executable);
    assert_eq!(Mode::select(false), Mode::PlainFile);
    assert!(Mode::Executable.is_executable());
    assert!(!Mode::PlainFile.is_executable());
}

#[test]
fn well_formed_file_delivers_one_message() {
    let mut o = started();
    assert!(matches!(o.step::<String>(Event::ModeChecked(false)), Action::LoadFile));
    assert_eq!(o.mode(), Some(Mode::PlainFile));
    assert_eq!(o.phase(), Phase::Loading);
    match o.step(Event::FileLoaded(Ok("{\"state\":\"x\"}".to_string()))) {
        Action::Deliver(m) => assert_eq!(m, "{\"state\":\"x\"}"),
        _ => panic!("expected a delivery"),
    }
    assert_eq!(o.phase(), Phase::Waiting);
    assert!(!o.reader_running());
}

#[test]
fn malformed_file_delivers_nothing() {
    let mut o = started();
    assert!(matches!(o.step::<String>(Event::ModeChecked(false)), Action::LoadFile));
    assert!(matches!(
        o.step::<String>(Event::FileLoaded(Err(LoadFailure::Parse))),
        Action::ReportLoadFailure(LoadFailure::Parse)
    ));
    assert_eq!(o.phase(), Phase::Waiting);
}

#[test]
fn unreadable_file_delivers_nothing() {
    let mut o = started();
    assert!(matches!(o.step::<String>(Event::ModeChecked(false)), Action::LoadFile));
    assert!(matches!(
        o.step::<String>(Event::FileLoaded(Err(LoadFailure::Read))),
        Action::ReportLoadFailure(LoadFailure::Read)
    ));
    assert_eq!(o.phase(), Phase::Waiting);
}

#[test]
fn executable_spawns_reader_and_reload_cancels_it() {
    let mut o = started();
    assert!(matches!(o.step::<String>(Event::ModeChecked(true)), Action::SpawnReader));
    assert_eq!(o.mode(), Some(Mode::Executable));
    assert!(o.reader_running());
    assert_eq!(o.phase(), Phase::Waiting);
    assert!(matches!(o.step::<String>(Event::Changed(1)), Action::Reload { abort_reader: true }));
    assert!(!o.reader_running());
    assert_eq!(o.phase(), Phase::Armed);
    // The file lost its executable bit meanwhile.
    assert!(matches!(o.step::<String>(Event::ModeChecked(false)), Action::LoadFile));
    assert_eq!(o.mode(), Some(Mode::PlainFile));
}

#[test]
fn touch_without_content_change_reloads_once() {
    let mut o = started();
    assert!(matches!(o.step::<String>(Event::ModeChecked(false)), Action::LoadFile));
    assert!(matches!(o.step(Event::FileLoaded(Ok(1u8))), Action::Deliver(1)));
    assert!(matches!(o.step::<u8>(Event::Changed(1)), Action::Reload { abort_reader: false }));
    assert!(matches!(o.step::<u8>(Event::ModeChecked(false)), Action::LoadFile));
    assert!(matches!(o.step(Event::FileLoaded(Ok(1u8))), Action::Deliver(1)));
    assert_eq!(o.phase(), Phase::Waiting);
}

#[test]
fn drop_mid_stream_cancels_reader_and_silences() {
    let mut o = started();
    assert!(matches!(o.step::<String>(Event::ModeChecked(true)), Action::SpawnReader));
    assert!(matches!(o.step::<String>(Event::Dropped), Action::Shutdown { abort_reader: true }));
    assert_eq!(o.phase(), Phase::Stopped);
    assert!(!o.reader_running());
    assert!(matches!(o.step::<String>(Event::Changed(1)), Action::Ignore));
    assert!(matches!(o.step::<String>(Event::ModeChecked(true)), Action::Ignore));
    assert!(matches!(o.step::<String>(Event::Started), Action::Ignore));
    assert!(matches!(o.step(Event::FileLoaded(Ok("x".to_string()))), Action::Ignore));
    assert!(matches!(o.step::<String>(Event::Dropped), Action::Ignore));
    assert!(!o.reader_running());
}

#[test]
fn drop_before_start_has_no_reader_to_cancel() {
    let mut o = Orchestrator::new();
    assert!(matches!(o.step::<u8>(Event::Dropped), Action::Shutdown { abort_reader: false }));
    assert!(matches!(o.step::<u8>(Event::Started), Action::Ignore));
}

#[test]
fn burst_of_changes_is_one_reload() {
    let mut o = started();
    assert!(matches!(o.step::<String>(Event::ModeChecked(true)), Action::SpawnReader));
    let mut reloads = 0;
    for n in [5u64, 1, 3] {
        if let Action::Reload { .. } = o.step::<String>(Event::Changed(n)) {
            reloads += 1;
        }
    }
    assert_eq!(reloads, 1);
    assert_eq!(o.phase(), Phase::Armed);
    assert!(matches!(o.step::<String>(Event::ModeChecked(true)), Action::SpawnReader));
}

#[test]
fn events_out_of_phase_are_ignored() {
    let mut o = Orchestrator::new();
    assert!(matches!(o.step::<u8>(Event::ModeChecked(true)), Action::Ignore));
    assert!(matches!(o.step::<u8>(Event::Changed(1)), Action::Ignore));
    assert_eq!(o.phase(), Phase::Idle);
    assert!(matches!(o.step::<u8>(Event::Started), Action::ArmWatcher));
    assert!(matches!(o.step::<u8>(Event::Started), Action::Ignore));
    assert!(matches!(o.step(Event::FileLoaded(Ok(3u8))), Action::Ignore));
    assert_eq!(o.phase(), Phase::Armed);
    assert_eq!(o.mode(), None);
}
