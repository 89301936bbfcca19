use mqtt_tray::events::LogLevel;
use mqtt_tray::relay::OutputChunk;
use mqtt_tray::relay::RelayStep;
use mqtt_tray::relay::line_message;
use mqtt_tray::relay::relay_collect;
use mqtt_tray::relay::relay_step;
use mqtt_tray::relay::termination_event_message;

#[test]
fn stdout_lines_relay_in_order() {
    let chunks = vec![
        OutputChunk::Stdout(String::from("A\n")),
        OutputChunk::Stdout(String::from("B\n")),
    ];
    let (events, stopped) = relay_collect(&chunks);
    assert_eq!(events.len(), 2);
    assert_eq!(events[0].level, LogLevel::Info);
    assert_eq!(events[0].message, "A");
    assert_eq!(events[1].level, LogLevel::Info);
    assert_eq!(events[1].message, "B");
    assert!(!stopped);
}

#[test]
fn stderr_line_is_error_level() {
    let step = relay_step(&OutputChunk::Stderr(String::from("oops\n")));
    match step {
        RelayStep::Emit(e) => {
            assert_eq!(e.level, LogLevel::Error);
            assert_eq!(e.message, "oops");
        },
        other => panic!("unexpected step: {:?}", other),
    }
}

#[test]
fn termination_code_seven_is_one_warning() {
    let chunks = vec![OutputChunk::Terminated(Some(7))];
    let (events, stopped) = relay_collect(&chunks);
    assert_eq!(events.len(), 1);
    assert_eq!(events[0].level, LogLevel::Warning);
    assert_eq!(events[0].message, "worker stopped with code 7");
    assert!(stopped);
}

#[test]
fn termination_without_code_reports_zero() {
    let step = relay_step(&OutputChunk::Terminated(None));
    match step {
        RelayStep::Finish(e) => {
            assert_eq!(e.level, LogLevel::Warning);
            assert_eq!(e.message, "worker stopped with code 0");
        },
        other => panic!("unexpected step: {:?}", other),
    }
}

#[test]
fn negative_exit_code_renders_signed() {
    assert_eq!(termination_event_message(-3), "worker stopped with code -3");
    assert_eq!(
        termination_event_message(i32::MIN),
        "worker stopped with code -2147483648"
    );
}

#[test]
fn relay_stops_at_termination() {
    let chunks = vec![
        OutputChunk::Stdout(String::from("A\n")),
        OutputChunk::Terminated(Some(0)),
        OutputChunk::Stdout(String::from("late\n")),
    ];
    let (events, stopped) = relay_collect(&chunks);
    assert_eq!(events.len(), 2);
    assert_eq!(events[0].message, "A");
    assert_eq!(events[1].level, LogLevel::Warning);
    assert_eq!(events[1].message, "worker stopped with code 0");
    assert!(stopped);
}

#[test]
fn other_chunks_are_skipped() {
    let chunks = vec![
        OutputChunk::Other,
        OutputChunk::Stdout(String::from("kept\n")),
        OutputChunk::Other,
    ];
    let (events, stopped) = relay_collect(&chunks);
    assert_eq!(events.len(), 1);
    assert_eq!(events[0].message, "kept");
    assert!(!stopped);
}

#[test]
fn line_without_newline_is_kept_whole() {
    assert_eq!(line_message("partial"), "partial");
    assert_eq!(line_message("done\n"), "done");
    assert_eq!(line_message(""), "");
    assert_eq!(line_message("\n"), "");
}
