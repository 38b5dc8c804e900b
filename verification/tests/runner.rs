use video_trimmer::error::ErrorKind;
use video_trimmer::runner::{judge_run, observe_run, EngineEvent, RunMonitor};

fn error(text: &str) -> EngineEvent {
    EngineEvent::Error(text.to_string())
}

#[test]
fn done_with_an_output_file_is_success() {
    let events = vec![EngineEvent::Other, EngineEvent::Progress, EngineEvent::Done];
    assert!(judge_run(&events, true).is_ok());
}

#[test]
fn done_without_an_output_file_is_incomplete() {
    let events = vec![EngineEvent::Progress, EngineEvent::Done];
    let failure = judge_run(&events, false).err().unwrap();
    assert_eq!(failure.kind, ErrorKind::EngineIncomplete);
    assert_eq!(
        failure.message(),
        "FFmpeg failed to create the output file or did not finish successfully."
    );
}

#[test]
fn no_events_at_all_is_incomplete() {
    let failure = judge_run(&Vec::new(), true).err().unwrap();
    assert_eq!(failure.kind, ErrorKind::EngineIncomplete);
}

#[test]
fn errors_before_done_do_not_spoil_success() {
    let events = vec![error("deprecated pixel format"), EngineEvent::Done];
    assert!(judge_run(&events, true).is_ok());
}

#[test]
fn errors_without_done_are_reported() {
    let events = vec![error("codec not supported")];
    let failure = judge_run(&events, true).err().unwrap();
    assert_eq!(failure.kind, ErrorKind::EngineFailed);
    assert_eq!(failure.message(), "FFmpeg failed: codec not supported");
}

#[test]
fn all_errors_are_reported_together_and_in_order() {
    let events = vec![error("first"), EngineEvent::Progress, error("second"), error("third")];
    let failure = judge_run(&events, false).err().unwrap();
    assert_eq!(failure.message(), "FFmpeg failed: first; second; third");
}

#[test]
fn errors_are_reported_when_the_output_is_missing_after_done() {
    let events = vec![error("disk full"), EngineEvent::Done];
    let failure = judge_run(&events, false).err().unwrap();
    assert_eq!(failure.message(), "FFmpeg failed: disk full");
}

#[test]
fn nothing_is_read_after_done() {
    let events = vec![EngineEvent::Done, error("late")];
    let failure = judge_run(&events, false).err().unwrap();
    assert_eq!(failure.kind, ErrorKind::EngineIncomplete);
    assert!(observe_run(&events).is_done());
}

#[test]
fn the_monitor_says_when_to_stop_reading() {
    let mut monitor = RunMonitor::new();
    assert!(!monitor.is_done());
    assert!(monitor.observe(&EngineEvent::Progress));
    assert!(monitor.observe(&error("warning")));
    assert!(monitor.observe(&EngineEvent::Other));
    assert!(!monitor.observe(&EngineEvent::Done));
    assert!(monitor.is_done());
    assert!(!monitor.observe(&EngineEvent::Progress));
    assert!(monitor.verdict(true).is_ok());
    assert_eq!(monitor.verdict(false).err().unwrap().message(), "FFmpeg failed: warning");
}
