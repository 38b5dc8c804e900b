use video_trimmer::error::ErrorKind;
use video_trimmer::readiness::{
    judge_probe, probe_command, status_message, EngineStatus, ProbeRun,
};

#[test]
fn the_probe_reads_a_made_up_input_and_writes_nothing() {
    let command = probe_command();
    let held: Vec<String> =
        command.get_args().map(|a| a.to_string_lossy().into_owned()).collect();
    assert_eq!(
        held,
        vec![
            "-loglevel", "level+info", "-f", "lavfi", "-i", "nullsrc=d=0.1", "-t", "0.1", "-f",
            "null", "-",
        ]
    );
}

#[test]
fn the_two_status_messages() {
    assert_eq!(status_message(EngineStatus::Ready), "FFmpeg is ready.");
    assert_eq!(status_message(EngineStatus::NotWorking), "FFmpeg not working properly.");
}

#[test]
fn an_engine_that_runs_to_the_end_is_ready() {
    let (status, result) = judge_probe(&ProbeRun::Ended { done: true });
    assert_eq!(status, EngineStatus::Ready);
    assert!(result.is_ok());
}

#[test]
fn an_engine_that_does_not_finish_is_not_working() {
    let (status, result) = judge_probe(&ProbeRun::Ended { done: false });
    assert_eq!(status, EngineStatus::NotWorking);
    let error = result.err().unwrap();
    assert_eq!(error.kind, ErrorKind::ProbeIncomplete);
    assert_eq!(error.message(), "FFmpeg did not complete successfully.");
}

#[test]
fn an_engine_that_does_not_start_is_not_working() {
    let (status, result) = judge_probe(&ProbeRun::SpawnFailed("No such file".to_string()));
    assert_eq!(status, EngineStatus::NotWorking);
    let error = result.err().unwrap();
    assert_eq!(error.kind, ErrorKind::ProbeSpawnFailed);
    assert_eq!(
        error.message(),
        "FFmpeg is not installed or failed to spawn: No such file. Please ensure it's in your PATH."
    );
}

#[test]
fn an_engine_whose_events_cannot_be_read_is_not_working() {
    let (status, result) = judge_probe(&ProbeRun::EventsUnavailable("no stdout".to_string()));
    assert_eq!(status, EngineStatus::NotWorking);
    let error = result.err().unwrap();
    assert_eq!(error.kind, ErrorKind::EngineEventsUnavailable);
    assert_eq!(error.message(), "no stdout");
}
