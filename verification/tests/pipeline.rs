use video_trimmer::error::{ErrorKind, PipelineError};
use video_trimmer::pipeline::{Action, Awaiting, Pipeline, PipelineEvent, Stage};
use video_trimmer::runner::{observe_run, EngineEvent};
use video_trimmer::segment::ToolRun;

const NOW: i64 = 1_700_000_000;
const NAME: &str = "trimmed_20231114221320.mp4";
const OUT: &str = "/home/me/Downloads/trimmed_20231114221320.mp4";

fn strings(list: &[&str]) -> Vec<String> {
    list.iter().map(|s| s.to_string()).collect()
}

fn finished(action: Action) -> Result<String, PipelineError> {
    match action {
        Action::Finish { result } => result,
        _ => panic!("the pipeline has not finished"),
    }
}

fn failure(action: Action) -> (ErrorKind, String) {
    let error = finished(action).err().expect("a failure");
    (error.kind, error.message())
}

fn ran(events: Vec<EngineEvent>, output_exists: bool) -> PipelineEvent {
    PipelineEvent::EngineRan { monitor: observe_run(&events), output_exists }
}

/// Takes a pipeline from the end of resolving to the engine's run and
/// returns the arguments of the plan.
fn plan(pipeline: &mut Pipeline, after_resolving: Action) -> Vec<String> {
    assert!(matches!(after_resolving, Action::ReadClock));
    assert_eq!(pipeline.stage(), Stage::Planning);
    match pipeline.step(PipelineEvent::ClockRead { seconds: NOW }) {
        Action::PrepareOutput { file_name } => assert_eq!(file_name, NAME),
        _ => panic!("no output asked for"),
    }
    match pipeline.step(PipelineEvent::OutputPathReady { path: OUT.to_string(), occupied: false }) {
        Action::RunEngine { plan } => {
            assert_eq!(pipeline.stage(), Stage::Transcoding);
            assert_eq!(plan.output(), OUT);
            plan.arguments()
        },
        _ => panic!("no engine run asked for"),
    }
}

#[test]
fn a_local_clip_is_cut_and_copied() {
    let mut pipeline = Pipeline::new("clip.mp4", "00:00:05", "00:00:10", "Original").unwrap();
    assert_eq!(pipeline.stage(), Stage::Idle);
    match pipeline.step(PipelineEvent::Begin) {
        Action::CheckSource { path } => assert_eq!(path, "clip.mp4"),
        _ => panic!("the source is not looked for"),
    }
    assert_eq!(pipeline.stage(), Stage::Resolving);
    let next = pipeline.step(PipelineEvent::SourceChecked { exists: true });
    let arguments = plan(&mut pipeline, next);
    assert_eq!(
        arguments,
        strings(&[
            "-loglevel", "level+info", "-i", "clip.mp4", "-ss", "00:00:05", "-to", "00:00:10",
            "-c", "copy", "-avoid_negative_ts", "make_zero", "-movflags", "+faststart", OUT, "-n",
        ])
    );
    assert!(!pipeline.holds_workspace());
    let message =
        finished(pipeline.step(ran(vec![EngineEvent::Progress, EngineEvent::Done], true)));
    assert_eq!(message.unwrap(), format!("Video trimmed successfully! Saved to: {OUT}"));
    assert_eq!(pipeline.stage(), Stage::Succeeded);
    assert_eq!(pipeline.awaiting(), Awaiting::Nothing);
}

#[test]
fn a_missing_local_file_fails_before_anything_runs() {
    let mut pipeline = Pipeline::new("gone.mp4", "00:00:05", "00:00:10", "Original").unwrap();
    assert!(matches!(pipeline.step(PipelineEvent::Begin), Action::CheckSource { .. }));
    let (kind, message) = failure(pipeline.step(PipelineEvent::SourceChecked { exists: false }));
    assert_eq!(kind, ErrorKind::SourceNotFound);
    assert_eq!(message, "Local video file not found: gone.mp4");
    assert_eq!(pipeline.stage(), Stage::Failed);
}

#[test]
fn an_engine_that_only_reports_an_error_fails_with_it() {
    let mut pipeline = Pipeline::new("clip.mp4", "00:00:05", "00:00:10", "16:9").unwrap();
    pipeline.step(PipelineEvent::Begin);
    let next = pipeline.step(PipelineEvent::SourceChecked { exists: true });
    plan(&mut pipeline, next);
    let events = vec![EngineEvent::Error("codec not supported".to_string())];
    let (kind, message) = failure(pipeline.step(ran(events, false)));
    assert_eq!(kind, ErrorKind::EngineFailed);
    assert_eq!(message, "FFmpeg failed: codec not supported");
    assert!(message.contains("codec not supported"));
    assert_eq!(pipeline.stage(), Stage::Failed);
}

#[test]
fn a_failed_run_on_a_download_removes_the_workspace_first() {
    let mut pipeline =
        Pipeline::new("https://example.com/media/clip.mp4", "0:0:1", "0:0:2", "1:1").unwrap();
    match pipeline.step(PipelineEvent::Begin) {
        Action::CreateWorkspace { file_name } => assert_eq!(file_name, "clip.mp4"),
        _ => panic!("no workspace asked for"),
    }
    assert!(!pipeline.holds_workspace());
    match pipeline.step(PipelineEvent::WorkspaceReady { file_path: "/tmp/w/clip.mp4".to_string() })
    {
        Action::FetchUrl { address, destination } => {
            assert_eq!(address, "https://example.com/media/clip.mp4");
            assert_eq!(destination, "/tmp/w/clip.mp4");
        },
        _ => panic!("no download asked for"),
    }
    assert!(pipeline.holds_workspace());
    let next = pipeline.step(PipelineEvent::FetchSucceeded);
    let arguments = plan(&mut pipeline, next);
    assert_eq!(arguments[2..8], strings(&["-i", "/tmp/w/clip.mp4", "-ss", "0:0:1", "-to", "0:0:2"])[..]);
    let events = vec![
        EngineEvent::Error("codec not supported".to_string()),
        EngineEvent::Error("codec not supported".to_string()),
    ];
    assert!(matches!(pipeline.step(ran(events, false)), Action::ReleaseWorkspace));
    assert!(pipeline.holds_workspace());
    assert_eq!(pipeline.awaiting(), Awaiting::Release);
    let (kind, message) = failure(pipeline.step(PipelineEvent::WorkspaceReleased));
    assert_eq!(kind, ErrorKind::EngineFailed);
    assert_eq!(message, "FFmpeg failed: codec not supported; codec not supported");
    assert!(!pipeline.holds_workspace());
    assert_eq!(pipeline.stage(), Stage::Failed);
}

#[test]
fn a_video_on_a_platform_is_fetched_as_a_segment_and_not_cut_again() {
    let source = "https://www.youtube.com/watch?v=abc";
    let mut pipeline = Pipeline::new(source, "00:01:00", "00:01:30", "Original").unwrap();
    match pipeline.step(PipelineEvent::Begin) {
        Action::CreateWorkspace { file_name } => assert_eq!(file_name, "video.mp4"),
        _ => panic!("no workspace asked for"),
    }
    match pipeline.step(PipelineEvent::WorkspaceReady { file_path: "/tmp/w/video.mp4".to_string() })
    {
        Action::RunSegmentTool { arguments, output } => {
            assert_eq!(output, "/tmp/w/video.mp4");
            assert_eq!(
                arguments,
                strings(&[
                    "-f", "best[ext=mp4]/best", "--download-sections", "*60-90",
                    "--force-keyframes-at-cuts", "--concurrent-fragments", "4", "--no-mtime",
                    "-o", "/tmp/w/video.mp4", source,
                ])
            );
        },
        _ => panic!("no segment asked for"),
    }
    let next = pipeline.step(PipelineEvent::SegmentToolFinished {
        run: ToolRun::Exited { success: true },
        output_exists: true,
    });
    let arguments = plan(&mut pipeline, next);
    assert_eq!(
        arguments,
        strings(&[
            "-loglevel", "level+info", "-i", "/tmp/w/video.mp4", "-c", "copy", "-movflags",
            "+faststart", OUT, "-n",
        ])
    );
    assert!(matches!(pipeline.step(ran(vec![EngineEvent::Done], true)), Action::ReleaseWorkspace));
    assert_eq!(pipeline.stage(), Stage::Transcoding);
    let message = finished(pipeline.step(PipelineEvent::WorkspaceReleased)).unwrap();
    assert_eq!(message, format!("Video trimmed successfully! Saved to: {OUT}"));
    assert_eq!(pipeline.stage(), Stage::Succeeded);
    assert!(!pipeline.holds_workspace());
}

#[test]
fn a_segment_tool_that_fails_ends_the_pipeline_after_the_removal() {
    let cases = [
        (ToolRun::NotFound, true, ErrorKind::ExternalToolMissing),
        (ToolRun::LaunchFailed("denied".to_string()), true, ErrorKind::ExternalToolFailed),
        (ToolRun::Exited { success: false }, true, ErrorKind::ExternalToolFailed),
        (ToolRun::Exited { success: true }, false, ErrorKind::OutputMissing),
    ];
    for (run, output_exists, expected) in cases {
        let mut pipeline = Pipeline::new("https://youtu.be/abc", "0:0:0", "0:0:9", "9:16").unwrap();
        pipeline.step(PipelineEvent::Begin);
        pipeline.step(PipelineEvent::WorkspaceReady { file_path: "/tmp/w/video.mp4".to_string() });
        let action = pipeline.step(PipelineEvent::SegmentToolFinished { run, output_exists });
        assert!(matches!(action, Action::ReleaseWorkspace));
        assert_eq!(pipeline.stage(), Stage::Resolving);
        let (kind, _) = failure(pipeline.step(PipelineEvent::WorkspaceReleased));
        assert_eq!(kind, expected);
    }
}

#[test]
fn a_download_that_fails_ends_the_pipeline_after_the_removal() {
    let mut pipeline = Pipeline::new("http://example.com/v.mp4", "0:0:0", "0:0:9", "9:16").unwrap();
    pipeline.step(PipelineEvent::Begin);
    pipeline.step(PipelineEvent::WorkspaceReady { file_path: "/tmp/w/v.mp4".to_string() });
    let error = PipelineError::about(ErrorKind::FetchHttpError, "404 Not Found");
    assert!(matches!(pipeline.step(PipelineEvent::FetchFailed { error }), Action::ReleaseWorkspace));
    assert!(matches!(pipeline.step(PipelineEvent::FetchSucceeded), Action::ReleaseWorkspace));
    assert!(matches!(pipeline.step(PipelineEvent::Begin), Action::ReleaseWorkspace));
    let (kind, message) = failure(pipeline.step(PipelineEvent::WorkspaceReleased));
    assert_eq!(kind, ErrorKind::FetchHttpError);
    assert_eq!(
        message,
        "Failed to download video: Failed to download video: HTTP status 404 Not Found"
    );
}

#[test]
fn an_address_that_does_not_parse_needs_no_workspace() {
    let mut pipeline = Pipeline::new("http://[oops/v.mp4", "0:0:0", "0:0:9", "Original").unwrap();
    let (kind, message) = failure(pipeline.step(PipelineEvent::Begin));
    assert_eq!(kind, ErrorKind::InvalidUrl);
    assert!(message.starts_with("Invalid URL: "));
    assert!(!pipeline.holds_workspace());
    assert_eq!(pipeline.stage(), Stage::Failed);
}

#[test]
fn a_workspace_that_cannot_be_created() {
    let mut pipeline = Pipeline::new("https://youtu.be/abc", "0:0:0", "0:0:9", "Original").unwrap();
    pipeline.step(PipelineEvent::Begin);
    let (kind, message) =
        failure(pipeline.step(PipelineEvent::WorkspaceFailed { reason: "no space".to_string() }));
    assert_eq!(kind, ErrorKind::WorkspaceUnavailable);
    assert_eq!(message, "Failed to create temp dir: no space");
}

#[test]
fn an_unknown_ratio_gives_no_pipeline() {
    for source in ["clip.mp4", "gone.mp4", "https://youtu.be/abc", "http://example.com/v.mp4"] {
        let error = Pipeline::new(source, "0:0:0", "0:0:9", "4:3").err().unwrap();
        assert_eq!(error.kind, ErrorKind::UnsupportedRatio);
        assert_eq!(error.detail, "4:3");
        assert_eq!(error.message(), "Unsupported ratio: 4:3");
    }
}

#[test]
fn a_known_ratio_lets_a_streamed_source_begin() {
    for ratio in ["Original", "16:9", "9:16", "1:1"] {
        let mut pipeline = Pipeline::new("https://youtu.be/abc", "0:0:0", "0:0:9", ratio).unwrap();
        assert!(matches!(pipeline.step(PipelineEvent::Begin), Action::CreateWorkspace { .. }));
    }
}

#[test]
fn a_taken_output_path_gets_the_next_name() {
    let mut pipeline = Pipeline::new("clip.mp4", "0:0:0", "0:0:9", "Original").unwrap();
    pipeline.step(PipelineEvent::Begin);
    pipeline.step(PipelineEvent::SourceChecked { exists: true });
    match pipeline.step(PipelineEvent::ClockRead { seconds: NOW }) {
        Action::PrepareOutput { file_name } => assert_eq!(file_name, NAME),
        _ => panic!("no output asked for"),
    }
    let taken = |path: &str| PipelineEvent::OutputPathReady { path: path.to_string(), occupied: true };
    match pipeline.step(taken(OUT)) {
        Action::PrepareOutput { file_name } => {
            assert_eq!(file_name, "trimmed_20231114221320_1.mp4")
        },
        _ => panic!("no other name asked for"),
    }
    assert_eq!(pipeline.stage(), Stage::Planning);
    assert_eq!(pipeline.awaiting(), Awaiting::OutputPath);
    match pipeline.step(taken("/home/me/Downloads/trimmed_20231114221320_1.mp4")) {
        Action::PrepareOutput { file_name } => {
            assert_eq!(file_name, "trimmed_20231114221320_2.mp4")
        },
        _ => panic!("no other name asked for"),
    }
    let free = "/home/me/Downloads/trimmed_20231114221320_2.mp4";
    match pipeline
        .step(PipelineEvent::OutputPathReady { path: free.to_string(), occupied: false })
    {
        Action::RunEngine { plan } => {
            assert_eq!(plan.output(), free);
            let list = plan.arguments();
            assert_eq!(list[list.len() - 2..], strings(&[free, "-n"])[..]);
        },
        _ => panic!("no engine run asked for"),
    }
    let message = finished(pipeline.step(ran(vec![EngineEvent::Done], true))).unwrap();
    assert_eq!(message, format!("Video trimmed successfully! Saved to: {free}"));
}

#[test]
fn two_runs_in_one_second_write_to_two_files() {
    let mut taken: Vec<String> = Vec::new();
    for _ in 0..3 {
        let mut pipeline = Pipeline::new("clip.mp4", "0:0:0", "0:0:9", "Original").unwrap();
        pipeline.step(PipelineEvent::Begin);
        pipeline.step(PipelineEvent::SourceChecked { exists: true });
        let mut action = pipeline.step(PipelineEvent::ClockRead { seconds: NOW });
        let output = loop {
            match action {
                Action::PrepareOutput { file_name } => {
                    let path = format!("/downloads/{file_name}");
                    let occupied = taken.contains(&path);
                    action = pipeline.step(PipelineEvent::OutputPathReady { path, occupied });
                },
                Action::RunEngine { plan } => break plan.output().to_string(),
                _ => panic!("neither a name nor a run"),
            }
        };
        assert!(!taken.contains(&output));
        let message = finished(pipeline.step(ran(vec![EngineEvent::Done], true))).unwrap();
        assert!(message.ends_with(&output));
        taken.push(output);
    }
    assert_eq!(
        taken,
        strings(&[
            "/downloads/trimmed_20231114221320.mp4",
            "/downloads/trimmed_20231114221320_1.mp4",
            "/downloads/trimmed_20231114221320_2.mp4",
        ])
    );
}

#[test]
fn a_path_that_the_engine_cannot_be_given() {
    let mut pipeline = Pipeline::new("clip.mp4", "0:0:0", "0:0:9", "Original").unwrap();
    pipeline.step(PipelineEvent::Begin);
    pipeline.step(PipelineEvent::SourceChecked { exists: true });
    pipeline.step(PipelineEvent::ClockRead { seconds: NOW });
    let (kind, message) = failure(
        pipeline.step(PipelineEvent::OutputPathReady { path: "o\0.mp4".to_string(), occupied: false }),
    );
    assert_eq!(kind, ErrorKind::InvalidPath);
    assert_eq!(message, "Invalid path: o\0.mp4");

    let mut pipeline = Pipeline::new("https://youtu.be/abc", "0:0:0", "0:0:9", "1:1").unwrap();
    pipeline.step(PipelineEvent::Begin);
    pipeline.step(PipelineEvent::WorkspaceReady { file_path: "/tmp/\0/video.mp4".to_string() });
    pipeline.step(PipelineEvent::SegmentToolFinished {
        run: ToolRun::Exited { success: true },
        output_exists: true,
    });
    pipeline.step(PipelineEvent::ClockRead { seconds: NOW });
    let action = pipeline.step(PipelineEvent::OutputPathReady { path: OUT.to_string(), occupied: false });
    assert!(matches!(action, Action::ReleaseWorkspace));
    let (kind, _) = failure(pipeline.step(PipelineEvent::WorkspaceReleased));
    assert_eq!(kind, ErrorKind::InvalidPath);
}

#[test]
fn time_strings_are_read_before_anything_else() {
    let error = Pipeline::new("gone.mp4", "1:2", "0:0:9", "4:3").err().unwrap();
    assert_eq!(error.kind, ErrorKind::InvalidTimeFormat);
    let error = Pipeline::new("gone.mp4", "0:0:1", "0:x:9", "4:3").err().unwrap();
    assert_eq!(error.message(), "Invalid minutes");
    let error = Pipeline::new("gone.mp4", "0:0:1", "0:0:9", "4:3").err().unwrap();
    assert_eq!(error.kind, ErrorKind::UnsupportedRatio);
}

#[test]
fn the_output_directory_and_the_clock_may_fail() {
    let mut pipeline = Pipeline::new("clip.mp4", "0:0:0", "0:0:9", "Original").unwrap();
    pipeline.step(PipelineEvent::Begin);
    pipeline.step(PipelineEvent::SourceChecked { exists: true });
    pipeline.step(PipelineEvent::ClockRead { seconds: NOW });
    let (kind, message) =
        failure(pipeline.step(PipelineEvent::OutputDirFailed { reason: "denied".to_string() }));
    assert_eq!(kind, ErrorKind::OutputDirUnavailable);
    assert_eq!(message, "Failed to create Downloads directory: denied");

    let mut pipeline = Pipeline::new("clip.mp4", "0:0:0", "0:0:9", "Original").unwrap();
    pipeline.step(PipelineEvent::Begin);
    pipeline.step(PipelineEvent::SourceChecked { exists: true });
    let (kind, _) = failure(pipeline.step(PipelineEvent::ClockRead { seconds: i64::MAX }));
    assert_eq!(kind, ErrorKind::ClockOutOfRange);
}

#[test]
fn an_engine_that_does_not_start() {
    let mut pipeline = Pipeline::new("clip.mp4", "0:0:0", "0:0:9", "Original").unwrap();
    pipeline.step(PipelineEvent::Begin);
    let next = pipeline.step(PipelineEvent::SourceChecked { exists: true });
    plan(&mut pipeline, next);
    let (kind, message) = failure(
        pipeline.step(PipelineEvent::EngineSpawnFailed { reason: "not found".to_string() }),
    );
    assert_eq!(kind, ErrorKind::EngineSpawnFailed);
    assert_eq!(message, "Failed to execute FFmpeg: not found");

    let mut pipeline = Pipeline::new("clip.mp4", "0:0:0", "0:0:9", "Original").unwrap();
    pipeline.step(PipelineEvent::Begin);
    let next = pipeline.step(PipelineEvent::SourceChecked { exists: true });
    plan(&mut pipeline, next);
    let (kind, message) = failure(
        pipeline.step(PipelineEvent::EngineEventsUnavailable { reason: "no stdout".to_string() }),
    );
    assert_eq!(kind, ErrorKind::EngineEventsUnavailable);
    assert_eq!(message, "no stdout");
}

#[test]
fn a_report_that_is_not_awaited_makes_the_pipeline_fail() {
    let mut pipeline = Pipeline::new("clip.mp4", "0:0:0", "0:0:9", "Original").unwrap();
    let (kind, _) = failure(pipeline.step(PipelineEvent::FetchSucceeded));
    assert_eq!(kind, ErrorKind::UnexpectedEvent);
    assert_eq!(pipeline.stage(), Stage::Failed);

    let mut pipeline = Pipeline::new("https://youtu.be/abc", "0:0:0", "0:0:9", "Original").unwrap();
    pipeline.step(PipelineEvent::Begin);
    pipeline.step(PipelineEvent::WorkspaceReady { file_path: "/tmp/w/video.mp4".to_string() });
    assert!(matches!(pipeline.step(PipelineEvent::FetchSucceeded), Action::ReleaseWorkspace));
    let (kind, _) = failure(pipeline.step(PipelineEvent::WorkspaceReleased));
    assert_eq!(kind, ErrorKind::UnexpectedEvent);
}

#[test]
fn a_finished_pipeline_stays_finished() {
    let mut pipeline = Pipeline::new("gone.mp4", "0:0:0", "0:0:9", "Original").unwrap();
    pipeline.step(PipelineEvent::Begin);
    pipeline.step(PipelineEvent::SourceChecked { exists: false });
    for event in [PipelineEvent::Begin, PipelineEvent::WorkspaceReleased] {
        let (kind, _) = failure(pipeline.step(event));
        assert_eq!(kind, ErrorKind::UnexpectedEvent);
        assert_eq!(pipeline.stage(), Stage::Failed);
        assert_eq!(pipeline.awaiting(), Awaiting::Nothing);
    }
}
