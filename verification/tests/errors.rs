use video_trimmer::error::{ErrorKind, PipelineError};

#[test]
fn an_error_without_detail() {
    let error = PipelineError::bare(ErrorKind::OutputMissing);
    assert_eq!(error.kind, ErrorKind::OutputMissing);
    assert_eq!(error.detail, "");
    assert_eq!(error.message(), "yt-dlp ran, but the expected output file was not found.");
}

#[test]
fn an_error_with_detail() {
    let error = PipelineError::about(ErrorKind::SourceNotFound, "/videos/a.mp4");
    assert_eq!(error.message(), "Local video file not found: /videos/a.mp4");
    let copy = error.duplicate();
    assert_eq!(copy.kind, ErrorKind::SourceNotFound);
    assert_eq!(copy.detail, "/videos/a.mp4");
}

#[test]
fn the_message_of_each_kind() {
    let cases = [
        (ErrorKind::InvalidTimeFormat, "Invalid time format. Expected HH:MM:SS"),
        (ErrorKind::InvalidTimeComponent, "Invalid X"),
        (ErrorKind::UnsupportedRatio, "Unsupported ratio: X"),
        (ErrorKind::SourceNotFound, "Local video file not found: X"),
        (ErrorKind::InvalidUrl, "Invalid URL: X"),
        (ErrorKind::WorkspaceUnavailable, "Failed to create temp dir: X"),
        (
            ErrorKind::ExternalToolMissing,
            "yt-dlp command not found. Please install yt-dlp and ensure it is in your system's PATH.",
        ),
        (ErrorKind::ExternalToolFailed, "X"),
        (ErrorKind::OutputMissing, "yt-dlp ran, but the expected output file was not found."),
        (
            ErrorKind::FetchHttpError,
            "Failed to download video: Failed to download video: HTTP status X",
        ),
        (ErrorKind::FetchNetworkError, "Failed to download video: X"),
        (ErrorKind::FetchIoError, "Failed to download video: X"),
        (ErrorKind::InvalidPath, "Invalid path: X"),
        (ErrorKind::ClockOutOfRange, "The current time cannot be written as a date."),
        (ErrorKind::NoFreeOutputName, "No free name is left for the output file."),
        (ErrorKind::OutputDirUnavailable, "Failed to create Downloads directory: X"),
        (ErrorKind::EngineSpawnFailed, "Failed to execute FFmpeg: X"),
        (ErrorKind::EngineEventsUnavailable, "X"),
        (ErrorKind::EngineFailed, "FFmpeg failed: X"),
        (
            ErrorKind::EngineIncomplete,
            "FFmpeg failed to create the output file or did not finish successfully.",
        ),
        (
            ErrorKind::ProbeSpawnFailed,
            "FFmpeg is not installed or failed to spawn: X. Please ensure it's in your PATH.",
        ),
        (ErrorKind::ProbeIncomplete, "FFmpeg did not complete successfully."),
        (ErrorKind::UnexpectedEvent, "The pipeline was told of something it had not asked for."),
    ];
    for (kind, message) in cases {
        assert_eq!(PipelineError::about(kind, "X").message(), message);
    }
}
