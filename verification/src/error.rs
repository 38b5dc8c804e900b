//! The errors of the pipeline and the messages shown for them.

use vstd::prelude::*;

verus! {

/// What went wrong. The variable part of an error, if it has one, is the
/// `detail` of the [`PipelineError`] that carries the kind.
#[derive(Clone, Copy, Debug, PartialEq, Eq, Structural)]
pub enum ErrorKind {
    /// A time string does not have exactly three colon-separated fields.
    InvalidTimeFormat,
    /// A field of a time string is not a number; the detail names the field.
    InvalidTimeComponent,
    /// The aspect ratio is none of the known ones; the detail is the ratio.
    UnsupportedRatio,
    /// The local source file does not exist; the detail is its path.
    SourceNotFound,
    /// The address of a remote source cannot be parsed; the detail says why.
    InvalidUrl,
    /// No temporary workspace could be created; the detail says why.
    WorkspaceUnavailable,
    /// The segment tool is not installed.
    ExternalToolMissing,
    /// The segment tool could not run or reported failure; the detail is the
    /// whole message.
    ExternalToolFailed,
    /// The segment tool reported success and left no file.
    OutputMissing,
    /// The server answered with a status outside 2xx; the detail is the
    /// status.
    FetchHttpError,
    /// The transfer failed on the network; the detail says where and why.
    FetchNetworkError,
    /// The downloaded data could not be stored; the detail says where and why.
    FetchIoError,
    /// A path holds a NUL character and cannot be handed to the engine; the
    /// detail is the path.
    InvalidPath,
    /// The clock reading cannot be written as a calendar date.
    ClockOutOfRange,
    /// Every name that the output file could get is taken.
    NoFreeOutputName,
    /// The output directory could not be created; the detail says why.
    OutputDirUnavailable,
    /// The engine could not be started; the detail says why.
    EngineSpawnFailed,
    /// The events of the started engine cannot be read; the detail says why.
    EngineEventsUnavailable,
    /// The engine did not succeed and reported errors; the detail lists them.
    EngineFailed,
    /// The engine did not succeed and reported no error.
    EngineIncomplete,
    /// The engine could not be started for the readiness probe; the detail
    /// says why.
    ProbeSpawnFailed,
    /// The readiness probe ended without the engine reporting completion.
    ProbeIncomplete,
    /// The caller reported something the pipeline had not asked for.
    UnexpectedEvent,
}

/// The mathematical content of a [`PipelineError`].
pub ghost struct ErrorView {
    pub kind: ErrorKind,
    pub detail: Seq<char>,
}

/// An error of the pipeline: its kind and the variable part of its message.
#[derive(Debug)]
pub struct PipelineError {
    pub kind: ErrorKind,
    pub detail: String,
}

impl View for PipelineError {
    type V = ErrorView;

    open spec fn view(&self) -> ErrorView {
        ErrorView { kind: self.kind, detail: self.detail@ }
    }
}

/// The message shown for an error of the given kind and detail.
pub open spec fn message_text(kind: ErrorKind, detail: Seq<char>) -> Seq<char> {
    match kind {
        ErrorKind::InvalidTimeFormat => "Invalid time format. Expected HH:MM:SS"@,
        ErrorKind::InvalidTimeComponent => "Invalid "@ + detail,
        ErrorKind::UnsupportedRatio => "Unsupported ratio: "@ + detail,
        ErrorKind::SourceNotFound => "Local video file not found: "@ + detail,
        ErrorKind::InvalidUrl => "Invalid URL: "@ + detail,
        ErrorKind::WorkspaceUnavailable => "Failed to create temp dir: "@ + detail,
        ErrorKind::ExternalToolMissing =>
            "yt-dlp command not found. Please install yt-dlp and ensure it is in your system's PATH."@,
        ErrorKind::ExternalToolFailed => detail,
        ErrorKind::OutputMissing => "yt-dlp ran, but the expected output file was not found."@,
        ErrorKind::FetchHttpError =>
            "Failed to download video: Failed to download video: HTTP status "@ + detail,
        ErrorKind::FetchNetworkError => "Failed to download video: "@ + detail,
        ErrorKind::FetchIoError => "Failed to download video: "@ + detail,
        ErrorKind::InvalidPath => "Invalid path: "@ + detail,
        ErrorKind::ClockOutOfRange => "The current time cannot be written as a date."@,
        ErrorKind::NoFreeOutputName => "No free name is left for the output file."@,
        ErrorKind::OutputDirUnavailable => "Failed to create Downloads directory: "@ + detail,
        ErrorKind::EngineSpawnFailed => "Failed to execute FFmpeg: "@ + detail,
        ErrorKind::EngineEventsUnavailable => detail,
        ErrorKind::EngineFailed => "FFmpeg failed: "@ + detail,
        ErrorKind::EngineIncomplete =>
            "FFmpeg failed to create the output file or did not finish successfully."@,
        ErrorKind::ProbeSpawnFailed => "FFmpeg is not installed or failed to spawn: "@ + detail
            + ". Please ensure it's in your PATH."@,
        ErrorKind::ProbeIncomplete => "FFmpeg did not complete successfully."@,
        ErrorKind::UnexpectedEvent => "The pipeline was told of something it had not asked for."@,
    }
}

impl PipelineError {
    /// An error of a kind that has no variable part.
    pub fn bare(kind: ErrorKind) -> (e: PipelineError)
        ensures
            e@ == (ErrorView { kind, detail: Seq::empty() }),
    {
        PipelineError { kind, detail: String::new() }
    }

    /// An error of the given kind about `detail`.
    pub fn about(kind: ErrorKind, detail: &str) -> (e: PipelineError)
        ensures
            e@ == (ErrorView { kind, detail: detail@ }),
    {
        PipelineError { kind, detail: String::from_str(detail) }
    }

    /// A copy of this error.
    pub fn duplicate(&self) -> (e: PipelineError)
        ensures
            e@ == self@,
    {
        PipelineError { kind: self.kind, detail: self.detail.clone() }
    }

    /// The message to show for this error.
    pub fn message(&self) -> (m: String)
        ensures
            m@ == message_text(self@.kind, self@.detail),
    {
        let detail = self.detail.as_str();
        match self.kind {
            ErrorKind::InvalidTimeFormat => String::from_str(
                "Invalid time format. Expected HH:MM:SS",
            ),
            ErrorKind::InvalidTimeComponent => String::from_str("Invalid ").concat(detail),
            ErrorKind::UnsupportedRatio => String::from_str("Unsupported ratio: ").concat(detail),
            ErrorKind::SourceNotFound => String::from_str("Local video file not found: ").concat(
                detail,
            ),
            ErrorKind::InvalidUrl => String::from_str("Invalid URL: ").concat(detail),
            ErrorKind::WorkspaceUnavailable => String::from_str(
                "Failed to create temp dir: ",
            ).concat(detail),
            ErrorKind::ExternalToolMissing => String::from_str(
                "yt-dlp command not found. Please install yt-dlp and ensure it is in your system's PATH.",
            ),
            ErrorKind::ExternalToolFailed => String::from_str(detail),
            ErrorKind::OutputMissing => String::from_str(
                "yt-dlp ran, but the expected output file was not found.",
            ),
            ErrorKind::FetchHttpError => String::from_str(
                "Failed to download video: Failed to download video: HTTP status ",
            ).concat(detail),
            ErrorKind::FetchNetworkError => String::from_str("Failed to download video: ").concat(
                detail,
            ),
            ErrorKind::FetchIoError => String::from_str("Failed to download video: ").concat(
                detail,
            ),
            ErrorKind::InvalidPath => String::from_str("Invalid path: ").concat(detail),
            ErrorKind::ClockOutOfRange => String::from_str(
                "The current time cannot be written as a date.",
            ),
            ErrorKind::NoFreeOutputName => String::from_str(
                "No free name is left for the output file.",
            ),
            ErrorKind::OutputDirUnavailable => String::from_str(
                "Failed to create Downloads directory: ",
            ).concat(detail),
            ErrorKind::EngineSpawnFailed => String::from_str("Failed to execute FFmpeg: ").concat(
                detail,
            ),
            ErrorKind::EngineEventsUnavailable => String::from_str(detail),
            ErrorKind::EngineFailed => String::from_str("FFmpeg failed: ").concat(detail),
            ErrorKind::EngineIncomplete => String::from_str(
                "FFmpeg failed to create the output file or did not finish successfully.",
            ),
            ErrorKind::ProbeSpawnFailed => String::from_str(
                "FFmpeg is not installed or failed to spawn: ",
            ).concat(detail).concat(". Please ensure it's in your PATH."),
            ErrorKind::ProbeIncomplete => String::from_str("FFmpeg did not complete successfully."),
            ErrorKind::UnexpectedEvent => String::from_str(
                "The pipeline was told of something it had not asked for.",
            ),
        }
    }
}

} // verus!
