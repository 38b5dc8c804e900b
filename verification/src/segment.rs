//! The segment downloader's decisions.
//!
//! A video on a streaming platform is not downloaded whole. The segment
//! tool is asked for the wanted range alone, with key frames forced at both
//! cuts, so that time and disk space grow with the clip and not with the
//! video. The caller runs the tool and reports how it ended.

use vstd::prelude::*;
use crate::error::{ErrorKind, ErrorView, PipelineError};
use crate::text::texts_of;
use crate::time::{seconds_text, RangeView, TimeRange};

verus! {

/// The name of the segment tool's program.
pub open spec fn tool_name() -> Seq<char> {
    "yt-dlp"@
}

/// The name of the file that the tool is to write.
pub open spec fn segment_name() -> Seq<char> {
    "video.mp4"@
}

/// The range in the tool's words: a star, the start in seconds, a hyphen,
/// the end in seconds.
pub open spec fn range_expression(range: RangeView) -> Seq<char> {
    "*"@ + seconds_text(range.start.millis) + "-"@ + seconds_text(range.end.millis)
}

/// The arguments of the segment tool: the best MP4 that there is, the
/// range alone, key frames at the cuts, four fragments at a time, no
/// modification time taken over, the output file, and the address.
pub open spec fn segment_arguments(
    address: Seq<char>,
    output: Seq<char>,
    range: RangeView,
) -> Seq<Seq<char>> {
    seq![
        "-f"@,
        "best[ext=mp4]/best"@,
        "--download-sections"@,
        range_expression(range),
        "--force-keyframes-at-cuts"@,
        "--concurrent-fragments"@,
        "4"@,
        "--no-mtime"@,
        "-o"@,
        output,
        address,
    ]
}

/// The name of the segment tool's program.
pub fn segment_tool() -> (name: &'static str)
    ensures
        name@ == tool_name(),
{
    "yt-dlp"
}

/// The name of the file that the tool is to write, inside the workspace.
pub fn segment_file_name() -> (name: &'static str)
    ensures
        name@ == segment_name(),
{
    "video.mp4"
}

/// The range in the tool's words.
pub fn download_sections(range: &TimeRange) -> (expression: String)
    ensures
        expression@ == range_expression(range@),
{
    let mut expression = String::from_str("*");
    let start = range.start.seconds();
    let end = range.end.seconds();
    expression.append(start.as_str());
    expression.append("-");
    expression.append(end.as_str());
    expression
}

/// The arguments with which the segment tool fetches the range `range` of
/// the video at `address` into the file `output`.
pub fn segment_tool_arguments(address: &str, output: &str, range: &TimeRange) -> (list: Vec<String>)
    ensures
        texts_of(list@) == segment_arguments(address@, output@, range@),
{
    let mut list: Vec<String> = Vec::new();
    list.push(String::from_str("-f"));
    list.push(String::from_str("best[ext=mp4]/best"));
    list.push(String::from_str("--download-sections"));
    list.push(download_sections(range));
    list.push(String::from_str("--force-keyframes-at-cuts"));
    list.push(String::from_str("--concurrent-fragments"));
    list.push(String::from_str("4"));
    list.push(String::from_str("--no-mtime"));
    list.push(String::from_str("-o"));
    list.push(String::from_str(output));
    list.push(String::from_str(address));
    assert(texts_of(list@) =~= segment_arguments(address@, output@, range@));
    list
}

/// The mathematical content of a [`ToolRun`].
pub ghost enum ToolRunView {
    NotFound,
    LaunchFailed(Seq<char>),
    Exited { success: bool },
}

/// How a run of the segment tool ended.
#[derive(Debug)]
pub enum ToolRun {
    /// The program was not found.
    NotFound,
    /// The program could not be started, for the reason given.
    LaunchFailed(String),
    /// The program ran and exited, with or without success.
    Exited { success: bool },
}

impl View for ToolRun {
    type V = ToolRunView;

    open spec fn view(&self) -> ToolRunView {
        match self {
            ToolRun::NotFound => ToolRunView::NotFound,
            ToolRun::LaunchFailed(reason) => ToolRunView::LaunchFailed(reason@),
            ToolRun::Exited { success } => ToolRunView::Exited { success: *success },
        }
    }
}

/// The message for a tool that exited without success.
pub open spec fn exit_failure_text() -> Seq<char> {
    "yt-dlp failed to download the video segment. The URL might be invalid, private, or require a login."@
}

/// The message for a tool that was found and could not be started.
pub open spec fn launch_failure_text(reason: Seq<char>) -> Seq<char> {
    "Failed to execute yt-dlp: "@ + reason
}

/// The judgement on a segment download: `ExternalToolMissing` where the
/// program was not found, `ExternalToolFailed` where it could not be
/// started or exited without success, `OutputMissing` where it exited with
/// success and its file is not there, and success else.
pub open spec fn segment_verdict(run: ToolRunView, output_exists: bool) -> Result<(), ErrorView> {
    match run {
        ToolRunView::NotFound => Err(
            ErrorView { kind: ErrorKind::ExternalToolMissing, detail: Seq::empty() },
        ),
        ToolRunView::LaunchFailed(reason) => Err(
            ErrorView { kind: ErrorKind::ExternalToolFailed, detail: launch_failure_text(reason) },
        ),
        ToolRunView::Exited { success } => if !success {
            Err(ErrorView { kind: ErrorKind::ExternalToolFailed, detail: exit_failure_text() })
        } else if !output_exists {
            Err(ErrorView { kind: ErrorKind::OutputMissing, detail: Seq::empty() })
        } else {
            Ok(())
        },
    }
}

/// Judges a segment download by how the tool ended and by whether its
/// output file exists: see [`segment_verdict`].
pub fn judge_segment_download(run: &ToolRun, output_exists: bool) -> (r: Result<(), PipelineError>)
    ensures
        match segment_verdict(run@, output_exists) {
            Ok(_) => r is Ok,
            Err(error) => r matches Err(e) && e@ == error,
        },
{
    match run {
        ToolRun::NotFound => Err(PipelineError::bare(ErrorKind::ExternalToolMissing)),
        ToolRun::LaunchFailed(reason) => {
            let detail = String::from_str("Failed to execute yt-dlp: ").concat(reason.as_str());
            Err(PipelineError { kind: ErrorKind::ExternalToolFailed, detail })
        },
        ToolRun::Exited { success } => {
            if !*success {
                Err(
                    PipelineError::about(
                        ErrorKind::ExternalToolFailed,
                        "yt-dlp failed to download the video segment. The URL might be invalid, private, or require a login.",
                    ),
                )
            } else if !output_exists {
                Err(PipelineError::bare(ErrorKind::OutputMissing))
            } else {
                Ok(())
            }
        },
    }
}

} // verus!
