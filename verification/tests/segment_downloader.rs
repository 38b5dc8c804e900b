use video_trimmer::error::ErrorKind;
use video_trimmer::segment::{
    download_sections, judge_segment_download, segment_file_name, segment_tool,
    segment_tool_arguments, ToolRun,
};
use video_trimmer::time::TimeRange;

#[test]
fn the_tool_and_its_file() {
    assert_eq!(segment_tool(), "yt-dlp");
    assert_eq!(segment_file_name(), "video.mp4");
}

#[test]
fn the_range_in_seconds() {
    let range = TimeRange::parse("00:00:05", "00:00:10").unwrap();
    assert_eq!(download_sections(&range), "*5-10");
    let range = TimeRange::parse("01:02:03", "01:02:03.5").unwrap();
    assert_eq!(download_sections(&range), "*3723-3723.5");
    let range = TimeRange::parse("00:00:10", "00:00:00").unwrap();
    assert_eq!(download_sections(&range), "*10-0");
}

#[test]
fn the_arguments_of_the_tool() {
    let range = TimeRange::parse("00:01:00", "00:01:30.25").unwrap();
    let list = segment_tool_arguments("https://youtu.be/abc", "/tmp/w/video.mp4", &range);
    assert_eq!(
        list,
        vec![
            "-f",
            "best[ext=mp4]/best",
            "--download-sections",
            "*60-90.25",
            "--force-keyframes-at-cuts",
            "--concurrent-fragments",
            "4",
            "--no-mtime",
            "-o",
            "/tmp/w/video.mp4",
            "https://youtu.be/abc",
        ]
    );
}

#[test]
fn a_tool_that_is_not_there() {
    for exists in [true, false] {
        let error = judge_segment_download(&ToolRun::NotFound, exists).err().unwrap();
        assert_eq!(error.kind, ErrorKind::ExternalToolMissing);
        assert_eq!(
            error.message(),
            "yt-dlp command not found. Please install yt-dlp and ensure it is in your system's PATH."
        );
    }
}

#[test]
fn a_tool_that_does_not_start() {
    let run = ToolRun::LaunchFailed("permission denied".to_string());
    let error = judge_segment_download(&run, true).err().unwrap();
    assert_eq!(error.kind, ErrorKind::ExternalToolFailed);
    assert_eq!(error.message(), "Failed to execute yt-dlp: permission denied");
}

#[test]
fn a_tool_that_exits_with_failure() {
    for exists in [true, false] {
        let error =
            judge_segment_download(&ToolRun::Exited { success: false }, exists).err().unwrap();
        assert_eq!(error.kind, ErrorKind::ExternalToolFailed);
        assert_eq!(
            error.message(),
            "yt-dlp failed to download the video segment. The URL might be invalid, private, or require a login."
        );
    }
}

#[test]
fn a_tool_that_leaves_no_file() {
    let error = judge_segment_download(&ToolRun::Exited { success: true }, false).err().unwrap();
    assert_eq!(error.kind, ErrorKind::OutputMissing);
    assert_eq!(error.message(), "yt-dlp ran, but the expected output file was not found.");
}

#[test]
fn a_tool_that_succeeds() {
    assert!(judge_segment_download(&ToolRun::Exited { success: true }, true).is_ok());
}
