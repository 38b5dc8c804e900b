use video_trimmer::error::ErrorKind;
use video_trimmer::planner::{
    apply_aspect_ratio_filter_fast, build_plan, filter_chain, frame_size, parse_ratio, plan_for,
    AspectRatioTarget,
};
use video_trimmer::readiness::probe_command;
use video_trimmer::time::TimeRange;

fn range() -> TimeRange {
    TimeRange::parse("00:00:05", "00:00:10").unwrap()
}

fn arguments(already_trimmed: bool, ratio: &str) -> Vec<String> {
    build_plan("in.mp4", already_trimmed, &range(), ratio, "out.mp4").unwrap().arguments()
}

fn encode(width: u32, height: u32) -> Vec<String> {
    let chain = format!(
        "scale={width}:{height}:force_original_aspect_ratio=decrease,pad={width}:{height}:(ow-iw)/2:(oh-ih)/2"
    );
    vec![
        "-vf", &chain, "-c:v", "libx264", "-preset", "ultrafast", "-crf", "28", "-c:a", "aac",
        "-b:a", "128k", "-movflags", "+faststart",
    ]
    .into_iter()
    .map(String::from)
    .collect()
}

fn strings(list: &[&str]) -> Vec<String> {
    list.iter().map(|s| s.to_string()).collect()
}

#[test]
fn the_four_ratios() {
    assert_eq!(parse_ratio("Original").unwrap(), AspectRatioTarget::Original);
    assert_eq!(parse_ratio("16:9").unwrap(), AspectRatioTarget::Wide);
    assert_eq!(parse_ratio("9:16").unwrap(), AspectRatioTarget::Tall);
    assert_eq!(parse_ratio("1:1").unwrap(), AspectRatioTarget::Square);
}

#[test]
fn any_other_ratio_is_rejected() {
    for text in ["4:3", "", "original", "16:9 ", "16x9", "1:1:1"] {
        let error = parse_ratio(text).err().unwrap();
        assert_eq!(error.kind, ErrorKind::UnsupportedRatio);
        assert_eq!(error.detail, text);
        assert_eq!(error.message(), format!("Unsupported ratio: {text}"));
    }
}

#[test]
fn frames() {
    assert_eq!(frame_size(AspectRatioTarget::Original), None);
    assert_eq!(frame_size(AspectRatioTarget::Wide), Some((1280, 720)));
    assert_eq!(frame_size(AspectRatioTarget::Tall), Some((720, 1280)));
    assert_eq!(frame_size(AspectRatioTarget::Square), Some((720, 720)));
}

#[test]
fn the_filter_chain_of_a_frame() {
    assert_eq!(
        filter_chain(1280, 720),
        "scale=1280:720:force_original_aspect_ratio=decrease,pad=1280:720:(ow-iw)/2:(oh-ih)/2"
    );
    assert_eq!(
        filter_chain(720, 1280),
        "scale=720:1280:force_original_aspect_ratio=decrease,pad=720:1280:(ow-iw)/2:(oh-ih)/2"
    );
    assert_eq!(
        filter_chain(720, 720),
        "scale=720:720:force_original_aspect_ratio=decrease,pad=720:720:(ow-iw)/2:(oh-ih)/2"
    );
}

#[test]
fn trimmed_input_with_its_own_shape_is_copied_without_a_cut() {
    assert_eq!(
        arguments(true, "Original"),
        strings(&[
            "-loglevel", "level+info", "-i", "in.mp4", "-c", "copy", "-movflags", "+faststart",
            "out.mp4", "-n",
        ])
    );
}

#[test]
fn untrimmed_input_with_its_own_shape_is_cut_and_copied() {
    assert_eq!(
        arguments(false, "Original"),
        strings(&[
            "-loglevel", "level+info", "-i", "in.mp4", "-ss", "00:00:05", "-to", "00:00:10",
            "-c", "copy", "-avoid_negative_ts", "make_zero", "-movflags", "+faststart",
            "out.mp4", "-n",
        ])
    );
}

#[test]
fn trimmed_input_with_a_frame_is_encoded_without_a_cut() {
    for (ratio, width, height) in [("16:9", 1280, 720), ("9:16", 720, 1280), ("1:1", 720, 720)] {
        let mut expected = strings(&["-loglevel", "level+info", "-i", "in.mp4"]);
        expected.extend(encode(width, height));
        expected.extend(strings(&["out.mp4", "-n"]));
        assert_eq!(arguments(true, ratio), expected);
    }
}

#[test]
fn untrimmed_input_with_a_frame_is_cut_and_encoded() {
    for (ratio, width, height) in [("16:9", 1280, 720), ("9:16", 720, 1280), ("1:1", 720, 720)] {
        let mut expected = strings(&[
            "-loglevel", "level+info", "-i", "in.mp4", "-ss", "00:00:05", "-to", "00:00:10",
        ]);
        expected.extend(encode(width, height));
        expected.extend(strings(&["out.mp4", "-n"]));
        assert_eq!(arguments(false, ratio), expected);
    }
}

#[test]
fn a_trimmed_plan_never_holds_a_trim_option() {
    for ratio in ["Original", "16:9", "9:16", "1:1"] {
        let list = arguments(true, ratio);
        assert!(!list.iter().any(|a| a == "-ss" || a == "-to"));
        let list = arguments(false, ratio);
        assert_eq!(list[4..8], strings(&["-ss", "00:00:05", "-to", "00:00:10"])[..]);
    }
}

#[test]
fn the_cut_is_given_in_the_words_of_the_time_strings() {
    let range = TimeRange::parse("0:1:2.50", "1:0:0").unwrap();
    let plan = build_plan("a b.mkv", false, &range, "Original", "/tmp/o.mp4").unwrap();
    assert_eq!(plan.input(), "a b.mkv");
    assert_eq!(plan.output(), "/tmp/o.mp4");
    let list = plan.arguments();
    assert_eq!(list[2..8], strings(&["-i", "a b.mkv", "-ss", "0:1:2.50", "-to", "1:0:0"])[..]);
}

#[test]
fn a_plan_needs_a_known_ratio() {
    for trimmed in [true, false] {
        let error = build_plan("in.mp4", trimmed, &range(), "4:3", "out.mp4").err().unwrap();
        assert_eq!(error.kind, ErrorKind::UnsupportedRatio);
        assert_eq!(error.message(), "Unsupported ratio: 4:3");
    }
}

#[test]
fn the_ratio_is_read_before_the_paths() {
    let error = build_plan("in\0.mp4", true, &range(), "4:3", "out\0.mp4").err().unwrap();
    assert_eq!(error.kind, ErrorKind::UnsupportedRatio);
}

#[test]
fn a_path_with_a_nul_character_cannot_be_planned_on() {
    let error = build_plan("in\0.mp4", false, &range(), "Original", "out.mp4").err().unwrap();
    assert_eq!(error.kind, ErrorKind::InvalidPath);
    assert_eq!(error.detail, "in\0.mp4");
    assert_eq!(error.message(), "Invalid path: in\0.mp4");
    let error = build_plan("in.mp4", false, &range(), "16:9", "\0").err().unwrap();
    assert_eq!(error.kind, ErrorKind::InvalidPath);
    assert_eq!(error.detail, "\0");
    let error = build_plan("a\0", true, &range(), "1:1", "b\0").err().unwrap();
    assert_eq!(error.detail, "a\0");
}

#[test]
fn a_plan_for_a_target() {
    let plan = plan_for("in.mp4", true, &range(), AspectRatioTarget::Original, "out.mp4").unwrap();
    assert_eq!(plan.arguments(), arguments(true, "Original"));
    let plan = plan_for("in.mp4", false, &range(), AspectRatioTarget::Tall, "out.mp4").unwrap();
    assert_eq!(plan.arguments(), arguments(false, "9:16"));
    let error =
        plan_for("in.mp4", false, &range(), AspectRatioTarget::Tall, "o\0").err().unwrap();
    assert_eq!(error.kind, ErrorKind::InvalidPath);
}

#[test]
fn every_plan_forbids_the_engine_to_replace_a_file() {
    for ratio in ["Original", "16:9", "9:16", "1:1"] {
        for trimmed in [true, false] {
            let list = arguments(trimmed, ratio);
            assert_eq!(list[list.len() - 2..], strings(&["out.mp4", "-n"])[..]);
            assert!(!list.iter().any(|a| a == "-y"));
        }
    }
}

#[test]
fn the_command_of_a_plan_holds_its_arguments() {
    let plan = build_plan("in.mp4", true, &range(), "1:1", "out.mp4").unwrap();
    let expected = plan.arguments();
    let command = plan.into_command();
    let held: Vec<String> =
        command.get_args().map(|a| a.to_string_lossy().into_owned()).collect();
    assert_eq!(held, expected);
    assert_eq!(held.len(), 20);
}

#[test]
fn the_filter_is_put_behind_what_a_command_holds() {
    let mut command = probe_command();
    let before: Vec<String> =
        command.get_args().map(|a| a.to_string_lossy().into_owned()).collect();
    apply_aspect_ratio_filter_fast(&mut command, "9:16").unwrap();
    let after: Vec<String> =
        command.get_args().map(|a| a.to_string_lossy().into_owned()).collect();
    let mut expected = before.clone();
    expected.extend(encode(720, 1280));
    assert_eq!(after, expected);
}

#[test]
fn the_filter_needs_a_frame() {
    for ratio in ["Original", "4:3", ""] {
        let mut command = probe_command();
        let before: Vec<String> =
            command.get_args().map(|a| a.to_string_lossy().into_owned()).collect();
        let error = apply_aspect_ratio_filter_fast(&mut command, ratio).err().unwrap();
        assert_eq!(error.kind, ErrorKind::UnsupportedRatio);
        assert_eq!(error.detail, ratio);
        let after: Vec<String> =
            command.get_args().map(|a| a.to_string_lossy().into_owned()).collect();
        assert_eq!(after, before);
    }
}
