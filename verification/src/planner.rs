//! The transcode planner: which arguments the engine gets.
//!
//! A plan copies the streams as they are where the frame keeps its shape,
//! and scales, pads and encodes them anew where a target ratio is asked for.
//! It cuts by time only where the input has not been cut already, and it
//! never lets the engine replace a file that exists.

use vstd::prelude::*;
use ffmpeg_sidecar::command::FfmpegCommand;
use crate::engine::{
    command_args, list_arguments, new_command, preset_arguments, push_argument, push_input,
    push_no_overwrite, push_output,
};
use crate::error::{ErrorKind, ErrorView, PipelineError};
use crate::text::{
    decimal_string, decimal_text, has_no_nul, is_digit, lemma_decimal_round_trip,
    lemma_nul_free_concat, nul_free, same_text, texts_of,
};
use crate::time::TimeRange;

verus! {

/// The shape that the frame of the output has.
#[derive(Clone, Copy, Debug, PartialEq, Eq, Structural)]
pub enum AspectRatioTarget {
    /// The shape of the input.
    Original,
    /// 16:9, in a frame of 1280 by 720.
    Wide,
    /// 9:16, in a frame of 720 by 1280.
    Tall,
    /// 1:1, in a frame of 720 by 720.
    Square,
}

/// The target that a ratio string names, if it names one.
pub open spec fn ratio_of(text: Seq<char>) -> Option<AspectRatioTarget> {
    if text == "Original"@ {
        Some(AspectRatioTarget::Original)
    } else if text == "16:9"@ {
        Some(AspectRatioTarget::Wide)
    } else if text == "9:16"@ {
        Some(AspectRatioTarget::Tall)
    } else if text == "1:1"@ {
        Some(AspectRatioTarget::Square)
    } else {
        None
    }
}

/// The error for a ratio string that names no target.
pub open spec fn unsupported_ratio(text: Seq<char>) -> ErrorView {
    ErrorView { kind: ErrorKind::UnsupportedRatio, detail: text }
}

/// Width and height of the frame of a target, in pixels; none where the
/// frame keeps the shape of the input.
pub open spec fn frame_of(target: AspectRatioTarget) -> Option<(nat, nat)> {
    match target {
        AspectRatioTarget::Original => None,
        AspectRatioTarget::Wide => Some((1280, 720)),
        AspectRatioTarget::Tall => Some((720, 1280)),
        AspectRatioTarget::Square => Some((720, 720)),
    }
}

/// The filter chain for a frame: the picture is scaled down to fit the
/// frame with its own shape kept, then padded to the frame, in the middle.
pub open spec fn filter_text(width: nat, height: nat) -> Seq<char> {
    "scale="@ + decimal_text(width) + ":"@ + decimal_text(height)
        + ":force_original_aspect_ratio=decrease,pad="@ + decimal_text(width) + ":"@
        + decimal_text(height) + ":(ow-iw)/2:(oh-ih)/2"@
}

/// The arguments that fit the picture to a frame and encode anew: the
/// filter chain, H.264 at the fastest preset and quality level 28, AAC at
/// 128k, and the index in front for playback while loading.
pub open spec fn encode_arguments(width: nat, height: nat) -> Seq<Seq<char>> {
    seq![
        "-vf"@,
        filter_text(width, height),
        "-c:v"@,
        "libx264"@,
        "-preset"@,
        "ultrafast"@,
        "-crf"@,
        "28"@,
        "-c:a"@,
        "aac"@,
        "-b:a"@,
        "128k"@,
        "-movflags"@,
        "+faststart"@,
    ]
}

/// The arguments that copy the streams without encoding, with the index in
/// front for playback while loading; where the plan itself cuts, time stamps
/// are moved so that none is negative.
pub open spec fn copy_arguments(already_trimmed: bool) -> Seq<Seq<char>> {
    if already_trimmed {
        seq!["-c"@, "copy"@, "-movflags"@, "+faststart"@]
    } else {
        seq!["-c"@, "copy"@, "-avoid_negative_ts"@, "make_zero"@, "-movflags"@, "+faststart"@]
    }
}

/// The arguments that cut by time: none where the input is cut already.
pub open spec fn trim_arguments(
    already_trimmed: bool,
    start: Seq<char>,
    end: Seq<char>,
) -> Seq<Seq<char>> {
    if already_trimmed {
        Seq::empty()
    } else {
        seq!["-ss"@, start, "-to"@, end]
    }
}

/// The arguments that decide how the streams are written.
pub open spec fn codec_arguments(target: AspectRatioTarget, already_trimmed: bool) -> Seq<
    Seq<char>,
> {
    match frame_of(target) {
        None => copy_arguments(already_trimmed),
        Some((width, height)) => encode_arguments(width, height),
    }
}

/// All arguments of a plan, in order: the builder's own, the input, the cut,
/// the codecs, the output, and the order to replace no file that exists.
pub open spec fn plan_arguments(
    input: Seq<char>,
    already_trimmed: bool,
    start: Seq<char>,
    end: Seq<char>,
    target: AspectRatioTarget,
    output: Seq<char>,
) -> Seq<Seq<char>> {
    preset_arguments() + seq!["-i"@, input] + trim_arguments(already_trimmed, start, end)
        + codec_arguments(target, already_trimmed) + seq![output, "-n"@]
}

/// Reads a ratio string. The four strings `Original`, `16:9`, `9:16` and
/// `1:1` name a target; any other is rejected as `UnsupportedRatio`.
pub fn parse_ratio(text: &str) -> (r: Result<AspectRatioTarget, PipelineError>)
    ensures
        match ratio_of(text@) {
            Some(target) => r matches Ok(t) && t == target,
            None => r matches Err(e) && e@ == unsupported_ratio(text@),
        },
{
    if same_text(text, "Original") {
        Ok(AspectRatioTarget::Original)
    } else if same_text(text, "16:9") {
        Ok(AspectRatioTarget::Wide)
    } else if same_text(text, "9:16") {
        Ok(AspectRatioTarget::Tall)
    } else if same_text(text, "1:1") {
        Ok(AspectRatioTarget::Square)
    } else {
        Err(PipelineError::about(ErrorKind::UnsupportedRatio, text))
    }
}

/// Width and height of the frame of a target.
pub fn frame_size(target: AspectRatioTarget) -> (size: Option<(u32, u32)>)
    ensures
        match frame_of(target) {
            Some((width, height)) => size == Some((width as u32, height as u32)),
            None => size is None,
        },
{
    match target {
        AspectRatioTarget::Original => None,
        AspectRatioTarget::Wide => Some((1280, 720)),
        AspectRatioTarget::Tall => Some((720, 1280)),
        AspectRatioTarget::Square => Some((720, 720)),
    }
}

/// A filter chain holds no NUL character.
pub proof fn lemma_filter_text_nul_free(width: nat, height: nat)
    ensures
        nul_free(filter_text(width, height)),
{
    reveal_strlit("scale=");
    reveal_strlit(":");
    reveal_strlit(":force_original_aspect_ratio=decrease,pad=");
    reveal_strlit(":(ow-iw)/2:(oh-ih)/2");
    lemma_decimal_round_trip(width);
    lemma_decimal_round_trip(height);
    let w = decimal_text(width);
    let h = decimal_text(height);
    assert(nul_free(w)) by {
        assert forall|i: int| 0 <= i < w.len() implies #[trigger] w[i] != '\0' by {
            assert(is_digit(w[i]));
        }
    }
    assert(nul_free(h)) by {
        assert forall|i: int| 0 <= i < h.len() implies #[trigger] h[i] != '\0' by {
            assert(is_digit(h[i]));
        }
    }
    let a = "scale="@ + w;
    lemma_nul_free_concat("scale="@, w);
    lemma_nul_free_concat(a, ":"@);
    lemma_nul_free_concat(a + ":"@, h);
    let b = a + ":"@ + h;
    lemma_nul_free_concat(b, ":force_original_aspect_ratio=decrease,pad="@);
    let c = b + ":force_original_aspect_ratio=decrease,pad="@;
    lemma_nul_free_concat(c, w);
    lemma_nul_free_concat(c + w, ":"@);
    lemma_nul_free_concat(c + w + ":"@, h);
    lemma_nul_free_concat(c + w + ":"@ + h, ":(ow-iw)/2:(oh-ih)/2"@);
}

/// The filter chain for a frame of the given width and height.
pub fn filter_chain(width: u32, height: u32) -> (chain: String)
    ensures
        chain@ == filter_text(width as nat, height as nat),
        nul_free(chain@),
{
    proof {
        lemma_filter_text_nul_free(width as nat, height as nat);
    }
    let w = decimal_string(width as u128);
    let h = decimal_string(height as u128);
    let mut chain = String::from_str("scale=");
    chain.append(w.as_str());
    chain.append(":");
    chain.append(h.as_str());
    chain.append(":force_original_aspect_ratio=decrease,pad=");
    chain.append(w.as_str());
    chain.append(":");
    chain.append(h.as_str());
    chain.append(":(ow-iw)/2:(oh-ih)/2");
    chain
}

/// Puts the arguments that fit the picture to a frame of the given width
/// and height, and encode it anew, behind those that `command` holds.
fn push_encode(command: &mut FfmpegCommand, width: u32, height: u32)
    ensures
        command_args(*final(command)) == command_args(*old(command)) + encode_arguments(
            width as nat,
            height as nat,
        ),
{
    proof {
        reveal_strlit("-vf");
        reveal_strlit("-c:v");
        reveal_strlit("libx264");
        reveal_strlit("-preset");
        reveal_strlit("ultrafast");
        reveal_strlit("-crf");
        reveal_strlit("28");
        reveal_strlit("-c:a");
        reveal_strlit("aac");
        reveal_strlit("-b:a");
        reveal_strlit("128k");
        reveal_strlit("-movflags");
        reveal_strlit("+faststart");
    }
    let chain = filter_chain(width, height);
    push_argument(command, "-vf");
    push_argument(command, chain.as_str());
    push_argument(command, "-c:v");
    push_argument(command, "libx264");
    push_argument(command, "-preset");
    push_argument(command, "ultrafast");
    push_argument(command, "-crf");
    push_argument(command, "28");
    push_argument(command, "-c:a");
    push_argument(command, "aac");
    push_argument(command, "-b:a");
    push_argument(command, "128k");
    push_argument(command, "-movflags");
    push_argument(command, "+faststart");
    assert(command_args(*command) =~= command_args(*old(command)) + encode_arguments(
        width as nat,
        height as nat,
    ));
}

/// Puts the arguments that fit the picture to the frame of `ratio`, and
/// encode it anew, behind those that `command` holds.
///
/// `ratio` has to name a frame: `16:9`, `9:16` or `1:1`. Any other string,
/// `Original` too, is rejected as `UnsupportedRatio`, and the command stays
/// as it was.
pub fn apply_aspect_ratio_filter_fast(command: &mut FfmpegCommand, ratio: &str) -> (r: Result<
    (),
    PipelineError,
>)
    ensures
        match ratio_of(ratio@) {
            Some(target) if frame_of(target) is Some => {
                &&& r is Ok
                &&& command_args(*final(command)) == command_args(*old(command))
                    + codec_arguments(target, false)
            },
            _ => {
                &&& r matches Err(e) && e@ == unsupported_ratio(ratio@)
                &&& command_args(*final(command)) == command_args(*old(command))
            },
        },
{
    let target = match parse_ratio(ratio) {
        Ok(target) => target,
        Err(e) => {
            return Err(e);
        },
    };
    match frame_size(target) {
        Some((width, height)) => {
            push_encode(command, width, height);
            Ok(())
        },
        None => Err(PipelineError::about(ErrorKind::UnsupportedRatio, ratio)),
    }
}

/// The mathematical content of a [`TranscodePlan`].
pub ghost struct PlanView {
    /// The file that the engine reads.
    pub input: Seq<char>,
    /// The file that the engine writes.
    pub output: Seq<char>,
    /// All arguments that the engine gets, in order.
    pub arguments: Seq<Seq<char>>,
}

/// What the engine is to do: built once, handed to the engine once.
pub struct TranscodePlan {
    input: String,
    output: String,
    command: FfmpegCommand,
}

impl View for TranscodePlan {
    type V = PlanView;

    closed spec fn view(&self) -> PlanView {
        PlanView {
            input: self.input@,
            output: self.output@,
            arguments: command_args(self.command),
        }
    }
}

impl TranscodePlan {
    /// The file that the engine reads.
    pub fn input(&self) -> (path: &str)
        ensures
            path@ == self@.input,
    {
        self.input.as_str()
    }

    /// The file that the engine writes.
    pub fn output(&self) -> (path: &str)
        ensures
            path@ == self@.output,
    {
        self.output.as_str()
    }

    /// All arguments that the engine gets, in order.
    pub fn arguments(&self) -> (list: Vec<String>)
        ensures
            texts_of(list@) == self@.arguments,
    {
        list_arguments(&self.command)
    }

    /// The command that runs the plan.
    pub fn into_command(self) -> (command: FfmpegCommand)
        ensures
            command_args(command) == self@.arguments,
    {
        self.command
    }
}

/// The error for a path that holds a NUL character.
pub open spec fn invalid_path(path: Seq<char>) -> ErrorView {
    ErrorView { kind: ErrorKind::InvalidPath, detail: path }
}

/// The plan for a target: the error for the input or else the output path
/// if it holds a NUL character, which no argument of a program can hold;
/// else the plan whose arguments are [`plan_arguments`].
pub open spec fn plan_spec(
    input: Seq<char>,
    already_trimmed: bool,
    start: Seq<char>,
    end: Seq<char>,
    target: AspectRatioTarget,
    output: Seq<char>,
) -> Result<PlanView, ErrorView> {
    if !nul_free(input) {
        Err(invalid_path(input))
    } else if !nul_free(output) {
        Err(invalid_path(output))
    } else {
        Ok(
            PlanView {
                input,
                output,
                arguments: plan_arguments(input, already_trimmed, start, end, target, output),
            },
        )
    }
}

/// Plans the engine's run on the file `input`, to the file `output`, for a
/// target that is known: see [`plan_spec`].
///
/// `already_trimmed` says that the input holds the wanted range and nothing
/// else, so that the plan must not cut again.
pub fn plan_for(
    input: &str,
    already_trimmed: bool,
    range: &TimeRange,
    target: AspectRatioTarget,
    output: &str,
) -> (r: Result<TranscodePlan, PipelineError>)
    ensures
        match plan_spec(
            input@,
            already_trimmed,
            range@.start.text,
            range@.end.text,
            target,
            output@,
        ) {
            Ok(plan) => r matches Ok(p) && p@ == plan,
            Err(error) => r matches Err(e) && e@ == error,
        },
{
    if !has_no_nul(input) {
        return Err(PipelineError::about(ErrorKind::InvalidPath, input));
    }
    if !has_no_nul(output) {
        return Err(PipelineError::about(ErrorKind::InvalidPath, output));
    }
    proof {
        reveal_strlit("-ss");
        reveal_strlit("-to");
        reveal_strlit("-c");
        reveal_strlit("copy");
        reveal_strlit("-avoid_negative_ts");
        reveal_strlit("make_zero");
        reveal_strlit("-movflags");
        reveal_strlit("+faststart");
    }
    let mut command = new_command();
    push_input(&mut command, input);
    if !already_trimmed {
        push_argument(&mut command, "-ss");
        push_argument(&mut command, range.start.text());
        push_argument(&mut command, "-to");
        push_argument(&mut command, range.end.text());
    }
    let ghost cut = command_args(command);
    assert(cut =~= preset_arguments() + seq!["-i"@, input@] + trim_arguments(
        already_trimmed,
        range@.start.text,
        range@.end.text,
    ));
    match frame_size(target) {
        None => {
            push_argument(&mut command, "-c");
            push_argument(&mut command, "copy");
            if !already_trimmed {
                push_argument(&mut command, "-avoid_negative_ts");
                push_argument(&mut command, "make_zero");
            }
            push_argument(&mut command, "-movflags");
            push_argument(&mut command, "+faststart");
            assert(command_args(command) =~= cut + copy_arguments(already_trimmed));
        },
        Some((width, height)) => {
            push_encode(&mut command, width, height);
        },
    }
    push_output(&mut command, output);
    push_no_overwrite(&mut command);
    assert(command_args(command) =~= plan_arguments(
        input@,
        already_trimmed,
        range@.start.text,
        range@.end.text,
        target,
        output@,
    ));
    Ok(TranscodePlan { input: String::from_str(input), output: String::from_str(output), command })
}

/// What a ratio string and the rest give: `UnsupportedRatio` for a string
/// that names no target, whatever the paths are; else the plan for the
/// target.
pub open spec fn build_plan_spec(
    input: Seq<char>,
    already_trimmed: bool,
    start: Seq<char>,
    end: Seq<char>,
    ratio: Seq<char>,
    output: Seq<char>,
) -> Result<PlanView, ErrorView> {
    match ratio_of(ratio) {
        None => Err(unsupported_ratio(ratio)),
        Some(target) => plan_spec(input, already_trimmed, start, end, target, output),
    }
}

/// Plans the engine's run on the file `input`, to the file `output`, with
/// the frame fitted to the ratio that `ratio` names: see
/// [`build_plan_spec`].
///
/// The ratio string is read before anything else, and nothing is built for
/// one that names no target.
pub fn build_plan(
    input: &str,
    already_trimmed: bool,
    range: &TimeRange,
    ratio: &str,
    output: &str,
) -> (r: Result<TranscodePlan, PipelineError>)
    ensures
        match build_plan_spec(
            input@,
            already_trimmed,
            range@.start.text,
            range@.end.text,
            ratio@,
            output@,
        ) {
            Ok(plan) => r matches Ok(p) && p@ == plan,
            Err(error) => r matches Err(e) && e@ == error,
        },
{
    match parse_ratio(ratio) {
        Ok(target) => plan_for(input, already_trimmed, range, target, output),
        Err(e) => Err(e),
    }
}

/// `argument` is one of the two options that cut by time.
pub open spec fn is_trim_option(argument: Seq<char>) -> bool {
    argument == "-ss"@ || argument == "-to"@
}

/// None of the arguments that decide how the streams are written is an
/// option that cuts by time.
pub proof fn lemma_codec_arguments_do_not_cut(target: AspectRatioTarget, already_trimmed: bool)
    ensures
        forall|i: int|
            0 <= i < codec_arguments(target, already_trimmed).len() ==> !is_trim_option(
                #[trigger] codec_arguments(target, already_trimmed)[i],
            ),
{
    reveal_strlit("-ss");
    reveal_strlit("-to");
    reveal_strlit("-c");
    reveal_strlit("copy");
    reveal_strlit("-avoid_negative_ts");
    reveal_strlit("make_zero");
    reveal_strlit("-movflags");
    reveal_strlit("+faststart");
    reveal_strlit("-vf");
    reveal_strlit("-c:v");
    reveal_strlit("libx264");
    reveal_strlit("-preset");
    reveal_strlit("ultrafast");
    reveal_strlit("-crf");
    reveal_strlit("28");
    reveal_strlit("-c:a");
    reveal_strlit("aac");
    reveal_strlit("-b:a");
    reveal_strlit("128k");
    reveal_strlit("scale=");
    let list = codec_arguments(target, already_trimmed);
    match frame_of(target) {
        None => {
            assert forall|i: int| 0 <= i < list.len() implies !is_trim_option(#[trigger] list[i]) by {
                assert(list[i].len() != 3 || list[i][1] != 's' && list[i][1] != 't');
            }
        },
        Some((width, height)) => {
            let chain = filter_text(width, height);
            assert(chain[0] == 's');
            assert forall|i: int| 0 <= i < list.len() implies !is_trim_option(#[trigger] list[i]) by {
                if i == 1 {
                    assert(list[i] == chain);
                } else {
                    assert(list[i].len() != 3 || list[i][1] != 's' && list[i][1] != 't');
                }
            }
        },
    }
}

/// The plan for an input that is cut already does not cut again: but for
/// the two places that name the input and the output file, none of its
/// arguments is an option that cuts by time.
pub proof fn lemma_trimmed_plan_does_not_cut(
    input: Seq<char>,
    start: Seq<char>,
    end: Seq<char>,
    target: AspectRatioTarget,
    output: Seq<char>,
)
    ensures
        ({
            let plan = plan_arguments(input, true, start, end, target, output);
            &&& plan.len() >= 5
            &&& plan[3] == input
            &&& plan[plan.len() - 2] == output
            &&& forall|i: int|
                0 <= i < plan.len() && i != 3 && i != plan.len() - 2 ==> !is_trim_option(
                    #[trigger] plan[i],
                )
        }),
{
    reveal_strlit("-ss");
    reveal_strlit("-to");
    reveal_strlit("-loglevel");
    reveal_strlit("level+info");
    reveal_strlit("-i");
    reveal_strlit("-n");
    let plan = plan_arguments(input, true, start, end, target, output);
    let codec = codec_arguments(target, true);
    lemma_codec_arguments_do_not_cut(target, true);
    assert(plan =~= seq!["-loglevel"@, "level+info"@, "-i"@, input] + codec + seq![output, "-n"@]);
    assert(plan.len() == codec.len() + 6);
    assert forall|i: int| 0 <= i < plan.len() && i != 3 && i != plan.len() - 2 implies !is_trim_option(
        #[trigger] plan[i],
    ) by {
        if i == 0 {
            assert(plan[i] == "-loglevel"@);
        } else if i == 1 {
            assert(plan[i] == "level+info"@);
            assert("level+info"@.len() == 10 && "-ss"@.len() == 3 && "-to"@.len() == 3);
        } else if i == 2 {
            assert(plan[i] == "-i"@);
            assert("-i"@.len() == 2 && "-ss"@.len() == 3 && "-to"@.len() == 3);
        } else if i < 4 + codec.len() {
            assert(plan[i] == codec[i - 4]);
        } else {
            assert(plan[i] == "-n"@);
        }
    }
}

/// Every plan ends with the output file and, behind it, the order to
/// replace no file that exists.
pub proof fn lemma_plan_replaces_no_file(
    input: Seq<char>,
    already_trimmed: bool,
    start: Seq<char>,
    end: Seq<char>,
    target: AspectRatioTarget,
    output: Seq<char>,
)
    ensures
        ({
            let plan = plan_arguments(input, already_trimmed, start, end, target, output);
            &&& plan.len() >= 2
            &&& plan[plan.len() - 2] == output
            &&& plan[plan.len() - 1] == "-n"@
        }),
{
}

/// The plan for an input that is not cut yet cuts it: right behind the
/// input stand the start option with the start and the end option with the
/// end.
pub proof fn lemma_untrimmed_plan_cuts(
    input: Seq<char>,
    start: Seq<char>,
    end: Seq<char>,
    target: AspectRatioTarget,
    output: Seq<char>,
)
    ensures
        ({
            let plan = plan_arguments(input, false, start, end, target, output);
            &&& plan.len() >= 8
            &&& plan[3] == input
            &&& plan.subrange(4, 8) == seq!["-ss"@, start, "-to"@, end]
        }),
{
    let plan = plan_arguments(input, false, start, end, target, output);
    assert(plan.subrange(4, 8) =~= seq!["-ss"@, start, "-to"@, end]);
}


} // verus!
