//! The pipeline orchestrator: what is done, and in which order.
//!
//! A pipeline moves from `Idle` through `Resolving`, `Planning` and
//! `Transcoding` to `Succeeded` or `Failed`, and never back. It does
//! nothing by itself: each step takes what the caller reports and returns
//! what the caller is to do next. A remote source is fetched into a
//! temporary workspace. The pipeline does not finish, well or badly, before
//! the caller has removed that workspace.
//!
//! The time strings and the ratio string are read when the pipeline is
//! made: for one that is wrong there is no pipeline, and so nothing is
//! fetched or run. The engine is handed an output path only where the
//! caller has found no file.

use vstd::prelude::*;
use crate::error::{ErrorKind, ErrorView, PipelineError};
use crate::naming::{lemma_attempts_differ, output_file_name, output_name, output_stamp, stamp_at};
use crate::planner::{
    parse_ratio, plan_arguments, plan_for, plan_spec, ratio_of, trim_arguments,
    unsupported_ratio, AspectRatioTarget, PlanView, TranscodePlan,
};
use crate::runner::{verdict_spec, MonitorView, RunMonitor};
use crate::segment::{
    judge_segment_download, segment_arguments, segment_file_name, segment_name, segment_tool_arguments,
    segment_verdict, ToolRun, ToolRunView,
};
use crate::source::{
    classify_source, classify_spec, download_file_name, download_name, is_segment_trimmed,
    SourceKind,
};
use crate::text::{nul_free, texts_of};
use crate::time::{parse_range_spec, RangeView, TimeRange};

verus! {

/// How far a pipeline has come.
#[derive(Clone, Copy, Debug, PartialEq, Eq, Structural)]
pub enum Stage {
    Idle,
    Resolving,
    Planning,
    Transcoding,
    Succeeded,
    Failed,
}

/// What a pipeline waits to be told.
#[derive(Clone, Copy, Debug, PartialEq, Eq, Structural)]
pub enum Awaiting {
    /// That it may begin.
    Start,
    /// Whether the local source exists.
    SourceCheck,
    /// That the workspace has been created.
    Workspace,
    /// How the segment tool ended.
    SegmentTool,
    /// How the download ended.
    Fetch,
    /// What time it is.
    Clock,
    /// Where the output file goes.
    OutputPath,
    /// How the engine's run went.
    Engine,
    /// That the workspace has been removed.
    Release,
    /// Nothing: the pipeline has finished.
    Nothing,
}

/// The mathematical content of a [`PipelineEvent`].
pub ghost enum PipelineEventView {
    Begin,
    SourceChecked { exists: bool },
    WorkspaceReady { file_path: Seq<char> },
    WorkspaceFailed { reason: Seq<char> },
    SegmentToolFinished { run: ToolRunView, output_exists: bool },
    FetchSucceeded,
    FetchFailed { error: ErrorView },
    ClockRead { seconds: int },
    OutputPathReady { path: Seq<char>, occupied: bool },
    OutputDirFailed { reason: Seq<char> },
    EngineSpawnFailed { reason: Seq<char> },
    EngineEventsUnavailable { reason: Seq<char> },
    EngineRan { seen: MonitorView, output_exists: bool },
    WorkspaceReleased,
}

/// What the caller reports to a pipeline.
pub enum PipelineEvent {
    /// The pipeline may begin.
    Begin,
    /// The local source was looked for.
    SourceChecked { exists: bool },
    /// The workspace exists; `file_path` is the path, inside it, of the
    /// file that was named.
    WorkspaceReady { file_path: String },
    /// The workspace could not be created.
    WorkspaceFailed { reason: String },
    /// The segment tool has ended; `output_exists` says whether its file
    /// is there.
    SegmentToolFinished { run: ToolRun, output_exists: bool },
    /// The download is complete.
    FetchSucceeded,
    /// The download has failed with the error that its session gave.
    FetchFailed { error: PipelineError },
    /// The clock was read: seconds since 1970, in UTC.
    ClockRead { seconds: i64 },
    /// The output directory exists; `path` is the path, inside it, of the
    /// file that was named, and `occupied` says whether a file stands
    /// there already.
    OutputPathReady { path: String, occupied: bool },
    /// The output directory could not be created.
    OutputDirFailed { reason: String },
    /// The engine could not be started.
    EngineSpawnFailed { reason: String },
    /// The engine started and its events cannot be read.
    EngineEventsUnavailable { reason: String },
    /// The engine's events were read by `monitor`; `output_exists` says
    /// whether the output file is there.
    EngineRan { monitor: RunMonitor, output_exists: bool },
    /// The workspace and what it held have been removed.
    WorkspaceReleased,
}

impl View for PipelineEvent {
    type V = PipelineEventView;

    open spec fn view(&self) -> PipelineEventView {
        match self {
            PipelineEvent::Begin => PipelineEventView::Begin,
            PipelineEvent::SourceChecked { exists } => PipelineEventView::SourceChecked {
                exists: *exists,
            },
            PipelineEvent::WorkspaceReady { file_path } => PipelineEventView::WorkspaceReady {
                file_path: file_path@,
            },
            PipelineEvent::WorkspaceFailed { reason } => PipelineEventView::WorkspaceFailed {
                reason: reason@,
            },
            PipelineEvent::SegmentToolFinished {
                run,
                output_exists,
            } => PipelineEventView::SegmentToolFinished { run: run@, output_exists: *output_exists },
            PipelineEvent::FetchSucceeded => PipelineEventView::FetchSucceeded,
            PipelineEvent::FetchFailed { error } => PipelineEventView::FetchFailed { error: error@ },
            PipelineEvent::ClockRead { seconds } => PipelineEventView::ClockRead {
                seconds: *seconds as int,
            },
            PipelineEvent::OutputPathReady {
                path,
                occupied,
            } => PipelineEventView::OutputPathReady { path: path@, occupied: *occupied },
            PipelineEvent::OutputDirFailed { reason } => PipelineEventView::OutputDirFailed {
                reason: reason@,
            },
            PipelineEvent::EngineSpawnFailed { reason } => PipelineEventView::EngineSpawnFailed {
                reason: reason@,
            },
            PipelineEvent::EngineEventsUnavailable {
                reason,
            } => PipelineEventView::EngineEventsUnavailable { reason: reason@ },
            PipelineEvent::EngineRan { monitor, output_exists } => PipelineEventView::EngineRan {
                seen: monitor@,
                output_exists: *output_exists,
            },
            PipelineEvent::WorkspaceReleased => PipelineEventView::WorkspaceReleased,
        }
    }
}

/// The mathematical content of an [`Action`].
pub ghost enum ActionView {
    CheckSource { path: Seq<char> },
    CreateWorkspace { file_name: Seq<char> },
    RunSegmentTool { arguments: Seq<Seq<char>>, output: Seq<char> },
    FetchUrl { address: Seq<char>, destination: Seq<char> },
    ReadClock,
    PrepareOutput { file_name: Seq<char> },
    RunEngine { plan: PlanView },
    ReleaseWorkspace,
    Finish { result: Result<Seq<char>, ErrorView> },
}

/// What the caller is to do next.
pub enum Action {
    /// Look whether the file at `path` exists.
    CheckSource { path: String },
    /// Create a temporary workspace and report the path of `file_name`
    /// inside it.
    CreateWorkspace { file_name: String },
    /// Run the segment tool with these arguments, then look whether the
    /// file `output` exists.
    RunSegmentTool { arguments: Vec<String>, output: String },
    /// Download `address` into the file `destination`.
    FetchUrl { address: String, destination: String },
    /// Read the clock.
    ReadClock,
    /// Find the output directory, create it if it is not there, and report
    /// the path of `file_name` inside it and whether a file stands there.
    PrepareOutput { file_name: String },
    /// Run the engine as planned, then look whether the output file exists.
    RunEngine { plan: TranscodePlan },
    /// Remove the workspace and what it holds.
    ReleaseWorkspace,
    /// Return `result`: the pipeline has finished.
    Finish { result: Result<String, PipelineError> },
}

/// The mathematical content of the result of a pipeline.
pub open spec fn result_view(result: Result<String, PipelineError>) -> Result<
    Seq<char>,
    ErrorView,
> {
    match result {
        Ok(message) => Ok(message@),
        Err(error) => Err(error@),
    }
}

impl View for Action {
    type V = ActionView;

    open spec fn view(&self) -> ActionView {
        match self {
            Action::CheckSource { path } => ActionView::CheckSource { path: path@ },
            Action::CreateWorkspace { file_name } => ActionView::CreateWorkspace {
                file_name: file_name@,
            },
            Action::RunSegmentTool { arguments, output } => ActionView::RunSegmentTool {
                arguments: texts_of(arguments@),
                output: output@,
            },
            Action::FetchUrl { address, destination } => ActionView::FetchUrl {
                address: address@,
                destination: destination@,
            },
            Action::ReadClock => ActionView::ReadClock,
            Action::PrepareOutput { file_name } => ActionView::PrepareOutput {
                file_name: file_name@,
            },
            Action::RunEngine { plan } => ActionView::RunEngine { plan: plan@ },
            Action::ReleaseWorkspace => ActionView::ReleaseWorkspace,
            Action::Finish { result } => ActionView::Finish { result: result_view(*result) },
        }
    }
}

/// The mathematical content of a [`Pipeline`].
pub ghost struct PipelineView {
    /// The source descriptor.
    pub source: Seq<char>,
    /// The range to cut out.
    pub range: RangeView,
    /// The shape that the frame of the output gets.
    pub target: AspectRatioTarget,
    /// How far the pipeline has come.
    pub stage: Stage,
    /// What it waits to be told.
    pub awaiting: Awaiting,
    /// A workspace exists and has not been removed.
    pub workspace_held: bool,
    /// The local file that the engine reads, once the source is resolved.
    pub media: Seq<char>,
    /// The stamp of the output file's name, once the clock is read.
    pub stamp: Seq<char>,
    /// How many names under that stamp were found taken.
    pub attempt: nat,
    /// The file that the engine writes, once it is known.
    pub output: Seq<char>,
    /// The result that is returned once the workspace is removed.
    pub verdict: Option<Result<Seq<char>, ErrorView>>,
}

/// A pipeline that has not begun.
pub open spec fn initial(
    source: Seq<char>,
    range: RangeView,
    target: AspectRatioTarget,
) -> PipelineView {
    PipelineView {
        source,
        range,
        target,
        stage: Stage::Idle,
        awaiting: Awaiting::Start,
        workspace_held: false,
        media: Seq::empty(),
        stamp: Seq::empty(),
        attempt: 0,
        output: Seq::empty(),
        verdict: None,
    }
}

/// What the four strings of a request give: the error of the first time
/// string that is none, the start before the end; else `UnsupportedRatio`
/// for a ratio string that names no target; else a pipeline that has not
/// begun.
pub open spec fn new_spec(
    source: Seq<char>,
    start: Seq<char>,
    end: Seq<char>,
    ratio: Seq<char>,
) -> Result<PipelineView, ErrorView> {
    match parse_range_spec(start, end) {
        Err(error) => Err(error),
        Ok(range) => match ratio_of(ratio) {
            None => Err(unsupported_ratio(ratio)),
            Some(target) => Ok(initial(source, range, target)),
        },
    }
}

/// The error for an output file that can get no name.
pub open spec fn no_free_name() -> ErrorView {
    ErrorView { kind: ErrorKind::NoFreeOutputName, detail: Seq::empty() }
}

/// The message of a pipeline that has succeeded.
pub open spec fn success_text(output: Seq<char>) -> Seq<char> {
    "Video trimmed successfully! Saved to: "@ + output
}

/// The error for a report that the pipeline does not wait for.
pub open spec fn unexpected() -> ErrorView {
    ErrorView { kind: ErrorKind::UnexpectedEvent, detail: Seq::empty() }
}

/// The pipeline after it has finished with `result`.
pub open spec fn finished(p: PipelineView, result: Result<Seq<char>, ErrorView>) -> PipelineView {
    PipelineView {
        stage: if result is Ok {
            Stage::Succeeded
        } else {
            Stage::Failed
        },
        awaiting: Awaiting::Nothing,
        workspace_held: false,
        verdict: None,
        ..p
    }
}

/// The way to the end with `result`: at once where no workspace is held,
/// else by way of its removal.
pub open spec fn conclude(p: PipelineView, result: Result<Seq<char>, ErrorView>) -> (
    PipelineView,
    ActionView,
) {
    if p.workspace_held {
        (
            PipelineView { awaiting: Awaiting::Release, verdict: Some(result), ..p },
            ActionView::ReleaseWorkspace,
        )
    } else {
        (finished(p, result), ActionView::Finish { result })
    }
}

/// The way on to planning, once the source is resolved.
pub open spec fn plan_next(p: PipelineView) -> (PipelineView, ActionView) {
    (PipelineView { stage: Stage::Planning, awaiting: Awaiting::Clock, ..p }, ActionView::ReadClock)
}

/// The first step: by the kind of the source, look for the local file, or
/// ask for a workspace with the file that the source is fetched into.
pub open spec fn begin_step(p: PipelineView) -> (PipelineView, ActionView) {
    match classify_spec(p.source) {
        SourceKind::LocalPath => (
            PipelineView { stage: Stage::Resolving, awaiting: Awaiting::SourceCheck, ..p },
            ActionView::CheckSource { path: p.source },
        ),
        SourceKind::StreamingPlatformUrl => (
            PipelineView { stage: Stage::Resolving, awaiting: Awaiting::Workspace, ..p },
            ActionView::CreateWorkspace { file_name: segment_name() },
        ),
        SourceKind::GenericUrl => match download_name(p.source) {
            Ok(file_name) => (
                PipelineView { stage: Stage::Resolving, awaiting: Awaiting::Workspace, ..p },
                ActionView::CreateWorkspace { file_name },
            ),
            Err(error) => conclude(PipelineView { stage: Stage::Resolving, ..p }, Err(error)),
        },
    }
}

/// The step after the workspace has been created: fetch the range alone
/// from a streaming platform, the whole file from any other address.
pub open spec fn fetch_step_of(p: PipelineView, file_path: Seq<char>) -> (
    PipelineView,
    ActionView,
) {
    let held = PipelineView { workspace_held: true, media: file_path, ..p };
    if classify_spec(p.source) == SourceKind::StreamingPlatformUrl {
        (
            PipelineView { awaiting: Awaiting::SegmentTool, ..held },
            ActionView::RunSegmentTool {
                arguments: segment_arguments(p.source, file_path, p.range),
                output: file_path,
            },
        )
    } else {
        (
            PipelineView { awaiting: Awaiting::Fetch, ..held },
            ActionView::FetchUrl { address: p.source, destination: file_path },
        )
    }
}

/// The step after a free output path is known: plan the engine's run, or
/// fail on a path that the engine cannot be given.
pub open spec fn plan_step(p: PipelineView, path: Seq<char>) -> (PipelineView, ActionView) {
    match plan_spec(
        p.media,
        is_segment_trimmed(classify_spec(p.source)),
        p.range.start.text,
        p.range.end.text,
        p.target,
        path,
    ) {
        Ok(plan) => (
            PipelineView {
                stage: Stage::Transcoding,
                awaiting: Awaiting::Engine,
                output: path,
                ..p
            },
            ActionView::RunEngine { plan },
        ),
        Err(error) => conclude(p, Err(error)),
    }
}

/// The step after the output path was found taken: ask for the path of the
/// next name under the same stamp, or fail where the numbers have run out.
pub open spec fn next_name_step(p: PipelineView) -> (PipelineView, ActionView) {
    if p.attempt < u64::MAX {
        (
            PipelineView { attempt: p.attempt + 1, ..p },
            ActionView::PrepareOutput { file_name: output_name(p.stamp, p.attempt + 1) },
        )
    } else {
        conclude(p, Err(no_free_name()))
    }
}

/// The next state of a pipeline and what the caller is to do, for each
/// state and each report.
///
/// A pipeline that has finished stays as it is. One that waits for the
/// removal of its workspace asks for it again until it is told of it. Any
/// other report that the pipeline does not wait for makes it fail as
/// `UnexpectedEvent`.
pub open spec fn step_spec(p: PipelineView, event: PipelineEventView) -> (
    PipelineView,
    ActionView,
) {
    match (p.awaiting, event) {
        (Awaiting::Nothing, _) => (p, ActionView::Finish { result: Err(unexpected()) }),
        (Awaiting::Release, PipelineEventView::WorkspaceReleased) => {
            let result = match p.verdict {
                Some(result) => result,
                None => Err(unexpected()),
            };
            (finished(p, result), ActionView::Finish { result })
        },
        (Awaiting::Release, _) => (p, ActionView::ReleaseWorkspace),
        (Awaiting::Start, PipelineEventView::Begin) => begin_step(p),
        (Awaiting::SourceCheck, PipelineEventView::SourceChecked { exists }) => if exists {
            plan_next(PipelineView { media: p.source, ..p })
        } else {
            conclude(
                p,
                Err(ErrorView { kind: ErrorKind::SourceNotFound, detail: p.source }),
            )
        },
        (Awaiting::Workspace, PipelineEventView::WorkspaceReady { file_path }) => fetch_step_of(
            p,
            file_path,
        ),
        (Awaiting::Workspace, PipelineEventView::WorkspaceFailed { reason }) => conclude(
            p,
            Err(ErrorView { kind: ErrorKind::WorkspaceUnavailable, detail: reason }),
        ),
        (
            Awaiting::SegmentTool,
            PipelineEventView::SegmentToolFinished { run, output_exists },
        ) => match segment_verdict(run, output_exists) {
            Ok(_) => plan_next(p),
            Err(error) => conclude(p, Err(error)),
        },
        (Awaiting::Fetch, PipelineEventView::FetchSucceeded) => plan_next(p),
        (Awaiting::Fetch, PipelineEventView::FetchFailed { error }) => conclude(p, Err(error)),
        (Awaiting::Clock, PipelineEventView::ClockRead { seconds }) => match stamp_at(seconds) {
            Ok(stamp) => (
                PipelineView { awaiting: Awaiting::OutputPath, stamp, attempt: 0, ..p },
                ActionView::PrepareOutput { file_name: output_name(stamp, 0) },
            ),
            Err(error) => conclude(p, Err(error)),
        },
        (Awaiting::OutputPath, PipelineEventView::OutputPathReady { path, occupied }) => {
            if occupied {
                next_name_step(p)
            } else {
                plan_step(p, path)
            }
        },
        (Awaiting::OutputPath, PipelineEventView::OutputDirFailed { reason }) => conclude(
            p,
            Err(ErrorView { kind: ErrorKind::OutputDirUnavailable, detail: reason }),
        ),
        (Awaiting::Engine, PipelineEventView::EngineSpawnFailed { reason }) => conclude(
            p,
            Err(ErrorView { kind: ErrorKind::EngineSpawnFailed, detail: reason }),
        ),
        (Awaiting::Engine, PipelineEventView::EngineEventsUnavailable { reason }) => conclude(
            p,
            Err(ErrorView { kind: ErrorKind::EngineEventsUnavailable, detail: reason }),
        ),
        (
            Awaiting::Engine,
            PipelineEventView::EngineRan { seen, output_exists },
        ) => match verdict_spec(seen, output_exists) {
            Ok(_) => conclude(p, Ok(success_text(p.output))),
            Err(error) => conclude(p, Err(error)),
        },
        _ => conclude(p, Err(unexpected())),
    }
}

/// The stage goes with what the pipeline waits for.
pub open spec fn stage_fits(stage: Stage, awaiting: Awaiting) -> bool {
    match awaiting {
        Awaiting::Start => stage == Stage::Idle,
        Awaiting::SourceCheck | Awaiting::Workspace | Awaiting::SegmentTool | Awaiting::Fetch => stage
            == Stage::Resolving,
        Awaiting::Clock | Awaiting::OutputPath => stage == Stage::Planning,
        Awaiting::Engine => stage == Stage::Transcoding,
        Awaiting::Release => stage == Stage::Resolving || stage == Stage::Planning || stage
            == Stage::Transcoding,
        Awaiting::Nothing => stage == Stage::Succeeded || stage == Stage::Failed,
    }
}

/// What holds of every pipeline that was made by [`Pipeline::new`] and
/// moved by [`Pipeline::step`]: the stage goes with what is awaited; a
/// result is kept back exactly while the removal of the workspace is
/// awaited; a workspace is asked for and held only for a remote source, and
/// only between its creation and its removal.
pub open spec fn well_formed(p: PipelineView) -> bool {
    &&& stage_fits(p.stage, p.awaiting)
    &&& p.awaiting == Awaiting::Release <==> p.verdict is Some
    &&& p.awaiting == Awaiting::Release ==> p.workspace_held
    &&& p.awaiting == Awaiting::Workspace ==> classify_spec(p.source) != SourceKind::LocalPath
    &&& p.workspace_held ==> {
        &&& classify_spec(p.source) != SourceKind::LocalPath
        &&& (p.awaiting == Awaiting::SegmentTool || p.awaiting == Awaiting::Fetch || p.awaiting
            == Awaiting::Clock || p.awaiting == Awaiting::OutputPath || p.awaiting
            == Awaiting::Engine || p.awaiting == Awaiting::Release)
    }
}

/// The place of a stage in the order of stages.
pub open spec fn stage_rank(stage: Stage) -> nat {
    match stage {
        Stage::Idle => 0,
        Stage::Resolving => 1,
        Stage::Planning => 2,
        Stage::Transcoding => 3,
        Stage::Succeeded => 4,
        Stage::Failed => 4,
    }
}

/// A new pipeline is well formed.
pub proof fn lemma_initial_is_well_formed(
    source: Seq<char>,
    range: RangeView,
    target: AspectRatioTarget,
)
    ensures
        well_formed(initial(source, range, target)),
{
}

/// A ratio string that names no target gives no pipeline, whatever the
/// source is: nothing is looked for, fetched or run for it.
pub proof fn lemma_unknown_ratio_gives_no_pipeline(
    source: Seq<char>,
    start: Seq<char>,
    end: Seq<char>,
    ratio: Seq<char>,
)
    requires
        ratio_of(ratio) is None,
    ensures
        new_spec(source, start, end, ratio) is Err,
        parse_range_spec(start, end) is Ok ==> new_spec(source, start, end, ratio) == Err::<
            PipelineView,
            ErrorView,
        >(unsupported_ratio(ratio)),
{
}

/// Every step keeps a pipeline well formed.
pub proof fn lemma_step_keeps_well_formed(p: PipelineView, event: PipelineEventView)
    requires
        well_formed(p),
    ensures
        well_formed(step_spec(p, event).0),
{
}

/// The stages are passed in order: no step leads back.
pub proof fn lemma_stages_never_go_back(p: PipelineView, event: PipelineEventView)
    requires
        well_formed(p),
    ensures
        stage_rank(step_spec(p, event).0.stage) >= stage_rank(p.stage),
{
}

/// A pipeline finishes only without a workspace: whenever a step says to
/// return the result, on success or on any failure, no workspace is held,
/// and the pipeline is in one of its two last stages.
pub proof fn lemma_finish_leaves_no_workspace(p: PipelineView, event: PipelineEventView)
    requires
        well_formed(p),
        step_spec(p, event).1 is Finish,
    ensures
        !step_spec(p, event).0.workspace_held,
        step_spec(p, event).0.awaiting == Awaiting::Nothing,
        step_spec(p, event).0.stage == Stage::Succeeded || step_spec(p, event).0.stage
            == Stage::Failed,
{
}

/// A workspace that is held is given up in one way only: the caller
/// reports its removal after the pipeline has asked for it.
pub proof fn lemma_workspace_leaves_by_removal(p: PipelineView, event: PipelineEventView)
    requires
        p.workspace_held,
        !step_spec(p, event).0.workspace_held,
    ensures
        p.awaiting == Awaiting::Release,
        event is WorkspaceReleased,
{
}

/// While a workspace is held, whatever ends the work leads to the request
/// to remove it, and the result is kept for afterwards.
pub proof fn lemma_failure_releases_workspace(
    p: PipelineView,
    result: Result<Seq<char>, ErrorView>,
)
    requires
        well_formed(p),
        p.workspace_held,
        p.awaiting != Awaiting::Release,
    ensures
        conclude(p, result).1 is ReleaseWorkspace,
        well_formed(conclude(p, result).0),
        step_spec(conclude(p, result).0, PipelineEventView::WorkspaceReleased) == (
            finished(p, result),
            ActionView::Finish { result },
        ),
{
    let kept = conclude(p, result).0;
    assert(finished(kept, result) == finished(p, result));
}

/// A workspace is asked for only where the source is remote.
pub proof fn lemma_workspace_only_for_remote(p: PipelineView, event: PipelineEventView)
    requires
        step_spec(p, event).1 is CreateWorkspace,
    ensures
        classify_spec(p.source) != SourceKind::LocalPath,
        p.awaiting == Awaiting::Start,
{
}

/// The engine writes only where no file stood: it is run only on the
/// report of an output path at which the caller found no file, and the plan
/// writes to that path.
pub proof fn lemma_engine_writes_where_no_file_stood(p: PipelineView, event: PipelineEventView)
    requires
        step_spec(p, event).1 is RunEngine,
    ensures
        p.awaiting == Awaiting::OutputPath,
        event matches PipelineEventView::OutputPathReady { path, occupied } && !occupied
            && step_spec(p, event).1->RunEngine_plan.output == path && step_spec(
            p,
            event,
        ).0.output == path,
{
}

/// A path that is taken is never planned on: the pipeline stays where it
/// is and asks for the path of another name, which differs from the one
/// that was found taken.
pub proof fn lemma_taken_path_gets_another_name(p: PipelineView, path: Seq<char>)
    requires
        p.awaiting == Awaiting::OutputPath,
        p.attempt < u64::MAX,
    ensures
        ({
            let next = step_spec(p, PipelineEventView::OutputPathReady { path, occupied: true });
            &&& next.0 == (PipelineView { attempt: p.attempt + 1, ..p })
            &&& next.1 == ActionView::PrepareOutput {
                file_name: output_name(p.stamp, p.attempt + 1),
            }
            &&& output_name(p.stamp, p.attempt + 1) != output_name(p.stamp, p.attempt)
        }),
{
    lemma_attempts_differ(p.stamp, p.attempt + 1, p.attempt);
}

/// What was fetched from a streaming platform is not cut again, and
/// anything else is cut by the plan: the engine's arguments hold the two
/// options that cut by time exactly where the source is no streaming
/// platform.
pub proof fn lemma_only_unfetched_ranges_are_cut(p: PipelineView, path: Seq<char>)
    requires
        nul_free(p.media),
        nul_free(path),
    ensures
        plan_step(p, path).1 matches ActionView::RunEngine { plan } && plan.arguments
            == plan_arguments(
            p.media,
            classify_spec(p.source) == SourceKind::StreamingPlatformUrl,
            p.range.start.text,
            p.range.end.text,
            p.target,
            path,
        ),
        classify_spec(p.source) == SourceKind::StreamingPlatformUrl ==> trim_arguments(
            is_segment_trimmed(classify_spec(p.source)),
            p.range.start.text,
            p.range.end.text,
        ).len() == 0,
        classify_spec(p.source) != SourceKind::StreamingPlatformUrl ==> trim_arguments(
            is_segment_trimmed(classify_spec(p.source)),
            p.range.start.text,
            p.range.end.text,
        ) == seq!["-ss"@, p.range.start.text, "-to"@, p.range.end.text],
{
}

/// A local source that does not exist makes the pipeline fail with
/// `SourceNotFound` in its second step, before anything is fetched, planned
/// or run.
pub proof fn lemma_missing_local_source(
    source: Seq<char>,
    range: RangeView,
    target: AspectRatioTarget,
)
    requires
        classify_spec(source) == SourceKind::LocalPath,
    ensures
        ({
            let first = step_spec(initial(source, range, target), PipelineEventView::Begin);
            let second = step_spec(first.0, PipelineEventView::SourceChecked { exists: false });
            &&& first.1 == ActionView::CheckSource { path: source }
            &&& second.1 == ActionView::Finish {
                result: Err(ErrorView { kind: ErrorKind::SourceNotFound, detail: source }),
            }
            &&& second.0.stage == Stage::Failed
        }),
{
}

/// A run of the engine that never reports to be done makes the pipeline
/// fail, and the error is returned only after the workspace, if there is
/// one, has been removed.
pub proof fn lemma_engine_failure(p: PipelineView, seen: MonitorView, output_exists: bool)
    requires
        well_formed(p),
        p.awaiting == Awaiting::Engine,
        !seen.done,
    ensures
        ({
            let event = PipelineEventView::EngineRan { seen, output_exists };
            let error = verdict_spec(seen, output_exists);
            let next = step_spec(p, event);
            &&& error is Err
            &&& !p.workspace_held ==> next.1 == ActionView::Finish { result: Err(error->Err_0) }
            &&& p.workspace_held ==> next.1 is ReleaseWorkspace && step_spec(
                next.0,
                PipelineEventView::WorkspaceReleased,
            ).1 == ActionView::Finish { result: Err(error->Err_0) }
        }),
{
}

/// One run of the pipeline, from a source descriptor to an output file or
/// an error.
pub struct Pipeline {
    source: String,
    range: TimeRange,
    target: AspectRatioTarget,
    stage: Stage,
    awaiting: Awaiting,
    workspace_held: bool,
    media: String,
    stamp: String,
    attempt: u64,
    output: String,
    verdict: Option<Result<String, PipelineError>>,
}

impl View for Pipeline {
    type V = PipelineView;

    closed spec fn view(&self) -> PipelineView {
        PipelineView {
            source: self.source@,
            range: self.range@,
            target: self.target,
            stage: self.stage,
            awaiting: self.awaiting,
            workspace_held: self.workspace_held,
            media: self.media@,
            stamp: self.stamp@,
            attempt: self.attempt as nat,
            output: self.output@,
            verdict: match self.verdict {
                Some(result) => Some(result_view(result)),
                None => None,
            },
        }
    }
}

impl Pipeline {
    /// A pipeline for cutting the range from `start` to `end` out of
    /// `source`, with the frame fitted to `ratio`: see [`new_spec`].
    ///
    /// The two time strings are read first, the start before the end, and
    /// then the ratio string. For the first of them that is wrong its error
    /// is returned, and no pipeline.
    pub fn new(source: &str, start: &str, end: &str, ratio: &str) -> (r: Result<
        Pipeline,
        PipelineError,
    >)
        ensures
            match new_spec(source@, start@, end@, ratio@) {
                Ok(pipeline) => r matches Ok(p) && p@ == pipeline,
                Err(error) => r matches Err(e) && e@ == error,
            },
    {
        let range = match TimeRange::parse(start, end) {
            Ok(range) => range,
            Err(e) => {
                return Err(e);
            },
        };
        let target = match parse_ratio(ratio) {
            Ok(target) => target,
            Err(e) => {
                return Err(e);
            },
        };
        Ok(
            Pipeline {
                source: String::from_str(source),
                range,
                target,
                stage: Stage::Idle,
                awaiting: Awaiting::Start,
                workspace_held: false,
                media: String::new(),
                stamp: String::new(),
                attempt: 0,
                output: String::new(),
                verdict: None,
            },
        )
    }

    /// How far the pipeline has come.
    pub fn stage(&self) -> (stage: Stage)
        ensures
            stage == self@.stage,
    {
        self.stage
    }

    /// What the pipeline waits to be told.
    pub fn awaiting(&self) -> (awaiting: Awaiting)
        ensures
            awaiting == self@.awaiting,
    {
        self.awaiting
    }

    /// Whether a workspace exists that has not been removed.
    pub fn holds_workspace(&self) -> (held: bool)
        ensures
            held == self@.workspace_held,
    {
        self.workspace_held
    }

    /// Ends with `result`, at once or by way of the workspace's removal.
    fn conclude(&mut self, result: Result<String, PipelineError>) -> (action: Action)
        ensures
            (final(self)@, action@) == conclude(old(self)@, result_view(result)),
    {
        if self.workspace_held {
            self.awaiting = Awaiting::Release;
            self.verdict = Some(result);
            Action::ReleaseWorkspace
        } else {
            self.finish(result)
        }
    }

    /// Ends with `result`.
    fn finish(&mut self, result: Result<String, PipelineError>) -> (action: Action)
        ensures
            (final(self)@, action@) == (
                finished(old(self)@, result_view(result)),
                ActionView::Finish { result: result_view(result) },
            ),
    {
        self.stage = if result.is_ok() {
            Stage::Succeeded
        } else {
            Stage::Failed
        };
        self.awaiting = Awaiting::Nothing;
        self.workspace_held = false;
        self.verdict = None;
        Action::Finish { result }
    }

    /// Ends with an error of the given kind about `detail`.
    fn fail(&mut self, kind: ErrorKind, detail: String) -> (action: Action)
        ensures
            (final(self)@, action@) == conclude(
                old(self)@,
                Err(ErrorView { kind, detail: detail@ }),
            ),
    {
        self.conclude(Err(PipelineError { kind, detail }))
    }

    /// Goes on to planning.
    fn plan_next(&mut self) -> (action: Action)
        ensures
            (final(self)@, action@) == plan_next(old(self)@),
    {
        self.stage = Stage::Planning;
        self.awaiting = Awaiting::Clock;
        Action::ReadClock
    }

    /// The first step.
    fn begin(&mut self) -> (action: Action)
        ensures
            (final(self)@, action@) == begin_step(old(self)@),
    {
        self.stage = Stage::Resolving;
        match classify_source(self.source.as_str()) {
            SourceKind::LocalPath => {
                self.awaiting = Awaiting::SourceCheck;
                Action::CheckSource { path: self.source.clone() }
            },
            SourceKind::StreamingPlatformUrl => {
                self.awaiting = Awaiting::Workspace;
                Action::CreateWorkspace { file_name: String::from_str(segment_file_name()) }
            },
            SourceKind::GenericUrl => match download_file_name(self.source.as_str()) {
                Ok(file_name) => {
                    self.awaiting = Awaiting::Workspace;
                    Action::CreateWorkspace { file_name }
                },
                Err(error) => self.conclude(Err(error)),
            },
        }
    }

    /// The step after the workspace has been created.
    fn fetch(&mut self, file_path: String) -> (action: Action)
        ensures
            (final(self)@, action@) == fetch_step_of(old(self)@, file_path@),
    {
        self.workspace_held = true;
        self.media = file_path.clone();
        match classify_source(self.source.as_str()) {
            SourceKind::StreamingPlatformUrl => {
                self.awaiting = Awaiting::SegmentTool;
                let arguments = segment_tool_arguments(
                    self.source.as_str(),
                    file_path.as_str(),
                    &self.range,
                );
                Action::RunSegmentTool { arguments, output: file_path }
            },
            _ => {
                self.awaiting = Awaiting::Fetch;
                Action::FetchUrl { address: self.source.clone(), destination: file_path }
            },
        }
    }

    /// The step after a free output path is known.
    fn plan(&mut self, path: String) -> (action: Action)
        ensures
            (final(self)@, action@) == plan_step(old(self)@, path@),
    {
        let already_trimmed = match classify_source(self.source.as_str()) {
            SourceKind::StreamingPlatformUrl => true,
            _ => false,
        };
        match plan_for(
            self.media.as_str(),
            already_trimmed,
            &self.range,
            self.target,
            path.as_str(),
        ) {
            Ok(plan) => {
                self.stage = Stage::Transcoding;
                self.awaiting = Awaiting::Engine;
                self.output = path;
                Action::RunEngine { plan }
            },
            Err(error) => self.conclude(Err(error)),
        }
    }

    /// The step after the output path was found taken.
    fn next_name(&mut self) -> (action: Action)
        ensures
            (final(self)@, action@) == next_name_step(old(self)@),
    {
        if self.attempt < u64::MAX {
            self.attempt = self.attempt + 1;
            Action::PrepareOutput {
                file_name: output_file_name(self.stamp.as_str(), self.attempt),
            }
        } else {
            self.conclude(Err(PipelineError::bare(ErrorKind::NoFreeOutputName)))
        }
    }

    /// Takes a report and says what to do next: see [`step_spec`].
    pub fn step(&mut self, event: PipelineEvent) -> (action: Action)
        ensures
            (final(self)@, action@) == step_spec(old(self)@, event@),
    {
        match self.awaiting {
            Awaiting::Nothing => {
                return Action::Finish {
                    result: Err(PipelineError::bare(ErrorKind::UnexpectedEvent)),
                };
            },
            Awaiting::Release => {
                match event {
                    PipelineEvent::WorkspaceReleased => {
                        let result = match self.verdict.take() {
                            Some(result) => result,
                            None => Err(PipelineError::bare(ErrorKind::UnexpectedEvent)),
                        };
                        return self.finish(result);
                    },
                    _ => {
                        return Action::ReleaseWorkspace;
                    },
                }
            },
            _ => {},
        }
        let awaiting = self.awaiting;
        match event {
            PipelineEvent::Begin => {
                if awaiting == Awaiting::Start {
                    return self.begin();
                }
            },
            PipelineEvent::SourceChecked { exists } => {
                if awaiting == Awaiting::SourceCheck {
                    if exists {
                        self.media = self.source.clone();
                        return self.plan_next();
                    }
                    let path = self.source.clone();
                    return self.fail(ErrorKind::SourceNotFound, path);
                }
            },
            PipelineEvent::WorkspaceReady { file_path } => {
                if awaiting == Awaiting::Workspace {
                    return self.fetch(file_path);
                }
            },
            PipelineEvent::WorkspaceFailed { reason } => {
                if awaiting == Awaiting::Workspace {
                    return self.fail(ErrorKind::WorkspaceUnavailable, reason);
                }
            },
            PipelineEvent::SegmentToolFinished { run, output_exists } => {
                if awaiting == Awaiting::SegmentTool {
                    return match judge_segment_download(&run, output_exists) {
                        Ok(()) => self.plan_next(),
                        Err(error) => self.conclude(Err(error)),
                    };
                }
            },
            PipelineEvent::FetchSucceeded => {
                if awaiting == Awaiting::Fetch {
                    return self.plan_next();
                }
            },
            PipelineEvent::FetchFailed { error } => {
                if awaiting == Awaiting::Fetch {
                    return self.conclude(Err(error));
                }
            },
            PipelineEvent::ClockRead { seconds } => {
                if awaiting == Awaiting::Clock {
                    return match output_stamp(seconds) {
                        Ok(stamp) => {
                            self.awaiting = Awaiting::OutputPath;
                            self.attempt = 0;
                            let file_name = output_file_name(stamp.as_str(), 0);
                            self.stamp = stamp;
                            Action::PrepareOutput { file_name }
                        },
                        Err(error) => self.conclude(Err(error)),
                    };
                }
            },
            PipelineEvent::OutputPathReady { path, occupied } => {
                if awaiting == Awaiting::OutputPath {
                    if occupied {
                        return self.next_name();
                    }
                    return self.plan(path);
                }
            },
            PipelineEvent::OutputDirFailed { reason } => {
                if awaiting == Awaiting::OutputPath {
                    return self.fail(ErrorKind::OutputDirUnavailable, reason);
                }
            },
            PipelineEvent::EngineSpawnFailed { reason } => {
                if awaiting == Awaiting::Engine {
                    return self.fail(ErrorKind::EngineSpawnFailed, reason);
                }
            },
            PipelineEvent::EngineEventsUnavailable { reason } => {
                if awaiting == Awaiting::Engine {
                    return self.fail(ErrorKind::EngineEventsUnavailable, reason);
                }
            },
            PipelineEvent::EngineRan { monitor, output_exists } => {
                if awaiting == Awaiting::Engine {
                    return match monitor.verdict(output_exists) {
                        Ok(()) => {
                            let message = String::from_str(
                                "Video trimmed successfully! Saved to: ",
                            ).concat(self.output.as_str());
                            self.conclude(Ok(message))
                        },
                        Err(error) => self.conclude(Err(error)),
                    };
                }
            },
            PipelineEvent::WorkspaceReleased => {},
        }
        self.conclude(Err(PipelineError::bare(ErrorKind::UnexpectedEvent)))
    }
}


} // verus!
