//! The readiness check: is the transcoding engine there, and does it run?
//!
//! The engine is probed on an input that it makes up itself, a tenth of a
//! second of empty picture, with the output thrown away, so that the probe
//! needs no media file. The caller runs the probe and reports how it went.

use vstd::prelude::*;
use ffmpeg_sidecar::command::FfmpegCommand;
use crate::engine::{command_args, new_command, preset_arguments, push_argument};
use crate::error::{ErrorKind, ErrorView, PipelineError};

verus! {

/// The arguments of the probe: a generated input of a tenth of a second,
/// read for a tenth of a second, written to nowhere.
pub open spec fn probe_arguments() -> Seq<Seq<char>> {
    seq!["-f"@, "lavfi"@, "-i"@, "nullsrc=d=0.1"@, "-t"@, "0.1"@, "-f"@, "null"@, "-"@]
}

/// The command that probes the engine.
pub fn probe_command() -> (command: FfmpegCommand)
    ensures
        command_args(command) == preset_arguments() + probe_arguments(),
{
    proof {
        reveal_strlit("-f");
        reveal_strlit("lavfi");
        reveal_strlit("-i");
        reveal_strlit("nullsrc=d=0.1");
        reveal_strlit("-t");
        reveal_strlit("0.1");
        reveal_strlit("null");
        reveal_strlit("-");
    }
    let mut command = new_command();
    push_argument(&mut command, "-f");
    push_argument(&mut command, "lavfi");
    push_argument(&mut command, "-i");
    push_argument(&mut command, "nullsrc=d=0.1");
    push_argument(&mut command, "-t");
    push_argument(&mut command, "0.1");
    push_argument(&mut command, "-f");
    push_argument(&mut command, "null");
    push_argument(&mut command, "-");
    assert(command_args(command) =~= preset_arguments() + probe_arguments());
    command
}

/// The mathematical content of a [`ProbeRun`].
pub ghost enum ProbeRunView {
    SpawnFailed(Seq<char>),
    EventsUnavailable(Seq<char>),
    Ended { done: bool },
}

/// How the probe went.
#[derive(Debug)]
pub enum ProbeRun {
    /// The engine could not be started, for the reason given.
    SpawnFailed(String),
    /// The engine started and its events cannot be read, for the reason
    /// given.
    EventsUnavailable(String),
    /// The events were read; `done` says whether the engine reported that
    /// it is done.
    Ended { done: bool },
}

impl View for ProbeRun {
    type V = ProbeRunView;

    open spec fn view(&self) -> ProbeRunView {
        match self {
            ProbeRun::SpawnFailed(reason) => ProbeRunView::SpawnFailed(reason@),
            ProbeRun::EventsUnavailable(reason) => ProbeRunView::EventsUnavailable(reason@),
            ProbeRun::Ended { done } => ProbeRunView::Ended { done: *done },
        }
    }
}

/// The status of the engine, as the surrounding application is told.
#[derive(Clone, Copy, Debug, PartialEq, Eq, Structural)]
pub enum EngineStatus {
    Ready,
    NotWorking,
}

/// The words of a status.
pub open spec fn status_text(status: EngineStatus) -> Seq<char> {
    match status {
        EngineStatus::Ready => "FFmpeg is ready."@,
        EngineStatus::NotWorking => "FFmpeg not working properly."@,
    }
}

/// The result of the check: nothing on success, else why the engine is not
/// usable.
pub open spec fn probe_result(run: ProbeRunView) -> Result<(), ErrorView> {
    match run {
        ProbeRunView::SpawnFailed(reason) => Err(
            ErrorView { kind: ErrorKind::ProbeSpawnFailed, detail: reason },
        ),
        ProbeRunView::EventsUnavailable(reason) => Err(
            ErrorView { kind: ErrorKind::EngineEventsUnavailable, detail: reason },
        ),
        ProbeRunView::Ended { done } => if done {
            Ok(())
        } else {
            Err(ErrorView { kind: ErrorKind::ProbeIncomplete, detail: Seq::empty() })
        },
    }
}

/// The status to announce: ready exactly if the check succeeds.
pub open spec fn probe_status(run: ProbeRunView) -> EngineStatus {
    if probe_result(run) is Ok {
        EngineStatus::Ready
    } else {
        EngineStatus::NotWorking
    }
}

/// The words of a status.
pub fn status_message(status: EngineStatus) -> (text: &'static str)
    ensures
        text@ == status_text(status),
{
    match status {
        EngineStatus::Ready => "FFmpeg is ready.",
        EngineStatus::NotWorking => "FFmpeg not working properly.",
    }
}

/// Judges the probe: the status to announce, and the result to return. The
/// status is announced whatever the result is.
pub fn judge_probe(run: &ProbeRun) -> (verdict: (EngineStatus, Result<(), PipelineError>))
    ensures
        verdict.0 == probe_status(run@),
        match probe_result(run@) {
            Ok(_) => verdict.1 is Ok,
            Err(error) => verdict.1 matches Err(e) && e@ == error,
        },
{
    match run {
        ProbeRun::SpawnFailed(reason) => (
            EngineStatus::NotWorking,
            Err(PipelineError::about(ErrorKind::ProbeSpawnFailed, reason.as_str())),
        ),
        ProbeRun::EventsUnavailable(reason) => (
            EngineStatus::NotWorking,
            Err(PipelineError::about(ErrorKind::EngineEventsUnavailable, reason.as_str())),
        ),
        ProbeRun::Ended { done } => {
            if *done {
                (EngineStatus::Ready, Ok(()))
            } else {
                (EngineStatus::NotWorking, Err(PipelineError::bare(ErrorKind::ProbeIncomplete)))
            }
        },
    }
}

} // verus!
