//! The generic fetcher's decisions.
//!
//! A plain address is downloaded whole, and in pieces: each piece is
//! written to the file before the next one is asked for, so that the
//! download never holds more than one piece, however large the file is.
//! The caller talks to the network and to the file system; the session
//! tells it what to do next.

use vstd::prelude::*;
use crate::error::{ErrorKind, ErrorView, PipelineError};

verus! {

/// What a fetch session waits for.
#[derive(Clone, Copy, Debug, PartialEq, Eq, Structural)]
pub enum FetchStage {
    /// The request is sent; the server's answer is awaited.
    AwaitingResponse,
    /// The answer was good; the file is being created.
    AwaitingFile,
    /// The next piece of the body is awaited.
    AwaitingChunk,
    /// A piece is in hand and is being written.
    AwaitingWrite,
    /// The session has ended, well or badly.
    Ended,
}

/// The mathematical content of a [`FetchEvent`].
pub ghost enum FetchEventView {
    Responded { status: int, status_text: Seq<char> },
    RequestFailed(Seq<char>),
    FileCreated,
    FileFailed(Seq<char>),
    ChunkArrived,
    ChunkFailed(Seq<char>),
    StreamEnded,
    ChunkWritten,
    WriteFailed(Seq<char>),
}

/// What the caller reports to a fetch session.
#[derive(Debug)]
pub enum FetchEvent {
    /// The server answered with this status code; `status_text` is the
    /// status as it is shown.
    Responded { status: u16, status_text: String },
    /// The request failed, for the reason given.
    RequestFailed(String),
    /// The file has been created.
    FileCreated,
    /// The file could not be created, for the reason given.
    FileFailed(String),
    /// A piece of the body has arrived.
    ChunkArrived,
    /// The body broke off, for the reason given.
    ChunkFailed(String),
    /// The body has ended.
    StreamEnded,
    /// The piece in hand has been written.
    ChunkWritten,
    /// The piece in hand could not be written, for the reason given.
    WriteFailed(String),
}

impl View for FetchEvent {
    type V = FetchEventView;

    open spec fn view(&self) -> FetchEventView {
        match self {
            FetchEvent::Responded { status, status_text } => FetchEventView::Responded {
                status: *status as int,
                status_text: status_text@,
            },
            FetchEvent::RequestFailed(reason) => FetchEventView::RequestFailed(reason@),
            FetchEvent::FileCreated => FetchEventView::FileCreated,
            FetchEvent::FileFailed(reason) => FetchEventView::FileFailed(reason@),
            FetchEvent::ChunkArrived => FetchEventView::ChunkArrived,
            FetchEvent::ChunkFailed(reason) => FetchEventView::ChunkFailed(reason@),
            FetchEvent::StreamEnded => FetchEventView::StreamEnded,
            FetchEvent::ChunkWritten => FetchEventView::ChunkWritten,
            FetchEvent::WriteFailed(reason) => FetchEventView::WriteFailed(reason@),
        }
    }
}

/// The mathematical content of a [`FetchAction`].
pub ghost enum FetchActionView {
    CreateFile,
    AwaitChunk,
    WriteChunk,
    Succeed,
    Fail(ErrorView),
}

/// What the caller is to do next.
#[derive(Debug)]
pub enum FetchAction {
    /// Create the destination file.
    CreateFile,
    /// Wait for the next piece of the body.
    AwaitChunk,
    /// Write the piece in hand to the file.
    WriteChunk,
    /// The download is complete.
    Succeed,
    /// The download has failed.
    Fail(PipelineError),
}

impl View for FetchAction {
    type V = FetchActionView;

    open spec fn view(&self) -> FetchActionView {
        match self {
            FetchAction::CreateFile => FetchActionView::CreateFile,
            FetchAction::AwaitChunk => FetchActionView::AwaitChunk,
            FetchAction::WriteChunk => FetchActionView::WriteChunk,
            FetchAction::Succeed => FetchActionView::Succeed,
            FetchAction::Fail(error) => FetchActionView::Fail(error@),
        }
    }
}

/// The status code stands for success: it is one of 200 to 299.
pub open spec fn is_success_status(status: int) -> bool {
    200 <= status < 300
}

/// The end of a session on a failure of the given kind and detail.
pub open spec fn failed(kind: ErrorKind, detail: Seq<char>) -> (FetchStage, FetchActionView) {
    (FetchStage::Ended, FetchActionView::Fail(ErrorView { kind, detail }))
}

/// The next stage of a session and what the caller is to do, for each
/// stage and each report. A report that the stage does not wait for ends
/// the session as `UnexpectedEvent`.
pub open spec fn fetch_step(stage: FetchStage, event: FetchEventView) -> (
    FetchStage,
    FetchActionView,
) {
    match (stage, event) {
        (FetchStage::AwaitingResponse, FetchEventView::Responded { status, status_text }) => {
            if is_success_status(status) {
                (FetchStage::AwaitingFile, FetchActionView::CreateFile)
            } else {
                failed(ErrorKind::FetchHttpError, status_text)
            }
        },
        (FetchStage::AwaitingResponse, FetchEventView::RequestFailed(reason)) => failed(
            ErrorKind::FetchNetworkError,
            "Failed to fetch URL: "@ + reason,
        ),
        (FetchStage::AwaitingFile, FetchEventView::FileCreated) => (
            FetchStage::AwaitingChunk,
            FetchActionView::AwaitChunk,
        ),
        (FetchStage::AwaitingFile, FetchEventView::FileFailed(reason)) => failed(
            ErrorKind::FetchIoError,
            "Failed to create temporary file: "@ + reason,
        ),
        (FetchStage::AwaitingChunk, FetchEventView::ChunkArrived) => (
            FetchStage::AwaitingWrite,
            FetchActionView::WriteChunk,
        ),
        (FetchStage::AwaitingChunk, FetchEventView::ChunkFailed(reason)) => failed(
            ErrorKind::FetchNetworkError,
            "Error while downloading chunk: "@ + reason,
        ),
        (FetchStage::AwaitingChunk, FetchEventView::StreamEnded) => (
            FetchStage::Ended,
            FetchActionView::Succeed,
        ),
        (FetchStage::AwaitingWrite, FetchEventView::ChunkWritten) => (
            FetchStage::AwaitingChunk,
            FetchActionView::AwaitChunk,
        ),
        (FetchStage::AwaitingWrite, FetchEventView::WriteFailed(reason)) => failed(
            ErrorKind::FetchIoError,
            "Failed to write chunk to file: "@ + reason,
        ),
        _ => failed(ErrorKind::UnexpectedEvent, Seq::empty()),
    }
}

/// How many pieces of the body the caller holds in a stage.
pub open spec fn chunks_in_hand(stage: FetchStage) -> nat {
    if stage == FetchStage::AwaitingWrite {
        1
    } else {
        0
    }
}

/// A download never holds more than one piece: a piece is asked for only
/// when none is in hand, one is written only when it is in hand, and the
/// session ends with none in hand.
pub proof fn lemma_one_chunk_at_a_time(stage: FetchStage, event: FetchEventView)
    ensures
        chunks_in_hand(fetch_step(stage, event).0) <= 1,
        fetch_step(stage, event).1 is AwaitChunk ==> chunks_in_hand(fetch_step(stage, event).0)
            == 0,
        fetch_step(stage, event).1 is WriteChunk ==> chunks_in_hand(stage) == 0 && chunks_in_hand(
            fetch_step(stage, event).0,
        ) == 1,
        fetch_step(stage, event).1 is Succeed || fetch_step(stage, event).1 is Fail
            <==> fetch_step(stage, event).0 == FetchStage::Ended,
{
}

/// A file is created only after the server has answered with success.
pub proof fn lemma_file_only_after_success(stage: FetchStage, event: FetchEventView)
    requires
        fetch_step(stage, event).1 is CreateFile,
    ensures
        stage == FetchStage::AwaitingResponse,
        event matches FetchEventView::Responded { status, .. } && is_success_status(status),
{
}

/// The download of one address into one file.
#[derive(Debug)]
pub struct FetchSession {
    stage: FetchStage,
}

impl View for FetchSession {
    type V = FetchStage;

    closed spec fn view(&self) -> FetchStage {
        self.stage
    }
}

/// The failure of the given kind, about `label` followed by `reason`.
fn failure(kind: ErrorKind, label: &str, reason: &str) -> (action: FetchAction)
    ensures
        action@ == FetchActionView::Fail(ErrorView { kind, detail: label@ + reason@ }),
{
    let detail = String::from_str(label).concat(reason);
    FetchAction::Fail(PipelineError { kind, detail })
}

impl FetchSession {
    /// A session whose request is being sent.
    pub fn begin() -> (session: FetchSession)
        ensures
            session@ == FetchStage::AwaitingResponse,
    {
        FetchSession { stage: FetchStage::AwaitingResponse }
    }

    /// What the session waits for.
    pub fn stage(&self) -> (stage: FetchStage)
        ensures
            stage == self@,
    {
        self.stage
    }

    /// Takes a report and says what to do next: see [`fetch_step`].
    pub fn step(&mut self, event: &FetchEvent) -> (action: FetchAction)
        ensures
            (final(self)@, action@) == fetch_step(old(self)@, event@),
    {
        let stage = self.stage;
        self.stage = FetchStage::Ended;
        match event {
            FetchEvent::Responded { status, status_text } => {
                if stage == FetchStage::AwaitingResponse {
                    if 200 <= *status && *status < 300 {
                        self.stage = FetchStage::AwaitingFile;
                        return FetchAction::CreateFile;
                    }
                    return FetchAction::Fail(
                        PipelineError::about(ErrorKind::FetchHttpError, status_text.as_str()),
                    );
                }
            },
            FetchEvent::RequestFailed(reason) => {
                if stage == FetchStage::AwaitingResponse {
                    return failure(
                        ErrorKind::FetchNetworkError,
                        "Failed to fetch URL: ",
                        reason.as_str(),
                    );
                }
            },
            FetchEvent::FileCreated => {
                if stage == FetchStage::AwaitingFile {
                    self.stage = FetchStage::AwaitingChunk;
                    return FetchAction::AwaitChunk;
                }
            },
            FetchEvent::FileFailed(reason) => {
                if stage == FetchStage::AwaitingFile {
                    return failure(
                        ErrorKind::FetchIoError,
                        "Failed to create temporary file: ",
                        reason.as_str(),
                    );
                }
            },
            FetchEvent::ChunkArrived => {
                if stage == FetchStage::AwaitingChunk {
                    self.stage = FetchStage::AwaitingWrite;
                    return FetchAction::WriteChunk;
                }
            },
            FetchEvent::ChunkFailed(reason) => {
                if stage == FetchStage::AwaitingChunk {
                    return failure(
                        ErrorKind::FetchNetworkError,
                        "Error while downloading chunk: ",
                        reason.as_str(),
                    );
                }
            },
            FetchEvent::StreamEnded => {
                if stage == FetchStage::AwaitingChunk {
                    return FetchAction::Succeed;
                }
            },
            FetchEvent::ChunkWritten => {
                if stage == FetchStage::AwaitingWrite {
                    self.stage = FetchStage::AwaitingChunk;
                    return FetchAction::AwaitChunk;
                }
            },
            FetchEvent::WriteFailed(reason) => {
                if stage == FetchStage::AwaitingWrite {
                    return failure(
                        ErrorKind::FetchIoError,
                        "Failed to write chunk to file: ",
                        reason.as_str(),
                    );
                }
            },
        }
        FetchAction::Fail(PipelineError::bare(ErrorKind::UnexpectedEvent))
    }
}

} // verus!
