//! The transcode runner's judgement: what the events of a run amount to.
//!
//! The running engine reports a finite sequence of events. They are read
//! until the engine reports that it is done, or until they end. Errors on
//! the way are collected and not yet fatal: the engine may warn and still
//! succeed. A run has succeeded if the engine reported that it is done and
//! the output file exists afterwards.

use vstd::prelude::*;
use crate::error::{ErrorKind, ErrorView, PipelineError};
use crate::text::{join, joined, texts_of};

verus! {

/// The mathematical content of an [`EngineEvent`].
pub ghost enum EventView {
    Progress,
    Done,
    Error(Seq<char>),
    Other,
}

/// One event of a running engine.
#[derive(Debug)]
pub enum EngineEvent {
    /// The engine has advanced.
    Progress,
    /// The engine has finished its work.
    Done,
    /// The engine, or the reading of its output, reports an error.
    Error(String),
    /// Anything else: a log line, a piece of metadata, a piece of output.
    Other,
}

impl View for EngineEvent {
    type V = EventView;

    open spec fn view(&self) -> EventView {
        match self {
            EngineEvent::Progress => EventView::Progress,
            EngineEvent::Done => EventView::Done,
            EngineEvent::Error(message) => EventView::Error(message@),
            EngineEvent::Other => EventView::Other,
        }
    }
}

/// What has been learned of a run so far.
pub ghost struct MonitorView {
    /// The engine has reported that it is done.
    pub done: bool,
    /// The errors reported before that, in order.
    pub errors: Seq<Seq<char>>,
}

/// What is known before the first event.
pub open spec fn nothing_seen() -> MonitorView {
    MonitorView { done: false, errors: Seq::empty() }
}

/// What is known after one more event. Once the engine is done, nothing
/// that follows is read.
pub open spec fn observe_spec(seen: MonitorView, event: EventView) -> MonitorView {
    if seen.done {
        seen
    } else {
        match event {
            EventView::Done => MonitorView { done: true, errors: seen.errors },
            EventView::Error(message) => MonitorView {
                done: false,
                errors: seen.errors.push(message),
            },
            _ => seen,
        }
    }
}

/// What is known after a sequence of events.
pub open spec fn observe_all(events: Seq<EventView>) -> MonitorView
    decreases events.len(),
{
    if events.len() == 0 {
        nothing_seen()
    } else {
        observe_spec(observe_all(events.drop_last()), events.last())
    }
}

/// The separator between the errors of a failed run.
pub open spec fn error_separator() -> Seq<char> {
    "; "@
}

/// The judgement on a run: success if the engine was done and the output
/// exists; else the collected errors, if there are any; else the plain
/// statement that the run did not complete.
pub open spec fn verdict_spec(seen: MonitorView, output_exists: bool) -> Result<(), ErrorView> {
    if seen.done && output_exists {
        Ok(())
    } else if seen.errors.len() > 0 {
        Err(
            ErrorView {
                kind: ErrorKind::EngineFailed,
                detail: joined(seen.errors, error_separator()),
            },
        )
    } else {
        Err(ErrorView { kind: ErrorKind::EngineIncomplete, detail: Seq::empty() })
    }
}

/// The views of a list of events.
pub open spec fn events_of(list: Seq<EngineEvent>) -> Seq<EventView> {
    Seq::new(list.len(), |i: int| list[i]@)
}

/// The engine counts as done exactly if one of the events says so.
pub proof fn lemma_done_iff_reported(events: Seq<EventView>)
    ensures
        observe_all(events).done <==> exists|i: int|
            0 <= i < events.len() && #[trigger] events[i] is Done,
    decreases events.len(),
{
    if events.len() > 0 {
        let before = events.drop_last();
        lemma_done_iff_reported(before);
        if observe_all(events).done {
            if observe_all(before).done {
                let i = choose|i: int| 0 <= i < before.len() && #[trigger] before[i] is Done;
                assert(events[i] is Done);
            } else {
                assert(events[events.len() - 1] is Done);
            }
        } else {
            assert forall|i: int| 0 <= i < events.len() implies !(#[trigger] events[i] is Done) by {
                if i < before.len() {
                    assert(before[i] == events[i]);
                }
            }
        }
    }
}

/// What follows the report that the engine is done changes nothing.
pub proof fn lemma_nothing_read_after_done(events: Seq<EventView>, more: Seq<EventView>)
    requires
        observe_all(events).done,
    ensures
        observe_all(events + more) == observe_all(events),
    decreases more.len(),
{
    if more.len() == 0 {
        assert(events + more =~= events);
    } else {
        lemma_nothing_read_after_done(events, more.drop_last());
        assert((events + more).drop_last() =~= events + more.drop_last());
    }
}

/// A run without a report that the engine is done has failed, whatever is
/// on disk; with errors reported, the failure names each of them.
pub proof fn lemma_run_without_done_fails(events: Seq<EventView>, output_exists: bool)
    requires
        forall|i: int| 0 <= i < events.len() ==> !(#[trigger] events[i] is Done),
    ensures
        verdict_spec(observe_all(events), output_exists) is Err,
{
    lemma_done_iff_reported(events);
}

/// Follows the events of one run.
pub struct RunMonitor {
    done: bool,
    errors: Vec<String>,
}

impl View for RunMonitor {
    type V = MonitorView;

    closed spec fn view(&self) -> MonitorView {
        MonitorView { done: self.done, errors: texts_of(self.errors@) }
    }
}

impl RunMonitor {
    /// A monitor that has seen nothing.
    pub fn new() -> (monitor: RunMonitor)
        ensures
            monitor@ == nothing_seen(),
    {
        let monitor = RunMonitor { done: false, errors: Vec::new() };
        assert(texts_of(monitor.errors@) =~= Seq::<Seq<char>>::empty());
        monitor
    }

    /// Takes note of the next event. Returns whether more events are to be
    /// read: not once the engine is done.
    pub fn observe(&mut self, event: &EngineEvent) -> (read_on: bool)
        ensures
            final(self)@ == observe_spec(old(self)@, event@),
            read_on == !final(self)@.done,
    {
        if self.done {
            return false;
        }
        match event {
            EngineEvent::Done => {
                self.done = true;
            },
            EngineEvent::Error(message) => {
                self.errors.push(message.clone());
                assert(texts_of(self.errors@) =~= texts_of(old(self).errors@).push(message@));
            },
            _ => {},
        }
        !self.done
    }

    /// Whether the engine has reported that it is done.
    pub fn is_done(&self) -> (done: bool)
        ensures
            done == self@.done,
    {
        self.done
    }

    /// The judgement on the run, once its events have been read: see
    /// [`verdict_spec`].
    pub fn verdict(&self, output_exists: bool) -> (r: Result<(), PipelineError>)
        ensures
            match verdict_spec(self@, output_exists) {
                Ok(_) => r is Ok,
                Err(error) => r matches Err(e) && e@ == error,
            },
    {
        if self.done && output_exists {
            Ok(())
        } else if self.errors.len() > 0 {
            let detail = join(&self.errors, "; ");
            Err(PipelineError { kind: ErrorKind::EngineFailed, detail })
        } else {
            Err(PipelineError::bare(ErrorKind::EngineIncomplete))
        }
    }
}

/// Reads the events of a run that has ended.
pub fn observe_run(events: &Vec<EngineEvent>) -> (monitor: RunMonitor)
    ensures
        monitor@ == observe_all(events_of(events@)),
{
    let mut monitor = RunMonitor::new();
    let mut i: usize = 0;
    while i < events.len()
        invariant
            i <= events.len(),
            monitor@ == observe_all(events_of(events@).take(i as int)),
        decreases events.len() - i,
    {
        assert(events_of(events@).take(i + 1).drop_last() =~= events_of(events@).take(i as int));
        monitor.observe(&events[i]);
        i += 1;
    }
    assert(events_of(events@).take(events.len() as int) =~= events_of(events@));
    monitor
}

/// Judges a run that has ended by its events and by whether its output
/// file exists.
pub fn judge_run(events: &Vec<EngineEvent>, output_exists: bool) -> (r: Result<(), PipelineError>)
    ensures
        match verdict_spec(observe_all(events_of(events@)), output_exists) {
            Ok(_) => r is Ok,
            Err(error) => r matches Err(e) && e@ == error,
        },
{
    observe_run(events).verdict(output_exists)
}

} // verus!
