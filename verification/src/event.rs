//! What a suite tells its caller while it runs.

use crate::span::Span;
use vstd::prelude::*;

verus! {

/// A message body paired with the id of the suite it is about.
#[derive(Debug, PartialEq, Eq)]
pub struct Payload<T> {
    pub id: String,
    pub body: T,
}

/// One event of a suite. Every event names its suite, so that a caller who
/// follows many suites over one channel can tell their events apart.
#[derive(Debug, PartialEq, Eq)]
pub enum RunEvent<R, E> {
    /// The suite is still running after this much time.
    Slow(Payload<Span>),
    /// The suite ran to its end and gave this result.
    Success(Payload<R>),
    /// The suite could not be run to its end.
    Error(Payload<E>),
}

/// An event as a contract sees it: the id as text, the time in nanoseconds.
pub enum RunEventView<R, E> {
    Slow { id: Seq<char>, elapsed: nat },
    Success { id: Seq<char>, result: R },
    Error { id: Seq<char>, report: E },
}

impl<R, E> RunEventView<R, E> {
    /// The id of the suite that this event is about.
    pub open spec fn id(self) -> Seq<char> {
        match self {
            RunEventView::Slow { id, .. } => id,
            RunEventView::Success { id, .. } => id,
            RunEventView::Error { id, .. } => id,
        }
    }

    /// Whether this event ends its suite's stream.
    pub open spec fn is_terminal(self) -> bool {
        !(self is Slow)
    }

    /// The warnings among events.
    pub open spec fn warning() -> spec_fn(RunEventView<R, E>) -> bool {
        |e: RunEventView<R, E>| e is Slow
    }

    /// The terminal events among events.
    pub open spec fn ending() -> spec_fn(RunEventView<R, E>) -> bool {
        |e: RunEventView<R, E>| e.is_terminal()
    }

    /// The events about suite `id` among events.
    pub open spec fn about(id: Seq<char>) -> spec_fn(RunEventView<R, E>) -> bool {
        |e: RunEventView<R, E>| e.id() == id
    }

    /// The terminal event of suite `id` for the outcome of its execution.
    pub open spec fn terminal(id: Seq<char>, outcome: Result<R, E>) -> RunEventView<R, E> {
        match outcome {
            Ok(result) => RunEventView::Success { id, result },
            Err(report) => RunEventView::Error { id, report },
        }
    }
}

impl<R, E> View for RunEvent<R, E> {
    type V = RunEventView<R, E>;

    open spec fn view(&self) -> RunEventView<R, E> {
        match *self {
            RunEvent::Slow(p) => RunEventView::Slow { id: p.id@, elapsed: p.body@ },
            RunEvent::Success(p) => RunEventView::Success { id: p.id@, result: p.body },
            RunEvent::Error(p) => RunEventView::Error { id: p.id@, report: p.body },
        }
    }
}

impl<R, E> RunEvent<R, E> {
    /// The id of the suite that this event is about.
    pub fn id(&self) -> (r: &String)
        ensures
            r@ == self@.id(),
    {
        match self {
            RunEvent::Slow(p) => &p.id,
            RunEvent::Success(p) => &p.id,
            RunEvent::Error(p) => &p.id,
        }
    }

    /// Whether this event ends its suite's stream.
    pub fn is_terminal(&self) -> (r: bool)
        ensures
            r == self@.is_terminal(),
    {
        match self {
            RunEvent::Slow(_) => false,
            _ => true,
        }
    }

    /// The terminal event of suite `id` for the outcome of its execution:
    /// a success with the result, or an error with the report.
    pub fn terminal(id: String, outcome: Result<R, E>) -> (r: RunEvent<R, E>)
        ensures
            r@ == RunEventView::terminal(id@, outcome),
    {
        match outcome {
            Ok(body) => RunEvent::Success(Payload { id, body }),
            Err(body) => RunEvent::Error(Payload { id, body }),
        }
    }
}

/// An event for a caller who follows a single suite: only a warning names
/// the suite, and the end of the run carries the outcome as it came.
#[derive(Debug, PartialEq, Eq)]
pub enum TestRunEvent<R, E> {
    ExecutionSlow(String),
    ExecutionFinished(Result<R, E>),
}

impl<R, E> TestRunEvent<R, E> {
    /// The event that stands for `event` in a single suite's stream.
    pub open spec fn of(event: RunEvent<R, E>) -> TestRunEvent<R, E> {
        match event {
            RunEvent::Slow(p) => TestRunEvent::ExecutionSlow(p.id),
            RunEvent::Success(p) => TestRunEvent::ExecutionFinished(Ok(p.body)),
            RunEvent::Error(p) => TestRunEvent::ExecutionFinished(Err(p.body)),
        }
    }

    /// Drops what only a caller of many suites needs: the elapsed time of a
    /// warning and the id of a terminal event.
    pub fn from_run_event(event: RunEvent<R, E>) -> (r: TestRunEvent<R, E>)
        ensures
            r == TestRunEvent::of(event),
    {
        match event {
            RunEvent::Slow(p) => TestRunEvent::ExecutionSlow(p.id),
            RunEvent::Success(p) => TestRunEvent::ExecutionFinished(Ok(p.body)),
            RunEvent::Error(p) => TestRunEvent::ExecutionFinished(Err(p.body)),
        }
    }
}

} // verus!
