//! The exchange with the evaluator process. The evaluator answers one line
//! for each line it is sent and tells nothing of which request an answer
//! belongs to, so requests are served one at a time: a request is written,
//! then exactly one line is read, and only then is the next request taken.
//!
//! The host decides; its driver acts. While the host is idle the driver
//! takes the next path from the request queue and reports it. After that
//! it performs the action that `step` returns (writes to or reads from the
//! evaluator, hands a result on, terminates the evaluator) and reports how
//! it went as the next event.

use vstd::prelude::*;
use crate::codec::{decode_line, decode_text, DecodeError};
use crate::path::BrowserPath;
use crate::syntax::expr;
use crate::value::{NixValue, ValueView};

verus! {

/// Where the evaluator's program is found, relative to the working directory
/// in which the application is started.
pub const WORKER_BINARY_PATH: &'static str = "./worker/build/nix-inspect";

/// Why a request was given up. It is never tried again, and its requester
/// is not told.
#[derive(Debug, PartialEq)]
pub enum Loss {
    /// No line could be read from the evaluator.
    Unread,
    /// The line read is no answer: the line, and what is wrong with it.
    Malformed(String, DecodeError),
}

/// A loss as a mathematical value.
pub enum LossView {
    Unread,
    Malformed(Seq<char>, DecodeError),
}

impl View for Loss {
    type V = LossView;

    open spec fn view(&self) -> LossView {
        match self {
            Loss::Unread => LossView::Unread,
            Loss::Malformed(line, cause) => LossView::Malformed(line@, *cause),
        }
    }
}

/// Where the exchange stands.
#[derive(Debug)]
enum Phase {
    /// No request is in flight.
    Idle,
    /// The request for this path has been handed out to be written.
    Writing(BrowserPath),
    /// The request for this path is written and its answer is awaited.
    Reading(BrowserPath),
    /// The exchange is over and the evaluator has been told to terminate.
    Closed,
}

/// What the driver reports.
#[derive(Debug, PartialEq)]
pub enum Event {
    /// The next path taken from the request queue.
    Request(BrowserPath),
    /// The request queue is closed.
    QueueClosed,
    /// The request line was written.
    Written,
    /// The request line could not be written.
    WriteFailed,
    /// One line was read from the evaluator.
    Line(String),
    /// No line could be read.
    ReadFailed,
}

/// What the driver is to do next.
#[derive(Debug, PartialEq)]
pub enum Action {
    /// Write this text to the evaluator.
    Write(String),
    /// Read one line from the evaluator.
    Read,
    /// Hand on this result, then take the next path from the request queue.
    Emit(BrowserPath, NixValue),
    /// Log that the request for this path is given up, then take the next
    /// path from the request queue.
    Drop(BrowserPath, Loss),
    /// Terminate the evaluator and stop.
    Kill,
    /// The event was not awaited: nothing changes and nothing is to be done.
    Nothing,
}

/// A phase as a mathematical value.
pub enum PhaseView {
    Idle,
    Writing(Seq<Seq<char>>),
    Reading(Seq<Seq<char>>),
    Closed,
}

/// An event as a mathematical value.
pub enum EventView {
    Request(Seq<Seq<char>>),
    QueueClosed,
    Written,
    WriteFailed,
    Line(Seq<char>),
    ReadFailed,
}

/// An action as a mathematical value.
pub enum ActionView {
    Write(Seq<char>),
    Read,
    Emit(Seq<Seq<char>>, ValueView),
    Drop(Seq<Seq<char>>, LossView),
    Kill,
    Nothing,
}

impl View for Phase {
    type V = PhaseView;

    closed spec fn view(&self) -> PhaseView {
        match self {
            Phase::Idle => PhaseView::Idle,
            Phase::Writing(p) => PhaseView::Writing(p@),
            Phase::Reading(p) => PhaseView::Reading(p@),
            Phase::Closed => PhaseView::Closed,
        }
    }
}

impl View for Event {
    type V = EventView;

    open spec fn view(&self) -> EventView {
        match self {
            Event::Request(p) => EventView::Request(p@),
            Event::QueueClosed => EventView::QueueClosed,
            Event::Written => EventView::Written,
            Event::WriteFailed => EventView::WriteFailed,
            Event::Line(l) => EventView::Line(l@),
            Event::ReadFailed => EventView::ReadFailed,
        }
    }
}

impl View for Action {
    type V = ActionView;

    open spec fn view(&self) -> ActionView {
        match self {
            Action::Write(t) => ActionView::Write(t@),
            Action::Read => ActionView::Read,
            Action::Emit(p, v) => ActionView::Emit(p@, v@),
            Action::Drop(p, l) => ActionView::Drop(p@, l@),
            Action::Kill => ActionView::Kill,
            Action::Nothing => ActionView::Nothing,
        }
    }
}

/// The line that asks for a path: its expression and a line feed.
pub open spec fn request_line(p: Seq<Seq<char>>) -> Seq<char> {
    expr(p).push('\n')
}

/// What becomes of the request for `p` when `line` is read as its answer.
pub open spec fn settle(p: Seq<Seq<char>>, line: Seq<char>) -> ActionView {
    match decode_text(line) {
        Ok(v) => ActionView::Emit(p, v),
        Err(e) => ActionView::Drop(p, LossView::Malformed(line, e)),
    }
}

/// The phase that follows `phase` on `event`, and the action to take.
pub open spec fn step_spec(phase: PhaseView, event: EventView) -> (PhaseView, ActionView) {
    match (phase, event) {
        (PhaseView::Idle, EventView::Request(p)) => (
            PhaseView::Writing(p),
            ActionView::Write(request_line(p)),
        ),
        (PhaseView::Idle, EventView::QueueClosed) => (PhaseView::Closed, ActionView::Kill),
        (PhaseView::Writing(p), EventView::Written) => (PhaseView::Reading(p), ActionView::Read),
        (PhaseView::Writing(p), EventView::WriteFailed) => (PhaseView::Closed, ActionView::Kill),
        (PhaseView::Reading(p), EventView::Line(line)) => (PhaseView::Idle, settle(p, line)),
        (PhaseView::Reading(p), EventView::ReadFailed) => (
            PhaseView::Idle,
            ActionView::Drop(p, LossView::Unread),
        ),
        _ => (phase, ActionView::Nothing),
    }
}

/// The side of the exchange that decides: it owns the evaluator's protocol
/// and holds at most one request in flight.
#[derive(Debug)]
pub struct WorkerHost {
    phase: Phase,
}

impl View for WorkerHost {
    type V = PhaseView;

    closed spec fn view(&self) -> PhaseView {
        self.phase@
    }
}

impl WorkerHost {
    /// A host with no request in flight.
    pub fn new() -> (host: WorkerHost)
        ensures
            host@ == PhaseView::Idle,
    {
        WorkerHost { phase: Phase::Idle }
    }

    /// Whether the exchange is over.
    pub fn is_closed(&self) -> (r: bool)
        ensures
            r == (self@ is Closed),
    {
        match &self.phase {
            Phase::Closed => true,
            _ => false,
        }
    }

    /// The path whose request is in flight, if there is one.
    pub fn in_flight(&self) -> (r: Option<&BrowserPath>)
        ensures
            match self@ {
                PhaseView::Writing(p) => r matches Some(q) && q@ == p,
                PhaseView::Reading(p) => r matches Some(q) && q@ == p,
                _ => r is None,
            },
    {
        match &self.phase {
            Phase::Writing(p) => Some(p),
            Phase::Reading(p) => Some(p),
            _ => None,
        }
    }

    /// Takes in what the driver reports and says what it is to do next.
    pub fn step(&mut self, event: Event) -> (action: Action)
        ensures
            (final(self)@, action@) == step_spec(old(self)@, event@),
    {
        let mut phase = Phase::Closed;
        std::mem::swap(&mut self.phase, &mut phase);
        let (next, action) = match (phase, event) {
            (Phase::Idle, Event::Request(p)) => {
                let mut line = p.to_expr();
                line.push('\n');
                (Phase::Writing(p), Action::Write(line))
            },
            (Phase::Idle, Event::QueueClosed) => (Phase::Closed, Action::Kill),
            (Phase::Writing(p), Event::Written) => (Phase::Reading(p), Action::Read),
            (Phase::Writing(_), Event::WriteFailed) => (Phase::Closed, Action::Kill),
            (Phase::Reading(p), Event::Line(line)) => {
                let action = match decode_line(line.as_str()) {
                    Ok(v) => Action::Emit(p, v),
                    Err(e) => Action::Drop(p, Loss::Malformed(line, e)),
                };
                (Phase::Idle, action)
            },
            (Phase::Reading(p), Event::ReadFailed) => (Phase::Idle, Action::Drop(p, Loss::Unread)),
            (phase, _) => (phase, Action::Nothing),
        };
        self.phase = next;
        action
    }
}

} // verus!
