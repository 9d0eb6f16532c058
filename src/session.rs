//! One connection's session: the decisions of the receive loop as a state
//! machine. The driver performs each returned action (receive a frame, run
//! the frontend, run the runtime on the session's environment, send a frame,
//! close) and feeds back what happened as the next event.

use vstd::prelude::*;
use crate::envelope::{encode_err, encode_ok, err_frame, ok_frame, texts};

verus! {

/// Where a connection stands in its request/response cycle.
#[derive(Clone, Copy, Debug, PartialEq, Eq, Structural)]
pub enum Phase {
    /// Waiting for the next inbound frame.
    Awaiting,
    /// A source fragment was handed to the frontend.
    Parsing,
    /// A parsed program was handed to the runtime.
    Evaluating,
    /// The reply frame was handed to the transport.
    Sending,
    /// The connection is over; nothing further happens.
    Closed,
}

/// What the transport delivered when the next frame was awaited.
pub enum Inbound {
    /// A text frame: one source fragment, verbatim.
    Text(String),
    /// A non-text frame, or one that failed to decode.
    Malformed,
    /// The peer closed the connection, or the transport failed.
    Closed,
}

/// What happened after the last action was performed.
pub enum Event {
    /// Result of `Action::Receive`.
    Received(Inbound),
    /// Result of `Action::Parse`: the syntax errors the frontend reported,
    /// in order; empty when the program is usable.
    Parsed(Vec<String>),
    /// Result of `Action::Evaluate`: display string of the resulting value.
    Evaluated(String),
    /// `Action::Send` completed.
    Sent,
    /// `Action::Send` failed at the transport.
    SendFailed,
}

/// What the driver must do next.
pub enum Action {
    /// Await the next inbound frame.
    Receive,
    /// Run the frontend on this source fragment.
    Parse(String),
    /// Run the runtime on the parsed program, with exclusive access to the
    /// session's environment for the duration of the call only.
    Evaluate,
    /// Send this text as one outbound frame.
    Send(String),
    /// End the connection and discard the session's environment.
    Close,
}

/// Abstract form of an event.
pub enum EventView {
    Text(Seq<char>),
    Malformed,
    PeerClosed,
    Parsed(Seq<Seq<char>>),
    Evaluated(Seq<char>),
    Sent,
    SendFailed,
}

/// Abstract form of an action.
pub enum ActionView {
    Receive,
    Parse(Seq<char>),
    Evaluate,
    Send(Seq<char>),
    Close,
}

/// Abstract state of a connection: its phase, the source fragment being
/// processed, and every exchange so far as (source, reply frame), in order.
pub struct ConnView {
    pub phase: Phase,
    pub pending: Option<Seq<char>>,
    pub history: Seq<(Seq<char>, Seq<char>)>,
}

impl View for Event {
    type V = EventView;

    open spec fn view(&self) -> EventView {
        match self {
            Event::Received(Inbound::Text(s)) => EventView::Text(s@),
            Event::Received(Inbound::Malformed) => EventView::Malformed,
            Event::Received(Inbound::Closed) => EventView::PeerClosed,
            Event::Parsed(errs) => EventView::Parsed(texts(errs@)),
            Event::Evaluated(d) => EventView::Evaluated(d@),
            Event::Sent => EventView::Sent,
            Event::SendFailed => EventView::SendFailed,
        }
    }
}

impl View for Action {
    type V = ActionView;

    open spec fn view(&self) -> ActionView {
        match self {
            Action::Receive => ActionView::Receive,
            Action::Parse(s) => ActionView::Parse(s@),
            Action::Evaluate => ActionView::Evaluate,
            Action::Send(f) => ActionView::Send(f@),
            Action::Close => ActionView::Close,
        }
    }
}

/// The state of a freshly opened connection.
pub open spec fn initial() -> ConnView {
    ConnView { phase: Phase::Awaiting, pending: None, history: Seq::empty() }
}

/// A source fragment is in flight exactly while it is parsed or evaluated.
pub open spec fn well_formed(s: ConnView) -> bool {
    match s.phase {
        Phase::Parsing | Phase::Evaluating => s.pending is Some,
        Phase::Awaiting | Phase::Sending => s.pending is None,
        Phase::Closed => true,
    }
}

/// The connection ends; what was recorded stays as it is.
pub open spec fn closed(s: ConnView) -> (ConnView, ActionView) {
    (ConnView { phase: Phase::Closed, ..s }, ActionView::Close)
}

/// Records the reply to the fragment in flight and sends it.
pub open spec fn reply(s: ConnView, frame: Seq<char>) -> (ConnView, ActionView) {
    (
        ConnView {
            phase: Phase::Sending,
            pending: None,
            history: s.history.push((s.pending->0, frame)),
        },
        ActionView::Send(frame),
    )
}

/// One transition: the next state and the action the driver must perform.
/// An event that does not fit the phase ends the connection, and so does
/// every event once it is closed.
pub open spec fn next(s: ConnView, e: EventView) -> (ConnView, ActionView) {
    match (s.phase, e) {
        (Phase::Awaiting, EventView::Text(src)) => (
            ConnView { phase: Phase::Parsing, pending: Some(src), history: s.history },
            ActionView::Parse(src),
        ),
        (Phase::Parsing, EventView::Parsed(errs)) => if errs.len() > 0 {
            reply(s, err_frame(errs))
        } else {
            (ConnView { phase: Phase::Evaluating, ..s }, ActionView::Evaluate)
        },
        (Phase::Evaluating, EventView::Evaluated(d)) => reply(s, ok_frame(d)),
        (Phase::Sending, EventView::Sent) => (
            ConnView { phase: Phase::Awaiting, ..s },
            ActionView::Receive,
        ),
        _ => closed(s),
    }
}

/// Feeds the events in order from state `s`: the final state and the
/// actions issued, one per event.
pub open spec fn run(s: ConnView, events: Seq<EventView>) -> (ConnView, Seq<ActionView>)
    decreases events.len(),
{
    if events.len() == 0 {
        (s, Seq::empty())
    } else {
        let (mid, acts) = run(s, events.drop_last());
        let (last, a) = next(mid, events.last());
        (last, acts.push(a))
    }
}

/// Per-connection session state.
pub struct Connection {
    phase: Phase,
    pending: Ghost<Option<Seq<char>>>,
    history: Ghost<Seq<(Seq<char>, Seq<char>)>>,
}

impl View for Connection {
    type V = ConnView;

    closed spec fn view(&self) -> ConnView {
        ConnView { phase: self.phase, pending: self.pending@, history: self.history@ }
    }
}

impl Connection {
    /// A session for a newly established connection, with nothing recorded.
    pub fn new() -> (c: Connection)
        ensures
            c@ == initial(),
    {
        Connection { phase: Phase::Awaiting, pending: Ghost(None), history: Ghost(Seq::empty()) }
    }

    /// The current phase.
    pub fn phase(&self) -> (p: Phase)
        ensures
            p == self@.phase,
    {
        self.phase
    }

    /// Whether the connection is over.
    pub fn is_closed(&self) -> (r: bool)
        ensures
            r == (self@.phase == Phase::Closed),
    {
        self.phase == Phase::Closed
    }

    fn close(&mut self) -> (a: Action)
        ensures
            (final(self)@, a@) == closed(old(self)@),
    {
        self.phase = Phase::Closed;
        Action::Close
    }

    fn send(&mut self, frame: String) -> (a: Action)
        ensures
            (final(self)@, a@) == reply(old(self)@, frame@),
    {
        self.history = Ghost(self.history@.push((self.pending@->0, frame@)));
        self.pending = Ghost(None);
        self.phase = Phase::Sending;
        Action::Send(frame)
    }

    /// Takes what happened after the previous action and decides the next.
    pub fn step(&mut self, event: Event) -> (a: Action)
        ensures
            (final(self)@, a@) == next(old(self)@, event@),
    {
        match event {
            Event::Received(Inbound::Text(src)) => {
                if self.phase == Phase::Awaiting {
                    self.phase = Phase::Parsing;
                    self.pending = Ghost(Some(src@));
                    Action::Parse(src)
                } else {
                    self.close()
                }
            },
            Event::Parsed(errs) => {
                if self.phase == Phase::Parsing {
                    if errs.len() > 0 {
                        let frame = encode_err(&errs);
                        self.send(frame)
                    } else {
                        self.phase = Phase::Evaluating;
                        Action::Evaluate
                    }
                } else {
                    self.close()
                }
            },
            Event::Evaluated(d) => {
                if self.phase == Phase::Evaluating {
                    let frame = encode_ok(d.as_str());
                    self.send(frame)
                } else {
                    self.close()
                }
            },
            Event::Sent => {
                if self.phase == Phase::Sending {
                    self.phase = Phase::Awaiting;
                    Action::Receive
                } else {
                    self.close()
                }
            },
            _ => self.close(),
        }
    }
}

} // verus!
