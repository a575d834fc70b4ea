//! The per-connection state machine of the server.
//!
//! The handler owns no socket. It is driven step by step: the caller
//! performs the pending socket or timer operation for the current phase,
//! then hands the outcome back as an [`Event`]; [`Handler::step`] updates
//! the accumulated request bytes and the phase, and answers with the next
//! [`Action`] to perform. One connection is driven fully — accept, reads,
//! write, graceful close, grace delay, forced abort, second delay —
//! before the next accept is issued.
//!
//! The request scratch buffer has fixed capacity [`BUF_CAPACITY`]; each
//! read is appended at the current end, and the whole accumulated string
//! is rescanned for the terminator, so a terminator split across reads is
//! detected. A request that fills the buffer without a terminator stops
//! the reading phase as well: the response does not depend on the request,
//! so the page is served rather than reading into a full buffer.

use vstd::prelude::*;

use crate::response::{response_bytes, response_spec};
use crate::terminator::{contains_terminator, has_terminator};

verus! {

/// Capacity of the receive scratch buffer, in bytes.
pub const BUF_CAPACITY: usize = 1024;

/// The phase of the connection loop. Each phase names the operation that
/// is currently outstanding; the matching [`Event`] completes it.
#[derive(Clone, Copy, Debug, PartialEq, Eq, Structural)]
pub enum Phase {
    /// An accept on the listening port is outstanding.
    Accepting,
    /// A read on the open connection is outstanding.
    Reading,
    /// A write of the fixed response is outstanding.
    Responding,
    /// A graceful close (FIN) is outstanding.
    Closing,
    /// The grace delay after the close is outstanding.
    CloseGrace,
    /// A forced abort (reset) is outstanding.
    Aborting,
    /// The grace delay after the abort is outstanding.
    AbortGrace,
}

/// The outcome of the operation the handler last asked for.
#[derive(Debug)]
pub enum Event {
    /// A peer connected.
    AcceptOk,
    /// The accept failed; no connection exists.
    AcceptErr,
    /// A read returned these bytes (at least one).
    ReadData(Vec<u8>),
    /// A read returned zero bytes: the peer closed its side.
    ReadEof,
    /// A read failed with a transport error.
    ReadErr,
    /// The response was written and flushed in full.
    WriteOk,
    /// Writing the response failed.
    WriteErr,
    /// The close, abort or delay completed (these cannot fail).
    Done,
}

/// The operation the caller must perform next.
#[derive(Debug, PartialEq, Eq)]
pub enum Action {
    /// Accept one connection on the listening port.
    Accept,
    /// Read from the connection into at most [`Handler::free_space`] bytes.
    Read,
    /// Write these bytes (the fixed response) to the connection in full.
    Write(Vec<u8>),
    /// Close the connection gracefully.
    Close,
    /// Wait out one fixed grace interval.
    Delay,
    /// Forcibly abort the connection, freeing the socket for reuse.
    Abort,
}

/// Mathematical image of an [`Event`].
pub enum EventView {
    AcceptOk,
    AcceptErr,
    ReadData(Seq<u8>),
    ReadEof,
    ReadErr,
    WriteOk,
    WriteErr,
    Done,
}

/// Mathematical image of an [`Action`].
pub enum ActionView {
    Accept,
    Read,
    Write(Seq<u8>),
    Close,
    Delay,
    Abort,
}

impl View for Event {
    type V = EventView;

    open spec fn view(&self) -> EventView {
        match self {
            Event::AcceptOk => EventView::AcceptOk,
            Event::AcceptErr => EventView::AcceptErr,
            Event::ReadData(v) => EventView::ReadData(v@),
            Event::ReadEof => EventView::ReadEof,
            Event::ReadErr => EventView::ReadErr,
            Event::WriteOk => EventView::WriteOk,
            Event::WriteErr => EventView::WriteErr,
            Event::Done => EventView::Done,
        }
    }
}

impl View for Action {
    type V = ActionView;

    open spec fn view(&self) -> ActionView {
        match self {
            Action::Accept => ActionView::Accept,
            Action::Read => ActionView::Read,
            Action::Write(v) => ActionView::Write(v@),
            Action::Close => ActionView::Close,
            Action::Delay => ActionView::Delay,
            Action::Abort => ActionView::Abort,
        }
    }
}

/// Mathematical state of the handler: the phase and the bytes
/// accumulated from the current connection so far.
pub struct Model {
    pub phase: Phase,
    pub buf: Seq<u8>,
}

/// The state a fresh handler starts in: an accept outstanding, nothing
/// buffered.
pub open spec fn init_model() -> Model {
    Model { phase: Phase::Accepting, buf: Seq::empty() }
}

/// Well-formedness: the buffer fits its fixed capacity, and while a read
/// is outstanding the buffer has room left and holds no terminator (had
/// it held one, reading would already have stopped).
pub open spec fn wf(m: Model) -> bool {
    &&& m.buf.len() <= BUF_CAPACITY
    &&& m.phase is Reading ==> m.buf.len() < BUF_CAPACITY && !has_terminator(m.buf)
}

/// The events that can answer the operation outstanding in `m`. A read
/// may return only as many bytes as the scratch buffer has room for:
/// the read action is issued over the remaining free space.
pub open spec fn enabled(m: Model, e: EventView) -> bool {
    match m.phase {
        Phase::Accepting => e is AcceptOk || e is AcceptErr,
        Phase::Reading => match e {
            EventView::ReadData(v) => 1 <= v.len() && m.buf.len() + v.len() <= BUF_CAPACITY,
            EventView::ReadEof => true,
            EventView::ReadErr => true,
            _ => false,
        },
        Phase::Responding => e is WriteOk || e is WriteErr,
        Phase::Closing => e is Done,
        Phase::CloseGrace => e is Done,
        Phase::Aborting => e is Done,
        Phase::AbortGrace => e is Done,
    }
}

/// The action that answers the operation outstanding in a phase. Used
/// both for the action a step returns and as the answer to an event that
/// does not fit the phase (the pending operation is simply reissued).
pub open spec fn pending_action(p: Phase) -> ActionView {
    match p {
        Phase::Accepting => ActionView::Accept,
        Phase::Reading => ActionView::Read,
        Phase::Responding => ActionView::Write(response_spec()),
        Phase::Closing => ActionView::Close,
        Phase::CloseGrace => ActionView::Delay,
        Phase::Aborting => ActionView::Abort,
        Phase::AbortGrace => ActionView::Delay,
    }
}

/// The transition relation of the connection loop, as one step of a
/// mathematical state machine: the state after `m` consumes event `e`.
///
/// An accept failure is absorbed: the handler stays in `Accepting` and a
/// fresh accept is issued. A successful accept starts a connection with
/// an empty buffer. Reading appends the received bytes at the current
/// end and stops — moving on to the response — once the accumulated
/// bytes contain the terminator, or the buffer is full, or the peer
/// closed, or the read failed. Write, close, delay and abort outcomes
/// each advance one phase; after the second grace delay the loop returns
/// to `Accepting`.
pub open spec fn next_model(m: Model, e: EventView) -> Model {
    match (m.phase, e) {
        (Phase::Accepting, EventView::AcceptOk) => Model { phase: Phase::Reading, buf: Seq::empty() },
        (Phase::Accepting, EventView::AcceptErr) => m,
        (Phase::Reading, EventView::ReadData(v)) => {
            let combined = m.buf + v;
            if has_terminator(combined) || combined.len() >= BUF_CAPACITY {
                Model { phase: Phase::Responding, buf: combined }
            } else {
                Model { phase: Phase::Reading, buf: combined }
            }
        },
        (Phase::Reading, EventView::ReadEof) => Model { phase: Phase::Responding, buf: m.buf },
        (Phase::Reading, EventView::ReadErr) => Model { phase: Phase::Responding, buf: m.buf },
        (Phase::Responding, EventView::WriteOk) => Model { phase: Phase::Closing, buf: m.buf },
        (Phase::Responding, EventView::WriteErr) => Model { phase: Phase::Closing, buf: m.buf },
        (Phase::Closing, EventView::Done) => Model { phase: Phase::CloseGrace, buf: m.buf },
        (Phase::CloseGrace, EventView::Done) => Model { phase: Phase::Aborting, buf: m.buf },
        (Phase::Aborting, EventView::Done) => Model { phase: Phase::AbortGrace, buf: m.buf },
        (Phase::AbortGrace, EventView::Done) => Model { phase: Phase::Accepting, buf: m.buf },
        _ => m,
    }
}

/// The action issued when `m` consumes event `e`: the operation
/// outstanding in the phase that `next_model` moves to.
pub open spec fn next_action(m: Model, e: EventView) -> ActionView {
    pending_action(next_model(m, e).phase)
}

/// The connection handler: the current phase and the receive scratch
/// buffer, a bounded append-only cursor over the bytes of the current
/// request.
pub struct Handler {
    phase: Phase,
    buf: Vec<u8>,
}

impl View for Handler {
    type V = Model;

    closed spec fn view(&self) -> Model {
        Model { phase: self.phase, buf: self.buf@ }
    }
}

impl Handler {
    /// A fresh handler, together with the first action to perform: the
    /// accept of the first connection.
    pub fn new() -> (r: (Handler, Action))
        ensures
            r.0@ == init_model(),
            wf(r.0@),
            r.1@ == ActionView::Accept,
    {
        (Handler { phase: Phase::Accepting, buf: Vec::new() }, Action::Accept)
    }

    /// The current phase.
    pub fn phase(&self) -> (p: Phase)
        ensures
            p == self@.phase,
    {
        self.phase
    }

    /// How many more request bytes the scratch buffer can take: a read
    /// must be issued over at most this many bytes.
    pub fn free_space(&self) -> (n: usize)
        requires
            wf(self@),
        ensures
            n == BUF_CAPACITY - self@.buf.len(),
    {
        BUF_CAPACITY - self.buf.len()
    }

    /// Consumes the outcome of the pending operation and answers with
    /// the next operation to perform. The new state and the action are
    /// exactly those of the mathematical transition [`next_model`] /
    /// [`next_action`].
    pub fn step(&mut self, event: Event) -> (action: Action)
        requires
            wf(old(self)@),
            enabled(old(self)@, event@),
        ensures
            final(self)@ == next_model(old(self)@, event@),
            action@ == next_action(old(self)@, event@),
            wf(final(self)@),
    {
        match self.phase {
            Phase::Accepting => match event {
                Event::AcceptOk => {
                    self.phase = Phase::Reading;
                    self.buf = Vec::new();
                    Action::Read
                },
                Event::AcceptErr => Action::Accept,
                _ => vstd::pervasive::unreached(),
            },
            Phase::Reading => match event {
                Event::ReadData(mut data) => {
                    self.buf.append(&mut data);
                    if contains_terminator(self.buf.as_slice()) || self.buf.len() >= BUF_CAPACITY {
                        self.phase = Phase::Responding;
                        Action::Write(response_bytes())
                    } else {
                        Action::Read
                    }
                },
                Event::ReadEof => {
                    self.phase = Phase::Responding;
                    Action::Write(response_bytes())
                },
                Event::ReadErr => {
                    self.phase = Phase::Responding;
                    Action::Write(response_bytes())
                },
                _ => vstd::pervasive::unreached(),
            },
            Phase::Responding => match event {
                Event::WriteOk => {
                    self.phase = Phase::Closing;
                    Action::Close
                },
                Event::WriteErr => {
                    self.phase = Phase::Closing;
                    Action::Close
                },
                _ => vstd::pervasive::unreached(),
            },
            Phase::Closing => match event {
                Event::Done => {
                    self.phase = Phase::CloseGrace;
                    Action::Delay
                },
                _ => vstd::pervasive::unreached(),
            },
            Phase::CloseGrace => match event {
                Event::Done => {
                    self.phase = Phase::Aborting;
                    Action::Abort
                },
                _ => vstd::pervasive::unreached(),
            },
            Phase::Aborting => match event {
                Event::Done => {
                    self.phase = Phase::AbortGrace;
                    Action::Delay
                },
                _ => vstd::pervasive::unreached(),
            },
            Phase::AbortGrace => match event {
                Event::Done => {
                    self.phase = Phase::Accepting;
                    Action::Accept
                },
                _ => vstd::pervasive::unreached(),
            },
        }
    }
}

} // verus!
