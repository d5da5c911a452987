//! The handshake pump, as a state machine.
//!
//! The pump never touches a session or a socket itself. It tells its driver
//! what to do next (an [`Action`]); the driver performs it on the real TLS
//! session and transport and reports what happened (an [`Event`]).
use vstd::prelude::*;
use crate::error::EchoError;

verus! {

/// Iteration budget of a pump built by [`Pump::with_default_bound`].
pub const MAX_ITERS: u32 = 32;

/// What the driver must do next.
#[derive(Clone, Copy, Debug, PartialEq, Eq, Structural)]
pub enum Action {
    /// Ask the session `is_handshaking()`; answer with [`Event::Handshaking`].
    AskHandshaking,
    /// Ask the session `wants_read()`; answer with [`Event::WantsRead`].
    AskWantsRead,
    /// Call `read_tls` on the transport; answer with [`Event::TlsRead`].
    ReadTls,
    /// Call `process_new_packets`; answer with [`Event::PacketsProcessed`].
    ProcessPackets,
    /// Ask the session `wants_write()`; answer with [`Event::WantsWrite`].
    AskWantsWrite,
    /// Call `write_tls` on the transport; answer with [`Event::TlsWritten`].
    WriteTls,
    /// The handshake is complete; nothing more is to be done.
    Complete,
    /// The pump has stopped with this error; nothing more is to be done.
    Fail(EchoError),
}

/// What the driver observed after performing an [`Action`].
#[derive(Clone, Copy, Debug, PartialEq, Eq, Structural)]
pub enum Event {
    /// The answer of `is_handshaking()`.
    Handshaking(bool),
    /// The answer of `wants_read()`.
    WantsRead(bool),
    /// Whether `read_tls` succeeded.
    TlsRead(bool),
    /// Whether `process_new_packets` accepted the buffered records.
    PacketsProcessed(bool),
    /// The answer of `wants_write()`.
    WantsWrite(bool),
    /// Whether `write_tls` succeeded.
    TlsWritten(bool),
}

/// The state of one handshake pump invocation.
#[derive(Clone, Copy, Debug, PartialEq, Eq, Structural)]
pub struct Pump {
    /// The action the pump is waiting to hear the result of.
    pub pending: Action,
    /// Iterations that may still be started.
    pub remaining: u32,
    /// The iteration budget the pump was created with.
    pub bound: u32,
}

impl Pump {
    /// The remaining budget never exceeds the configured bound.
    pub open spec fn wf(self) -> bool {
        self.remaining <= self.bound
    }

    /// Number of loop iterations started so far.
    pub open spec fn iterations(self) -> int {
        self.bound - self.remaining
    }

    pub open spec fn is_finished(self) -> bool {
        self.pending is Complete || self.pending is Fail
    }

    /// A pump at the top of its loop, with a budget of `bound` iterations.
    pub open spec fn initial(bound: u32) -> Pump {
        Pump { pending: Action::AskHandshaking, remaining: bound, bound }
    }

    /// The state after the driver reports `ev`.
    ///
    /// An event that does not answer the pending action leaves the pump as
    /// it was, and so does any event once the pump has finished.
    pub open spec fn next(self, ev: Event) -> Pump {
        match (self.pending, ev) {
            (Action::AskHandshaking, Event::Handshaking(h)) => {
                if !h {
                    Pump { pending: Action::Complete, ..self }
                } else if self.remaining == 0 {
                    Pump {
                        pending: Action::Fail(EchoError::HandshakeTimeout { bound: self.bound }),
                        ..self
                    }
                } else {
                    Pump { pending: Action::AskWantsRead, remaining: (self.remaining - 1) as u32, ..self }
                }
            },
            (Action::AskWantsRead, Event::WantsRead(w)) => {
                Pump { pending: if w { Action::ReadTls } else { Action::AskWantsWrite }, ..self }
            },
            (Action::ReadTls, Event::TlsRead(ok)) => {
                Pump {
                    pending: if ok {
                        Action::ProcessPackets
                    } else {
                        Action::Fail(EchoError::HandshakeIoError)
                    },
                    ..self
                }
            },
            (Action::ProcessPackets, Event::PacketsProcessed(ok)) => {
                Pump {
                    pending: if ok {
                        Action::AskWantsWrite
                    } else {
                        Action::Fail(EchoError::HandshakeProtocolError)
                    },
                    ..self
                }
            },
            (Action::AskWantsWrite, Event::WantsWrite(w)) => {
                Pump { pending: if w { Action::WriteTls } else { Action::AskHandshaking }, ..self }
            },
            (Action::WriteTls, Event::TlsWritten(ok)) => {
                Pump {
                    pending: if ok {
                        Action::AskWantsWrite
                    } else {
                        Action::Fail(EchoError::HandshakeIoError)
                    },
                    ..self
                }
            },
            _ => self,
        }
    }

    /// A fresh pump allowed `bound` iterations; its first action is to ask
    /// whether the session is still handshaking.
    pub fn new(bound: u32) -> (r: Pump)
        ensures
            r == Pump::initial(bound),
            r.wf(),
    {
        Pump { pending: Action::AskHandshaking, remaining: bound, bound }
    }

    /// A fresh pump with the standard budget of [`MAX_ITERS`] iterations.
    pub fn with_default_bound() -> (r: Pump)
        ensures
            r == Pump::initial(MAX_ITERS),
    {
        Pump::new(MAX_ITERS)
    }

    /// The action the driver must perform now.
    pub fn pending(&self) -> (r: Action)
        ensures
            r == self.pending,
    {
        self.pending
    }

    /// Feed the result of the pending action and get the next one.
    pub fn step(&mut self, ev: Event) -> (r: Action)
        ensures
            *final(self) == old(self).next(ev),
            r == final(self).pending,
            old(self).wf() ==> final(self).wf(),
    {
        let next = match (self.pending, ev) {
            (Action::AskHandshaking, Event::Handshaking(h)) => {
                if !h {
                    Action::Complete
                } else if self.remaining == 0 {
                    Action::Fail(EchoError::HandshakeTimeout { bound: self.bound })
                } else {
                    self.remaining = self.remaining - 1;
                    Action::AskWantsRead
                }
            },
            (Action::AskWantsRead, Event::WantsRead(w)) => {
                if w { Action::ReadTls } else { Action::AskWantsWrite }
            },
            (Action::ReadTls, Event::TlsRead(ok)) => {
                if ok { Action::ProcessPackets } else { Action::Fail(EchoError::HandshakeIoError) }
            },
            (Action::ProcessPackets, Event::PacketsProcessed(ok)) => {
                if ok {
                    Action::AskWantsWrite
                } else {
                    Action::Fail(EchoError::HandshakeProtocolError)
                }
            },
            (Action::AskWantsWrite, Event::WantsWrite(w)) => {
                if w { Action::WriteTls } else { Action::AskHandshaking }
            },
            (Action::WriteTls, Event::TlsWritten(ok)) => {
                if ok { Action::AskWantsWrite } else { Action::Fail(EchoError::HandshakeIoError) }
            },
            _ => self.pending,
        };
        self.pending = next;
        next
    }
}

} // verus!
