//! The per-connection supervisor: a state machine that walks one accepted
//! connection through handshake, classification, backend dialing and relay.
//!
//! The supervisor owns no I/O.  It hands its driver an [`Action`] to
//! perform; the driver reports what happened as an [`Event`] and receives
//! the next action.  Every failure event leads to `Close`: a failing
//! connection is abandoned and can affect no other connection, because a
//! supervisor holds no state shared with any other supervisor.
//!
//! Ghost state records every byte the supervisor has asked to be written to
//! the client, so the handshake exactness statement can be made: any
//! connection that reaches classification has been sent exactly the two
//! status lines, in order, whatever the client sent in between.

use vstd::prelude::*;

use crate::classifier::PeekOutcome;
use crate::classifier::classify;
use crate::classifier::classify_spec;
use crate::config::HANDSHAKE_READ_CAP;
use crate::config::PEEK_CAP;
use crate::config::PEEK_DEADLINE_MILLIS;
use crate::handshake::build_first_response;
use crate::handshake::build_second_response;
use crate::handshake::first_response;
use crate::handshake::second_response;
use crate::route::Backend;
use crate::route::BackendAddr;
use crate::route::route;
use crate::route::route_spec;

verus! {

/// Where a connection stands in its pipeline.
#[derive(Clone, Copy, PartialEq, Eq, Structural, Debug)]
pub enum Stage {
    /// Accepted; nothing sent yet.
    Start,
    /// The first status line has been handed to the transport.
    AwaitFirstWrite,
    /// Waiting for one discarded client chunk.
    AwaitClientChunk,
    /// The second status line has been handed to the transport.
    AwaitSecondWrite,
    /// Waiting for the classifier's bounded peek.
    AwaitPeek,
    /// Classified; waiting for the backend dial.
    AwaitDial { backend: Backend },
    /// Both halves are being relayed.
    Relaying { backend: Backend },
    /// The connection is finished; its resources are released.
    Closed,
}

/// What the driver reports back to the supervisor.
pub enum Event {
    /// The requested write completed in full.
    WriteCompleted,
    /// The requested write failed.
    WriteFailed,
    /// The discarded handshake chunk was read (its content does not
    /// matter, nor does its length, which may be zero).
    ChunkRead,
    /// The handshake chunk read failed.
    ReadFailed,
    /// The bounded peek finished with this outcome.
    Peeked(PeekOutcome),
    /// The backend dial succeeded.
    DialSucceeded,
    /// The backend dial failed.
    DialFailed,
    /// Both relay directions have ended.
    RelayEnded,
}

/// What the driver must do next.
pub enum Action {
    /// Write these bytes, whole, to the client.
    WriteClient(Vec<u8>),
    /// Read and discard one client chunk of at most this many bytes.
    ReadClient(usize),
    /// Peek at most `cap` client bytes, giving up after `deadline_millis`.
    PeekClient { cap: usize, deadline_millis: u64 },
    /// Dial this backend address.
    Dial(BackendAddr),
    /// Split both connections and drive the two relay directions.
    StartRelay,
    /// Close whatever is open and stop driving this connection.
    Close,
}

/// The supervisor of one accepted connection.
pub struct Supervisor {
    /// The current pipeline stage.
    pub stage: Stage,
    /// The configured handshake status text.
    pub status: Vec<u8>,
    /// Every byte handed to the transport for writing to the client.
    pub written: Ghost<Seq<u8>>,
    /// Whether a relay was ever started for this connection.
    pub relay_started: Ghost<bool>,
}

impl Supervisor {
    /// Which events a driver may report in each stage.
    pub open spec fn permitted(stage: Stage, ev: Event) -> bool {
        match stage {
            Stage::Start => false,
            Stage::AwaitFirstWrite => ev matches Event::WriteCompleted || ev
                matches Event::WriteFailed,
            Stage::AwaitClientChunk => ev matches Event::ChunkRead || ev
                matches Event::ReadFailed,
            Stage::AwaitSecondWrite => ev matches Event::WriteCompleted || ev
                matches Event::WriteFailed,
            Stage::AwaitPeek => ev matches Event::Peeked(_),
            Stage::AwaitDial { .. } => ev matches Event::DialSucceeded || ev
                matches Event::DialFailed,
            Stage::Relaying { .. } => ev matches Event::RelayEnded,
            Stage::Closed => false,
        }
    }

    /// The stage that follows a permitted event.
    pub open spec fn next_stage(stage: Stage, ev: Event) -> Stage {
        match stage {
            Stage::AwaitFirstWrite => match ev {
                Event::WriteCompleted => Stage::AwaitClientChunk,
                _ => Stage::Closed,
            },
            Stage::AwaitClientChunk => match ev {
                Event::ChunkRead => Stage::AwaitSecondWrite,
                _ => Stage::Closed,
            },
            Stage::AwaitSecondWrite => match ev {
                Event::WriteCompleted => Stage::AwaitPeek,
                _ => Stage::Closed,
            },
            Stage::AwaitPeek => match ev {
                Event::Peeked(o) => Stage::AwaitDial { backend: classify_spec(o) },
                _ => stage,
            },
            Stage::AwaitDial { backend } => match ev {
                Event::DialSucceeded => Stage::Relaying { backend },
                _ => Stage::Closed,
            },
            Stage::Relaying { .. } => Stage::Closed,
            _ => stage,
        }
    }

    /// Handshake bookkeeping: what must have been written to the client at
    /// each stage.  A closed connection may have stopped anywhere.
    pub open spec fn wf(self) -> bool {
        match self.stage {
            Stage::Start => self.written@ == Seq::<u8>::empty() && !self.relay_started@,
            Stage::AwaitFirstWrite => self.written@ == first_response(self.status@)
                && !self.relay_started@,
            Stage::AwaitClientChunk => self.written@ == first_response(self.status@)
                && !self.relay_started@,
            Stage::AwaitSecondWrite => self.written@ == first_response(self.status@)
                + second_response(self.status@) && !self.relay_started@,
            Stage::AwaitPeek => self.written@ == first_response(self.status@) + second_response(
                self.status@,
            ) && !self.relay_started@,
            Stage::AwaitDial { .. } => self.written@ == first_response(self.status@)
                + second_response(self.status@) && !self.relay_started@,
            Stage::Relaying { .. } => self.written@ == first_response(self.status@)
                + second_response(self.status@) && self.relay_started@,
            Stage::Closed => true,
        }
    }

    /// A fresh supervisor for a just-accepted connection.
    pub fn new(status: Vec<u8>) -> (s: Self)
        ensures
            s.wf(),
            s.stage == Stage::Start,
            s.status@ == status@,
            s.written@ == Seq::<u8>::empty(),
            !s.relay_started@,
    {
        Supervisor {
            stage: Stage::Start,
            status,
            written: Ghost(Seq::empty()),
            relay_started: Ghost(false),
        }
    }

    /// Opens the pipeline: the first status line is handed over for
    /// writing, whole and exactly as configured.
    pub fn begin(&mut self) -> (a: Action)
        requires
            old(self).stage == Stage::Start,
            old(self).wf(),
        ensures
            final(self).wf(),
            final(self).status@ == old(self).status@,
            final(self).stage == Stage::AwaitFirstWrite,
            a matches Action::WriteClient(b) && b@ == first_response(old(self).status@),
            final(self).written@ == first_response(old(self).status@),
            !final(self).relay_started@,
    {
        let line = build_first_response(&self.status);
        self.written = Ghost(self.written@ + line@);
        self.stage = Stage::AwaitFirstWrite;
        proof {
            assert(self.written@ =~= first_response(self.status@));
        }
        Action::WriteClient(line)
    }

    /// Takes one reported event and decides the next action.
    ///
    /// The transition table, stated below over [`Self::next_stage`] and the
    /// classifier and route specifications, is the whole pipeline policy:
    /// the second status line follows the discarded chunk whatever that
    /// chunk held; the dial target is fixed by the peek outcome alone; a
    /// failed dial closes the connection with the relay never started; and
    /// once both relay directions have ended the connection is closed.
    pub fn step(&mut self, ev: Event) -> (a: Action)
        requires
            old(self).wf(),
            Self::permitted(old(self).stage, ev),
        ensures
            final(self).wf(),
            final(self).status@ == old(self).status@,
            final(self).stage == Self::next_stage(old(self).stage, ev),
            final(self).relay_started@ == (old(self).relay_started@ || (old(self).stage
                matches Stage::AwaitDial { .. } && ev matches Event::DialSucceeded)),
            (old(self).stage == Stage::AwaitFirstWrite && ev matches Event::WriteCompleted) ==> (a
                matches Action::ReadClient(n) && n == HANDSHAKE_READ_CAP),
            (old(self).stage == Stage::AwaitClientChunk && ev matches Event::ChunkRead) ==> (a
                matches Action::WriteClient(b) && b@ == second_response(old(self).status@)
                && final(self).written@ == first_response(old(self).status@) + second_response(
                old(self).status@,
            )),
            (old(self).stage == Stage::AwaitSecondWrite && ev matches Event::WriteCompleted) ==> (a
                matches Action::PeekClient { cap, deadline_millis } && cap == PEEK_CAP
                && deadline_millis == PEEK_DEADLINE_MILLIS),
            old(self).stage == Stage::AwaitPeek ==> (ev matches Event::Peeked(o) ==> (a
                matches Action::Dial(addr) && addr == route_spec(classify_spec(o)))),
            (old(self).stage matches Stage::AwaitDial { .. } && ev matches Event::DialSucceeded)
                ==> (a matches Action::StartRelay),
            ((ev matches Event::WriteFailed || ev matches Event::ReadFailed || ev
                matches Event::DialFailed || ev matches Event::RelayEnded) ==> (a
                matches Action::Close && final(self).stage == Stage::Closed)),
            (!(old(self).stage == Stage::AwaitClientChunk && ev matches Event::ChunkRead))
                ==> final(self).written@ == old(self).written@,
    {
        match self.stage {
            Stage::AwaitFirstWrite => match ev {
                Event::WriteCompleted => {
                    self.stage = Stage::AwaitClientChunk;
                    Action::ReadClient(HANDSHAKE_READ_CAP)
                },
                _ => {
                    self.stage = Stage::Closed;
                    Action::Close
                },
            },
            Stage::AwaitClientChunk => match ev {
                Event::ChunkRead => {
                    let line = build_second_response(&self.status);
                    self.written = Ghost(self.written@ + line@);
                    self.stage = Stage::AwaitSecondWrite;
                    Action::WriteClient(line)
                },
                _ => {
                    self.stage = Stage::Closed;
                    Action::Close
                },
            },
            Stage::AwaitSecondWrite => match ev {
                Event::WriteCompleted => {
                    self.stage = Stage::AwaitPeek;
                    Action::PeekClient { cap: PEEK_CAP, deadline_millis: PEEK_DEADLINE_MILLIS }
                },
                _ => {
                    self.stage = Stage::Closed;
                    Action::Close
                },
            },
            Stage::AwaitPeek => match ev {
                Event::Peeked(o) => {
                    let backend = classify(&o);
                    self.stage = Stage::AwaitDial { backend };
                    Action::Dial(route(backend))
                },
                _ => {
                    proof {
                        assert(false);
                    }
                    Action::Close
                },
            },
            Stage::AwaitDial { backend } => match ev {
                Event::DialSucceeded => {
                    self.relay_started = Ghost(true);
                    self.stage = Stage::Relaying { backend };
                    Action::StartRelay
                },
                _ => {
                    self.stage = Stage::Closed;
                    Action::Close
                },
            },
            Stage::Relaying { .. } => {
                self.stage = Stage::Closed;
                Action::Close
            },
            _ => {
                proof {
                    assert(false);
                }
                Action::Close
            },
        }
    }

    /// Handshake exactness: a connection that has reached classification or
    /// anything after it has been sent exactly the two status lines with
    /// the configured status text, in order, and nothing else.
    pub proof fn lemma_handshake_writes(s: Supervisor)
        requires
            s.wf(),
            s.stage == Stage::AwaitPeek || (s.stage matches Stage::AwaitDial { .. }) || (s.stage
                matches Stage::Relaying { .. }),
        ensures
            s.written@ == first_response(s.status@) + second_response(s.status@),
    {
    }

    /// Dial-failure isolation: a failed backend dial closes the connection
    /// without the relay ever having started.
    pub proof fn lemma_dial_failure_no_relay(s: Supervisor, ev: Event)
        requires
            s.wf(),
            s.stage matches Stage::AwaitDial { .. },
            ev matches Event::DialFailed,
        ensures
            Self::next_stage(s.stage, ev) == Stage::Closed,
            !s.relay_started@,
    {
    }
}

} // verus!
