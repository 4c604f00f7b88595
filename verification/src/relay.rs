//! The duplex relay, one direction at a time: read a chunk, forward it in
//! full, repeat, until end-of-stream or an error on either side.
//!
//! A direction records, in ghost state, the bytes it has received and the
//! bytes it has handed on.  Its invariant — the two are always the same
//! sequence — is the fidelity statement: bytes are forwarded unmodified and
//! in order.  The two directions of a connection are independent values;
//! neither ending affects the other, and the pair reports teardown only once
//! both have ended.

use vstd::prelude::*;

verus! {

/// What a read on the source half produced.
pub enum ReadEvent {
    /// A chunk of bytes was read.
    Data(Vec<u8>),
    /// The source reported end-of-stream.
    Eof,
    /// The read failed.
    Failed,
}

/// What the direction asks its driver to do next.
pub enum RelayStep {
    /// Write this whole chunk to the destination half.
    Forward(Vec<u8>),
    /// This direction has ended; stop driving it.
    Stop,
}

/// One direction of the relay: a strict FIFO byte pump.
pub struct RelayDirection {
    /// True once this direction has ended, by end-of-stream or error.
    pub done: bool,
    /// The bytes read from the source half, in order.
    pub received: Ghost<Seq<u8>>,
    /// The bytes handed to the destination half, in order.
    pub forwarded: Ghost<Seq<u8>>,
}

impl RelayDirection {
    /// Fidelity invariant: every byte received has been handed on,
    /// unmodified and in order, and nothing else ever is.
    pub open spec fn wf(self) -> bool {
        self.forwarded@ == self.received@
    }

    /// A fresh direction: nothing received, nothing forwarded, running.
    pub fn new() -> (d: Self)
        ensures
            d.wf(),
            !d.done,
            d.received@ == Seq::<u8>::empty(),
            d.forwarded@ == Seq::<u8>::empty(),
    {
        RelayDirection {
            done: false,
            received: Ghost(Seq::empty()),
            forwarded: Ghost(Seq::empty()),
        }
    }

    /// Takes the result of one read on the source half.  A chunk is handed
    /// on whole and unchanged; end-of-stream or a failed read ends the
    /// direction without forwarding anything further.
    pub fn on_read(&mut self, ev: ReadEvent) -> (step: RelayStep)
        requires
            !old(self).done,
            old(self).wf(),
        ensures
            final(self).wf(),
            (ev matches ReadEvent::Data(chunk) ==> {
                &&& !final(self).done
                &&& final(self).received@ == old(self).received@ + chunk@
                &&& final(self).forwarded@ == old(self).forwarded@ + chunk@
                &&& step matches RelayStep::Forward(out) && out@ == chunk@
            }),
            (!(ev matches ReadEvent::Data(_)) ==> {
                &&& final(self).done
                &&& final(self).received@ == old(self).received@
                &&& final(self).forwarded@ == old(self).forwarded@
                &&& step matches RelayStep::Stop
            }),
    {
        match ev {
            ReadEvent::Data(chunk) => {
                self.received = Ghost(self.received@ + chunk@);
                self.forwarded = Ghost(self.forwarded@ + chunk@);
                RelayStep::Forward(chunk)
            },
            ReadEvent::Eof => {
                self.done = true;
                RelayStep::Stop
            },
            ReadEvent::Failed => {
                self.done = true;
                RelayStep::Stop
            },
        }
    }

    /// Takes the result of writing a forwarded chunk to the destination
    /// half: a failed write ends the direction.
    pub fn on_write_result(&mut self, ok: bool) -> (stop: bool)
        requires
            !old(self).done,
            old(self).wf(),
        ensures
            final(self).wf(),
            final(self).done == !ok,
            stop == !ok,
            final(self).received@ == old(self).received@,
            final(self).forwarded@ == old(self).forwarded@,
    {
        if !ok {
            self.done = true;
        }
        !ok
    }

    /// Relay fidelity: at every point in a direction's life, the bytes it
    /// has handed on are exactly the bytes it received, in order.
    pub proof fn lemma_relay_fidelity(self)
        requires
            self.wf(),
        ensures
            self.forwarded@ == self.received@,
    {
    }
}

/// The two directions of one relayed connection.
pub struct RelayPair {
    /// Client to backend.
    pub upstream: RelayDirection,
    /// Backend to client.
    pub downstream: RelayDirection,
}

impl RelayPair {
    /// Both directions keep their fidelity invariant.
    pub open spec fn wf(self) -> bool {
        self.upstream.wf() && self.downstream.wf()
    }

    /// A fresh pair of running directions.
    pub fn new() -> (p: Self)
        ensures
            p.wf(),
            !p.upstream.done,
            !p.downstream.done,
    {
        RelayPair { upstream: RelayDirection::new(), downstream: RelayDirection::new() }
    }

    /// Resource release: the connection pair may be torn down exactly when
    /// both directions have ended.
    pub fn teardown_ready(&self) -> (r: bool)
        ensures
            r == (self.upstream.done && self.downstream.done),
    {
        self.upstream.done && self.downstream.done
    }
}

} // verus!
