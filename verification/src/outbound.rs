//! The outbound direction of a tunnel forwarder: tunnel channel to external
//! connection.
//!
//! The forwarding loop receives chunks from the tunnel and feeds each one to
//! an [`OutboundForwarder`], which decides what to do next. The rules:
//!
//! - a chunk's payload, when non-empty, is written whole to the external
//!   connection;
//! - a chunk with the end-of-stream marker half-closes the external
//!   connection's write side — after writing any payload it carries — and
//!   stops the direction; this happens at most once, even if further chunks
//!   wrongly arrive afterwards;
//! - the tunnel stream ending, or a write error, stops the direction with
//!   no half-close of its own;
//! - once stopped, the machine absorbs every further event without effect.

use vstd::prelude::*;

verus! {

/// What the outbound loop must do next.
pub enum OutboundAction {
    /// Write all these bytes to the external connection, then receive again.
    Write(Vec<u8>),
    /// Write these bytes if there are any, then half-close the external
    /// connection's write side and stop.
    WriteThenHalfClose(Vec<u8>),
    /// Do nothing.
    Ignore,
}

/// The mathematical state of the outbound direction.
#[verifier::ext_equal]
pub struct OutboundModel {
    /// Whether the direction still receives and writes.
    pub running: bool,
    /// How many times the external write side has been half-closed.
    pub half_closes: nat,
    /// Every byte handed to the external connection so far, in order.
    pub written: Seq<u8>,
}

/// An event of the outbound direction, at the model level.
pub enum OutboundEvent {
    /// A chunk arrived: its payload and its end-of-stream marker.
    Chunk(Seq<u8>, bool),
    /// The tunnel stream ended; no more chunks will ever arrive.
    StreamEnded,
    /// Writing to the external connection failed.
    WriteFailed,
}

/// The state a fresh outbound direction starts in.
pub open spec fn outbound_init() -> OutboundModel {
    OutboundModel { running: true, half_closes: 0, written: Seq::empty() }
}

/// One transition of the outbound direction.
pub open spec fn outbound_step(s: OutboundModel, ev: OutboundEvent) -> OutboundModel {
    if !s.running {
        s
    } else {
        match ev {
            OutboundEvent::Chunk(p, eos) => if eos {
                (OutboundModel {
                    running: false,
                    half_closes: s.half_closes + 1,
                    written: s.written + p,
                })
            } else {
                (OutboundModel { written: s.written + p, ..s })
            },
            OutboundEvent::StreamEnded => (OutboundModel { running: false, ..s }),
            OutboundEvent::WriteFailed => (OutboundModel { running: false, ..s }),
        }
    }
}

/// The state after a whole sequence of events.
pub open spec fn outbound_run(s: OutboundModel, evs: Seq<OutboundEvent>) -> OutboundModel
    decreases evs.len(),
{
    if evs.len() == 0 {
        s
    } else {
        outbound_run(outbound_step(s, evs[0]), evs.drop_first())
    }
}

/// The outbound direction never half-closes twice, and while it still runs
/// it has not half-closed at all.
pub open spec fn outbound_wf(s: OutboundModel) -> bool {
    &&& s.half_closes <= 1
    &&& s.running ==> s.half_closes == 0
}

pub proof fn lemma_outbound_step_preserves_wf(s: OutboundModel, ev: OutboundEvent)
    requires
        outbound_wf(s),
    ensures
        outbound_wf(outbound_step(s, ev)),
{
}

pub proof fn lemma_outbound_run_preserves_wf(s: OutboundModel, evs: Seq<OutboundEvent>)
    requires
        outbound_wf(s),
    ensures
        outbound_wf(outbound_run(s, evs)),
    decreases evs.len(),
{
    if evs.len() > 0 {
        lemma_outbound_step_preserves_wf(s, evs[0]);
        lemma_outbound_run_preserves_wf(outbound_step(s, evs[0]), evs.drop_first());
    }
}

/// A stopped outbound direction absorbs every further event unchanged.
pub proof fn lemma_outbound_stopped_absorbs(s: OutboundModel, evs: Seq<OutboundEvent>)
    requires
        !s.running,
    ensures
        outbound_run(s, evs) == s,
    decreases evs.len(),
{
    if evs.len() > 0 {
        lemma_outbound_stopped_absorbs(s, evs.drop_first());
    }
}

/// Splitting a run at any point gives the same state as running it whole.
pub proof fn lemma_outbound_run_append(
    s: OutboundModel,
    a: Seq<OutboundEvent>,
    b: Seq<OutboundEvent>,
)
    ensures
        outbound_run(s, a + b) == outbound_run(outbound_run(s, a), b),
    decreases a.len(),
{
    if a.len() == 0 {
        assert(a + b =~= b);
    } else {
        assert((a + b).drop_first() =~= a.drop_first() + b);
        lemma_outbound_run_append(outbound_step(s, a[0]), a.drop_first(), b);
    }
}

/// Law: whatever sequence of chunks and failures the outbound direction
/// sees — end-of-stream chunks included, and chunks wrongly received after
/// one — the external connection's write side is half-closed at most once.
pub proof fn lemma_half_close_at_most_once(evs: Seq<OutboundEvent>)
    ensures
        outbound_run(outbound_init(), evs).half_closes <= 1,
{
    lemma_outbound_run_preserves_wf(outbound_init(), evs);
}

/// The outbound direction of one tunnel forwarder.
///
/// `written` is the ghost record of every byte handed to the external
/// connection's write side.
pub struct OutboundForwarder {
    pub running: bool,
    pub half_closes: u64,
    pub written: Ghost<Seq<u8>>,
}

impl OutboundForwarder {
    pub open spec fn model(self) -> OutboundModel {
        OutboundModel {
            running: self.running,
            half_closes: self.half_closes as nat,
            written: self.written@,
        }
    }

    pub open spec fn wf(self) -> bool {
        outbound_wf(self.model())
    }

    pub fn new() -> (f: OutboundForwarder)
        ensures
            f.wf(),
            f.model() == outbound_init(),
    {
        let f = OutboundForwarder { running: true, half_closes: 0, written: Ghost(Seq::empty()) };
        proof {
            assert(f.model() =~= outbound_init());
        }
        f
    }

    /// Decides on one received chunk: its payload is written whole; the
    /// end-of-stream marker half-closes the write side — exactly once —
    /// after any payload; a stopped direction ignores the chunk entirely.
    pub fn on_chunk(&mut self, payload: Vec<u8>, is_eos: bool) -> (a: OutboundAction)
        requires
            old(self).wf(),
        ensures
            final(self).wf(),
            final(self).model() == outbound_step(
                old(self).model(),
                OutboundEvent::Chunk(payload@, is_eos),
            ),
            old(self).running ==> (is_eos ==> a == OutboundAction::WriteThenHalfClose(payload)),
            old(self).running ==> (!is_eos && payload@.len() > 0 ==> a == OutboundAction::Write(
                payload,
            )),
            old(self).running ==> (!is_eos && payload@.len() == 0 ==> a is Ignore),
            !old(self).running ==> a is Ignore,
    {
        if !self.running {
            proof {
                assert(self.model() =~= outbound_step(
                    old(self).model(),
                    OutboundEvent::Chunk(payload@, is_eos),
                ));
            }
            return OutboundAction::Ignore;
        }
        self.written = Ghost(self.written@ + payload@);
        if is_eos {
            self.running = false;
            self.half_closes = self.half_closes + 1;
            proof {
                assert(self.model() =~= outbound_step(
                    old(self).model(),
                    OutboundEvent::Chunk(payload@, is_eos),
                ));
            }
            OutboundAction::WriteThenHalfClose(payload)
        } else if payload.len() > 0 {
            proof {
                assert(self.model() =~= outbound_step(
                    old(self).model(),
                    OutboundEvent::Chunk(payload@, is_eos),
                ));
            }
            OutboundAction::Write(payload)
        } else {
            proof {
                assert(self.model() =~= outbound_step(
                    old(self).model(),
                    OutboundEvent::Chunk(payload@, is_eos),
                ));
            }
            OutboundAction::Ignore
        }
    }

    /// The tunnel stream ended: no more chunks will ever arrive, so the
    /// direction stops, with no half-close of its own.
    pub fn on_stream_ended(&mut self)
        requires
            old(self).wf(),
        ensures
            final(self).wf(),
            final(self).model() == outbound_step(old(self).model(), OutboundEvent::StreamEnded),
    {
        self.running = false;
        proof {
            assert(self.model() =~= outbound_step(old(self).model(), OutboundEvent::StreamEnded));
        }
    }

    /// Writing to the external connection failed: the direction stops, with
    /// no half-close of its own.
    pub fn on_write_failed(&mut self)
        requires
            old(self).wf(),
        ensures
            final(self).wf(),
            final(self).model() == outbound_step(old(self).model(), OutboundEvent::WriteFailed),
    {
        self.running = false;
        proof {
            assert(self.model() =~= outbound_step(old(self).model(), OutboundEvent::WriteFailed));
        }
    }
}

} // verus!
