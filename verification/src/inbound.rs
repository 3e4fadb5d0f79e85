//! The inbound direction of a tunnel forwarder: external connection to
//! tunnel channel.
//!
//! The forwarding loop reads bounded chunks from the external connection and
//! feeds each outcome to an [`InboundForwarder`], which decides what to do
//! next: forward the bytes as one chunk, signal end-of-stream/close for the
//! channel, or stop. The rules:
//!
//! - a zero-byte read (peer closed) or a read error signals exactly one
//!   close for the channel, then the direction stops;
//! - a failed tunnel send stops the direction at once, with no close
//!   attempt of its own;
//! - once stopped, the machine absorbs every further event without effect.

use vstd::prelude::*;

verus! {

/// One outcome of reading from the external connection, or of the last
/// tunnel send.
pub enum ReadEvent {
    /// Bytes were read; they are to travel as one chunk.
    Data(Vec<u8>),
    /// The external peer closed its sending side (zero-byte read).
    Closed,
    /// Reading from the external connection failed.
    Failed,
}

/// What the inbound loop must do next.
pub enum InboundAction {
    /// Send these bytes as one chunk on the tunnel channel, then read again.
    Forward(Vec<u8>),
    /// Send the end-of-stream/close signal for the channel, then stop.
    SignalClose,
    /// Do nothing; the direction has already stopped.
    Ignore,
}

/// The mathematical state of the inbound direction.
#[verifier::ext_equal]
pub struct InboundModel {
    /// Whether the direction still reads and forwards.
    pub running: bool,
    /// How many close signals have been sent on the channel.
    pub closes_sent: nat,
    /// Every payload handed to the tunnel so far, in order.
    pub forwarded: Seq<Seq<u8>>,
}

/// An event of the inbound direction, at the model level.
pub enum InboundEvent {
    Data(Seq<u8>),
    Closed,
    Failed,
    SendFailed,
}

/// The state a fresh inbound direction starts in.
pub open spec fn inbound_init() -> InboundModel {
    InboundModel { running: true, closes_sent: 0, forwarded: Seq::empty() }
}

/// One transition of the inbound direction.
pub open spec fn inbound_step(s: InboundModel, ev: InboundEvent) -> InboundModel {
    if !s.running {
        s
    } else {
        match ev {
            InboundEvent::Data(b) => (InboundModel { forwarded: s.forwarded.push(b), ..s }),
            InboundEvent::Closed => (
            InboundModel { running: false, closes_sent: s.closes_sent + 1, ..s }),
            InboundEvent::Failed => (
            InboundModel { running: false, closes_sent: s.closes_sent + 1, ..s }),
            InboundEvent::SendFailed => (InboundModel { running: false, ..s }),
        }
    }
}

/// The state after a whole sequence of events.
pub open spec fn inbound_run(s: InboundModel, evs: Seq<InboundEvent>) -> InboundModel
    decreases evs.len(),
{
    if evs.len() == 0 {
        s
    } else {
        inbound_run(inbound_step(s, evs[0]), evs.drop_first())
    }
}

/// The inbound direction never signals close twice, and while it still runs
/// it has not signalled at all.
pub open spec fn inbound_wf(s: InboundModel) -> bool {
    &&& s.closes_sent <= 1
    &&& s.running ==> s.closes_sent == 0
}

pub proof fn lemma_inbound_step_preserves_wf(s: InboundModel, ev: InboundEvent)
    requires
        inbound_wf(s),
    ensures
        inbound_wf(inbound_step(s, ev)),
{
}

pub proof fn lemma_inbound_run_preserves_wf(s: InboundModel, evs: Seq<InboundEvent>)
    requires
        inbound_wf(s),
    ensures
        inbound_wf(inbound_run(s, evs)),
    decreases evs.len(),
{
    if evs.len() > 0 {
        lemma_inbound_step_preserves_wf(s, evs[0]);
        lemma_inbound_run_preserves_wf(inbound_step(s, evs[0]), evs.drop_first());
    }
}

/// A stopped inbound direction absorbs every further event unchanged.
pub proof fn lemma_inbound_stopped_absorbs(s: InboundModel, evs: Seq<InboundEvent>)
    requires
        !s.running,
    ensures
        inbound_run(s, evs) == s,
    decreases evs.len(),
{
    if evs.len() > 0 {
        lemma_inbound_stopped_absorbs(s, evs.drop_first());
    }
}

/// Splitting a run at any point gives the same state as running it whole.
pub proof fn lemma_inbound_run_append(s: InboundModel, a: Seq<InboundEvent>, b: Seq<InboundEvent>)
    ensures
        inbound_run(s, a + b) == inbound_run(inbound_run(s, a), b),
    decreases a.len(),
{
    if a.len() == 0 {
        assert(a + b =~= b);
    } else {
        assert((a + b).drop_first() =~= a.drop_first() + b);
        lemma_inbound_run_append(inbound_step(s, a[0]), a.drop_first(), b);
    }
}

/// Law: whatever sequence of events the inbound direction sees, it sends at
/// most one end-of-stream/close signal on its channel.
pub proof fn lemma_close_signaled_at_most_once(evs: Seq<InboundEvent>)
    ensures
        inbound_run(inbound_init(), evs).closes_sent <= 1,
{
    lemma_inbound_run_preserves_wf(inbound_init(), evs);
}

/// A run over data events alone keeps the direction running and signals no
/// close.
pub proof fn lemma_inbound_data_prefix(s: InboundModel, evs: Seq<InboundEvent>)
    requires
        s.running,
        forall|j: int| 0 <= j < evs.len() ==> evs[j] is Data,
    ensures
        inbound_run(s, evs).running,
        inbound_run(s, evs).closes_sent == s.closes_sent,
    decreases evs.len(),
{
    if evs.len() > 0 {
        assert(evs[0] is Data);
        lemma_inbound_data_prefix(inbound_step(s, evs[0]), evs.drop_first());
    }
}

/// Law: when the external connection closes from the inbound side — a clean
/// close or a read error after data events alone — exactly one close signal
/// is sent on the channel, whatever happens afterwards.
pub proof fn lemma_clean_close_signals_exactly_once(evs: Seq<InboundEvent>, i: int)
    requires
        0 <= i < evs.len(),
        evs[i] is Closed || evs[i] is Failed,
        forall|j: int| 0 <= j < i ==> evs[j] is Data,
    ensures
        inbound_run(inbound_init(), evs).closes_sent == 1,
{
    let prefix = evs.subrange(0, i);
    let rest = evs.subrange(i, evs.len() as int);
    assert(evs =~= prefix + rest);
    lemma_inbound_run_append(inbound_init(), prefix, rest);
    let at_close = inbound_run(inbound_init(), prefix);
    lemma_inbound_data_prefix(inbound_init(), prefix);
    assert(at_close.running && at_close.closes_sent == 0);
    let after_close = inbound_step(at_close, rest[0]);
    assert(after_close.closes_sent == 1 && !after_close.running);
    assert(inbound_run(at_close, rest) == inbound_run(after_close, rest.drop_first()));
    lemma_inbound_stopped_absorbs(after_close, rest.drop_first());
}

/// The inbound direction of one tunnel forwarder.
///
/// `forwarded` is the ghost record of every payload handed to the tunnel.
pub struct InboundForwarder {
    pub running: bool,
    pub closes_sent: u64,
    pub forwarded: Ghost<Seq<Seq<u8>>>,
}

impl InboundForwarder {
    pub open spec fn model(self) -> InboundModel {
        InboundModel {
            running: self.running,
            closes_sent: self.closes_sent as nat,
            forwarded: self.forwarded@,
        }
    }

    pub open spec fn wf(self) -> bool {
        inbound_wf(self.model())
    }

    pub fn new() -> (f: InboundForwarder)
        ensures
            f.wf(),
            f.model() == inbound_init(),
    {
        let f = InboundForwarder { running: true, closes_sent: 0, forwarded: Ghost(Seq::empty()) };
        proof {
            assert(f.model() =~= inbound_init());
        }
        f
    }

    /// Decides on one read outcome: data is forwarded as one chunk; a clean
    /// close or a read error signals exactly one close and stops the
    /// direction; a stopped direction ignores everything.
    pub fn on_read(&mut self, ev: ReadEvent) -> (a: InboundAction)
        requires
            old(self).wf(),
        ensures
            final(self).wf(),
            final(self).model() == inbound_step(old(self).model(), ev.model()),
            old(self).running ==> (ev matches ReadEvent::Data(b) ==> a == InboundAction::Forward(
                b,
            )),
            old(self).running ==> ((ev is Closed || ev is Failed) ==> a is SignalClose),
            !old(self).running ==> a is Ignore,
    {
        if !self.running {
            return InboundAction::Ignore;
        }
        match ev {
            ReadEvent::Data(b) => {
                self.forwarded = Ghost(self.forwarded@.push(b@));
                proof {
                    assert(self.model() =~= inbound_step(old(self).model(), ev.model()));
                }
                InboundAction::Forward(b)
            },
            ReadEvent::Closed => {
                self.running = false;
                self.closes_sent = self.closes_sent + 1;
                proof {
                    assert(self.model() =~= inbound_step(old(self).model(), ev.model()));
                }
                InboundAction::SignalClose
            },
            ReadEvent::Failed => {
                self.running = false;
                self.closes_sent = self.closes_sent + 1;
                proof {
                    assert(self.model() =~= inbound_step(old(self).model(), ev.model()));
                }
                InboundAction::SignalClose
            },
        }
    }

    /// A failed tunnel send stops the direction at once; the channel is
    /// already considered gone, so no close signal follows.
    pub fn on_send_failed(&mut self)
        requires
            old(self).wf(),
        ensures
            final(self).wf(),
            final(self).model() == inbound_step(old(self).model(), InboundEvent::SendFailed),
    {
        self.running = false;
        proof {
            assert(self.model() =~= inbound_step(old(self).model(), InboundEvent::SendFailed));
        }
    }
}

impl ReadEvent {
    /// The model-level event this read outcome stands for.
    pub open spec fn model(self) -> InboundEvent {
        match self {
            ReadEvent::Data(b) => InboundEvent::Data(b@),
            ReadEvent::Closed => InboundEvent::Closed,
            ReadEvent::Failed => InboundEvent::Failed,
        }
    }
}

} // verus!
