//! The byte-relay argument: what goes in one end of a tunnel comes out the
//! other, exactly and in order.
//!
//! The inbound direction turns a sequence of reads into a sequence of chunk
//! payloads; the tunnel channel delivers chunks in send order; the outbound
//! direction turns the chunks back into written bytes. Composing the two
//! state machines shows that any byte stream, however it was split into
//! reads, is reproduced without loss, duplication or reordering.

use vstd::prelude::*;

use crate::inbound::{inbound_init, inbound_run, InboundEvent, InboundModel};
use crate::outbound::{outbound_init, outbound_run, outbound_step, OutboundEvent, OutboundModel};

verus! {

/// The inbound events of a connection whose reads yield `pieces`, in order.
pub open spec fn data_events(pieces: Seq<Seq<u8>>) -> Seq<InboundEvent> {
    pieces.map_values(|p: Seq<u8>| InboundEvent::Data(p))
}

/// The outbound events of a tunnel that delivers `payloads` as plain chunks,
/// in order.
pub open spec fn chunk_events(payloads: Seq<Seq<u8>>) -> Seq<OutboundEvent> {
    payloads.map_values(|p: Seq<u8>| OutboundEvent::Chunk(p, false))
}

/// Reading `pieces` forwards exactly `pieces` onto the tunnel, in order, and
/// keeps the inbound direction running.
pub proof fn lemma_inbound_forwards_pieces(s: InboundModel, pieces: Seq<Seq<u8>>)
    requires
        s.running,
    ensures
        inbound_run(s, data_events(pieces)) == (InboundModel {
            forwarded: s.forwarded + pieces,
            ..s
        }),
    decreases pieces.len(),
{
    let evs = data_events(pieces);
    if pieces.len() == 0 {
        assert(s.forwarded + pieces =~= s.forwarded);
        assert(inbound_run(s, evs) =~= (InboundModel { forwarded: s.forwarded + pieces, ..s }));
    } else {
        assert(evs[0] == InboundEvent::Data(pieces[0]));
        assert(evs.drop_first() =~= data_events(pieces.drop_first()));
        lemma_inbound_forwards_pieces(
            InboundModel { forwarded: s.forwarded.push(pieces[0]), ..s },
            pieces.drop_first(),
        );
        assert(s.forwarded.push(pieces[0]) + pieces.drop_first() =~= s.forwarded + pieces);
        assert(inbound_run(s, evs) =~= (InboundModel { forwarded: s.forwarded + pieces, ..s }));
    }
}

/// Receiving plain chunks with `payloads` writes exactly their
/// concatenation to the external connection, in order, and keeps the
/// outbound direction running.
pub proof fn lemma_outbound_writes_payloads(s: OutboundModel, payloads: Seq<Seq<u8>>)
    requires
        s.running,
    ensures
        outbound_run(s, chunk_events(payloads)) == (OutboundModel {
            written: s.written + payloads.flatten(),
            ..s
        }),
    decreases payloads.len(),
{
    let evs = chunk_events(payloads);
    if payloads.len() == 0 {
        assert(s.written + payloads.flatten() =~= s.written);
        assert(outbound_run(s, evs) =~= (OutboundModel {
            written: s.written + payloads.flatten(),
            ..s
        }));
    } else {
        assert(evs[0] == OutboundEvent::Chunk(payloads[0], false));
        assert(evs.drop_first() =~= chunk_events(payloads.drop_first()));
        lemma_outbound_writes_payloads(
            OutboundModel { written: s.written + payloads[0], ..s },
            payloads.drop_first(),
        );
        assert((s.written + payloads[0]) + payloads.drop_first().flatten() =~= s.written
            + payloads.flatten());
        assert(outbound_run(s, evs) =~= (OutboundModel {
            written: s.written + payloads.flatten(),
            ..s
        }));
    }
}

/// Law: for any byte stream, split into any sequence of reads, the inbound
/// direction forwards exactly those pieces in order, and an outbound
/// direction fed the forwarded chunks writes back exactly the original
/// stream — no loss, duplication or reordering.
pub proof fn lemma_tunnel_round_trip(pieces: Seq<Seq<u8>>)
    ensures
        inbound_run(inbound_init(), data_events(pieces)).forwarded == pieces,
        ({
            let relayed = inbound_run(inbound_init(), data_events(pieces)).forwarded;
            outbound_run(outbound_init(), chunk_events(relayed)).written == pieces.flatten()
        }),
{
    lemma_inbound_forwards_pieces(inbound_init(), pieces);
    assert(Seq::<Seq<u8>>::empty() + pieces =~= pieces);
    lemma_outbound_writes_payloads(outbound_init(), pieces);
    assert(Seq::<u8>::empty() + pieces.flatten() =~= pieces.flatten());
}

/// Law: a peer that sends its whole stream and then closes gets exactly
/// that stream relayed, in order, and exactly one close signal on the
/// channel — and whatever events still arrive afterwards, nothing more is
/// accepted: no further chunk is forwarded and no second close is sent.
pub proof fn lemma_stream_then_close(pieces: Seq<Seq<u8>>, late: Seq<InboundEvent>)
    ensures
        ({
            let evs = data_events(pieces).push(InboundEvent::Closed) + late;
            let end = inbound_run(inbound_init(), evs);
            &&& end.forwarded == pieces
            &&& end.closes_sent == 1
            &&& !end.running
        }),
{
    let de = data_events(pieces);
    let close = InboundEvent::Closed;
    let evs = de.push(close) + late;
    assert(de.push(close) =~= de + seq![close]);
    crate::inbound::lemma_inbound_run_append(inbound_init(), de + seq![close], late);
    crate::inbound::lemma_inbound_run_append(inbound_init(), de, seq![close]);
    lemma_inbound_forwards_pieces(inbound_init(), pieces);
    assert(Seq::<Seq<u8>>::empty() + pieces =~= pieces);
    let mid = inbound_run(inbound_init(), de);
    assert(inbound_run(mid, seq![close]) == crate::inbound::inbound_step(mid, close)) by {
        reveal_with_fuel(inbound_run, 2);
        assert(seq![close].drop_first() =~= Seq::<InboundEvent>::empty());
    };
    let stopped = crate::inbound::inbound_step(mid, close);
    crate::inbound::lemma_inbound_stopped_absorbs(stopped, late);
}

/// Law: a full relay that ends with the terminal end-of-stream chunk still
/// writes exactly the original stream, and half-closes the external write
/// side exactly once.
pub proof fn lemma_round_trip_then_half_close(pieces: Seq<Seq<u8>>)
    ensures
        ({
            let relayed = inbound_run(inbound_init(), data_events(pieces)).forwarded;
            let evs = chunk_events(relayed).push(OutboundEvent::Chunk(Seq::empty(), true));
            let out = outbound_run(outbound_init(), evs);
            &&& out.written == pieces.flatten()
            &&& out.half_closes == 1
            &&& !out.running
        }),
{
    lemma_tunnel_round_trip(pieces);
    let relayed = inbound_run(inbound_init(), data_events(pieces)).forwarded;
    let plain = chunk_events(relayed);
    let eos = OutboundEvent::Chunk(Seq::empty(), true);
    let evs = plain.push(eos);
    assert(evs =~= plain + seq![eos]);
    crate::outbound::lemma_outbound_run_append(outbound_init(), plain, seq![eos]);
    lemma_outbound_writes_payloads(outbound_init(), relayed);
    let mid = outbound_run(outbound_init(), plain);
    assert(outbound_run(mid, seq![eos]) == outbound_step(mid, eos)) by {
        reveal_with_fuel(outbound_run, 2);
        assert(seq![eos].drop_first() =~= Seq::<OutboundEvent>::empty());
    };
    assert(Seq::<u8>::empty() + relayed.flatten() =~= relayed.flatten());
    assert(mid.written + Seq::<u8>::empty() =~= mid.written);
}

} // verus!
