//! Tests of the per-connection forwarder pair: the inbound and outbound
//! state machines and the byte-exact relay between them.

use plugin_tunnel::inbound::{InboundAction, InboundForwarder, ReadEvent};
use plugin_tunnel::outbound::{OutboundAction, OutboundForwarder};
use plugin_tunnel::server::CHUNK_SIZE;

/// Feed `pieces` to a fresh inbound forwarder and collect what it forwards.
fn forward_pieces(f: &mut InboundForwarder, pieces: &[Vec<u8>]) -> Vec<Vec<u8>> {
    let mut forwarded: Vec<Vec<u8>> = Vec::new();
    for p in pieces {
        match f.on_read(ReadEvent::Data(p.clone())) {
            InboundAction::Forward(bytes) => forwarded.push(bytes),
            _ => panic!("data must be forwarded as one chunk"),
        }
    }
    forwarded
}

/// Feed plain (non-end-of-stream) chunks to a fresh outbound forwarder and
/// collect what it writes.
fn write_chunks(g: &mut OutboundForwarder, chunks: &[Vec<u8>]) -> Vec<u8> {
    let mut written: Vec<u8> = Vec::new();
    for c in chunks {
        match g.on_chunk(c.clone(), false) {
            OutboundAction::Write(bytes) => written.extend_from_slice(&bytes),
            OutboundAction::Ignore => assert!(c.is_empty()),
            _ => panic!("a plain chunk must not half-close"),
        }
    }
    written
}

#[test]
fn round_trip_preserves_bytes_in_order() {
    let original: Vec<u8> = (0u32..1000).map(|i| (i % 251) as u8).collect();
    let pieces: Vec<Vec<u8>> = vec![
        original[0..100].to_vec(),
        original[100..101].to_vec(),
        original[101..600].to_vec(),
        original[600..1000].to_vec(),
    ];

    let mut f = InboundForwarder::new();
    let forwarded = forward_pieces(&mut f, &pieces);
    assert_eq!(forwarded, pieces);

    let mut g = OutboundForwarder::new();
    let written = write_chunks(&mut g, &forwarded);
    assert_eq!(written, original);
}

#[test]
fn round_trip_of_empty_stream() {
    let mut f = InboundForwarder::new();
    let forwarded = forward_pieces(&mut f, &[]);
    assert!(forwarded.is_empty());

    let mut g = OutboundForwarder::new();
    let written = write_chunks(&mut g, &forwarded);
    assert!(written.is_empty());
}

#[test]
fn clean_close_signals_exactly_once() {
    let mut f = InboundForwarder::new();
    forward_pieces(&mut f, &[vec![1, 2, 3]]);
    assert_eq!(f.closes_sent, 0);
    match f.on_read(ReadEvent::Closed) {
        InboundAction::SignalClose => {}
        _ => panic!("a clean close must signal close"),
    }
    assert_eq!(f.closes_sent, 1);
    assert!(!f.running);
    // A late event changes nothing: never more than one close signal.
    match f.on_read(ReadEvent::Closed) {
        InboundAction::Ignore => {}
        _ => panic!("a stopped direction must ignore events"),
    }
    assert_eq!(f.closes_sent, 1);
}

#[test]
fn read_error_signals_close_once() {
    let mut f = InboundForwarder::new();
    match f.on_read(ReadEvent::Failed) {
        InboundAction::SignalClose => {}
        _ => panic!("a read error must signal close"),
    }
    assert_eq!(f.closes_sent, 1);
    match f.on_read(ReadEvent::Failed) {
        InboundAction::Ignore => {}
        _ => panic!("a stopped direction must ignore events"),
    }
    assert_eq!(f.closes_sent, 1);
}

#[test]
fn send_failure_stops_without_close_signal() {
    let mut f = InboundForwarder::new();
    forward_pieces(&mut f, &[vec![9; 10]]);
    f.on_send_failed();
    assert!(!f.running);
    assert_eq!(f.closes_sent, 0);
    // Even a close event afterwards must not raise a second attempt.
    match f.on_read(ReadEvent::Closed) {
        InboundAction::Ignore => {}
        _ => panic!("a stopped direction must ignore events"),
    }
    assert_eq!(f.closes_sent, 0);
}

#[test]
fn ten_thousand_bytes_then_close() {
    let original: Vec<u8> = (0u32..10000).map(|i| (i % 256) as u8).collect();
    let pieces: Vec<Vec<u8>> = original.chunks(CHUNK_SIZE).map(|c| c.to_vec()).collect();
    assert_eq!(pieces.len(), 3);

    let mut f = InboundForwarder::new();
    let forwarded = forward_pieces(&mut f, &pieces);
    let relayed: Vec<u8> = forwarded.concat();
    assert_eq!(relayed, original);

    match f.on_read(ReadEvent::Closed) {
        InboundAction::SignalClose => {}
        _ => panic!("a clean close must signal close"),
    }
    assert_eq!(f.closes_sent, 1);

    // No chunk after the close signal is accepted for that channel.
    match f.on_read(ReadEvent::Data(vec![42])) {
        InboundAction::Ignore => {}
        _ => panic!("data after close must not be accepted"),
    }
}

#[test]
fn half_close_happens_at_most_once() {
    let mut g = OutboundForwarder::new();
    match g.on_chunk(vec![10, 20], false) {
        OutboundAction::Write(bytes) => assert_eq!(bytes, vec![10, 20]),
        _ => panic!("a plain chunk is written"),
    }
    match g.on_chunk(vec![30], true) {
        OutboundAction::WriteThenHalfClose(bytes) => assert_eq!(bytes, vec![30]),
        _ => panic!("an end-of-stream chunk half-closes"),
    }
    assert_eq!(g.half_closes, 1);
    assert!(!g.running);
    // Payload-bearing chunks wrongly received afterwards change nothing.
    match g.on_chunk(vec![40, 50], false) {
        OutboundAction::Ignore => {}
        _ => panic!("a stopped direction must ignore chunks"),
    }
    match g.on_chunk(vec![60], true) {
        OutboundAction::Ignore => {}
        _ => panic!("a stopped direction must ignore chunks"),
    }
    assert_eq!(g.half_closes, 1);
}

#[test]
fn empty_eos_chunk_half_closes_with_zero_bytes_written() {
    let mut g = OutboundForwarder::new();
    match g.on_chunk(Vec::new(), true) {
        OutboundAction::WriteThenHalfClose(bytes) => assert!(bytes.is_empty()),
        _ => panic!("an end-of-stream chunk half-closes"),
    }
    assert_eq!(g.half_closes, 1);
    assert!(!g.running);
}

#[test]
fn empty_plain_chunk_writes_nothing_and_continues() {
    let mut g = OutboundForwarder::new();
    match g.on_chunk(Vec::new(), false) {
        OutboundAction::Ignore => {}
        _ => panic!("an empty plain chunk is skipped"),
    }
    assert!(g.running);
    assert_eq!(g.half_closes, 0);
}

#[test]
fn stream_end_stops_without_half_close() {
    let mut g = OutboundForwarder::new();
    g.on_stream_ended();
    assert!(!g.running);
    assert_eq!(g.half_closes, 0);
}

#[test]
fn write_error_stops_without_half_close() {
    let mut g = OutboundForwarder::new();
    match g.on_chunk(vec![7], false) {
        OutboundAction::Write(_) => {}
        _ => panic!("a plain chunk is written"),
    }
    g.on_write_failed();
    assert!(!g.running);
    assert_eq!(g.half_closes, 0);
    match g.on_chunk(vec![8], true) {
        OutboundAction::Ignore => {}
        _ => panic!("a stopped direction must ignore chunks"),
    }
    assert_eq!(g.half_closes, 0);
}
