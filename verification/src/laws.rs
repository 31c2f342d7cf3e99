//! What holds of parser and serializer together.

use crate::checksum::{length_byte, lemma_xor_fold_push, packet_checksum, xor_fold};
use crate::error::MspPacketParseError;
use crate::packet::{MspPacketView, MSP_HEADER1};
use crate::parser::{MspParserState, MspParserView};
use vstd::prelude::*;

verus! {

/// The parser in the middle of a packet, with the first `k` payload bytes received.
pub open spec fn gathering(p: MspPacketView, k: int) -> MspParserView {
    MspParserView {
        state: if k == p.data.len() {
            MspParserState::Crc
        } else {
            MspParserState::Data
        },
        direction: p.direction,
        cmd: p.cmd,
        remaining: (p.data.len() - k) as nat,
        data: p.data.take(k),
        crc: xor_fold(length_byte(p.data) ^ p.cmd, p.data.take(k)),
    }
}

/// Feeding one byte more of a sequence is one more step.
pub proof fn lemma_feed_next(v: MspParserView, bytes: Seq<u8>, k: int)
    requires
        0 <= k < bytes.len(),
    ensures
        v.feed(bytes.take(k + 1)) == v.feed(bytes.take(k)).step(bytes[k]),
{
    assert(bytes.take(k + 1).drop_last() =~= bytes.take(k));
}

/// Feeding two runs of bytes one after the other is feeding them joined.
pub proof fn lemma_feed_append(v: MspParserView, a: Seq<u8>, b: Seq<u8>)
    ensures
        v.feed(a + b) == v.feed(a).feed(b),
    decreases b.len(),
{
    if b.len() == 0 {
        assert(a + b =~= a);
    } else {
        lemma_feed_append(v, a, b.drop_last());
        assert((a + b).drop_last() =~= a + b.drop_last());
    }
}

/// The invariant holds after any run of input bytes.
pub proof fn lemma_feed_inv(v: MspParserView, bytes: Seq<u8>)
    requires
        v.inv(),
    ensures
        v.feed(bytes).inv(),
    decreases bytes.len(),
{
    if bytes.len() > 0 {
        lemma_feed_inv(v, bytes.drop_last());
        v.feed(bytes.drop_last()).lemma_step_inv(bytes.last());
    }
}

/// The five bytes before the payload take an idle parser, one state at a time,
/// to the point where the payload begins.
proof fn lemma_feed_header(p: MspPacketView)
    requires
        p.wf(),
    ensures
        MspParserView::initial().feed(p.wire().take(0)).state == MspParserState::Header1,
        MspParserView::initial().feed(p.wire().take(1)).state == MspParserState::Header2,
        MspParserView::initial().feed(p.wire().take(2)).state == MspParserState::Direction,
        MspParserView::initial().feed(p.wire().take(3)).state == MspParserState::DataLength,
        MspParserView::initial().feed(p.wire().take(4)).state == MspParserState::Command,
        MspParserView::initial().feed(p.wire().take(5)) == gathering(p, 0),
{
    let v = MspParserView::initial();
    let w = p.wire();
    let len: u8 = length_byte(p.data);
    assert(v.feed(w.take(0)) == v);
    lemma_feed_next(v, w, 0);
    lemma_feed_next(v, w, 1);
    lemma_feed_next(v, w, 2);
    lemma_feed_next(v, w, 3);
    lemma_feed_next(v, w, 4);
    assert(0u8 ^ len == len) by (bit_vector);
    assert(p.data.take(0) =~= Seq::<u8>::empty());
    assert(v.feed(w.take(4)).data =~= Seq::<u8>::empty());
}

/// After the five bytes before the payload and `k` payload bytes the parser
/// holds those `k` bytes and their checksum.
proof fn lemma_feed_payload(p: MspPacketView, k: int)
    requires
        p.wf(),
        0 <= k <= p.data.len(),
    ensures
        MspParserView::initial().feed(p.wire().take(5 + k)) == gathering(p, k),
    decreases k,
{
    if k == 0 {
        lemma_feed_header(p);
    } else {
        let v = MspParserView::initial();
        let w = p.wire();
        lemma_feed_payload(p, k - 1);
        lemma_feed_next(v, w, 5 + k - 1);
        let b: u8 = p.data[k - 1];
        assert(w[5 + k - 1] == b);
        assert(p.data.take(k) =~= p.data.take(k - 1).push(b));
        lemma_xor_fold_push(length_byte(p.data) ^ p.cmd, p.data.take(k - 1), b);
    }
}

/// Before its checksum byte a packet's wire bytes take an idle parser to the
/// state in which it holds the whole packet and waits for the checksum.
pub proof fn lemma_feed_packet_body(v: MspParserView, p: MspPacketView)
    requires
        v.inv(),
        v.state == MspParserState::Header1,
        p.wf(),
    ensures
        v.feed(p.wire().drop_last()) == (MspParserView {
            state: MspParserState::Crc,
            direction: p.direction,
            cmd: p.cmd,
            remaining: 0,
            data: p.data,
            crc: packet_checksum(p.cmd, p.data),
        }),
{
    let n = p.data.len() as int;
    lemma_feed_payload(p, n);
    assert(p.wire().take(5 + n) =~= p.wire().drop_last());
    assert(p.data.take(n) =~= p.data);
}

/// Round trip: a packet's wire bytes, fed one by one to an idle parser, give
/// nothing before the last byte, give the packet itself on the last byte, and
/// leave the parser idle again.
pub proof fn lemma_round_trip(v: MspParserView, p: MspPacketView)
    requires
        v.inv(),
        v.state == MspParserState::Header1,
        p.wf(),
    ensures
        forall|k: int|
            0 <= k < p.wire().len() - 1 ==> v.feed(#[trigger] p.wire().take(k)).outcome(
                p.wire()[k],
            ) == Ok::<Option<MspPacketView>, MspPacketParseError>(None),
        v.feed(p.wire().drop_last()).outcome(p.wire().last()) == Ok::<
            Option<MspPacketView>,
            MspPacketParseError,
        >(Some(p)),
        v.feed(p.wire()) == MspParserView::initial(),
{
    let w = p.wire();
    lemma_feed_packet_body(v, p);
    assert(w.take(w.len() as int) =~= w);
    lemma_feed_next(v, w, w.len() - 1);
    assert(w.take(w.len() - 1) =~= w.drop_last());
    assert forall|k: int| 0 <= k < w.len() - 1 implies v.feed(#[trigger] w.take(k)).state
        != MspParserState::Crc by {
        lemma_feed_header(p);
        if k >= 5 {
            lemma_feed_payload(p, k - 5);
        }
    }
}

/// Line noise without the first preamble byte is skipped: it gives nothing and
/// leaves an idle parser idle.
pub proof fn lemma_noise_is_skipped(v: MspParserView, noise: Seq<u8>)
    requires
        v.inv(),
        v.state == MspParserState::Header1,
        forall|i: int| 0 <= i < noise.len() ==> noise[i] != MSP_HEADER1,
    ensures
        v.feed(noise) == MspParserView::initial(),
        forall|k: int|
            0 <= k < noise.len() ==> v.feed(#[trigger] noise.take(k)).outcome(noise[k]) == Ok::<
                Option<MspPacketView>,
                MspPacketParseError,
            >(None),
    decreases noise.len(),
{
    if noise.len() > 0 {
        let head = noise.drop_last();
        lemma_noise_is_skipped(v, head);
        assert forall|k: int| 0 <= k < noise.len() implies v.feed(
            #[trigger] noise.take(k),
        ).outcome(noise[k]) == Ok::<Option<MspPacketView>, MspPacketParseError>(None) by {
            if k < head.len() {
                assert(noise.take(k) =~= head.take(k));
            } else {
                assert(noise.take(k) =~= head);
            }
        }
    }
}

/// Resynchronization: whatever came before, once the parser is between
/// packets a packet's wire bytes give that packet on their last byte and leave
/// the parser idle.
pub proof fn lemma_resynchronization(v: MspParserView, noise: Seq<u8>, p: MspPacketView)
    requires
        v.inv(),
        v.feed(noise).state == MspParserState::Header1,
        p.wf(),
    ensures
        v.feed(noise + p.wire().drop_last()).outcome(p.wire().last()) == Ok::<
            Option<MspPacketView>,
            MspPacketParseError,
        >(Some(p)),
        v.feed(noise + p.wire()) == MspParserView::initial(),
{
    lemma_feed_inv(v, noise);
    lemma_feed_append(v, noise, p.wire().drop_last());
    lemma_feed_append(v, noise, p.wire());
    lemma_round_trip(v.feed(noise), p);
}

/// Walking back through the payload: a parser that holds `k` payload bytes
/// after `k` payload bytes of the wire held none before the first of them.
proof fn lemma_payload_backwards(v: MspParserView, p: MspPacketView, k: int)
    requires
        v.inv(),
        p.wf(),
        0 <= k <= p.data.len(),
        v.feed(p.wire().take(5 + k)).state == MspParserState::Data || v.feed(
            p.wire().take(5 + k),
        ).state == MspParserState::Crc,
        v.feed(p.wire().take(5 + k)).data.len() == k,
    ensures
        v.feed(p.wire().take(5)).state == MspParserState::Data || v.feed(
            p.wire().take(5),
        ).state == MspParserState::Crc,
        v.feed(p.wire().take(5)).data.len() == 0,
    decreases k,
{
    if k > 0 {
        let w = p.wire();
        lemma_feed_next(v, w, 5 + k - 1);
        lemma_feed_inv(v, w.take(5 + k - 1));
        lemma_payload_backwards(v, p, k - 1);
    }
}

/// Only a parser between packets recognizes a packet: where a packet's wire
/// bytes give that packet on their last byte, the parser was idle when the
/// first of them came. So resynchronization asks for no more than it needs.
pub proof fn lemma_recognition_needs_idle(v: MspParserView, p: MspPacketView)
    requires
        v.inv(),
        p.wf(),
        v.feed(p.wire().drop_last()).outcome(p.wire().last()) == Ok::<
            Option<MspPacketView>,
            MspPacketParseError,
        >(Some(p)),
    ensures
        v.state == MspParserState::Header1,
{
    let w = p.wire();
    let n = p.data.len() as int;
    assert(w.take(5 + n) =~= w.drop_last());
    lemma_payload_backwards(v, p, n);
    lemma_feed_next(v, w, 4);
    lemma_feed_next(v, w, 3);
    lemma_feed_next(v, w, 2);
    lemma_feed_next(v, w, 1);
    lemma_feed_next(v, w, 0);
    lemma_feed_inv(v, w.take(4));
    lemma_feed_inv(v, w.take(3));
    lemma_feed_inv(v, w.take(2));
    lemma_feed_inv(v, w.take(1));
    assert(v.feed(w.take(0)) == v);
}

/// A wrong checksum byte at the end of an otherwise well-formed packet gives a
/// checksum error that carries the byte received and the true checksum, and
/// leaves the parser idle, ready for the next packet.
pub proof fn lemma_checksum_mismatch_recovers(v: MspParserView, p: MspPacketView, received: u8)
    requires
        v.inv(),
        v.state == MspParserState::Header1,
        p.wf(),
        received != packet_checksum(p.cmd, p.data),
    ensures
        v.feed(p.wire().drop_last()).outcome(received) == Err::<
            Option<MspPacketView>,
            MspPacketParseError,
        >(
            MspPacketParseError::CrcMismatch {
                expected: received,
                calculated: packet_checksum(p.cmd, p.data),
            },
        ),
        v.feed(p.wire().drop_last()).step(received) == MspParserView::initial(),
        v.feed(p.wire().drop_last().push(received)) == MspParserView::initial(),
{
    lemma_feed_packet_body(v, p);
    assert(p.wire().drop_last().push(received).drop_last() =~= p.wire().drop_last());
}

} // verus!
