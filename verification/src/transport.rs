//! Video frames on their way through datagrams: cut into packets on one side, put
//! together again on the other.

use crate::encoder::EncodedFrame;
use crate::message::{DataPacket, Message, Type};
use crate::nal::{joined, law_units_join_to_the_data, pieces, split_nal_units};
use vstd::prelude::*;

verus! {

/// After so many packets in a row, the sender rests for a millisecond.
pub const PACKETS_PER_PAUSE: usize = 20;

/// How long the receiver waits for the next packet before it takes the frame that
/// it has for complete, in milliseconds.
pub const FLUSH_TIMEOUT_MS: u64 = 500;

/// Whether `p` is packet `k` of `total` of frame number `seq`.
pub open spec fn is_packet(
    p: DataPacket,
    frame: EncodedFrame,
    payload: Seq<u8>,
    seq: u32,
    k: int,
    total: int,
) -> bool {
    &&& p.frame_type == frame.frame_type.spec_code()
    &&& p.display_index == frame.display_index
    &&& p.payload@ == payload
    &&& p.frame_seq == seq
    &&& p.fragment_index == k as u32
    &&& p.fragment_count == total as u32
    &&& p.encrypted_payload@.len() == 0
    &&& p.nonce@.len() == 0
    &&& p.key_version == 0
}

/// Whether `packets` are the packets of a frame: one for each of its units.
pub open spec fn are_packets(packets: Seq<DataPacket>, frame: EncodedFrame, seq: u32) -> bool {
    let units = pieces(frame.nal_units@);
    &&& packets.len() == units.len()
    &&& forall|k: int|
        0 <= k < packets.len() ==> is_packet(
            #[trigger] packets[k],
            frame,
            units[k],
            seq,
            k,
            units.len() as int,
        )
}

/// The number of the frame after the one with number `seq`: numbers start again from
/// zero after the largest.
pub open spec fn next_seq(seq: u32) -> u32 {
    if seq == u32::MAX {
        0
    } else {
        (seq + 1) as u32
    }
}

/// Numbers frames and cuts them into packets.
#[derive(Debug)]
pub struct Packetizer {
    /// The number of the last frame; zero before the first.
    pub frame_seq: u32,
}

impl Packetizer {
    pub fn new() -> (p: Self)
        ensures
            p.frame_seq == 0,
    {
        Packetizer { frame_seq: 0 }
    }

    /// Cuts the next frame into packets, with the rests that the sender takes so that
    /// no datagram is lost on the way out.
    pub fn packetize(&mut self, frame: &EncodedFrame) -> (out: Vec<Outgoing>)
        ensures
            final(self).frame_seq == next_seq(old(self).frame_seq),
            are_packets(packets_in(out@), *frame, final(self).frame_seq),
            forall|k: int|
                0 <= k < out@.len() ==> is_outgoing(#[trigger] out@[k], packets_in(out@)[k], k),
    {
        self.frame_seq = self.frame_seq.wrapping_add(1);
        let units = split_nal_units(frame.nal_units.as_slice());
        let ghost texts = units@.map_values(|unit: &[u8]| unit@);
        let total: usize = units.len();
        let mut out: Vec<Outgoing> = Vec::new();
        let mut k: usize = 0;
        while k < total
            invariant
                0 <= k <= total,
                total == units@.len(),
                texts == units@.map_values(|unit: &[u8]| unit@),
                texts == pieces(frame.nal_units@),
                out@.len() == k,
                forall|j: int|
                    0 <= j < k ==> {
                        &&& is_outgoing(#[trigger] out@[j], packet_in(out@[j]), j)
                        &&& is_packet(
                            packet_in(out@[j]),
                            *frame,
                            texts[j],
                            self.frame_seq,
                            j,
                            total as int,
                        )
                    },
            decreases total - k,
        {
            let packet = DataPacket {
                frame_type: frame.frame_type.code(),
                display_index: frame.display_index,
                payload: vstd::slice::slice_to_vec(units[k]),
                frame_seq: self.frame_seq,
                fragment_index: #[verifier::truncate] (k as u32),
                fragment_count: #[verifier::truncate] (total as u32),
                encrypted_payload: Vec::new(),
                nonce: Vec::new(),
                key_version: 0,
            };
            out.push(
                Outgoing {
                    message: Message { kind: Some(Type::DataPacket(packet)) },
                    pause_after: pauses_after(k),
                },
            );
            k += 1;
        }
        proof {
            let packets = packets_in(out@);
            assert forall|j: int| 0 <= j < packets.len() implies is_packet(
                #[trigger] packets[j],
                *frame,
                texts[j],
                self.frame_seq,
                j,
                total as int,
            ) by {
                assert(packets[j] == packet_in(out@[j]));
            }
        }
        out
    }
}

/// A message on its way out, and whether the sender rests after it.
#[derive(Debug)]
pub struct Outgoing {
    pub message: Message,
    pub pause_after: bool,
}

/// The packet in a message.
pub open spec fn packet_in(o: Outgoing) -> DataPacket {
    o.message.kind->0->DataPacket_0
}

/// The packets in a row of messages.
pub open spec fn packets_in(out: Seq<Outgoing>) -> Seq<DataPacket> {
    out.map_values(|o: Outgoing| packet_in(o))
}

/// Whether the sender rests after packet number `k` of a frame.
pub open spec fn rests_after(k: int) -> bool {
    k > 0 && k % PACKETS_PER_PAUSE as int == 0
}

/// Whether `o` carries a packet that is number `k` in its frame.
pub open spec fn is_outgoing(o: Outgoing, packet: DataPacket, k: int) -> bool {
    &&& o.message.kind == Some(Type::DataPacket(packet))
    &&& o.pause_after == rests_after(k)
}

/// Whether the sender rests after the packet with this index in its frame.
pub fn pauses_after(index: usize) -> (b: bool)
    ensures
        b == rests_after(index as int),
{
    index > 0 && index % PACKETS_PER_PAUSE == 0
}

/// Puts packets together to frames. A frame is complete when a packet of another
/// one comes, or when none comes for a while.
#[derive(Debug)]
pub struct FrameAssembler {
    pub buffer: Vec<u8>,
    pub current_seq: u32,
}

/// What an assembler holds: the bytes of a frame so far, and the frame's number.
pub struct Assembly {
    pub bytes: Seq<u8>,
    pub seq: u32,
}

impl View for FrameAssembler {
    type V = Assembly;

    open spec fn view(&self) -> Assembly {
        Assembly { bytes: self.buffer@, seq: self.current_seq }
    }
}

/// What an assembler holds after a packet.
pub open spec fn after_packet(a: Assembly, p: DataPacket) -> Assembly {
    Assembly {
        bytes: if p.frame_seq != a.seq {
            p.payload@
        } else {
            a.bytes + p.payload@
        },
        seq: p.frame_seq,
    }
}

/// The frame that a packet completes, if any.
pub open spec fn completed_by(a: Assembly, p: DataPacket) -> Option<Seq<u8>> {
    if p.frame_seq != a.seq && a.bytes.len() > 0 {
        Some(a.bytes)
    } else {
        None
    }
}

/// Whether `frame` is what `bytes` says: a frame of these bytes, or none.
pub open spec fn is_frame(frame: Option<Vec<u8>>, bytes: Option<Seq<u8>>) -> bool {
    match bytes {
        Some(b) => frame matches Some(f) && f@ == b,
        None => frame is None,
    }
}

/// What is held once everything was given out: nothing, of the same frame.
pub open spec fn emptied(a: Assembly) -> Assembly {
    Assembly { bytes: Seq::empty(), seq: a.seq }
}

/// What becomes of what is held when a message comes in.
pub open spec fn receives(
    before: Assembly,
    message: Message,
    after: Assembly,
    frame: Option<Vec<u8>>,
) -> bool {
    match message.kind {
        Some(Type::DataPacket(p)) => after == after_packet(before, p) && is_frame(
            frame,
            completed_by(before, p),
        ),
        _ => after == before && frame is None,
    }
}

/// The bytes that an assembler holds, as a frame; none if there are none.
pub open spec fn rest_of(a: Assembly) -> Option<Seq<u8>> {
    if a.bytes.len() > 0 {
        Some(a.bytes)
    } else {
        None
    }
}

impl FrameAssembler {
    pub fn new() -> (a: Self)
        ensures
            a@ == (Assembly { bytes: Seq::empty(), seq: 0 }),
    {
        let a = FrameAssembler { buffer: Vec::new(), current_seq: 0 };
        assert(a@.bytes =~= Seq::empty());
        a
    }

    /// The bytes held, if there are any; afterwards there are none.
    fn take(&mut self) -> (frame: Option<Vec<u8>>)
        ensures
            final(self)@ == emptied(old(self)@),
            is_frame(frame, rest_of(old(self)@)),
    {
        if self.buffer.len() == 0 {
            assert(self@.bytes =~= Seq::empty());
            return None;
        }
        let mut frame: Vec<u8> = Vec::new();
        frame.append(&mut self.buffer);
        assert(frame@ =~= old(self).buffer@);
        assert(self@.bytes =~= Seq::empty());
        Some(frame)
    }

    /// Takes a packet, and gives the frame that it completes, if any.
    pub fn on_packet(&mut self, packet: &DataPacket) -> (frame: Option<Vec<u8>>)
        requires
            old(self).buffer@.len() + packet.payload@.len() <= usize::MAX,
        ensures
            final(self)@ == after_packet(old(self)@, *packet),
            is_frame(frame, completed_by(old(self)@, *packet)),
    {
        let frame = if packet.frame_seq != self.current_seq {
            self.take()
        } else {
            None
        };
        self.current_seq = packet.frame_seq;
        self.buffer.extend_from_slice(packet.payload.as_slice());
        assert(self@.bytes =~= after_packet(old(self)@, *packet).bytes);
        frame
    }

    /// Takes a message that came in a datagram; all but packets are ignored.
    pub fn on_message(&mut self, message: &Message) -> (frame: Option<Vec<u8>>)
        requires
            message.kind matches Some(Type::DataPacket(p)) ==> old(self).buffer@.len()
                + p.payload@.len() <= usize::MAX,
        ensures
            receives(old(self)@, *message, final(self)@, frame),
    {
        match &message.kind {
            Some(Type::DataPacket(p)) => self.on_packet(p),
            _ => None,
        }
    }

    /// No packet came for a while, or none will come any more: whatever is held is
    /// a frame.
    pub fn flush(&mut self) -> (frame: Option<Vec<u8>>)
        ensures
            final(self)@ == emptied(old(self)@),
            is_frame(frame, rest_of(old(self)@)),
    {
        self.take()
    }
}

/// What an assembler holds after a row of packets.
pub open spec fn after_packets(a: Assembly, packets: Seq<DataPacket>) -> Assembly
    decreases packets.len(),
{
    if packets.len() == 0 {
        a
    } else {
        after_packet(after_packets(a, packets.drop_last()), packets.last())
    }
}

/// The frames that a row of packets completes.
pub open spec fn completed_by_all(a: Assembly, packets: Seq<DataPacket>) -> Seq<Seq<u8>>
    decreases packets.len(),
{
    if packets.len() == 0 {
        Seq::empty()
    } else {
        let before = completed_by_all(a, packets.drop_last());
        match completed_by(after_packets(a, packets.drop_last()), packets.last()) {
            Some(frame) => before.push(frame),
            None => before,
        }
    }
}

/// Bytes put one after the other, without the last of them.
proof fn lemma_joined_last(parts: Seq<Seq<u8>>)
    requires
        parts.len() > 0,
    ensures
        joined(parts) == joined(parts.drop_last()) + parts.last(),
    decreases parts.len(),
{
    if parts.len() == 1 {
        reveal_with_fuel(joined, 2);
        assert(joined(parts) =~= joined(parts.drop_last()) + parts.last());
    } else {
        let tail = parts.subrange(1, parts.len() as int);
        lemma_joined_last(tail);
        assert(parts.drop_last().subrange(1, parts.len() - 1) =~= tail.drop_last());
        assert(joined(parts) =~= joined(parts.drop_last()) + parts.last());
    }
}

proof fn lemma_packets_add_up(
    a: Assembly,
    packets: Seq<DataPacket>,
    units: Seq<Seq<u8>>,
    seq: u32,
)
    requires
        packets.len() == units.len(),
        packets.len() > 0,
        forall|k: int|
            0 <= k < packets.len() ==> (#[trigger] packets[k]).frame_seq == seq
                && packets[k].payload@ == units[k],
    ensures
        after_packets(a, packets) == (Assembly {
            bytes: if a.seq == seq {
                a.bytes + joined(units)
            } else {
                joined(units)
            },
            seq,
        }),
        completed_by_all(a, packets) == if a.seq != seq && a.bytes.len() > 0 {
            seq![a.bytes]
        } else {
            Seq::empty()
        },
    decreases packets.len(),
{
    lemma_joined_last(units);
    let front = packets.drop_last();
    let units_front = units.drop_last();
    if packets.len() == 1 {
        reveal_with_fuel(after_packets, 2);
        reveal_with_fuel(completed_by_all, 2);
        assert(joined(units_front) =~= Seq::empty());
        assert(joined(units) =~= units[0]);
        assert(after_packets(a, packets).bytes =~= if a.seq == seq {
            a.bytes + joined(units)
        } else {
            joined(units)
        });
        assert(completed_by_all(a, packets) =~= if a.seq != seq && a.bytes.len() > 0 {
            seq![a.bytes]
        } else {
            Seq::empty()
        });
    } else {
        assert forall|k: int| 0 <= k < front.len() implies (#[trigger] front[k]).frame_seq == seq
            && front[k].payload@ == units_front[k] by {
            assert(front[k] == packets[k]);
        }
        lemma_packets_add_up(a, front, units_front, seq);
        assert(after_packets(a, packets).bytes =~= if a.seq == seq {
            a.bytes + joined(units)
        } else {
            joined(units)
        });
    }
}

/// The packets of a frame, received in order, bring the frame back: they complete
/// the frame before it, if there was one, and leave its own bytes in the
/// assembler.
pub proof fn law_frame_survives_transport(
    a: Assembly,
    frame: EncodedFrame,
    seq: u32,
    packets: Seq<DataPacket>,
)
    requires
        frame.nal_units@.len() > 0,
        are_packets(packets, frame, seq),
        a.seq != seq || a.bytes.len() == 0,
    ensures
        after_packets(a, packets) == (Assembly { bytes: frame.nal_units@, seq }),
        completed_by_all(a, packets) == if a.bytes.len() > 0 {
            seq![a.bytes]
        } else {
            Seq::empty()
        },
{
    let units = pieces(frame.nal_units@);
    law_units_join_to_the_data(frame.nal_units@);
    assert forall|k: int| 0 <= k < packets.len() implies (#[trigger] packets[k]).frame_seq == seq
        && packets[k].payload@ == units[k] by {}
    lemma_packets_add_up(a, packets, units, seq);
    assert(after_packets(a, packets).bytes =~= frame.nal_units@);
}

/// Rows of packets as one.
pub open spec fn all_packets(rows: Seq<Seq<DataPacket>>) -> Seq<DataPacket>
    decreases rows.len(),
{
    if rows.len() == 0 {
        Seq::empty()
    } else {
        all_packets(rows.drop_last()) + rows.last()
    }
}

/// Packets do the same whether they come in one row or in two.
proof fn lemma_packets_split(a: Assembly, x: Seq<DataPacket>, y: Seq<DataPacket>)
    ensures
        after_packets(a, x + y) == after_packets(after_packets(a, x), y),
        completed_by_all(a, x + y) == completed_by_all(a, x) + completed_by_all(
            after_packets(a, x),
            y,
        ),
    decreases y.len(),
{
    if y.len() == 0 {
        assert(x + y =~= x);
    } else {
        lemma_packets_split(a, x, y.drop_last());
        assert((x + y).drop_last() =~= x + y.drop_last());
        assert((x + y).last() == y.last());
        assert(completed_by_all(a, x + y) =~= completed_by_all(a, x) + completed_by_all(
            after_packets(a, x),
            y,
        ));
    }
}

/// Frames that are numbered one after the other and whose packets are all received
/// in order come out in order and unchanged: all but the last as soon as the next one
/// begins, and the last when no more packets come.
pub proof fn law_frames_come_in_order(
    a: Assembly,
    frames: Seq<EncodedFrame>,
    seqs: Seq<u32>,
    rows: Seq<Seq<DataPacket>>,
)
    requires
        a.bytes.len() == 0,
        frames.len() > 0,
        seqs.len() == frames.len(),
        rows.len() == frames.len(),
        forall|k: int| 0 <= k < frames.len() ==> (#[trigger] frames[k]).nal_units@.len() > 0,
        forall|k: int| 0 < k < seqs.len() ==> #[trigger] seqs[k] == next_seq(seqs[k - 1]),
        forall|k: int|
            0 <= k < rows.len() ==> are_packets(#[trigger] rows[k], frames[k], seqs[k]),
    ensures
        completed_by_all(a, all_packets(rows)) == frames.drop_last().map_values(
            |f: EncodedFrame| f.nal_units@,
        ),
        rest_of(after_packets(a, all_packets(rows))) == Some(frames.last().nal_units@),
        after_packets(a, all_packets(rows)).seq == seqs.last(),
    decreases frames.len(),
{
    let n = frames.len() as int;
    let bytes = |f: EncodedFrame| f.nal_units@;
    let front = rows.drop_last();
    let held = after_packets(a, all_packets(front));
    lemma_packets_split(a, all_packets(front), rows.last());
    if n == 1 {
        assert(all_packets(front) =~= Seq::empty());
        law_frame_survives_transport(a, frames[0], seqs[0], rows[0]);
    } else {
        law_frames_come_in_order(a, frames.drop_last(), seqs.drop_last(), front);
        assert(seqs[n - 1] == next_seq(seqs[n - 2]));
        law_frame_survives_transport(held, frames[n - 1], seqs[n - 1], rows[n - 1]);
        let earlier = frames.drop_last();
        assert(earlier.map_values(bytes) =~= earlier.drop_last().map_values(bytes).push(
            earlier.last().nal_units@,
        ));
    }
    assert(completed_by_all(a, all_packets(rows)) =~= frames.drop_last().map_values(bytes));
}

/// The packets of a frame carry its type, its display and one number, which is the next
/// one for the next frame, and count themselves: from zero, one after the other, and each
/// says how many there are.
pub proof fn law_packets_count_themselves(
    packets: Seq<DataPacket>,
    frame: EncodedFrame,
    seq: u32,
    k: int,
)
    requires
        are_packets(packets, frame, seq),
        packets.len() <= u32::MAX,
        0 <= k < packets.len(),
    ensures
        packets[0].fragment_index == 0,
        k + 1 < packets.len() ==> packets[k + 1].fragment_index == packets[k].fragment_index + 1,
        packets[k].fragment_count == packets.len(),
        packets[k].frame_seq == packets[0].frame_seq,
        packets[k].display_index == frame.display_index,
        packets[k].frame_type == frame.frame_type.spec_code(),
        next_seq(seq) != seq,
        seq < u32::MAX ==> next_seq(seq) == seq + 1,
{
    let units = pieces(frame.nal_units@);
    assert(is_packet(packets[0], frame, units[0], seq, 0, units.len() as int));
    assert(is_packet(packets[k], frame, units[k], seq, k, units.len() as int));
    if k + 1 < packets.len() {
        assert(is_packet(packets[k + 1], frame, units[k + 1], seq, k + 1, units.len() as int));
    }
}

/// The payloads of a row of packets.
pub open spec fn payloads(packets: Seq<DataPacket>) -> Seq<Seq<u8>> {
    packets.map_values(|p: DataPacket| p.payload@)
}

/// Whatever packets come, in whatever order, no byte is lost or doubled: the frames that
/// they complete, and what is held afterwards, are what was held before and the payloads.
pub proof fn law_no_byte_is_lost(a: Assembly, packets: Seq<DataPacket>)
    ensures
        joined(completed_by_all(a, packets)) + after_packets(a, packets).bytes == a.bytes + joined(
            payloads(packets),
        ),
    decreases packets.len(),
{
    if packets.len() == 0 {
        assert(joined(completed_by_all(a, packets)) + after_packets(a, packets).bytes =~= a.bytes
            + joined(payloads(packets)));
    } else {
        let front = packets.drop_last();
        let last = packets.last();
        law_no_byte_is_lost(a, front);
        lemma_joined_last(payloads(packets));
        assert(payloads(packets).drop_last() =~= payloads(front));
        let held = after_packets(a, front);
        let done = completed_by_all(a, front);
        if completed_by(held, last) is Some {
            let all = completed_by_all(a, packets);
            lemma_joined_last(all);
            assert(all.drop_last() =~= done);
        }
        assert(joined(completed_by_all(a, packets)) + after_packets(a, packets).bytes =~= (joined(
            done,
        ) + held.bytes) + last.payload@);
        assert((a.bytes + joined(payloads(front))) + last.payload@ =~= a.bytes + (joined(
            payloads(front),
        ) + last.payload@));
    }
}

/// A frame is complete exactly when a packet of another one comes; packets of one number
/// are never parted.
pub proof fn law_frames_end_with_their_number(a: Assembly, p: DataPacket)
    ensures
        completed_by(a, p) is Some <==> p.frame_seq != a.seq && a.bytes.len() > 0,
        completed_by(a, p) matches Some(frame) ==> frame == a.bytes && after_packet(a, p).bytes
            == p.payload@,
        p.frame_seq == a.seq ==> after_packet(a, p).bytes == a.bytes + p.payload@,
        after_packet(a, p).seq == p.frame_seq,
        rest_of(a) is Some <==> a.bytes.len() > 0,
{
}

/// The number after the last one is zero; no two numbers have the same next one.
pub proof fn law_numbers_start_over(seq: u32, other: u32)
    ensures
        next_seq(seq) == (seq + 1) % 0x1_0000_0000,
        next_seq(seq) == next_seq(other) ==> seq == other,
{
}

/// The sender rests after every twentieth packet that follows the first, and at no other
/// time.
pub proof fn law_every_twentieth_packet_is_rested_after(
    o: Outgoing,
    packet: DataPacket,
    later: Outgoing,
    later_packet: DataPacket,
    k: int,
    d: int,
)
    requires
        0 <= k,
        0 < d <= 20,
        is_outgoing(o, packet, k),
        is_outgoing(later, later_packet, k + d),
    ensures
        k == 0 ==> !o.pause_after,
        o.pause_after || k == 0 ==> (later.pause_after <==> d == 20),
{
}

/// Packets travel in the clear: all that a packet carries of the frame is its payload.
pub proof fn law_packets_travel_in_the_clear(
    packets: Seq<DataPacket>,
    frame: EncodedFrame,
    seq: u32,
    k: int,
)
    requires
        are_packets(packets, frame, seq),
        0 <= k < packets.len(),
    ensures
        packets[k].encrypted_payload@.len() == 0,
        packets[k].nonce@.len() == 0,
        packets[k].key_version == 0,
{
    let units = pieces(frame.nal_units@);
    assert(is_packet(packets[k], frame, units[k], seq, k, units.len() as int));
}

/// A packet that arrives in a message adds its payload to what is held, or begins anew if
/// it belongs to another frame; a message of any other kind changes nothing.
pub proof fn law_only_packets_are_taken(
    before: Assembly,
    message: Message,
    after: Assembly,
    frame: Option<Vec<u8>>,
)
    requires
        receives(before, message, after, frame),
    ensures
        !(message.kind matches Some(Type::DataPacket(_))) ==> after == before && frame is None,
        message.kind matches Some(Type::DataPacket(p)) ==> {
            &&& after.seq == p.frame_seq
            &&& p.frame_seq == before.seq ==> frame is None && after.bytes == before.bytes
                + p.payload@
            &&& p.frame_seq != before.seq ==> after.bytes == p.payload@ && (frame is Some
                <==> before.bytes.len() > 0) && (frame is Some ==> frame->0@ == before.bytes)
        },
{
}

/// What was given out is not given out again, and what comes later of the same frame is
/// given out without it.
pub proof fn law_nothing_is_given_out_twice(a: Assembly, p: DataPacket)
    requires
        p.frame_seq == a.seq,
        p.payload@.len() > 0,
    ensures
        rest_of(a) is Some <==> a.bytes.len() > 0,
        rest_of(a) is Some ==> rest_of(a)->0 == a.bytes,
        rest_of(emptied(a)) is None,
        rest_of(after_packet(emptied(a), p)) == Some(p.payload@),
        completed_by(emptied(a), p) is None,
{
    assert(Seq::<u8>::empty() + p.payload@ =~= p.payload@);
}

} // verus!
