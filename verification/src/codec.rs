//! The wire codec: a message travels as one frame of `HEADER_SIZE` header
//! bytes followed by exactly the advertised number of content bytes.  The
//! encoder drops in-memory padding; the decoder rejects frames whose
//! advertised size exceeds `MAX_CONTENT_SIZE`.  The flush policy is decided
//! here as well: FLUSH, END and QUIT force the sender's buffered writer to
//! flush.

use vstd::prelude::*;
use crate::message::Message;
use crate::message::HEADER_SIZE;
use crate::message::TYPE_SIZE;
use crate::message::END_BYTE;
use crate::message::QUIT_BYTE;
use crate::message::FLUSH_BYTE;
use crate::message::be64;
use crate::message::msg_wf;
use crate::message::spec_msg_type;
use crate::message::spec_content_size;
use crate::message::spec_content;

verus! {

/// Largest content size the decoder accepts; a header advertising more is
/// malformed.
pub const MAX_CONTENT_SIZE: u64 = 16777216;

/// The failures the library distinguishes.  Per-connection failures end
/// that session only; `BindFailed` and `ConnectFailed` are returned to the
/// caller that tried to start the endpoint.
#[derive(Clone, Copy, PartialEq, Eq, Structural, Debug)]
pub enum CommError {
    /// The listener could not claim its address.
    BindFailed,
    /// The connector could not reach its peer.
    ConnectFailed,
    /// The peer closed, or the bytes ran out, in the middle of a frame.
    FrameTruncated,
    /// A read failed below the codec.
    ReadError,
    /// A write failed below the codec.
    WriteError,
    /// A header advertised more than `MAX_CONTENT_SIZE` content bytes.
    MalformedHeader,
}

/// Whether a message of type `t` makes the sender flush its buffered
/// writer after transmitting.
pub open spec fn spec_needs_flush(t: u8) -> bool {
    t == FLUSH_BYTE || t == END_BYTE || t == QUIT_BYTE
}

/// Decides the flush policy for a type byte.
pub fn needs_flush(t: u8) -> (r: bool)
    ensures
        r == spec_needs_flush(t),
{
    t == FLUSH_BYTE || t == END_BYTE || t == QUIT_BYTE
}

/// The frame of a message buffer: its header and content bytes, without the
/// padding that may follow them in memory.
pub open spec fn spec_frame(s: Seq<u8>) -> Seq<u8>
    recommends
        msg_wf(s),
{
    s.subrange(0, HEADER_SIZE + spec_content_size(s))
}

/// What decoding a byte sequence yields: the bytes of the first frame and
/// the count of bytes consumed, or the error the codec reports.
pub open spec fn spec_decode_frame(b: Seq<u8>) -> Result<(Seq<u8>, int), CommError> {
    if b.len() < HEADER_SIZE {
        Err(CommError::FrameTruncated)
    } else if be64(b.subrange(TYPE_SIZE as int, HEADER_SIZE as int)) > MAX_CONTENT_SIZE {
        Err(CommError::MalformedHeader)
    } else if b.len() < HEADER_SIZE + be64(b.subrange(TYPE_SIZE as int, HEADER_SIZE as int)) {
        Err(CommError::FrameTruncated)
    } else {
        let used = HEADER_SIZE + be64(b.subrange(TYPE_SIZE as int, HEADER_SIZE as int));
        Ok((b.subrange(0, used as int), used as int))
    }
}

/// Encodes a message into the bytes that go on the wire: the header and the
/// content, padding dropped.
pub fn encode_frame(msg: &Message) -> (r: Vec<u8>)
    requires
        msg_wf(msg@),
    ensures
        r@ == spec_frame(msg@),
        r@.len() == HEADER_SIZE + spec_content_size(msg@),
{
    let sz = msg.get_content_size();
    let n = msg.len();
    let frame = msg.get_field(0, HEADER_SIZE + sz);
    vstd::slice::slice_to_vec(frame)
}

/// What a sender does with one message: the bytes to write, whether to
/// flush afterwards, and whether this message ends the send loop.
pub struct SendPlan {
    /// The frame bytes to hand to the writer.
    pub frame: Vec<u8>,
    /// Whether the writer is flushed after the frame is written.
    pub flush: bool,
    /// Whether the send worker stops after this message (an END message).
    pub last: bool,
}

/// Plans the send worker's handling of one message: its frame, the flush
/// decision, and whether the message ends the loop.
pub fn plan_send(msg: &Message) -> (r: SendPlan)
    requires
        msg_wf(msg@),
    ensures
        r.frame@ == spec_frame(msg@),
        r.flush == spec_needs_flush(spec_msg_type(msg@)),
        r.last == (spec_msg_type(msg@) == END_BYTE),
{
    let t = msg.get_type();
    SendPlan { frame: encode_frame(msg), flush: needs_flush(t), last: t == END_BYTE }
}

/// Reads a header: the type byte and the advertised content size, or
/// `MalformedHeader` when the size exceeds `MAX_CONTENT_SIZE`.
pub fn read_header(h: &Vec<u8>) -> (r: Result<(u8, usize), CommError>)
    requires
        h@.len() == HEADER_SIZE,
    ensures
        r is Ok <==> be64(h@.subrange(TYPE_SIZE as int, HEADER_SIZE as int)) <= MAX_CONTENT_SIZE,
        r matches Ok((t, sz)) ==> t == h@[0] && sz == be64(
            h@.subrange(TYPE_SIZE as int, HEADER_SIZE as int),
        ),
        r matches Err(e) ==> e == CommError::MalformedHeader,
{
    let x: u64 = ((h[1] as u64) << 56) | ((h[2] as u64) << 48) | ((h[3] as u64) << 40) | ((h[4]
        as u64) << 32) | ((h[5] as u64) << 24) | ((h[6] as u64) << 16) | ((h[7] as u64) << 8) | (
    h[8] as u64);
    proof {
        assert(h@.subrange(TYPE_SIZE as int, HEADER_SIZE as int) =~= seq![
            h@[1],
            h@[2],
            h@[3],
            h@[4],
            h@[5],
            h@[6],
            h@[7],
            h@[8],
        ]);
    }
    if x > MAX_CONTENT_SIZE {
        Err(CommError::MalformedHeader)
    } else {
        Ok((h[0], x as usize))
    }
}

/// Assembles the message a receiver hands on: the read type byte and the
/// read content bytes, in a buffer with no padding.
pub fn build_message(t: u8, content: &[u8]) -> (r: Message)
    requires
        content@.len() <= usize::MAX - HEADER_SIZE,
    ensures
        msg_wf(r@),
        r@.len() == HEADER_SIZE + content@.len(),
        spec_msg_type(r@) == t,
        spec_content_size(r@) == content@.len(),
        spec_content(r@) == content@,
    {
    let mut m = Message::create_msg_bytes_fit(content);
    let ghost m0 = m@;
    m.set_type(t);
    proof {
        assert(m@.subrange(TYPE_SIZE as int, HEADER_SIZE as int) =~= m0.subrange(
            TYPE_SIZE as int,
            HEADER_SIZE as int,
        ));
        assert(spec_content(m@) =~= spec_content(m0));
    }
    m
}

/// Decodes the frame that starts at `start` in `bytes`: the message and
/// the count of bytes consumed, or the error `spec_decode_frame` reports
/// for the bytes from `start` on.  Decoding a long stream frame by frame
/// advances `start` by each frame's count.
pub fn decode_frame_at(bytes: &Vec<u8>, start: usize) -> (r: Result<(Message, usize), CommError>)
    requires
        start <= bytes@.len(),
    ensures
        r is Ok <==> spec_decode_frame(bytes@.skip(start as int)) is Ok,
        r matches Ok((m, used)) ==> spec_decode_frame(bytes@.skip(start as int)) matches Ok(p)
            && m@ == p.0 && used == p.1 && msg_wf(m@),
        r matches Err(e) ==> spec_decode_frame(bytes@.skip(start as int)) matches Err(e2) && e
            == e2,
{
    let ghost tail = bytes@.skip(start as int);
    let n = bytes.len();
    if n - start < HEADER_SIZE {
        return Err(CommError::FrameTruncated);
    }
    let x: u64 = ((bytes[start + 1] as u64) << 56) | ((bytes[start + 2] as u64) << 48) | ((
    bytes[start + 3] as u64) << 40) | ((bytes[start + 4] as u64) << 32) | ((bytes[start + 5]
        as u64) << 24) | ((bytes[start + 6] as u64) << 16) | ((bytes[start + 7] as u64) << 8) | (
    bytes[start + 8] as u64);
    proof {
        assert(tail.subrange(TYPE_SIZE as int, HEADER_SIZE as int) =~= seq![
            bytes@[start + 1],
            bytes@[start + 2],
            bytes@[start + 3],
            bytes@[start + 4],
            bytes@[start + 5],
            bytes@[start + 6],
            bytes@[start + 7],
            bytes@[start + 8],
        ]);
    }
    if x > MAX_CONTENT_SIZE {
        return Err(CommError::MalformedHeader);
    }
    let sz = x as usize;
    if n - start - HEADER_SIZE < sz {
        return Err(CommError::FrameTruncated);
    }
    let used = HEADER_SIZE + sz;
    let frame = vstd::slice::slice_subrange(bytes.as_slice(), start, start + used);
    let mut m = Message::new(used);
    m.set_bytes(frame);
    proof {
        assert(m@ =~= tail.subrange(0, used as int));
        assert(m@.subrange(TYPE_SIZE as int, HEADER_SIZE as int) =~= tail.subrange(
            TYPE_SIZE as int,
            HEADER_SIZE as int,
        ));
    }
    Ok((m, used))
}

/// Decodes the first frame of `bytes`: the message and the count of bytes
/// consumed, or the error `spec_decode_frame` reports.
pub fn decode_frame(bytes: &Vec<u8>) -> (r: Result<(Message, usize), CommError>)
    ensures
        r is Ok <==> spec_decode_frame(bytes@) is Ok,
        r matches Ok((m, used)) ==> spec_decode_frame(bytes@) matches Ok(p) && m@ == p.0 && used
            == p.1 && msg_wf(m@),
        r matches Err(e) ==> spec_decode_frame(bytes@) matches Err(e2) && e == e2,
{
    proof {
        assert(bytes@.skip(0) =~= bytes@);
    }
    decode_frame_at(bytes, 0)
}

/// A message's frame carries the message's fields unchanged: same type
/// byte, same content size, same content bytes, and no padding.
pub proof fn lemma_frame_fields(s: Seq<u8>)
    requires
        msg_wf(s),
    ensures
        msg_wf(spec_frame(s)),
        spec_frame(s).len() == HEADER_SIZE + spec_content_size(s),
        spec_msg_type(spec_frame(s)) == spec_msg_type(s),
        spec_content_size(spec_frame(s)) == spec_content_size(s),
        spec_content(spec_frame(s)) == spec_content(s),
{
    let f = spec_frame(s);
    assert(f.subrange(TYPE_SIZE as int, HEADER_SIZE as int) =~= s.subrange(
        TYPE_SIZE as int,
        HEADER_SIZE as int,
    ));
    assert(spec_content(f) =~= spec_content(s));
}

/// Decoding bytes that begin with a message's frame succeeds, consumes
/// exactly the frame, and leaves exactly the bytes that followed it.
pub proof fn lemma_decode_prefix(s: Seq<u8>, rest: Seq<u8>)
    requires
        msg_wf(s),
        spec_content_size(s) <= MAX_CONTENT_SIZE,
    ensures
        spec_decode_frame(spec_frame(s) + rest) matches Ok(p) && p.0 == spec_frame(s) && p.1
            == spec_frame(s).len() && (spec_frame(s) + rest).skip(p.1) == rest,
{
    let f = spec_frame(s);
    let b = f + rest;
    lemma_frame_fields(s);
    assert(b.subrange(TYPE_SIZE as int, HEADER_SIZE as int) =~= f.subrange(
        TYPE_SIZE as int,
        HEADER_SIZE as int,
    ));
    assert(b.subrange(0, f.len() as int) =~= f);
    assert(b.skip(f.len() as int) =~= rest);
}

/// Round-trip framing: encoding a message and decoding the result yields a
/// message identical in type byte, content size and content bytes, with the
/// whole frame consumed.
pub proof fn lemma_round_trip(s: Seq<u8>)
    requires
        msg_wf(s),
        spec_content_size(s) <= MAX_CONTENT_SIZE,
    ensures
        spec_decode_frame(spec_frame(s)) matches Ok(p) && p.1 == spec_frame(s).len() && msg_wf(p.0)
            && spec_msg_type(p.0) == spec_msg_type(s) && spec_content_size(p.0)
            == spec_content_size(s) && spec_content(p.0) == spec_content(s),
{
    lemma_decode_prefix(s, Seq::<u8>::empty());
    assert(spec_frame(s) + Seq::<u8>::empty() =~= spec_frame(s));
    lemma_frame_fields(s);
}

/// Wire order: when one frame is written after another, decoding yields the
/// first message first, and the bytes left over are exactly the second
/// frame, which decodes to the second message.
pub proof fn lemma_wire_order(s1: Seq<u8>, s2: Seq<u8>)
    requires
        msg_wf(s1),
        msg_wf(s2),
        spec_content_size(s1) <= MAX_CONTENT_SIZE,
        spec_content_size(s2) <= MAX_CONTENT_SIZE,
    ensures
        spec_decode_frame(spec_frame(s1) + spec_frame(s2)) matches Ok(p) && spec_msg_type(p.0)
            == spec_msg_type(s1) && spec_content_size(p.0) == spec_content_size(s1)
            && spec_content(p.0) == spec_content(s1) && (spec_frame(s1) + spec_frame(s2)).skip(p.1)
            == spec_frame(s2),
        spec_decode_frame(spec_frame(s2)) matches Ok(q) && spec_msg_type(q.0) == spec_msg_type(s2)
            && spec_content_size(q.0) == spec_content_size(s2) && spec_content(q.0)
            == spec_content(s2),
{
    lemma_decode_prefix(s1, spec_frame(s2));
    lemma_frame_fields(s1);
    lemma_round_trip(s2);
}

/// The bytes a connection carries for a sequence of message buffers: their
/// frames, one after another, in order.
pub open spec fn spec_wire(msgs: Seq<Seq<u8>>) -> Seq<u8>
    decreases msgs.len(),
{
    if msgs.len() == 0 {
        Seq::<u8>::empty()
    } else {
        spec_frame(msgs[0]) + spec_wire(msgs.skip(1))
    }
}

/// Ordering within a connection: on the wire carrying a sequence of
/// messages, decoding yields the first message, and the bytes after it are
/// the wire of the remaining messages — so the receiver sees the messages
/// in the order they were sent, which the FIFO send queue makes the order
/// they were posted.
pub proof fn lemma_wire_head(msgs: Seq<Seq<u8>>)
    requires
        msgs.len() > 0,
        forall|k: int|
            0 <= k < msgs.len() ==> msg_wf(#[trigger] msgs[k]) && spec_content_size(msgs[k])
                <= MAX_CONTENT_SIZE,
    ensures
        spec_decode_frame(spec_wire(msgs)) matches Ok(p) && spec_msg_type(p.0) == spec_msg_type(
            msgs[0],
        ) && spec_content_size(p.0) == spec_content_size(msgs[0]) && spec_content(p.0)
            == spec_content(msgs[0]) && spec_wire(msgs).skip(p.1) == spec_wire(msgs.skip(1)),
{
    lemma_decode_prefix(msgs[0], spec_wire(msgs.skip(1)));
    lemma_frame_fields(msgs[0]);
}

/// Appending one message to a sequence appends its frame to the wire.
proof fn lemma_wire_snoc(s: Seq<Seq<u8>>, x: Seq<u8>)
    ensures
        spec_wire(s.push(x)) == spec_wire(s) + spec_frame(x),
    decreases s.len(),
{
    let ss = s.push(x);
    if s.len() == 0 {
        assert(ss[0] == x);
        assert(ss.skip(1) =~= Seq::<Seq<u8>>::empty());
        assert(spec_wire(ss) == spec_frame(x) + spec_wire(Seq::<Seq<u8>>::empty()));
        assert(spec_frame(x) + Seq::<u8>::empty() =~= Seq::<u8>::empty() + spec_frame(x));
    } else {
        assert(ss[0] == s[0]);
        assert(ss.skip(1) =~= s.skip(1).push(x));
        lemma_wire_snoc(s.skip(1), x);
        assert(spec_frame(s[0]) + (spec_wire(s.skip(1)) + spec_frame(x)) =~= (spec_frame(s[0])
            + spec_wire(s.skip(1))) + spec_frame(x));
    }
}

/// Encodes a batch of messages — a drained send queue — into the bytes the
/// connection carries: each message's frame, in the batch's order.
pub fn encode_all(msgs: &Vec<Message>) -> (r: Vec<u8>)
    requires
        forall|k: int| 0 <= k < msgs@.len() ==> msg_wf(#[trigger] msgs@[k]@),
    ensures
        r@ == spec_wire(msgs@.map_values(|m: Message| m@)),
{
    let mut out: Vec<u8> = Vec::new();
    let mut i: usize = 0;
    while i < msgs.len()
        invariant
            i <= msgs@.len(),
            forall|k: int| 0 <= k < msgs@.len() ==> msg_wf(#[trigger] msgs@[k]@),
            out@ == spec_wire(msgs@.take(i as int).map_values(|m: Message| m@)),
        decreases msgs@.len() - i,
    {
        let mut frame = encode_frame(&msgs[i]);
        proof {
            let taken = msgs@.take(i as int).map_values(|m: Message| m@);
            let taken_next = msgs@.take(i + 1).map_values(|m: Message| m@);
            assert(taken_next =~= taken.push(msgs@[i as int]@));
            lemma_wire_snoc(taken, msgs@[i as int]@);
        }
        out.append(&mut frame);
        i = i + 1;
    }
    proof {
        assert(msgs@.take(msgs@.len() as int) =~= msgs@);
    }
    out
}

/// What decoding a whole byte stream yields: the message buffers of its
/// frames, in order, or the error of the first frame that does not parse.
pub open spec fn spec_decode_stream(b: Seq<u8>) -> Result<Seq<Seq<u8>>, CommError>
    decreases b.len(),
{
    if b.len() == 0 {
        Ok(Seq::<Seq<u8>>::empty())
    } else {
        match spec_decode_frame(b) {
            Ok(p) => if 0 < p.1 <= b.len() {
                match spec_decode_stream(b.skip(p.1)) {
                    Ok(rest) => Ok(seq![p.0] + rest),
                    Err(e) => Err(e),
                }
            } else {
                Err(CommError::FrameTruncated)
            },
            Err(e) => Err(e),
        }
    }
}

/// Decodes a whole buffer as consecutive frames: every message on it, in
/// wire order, or the error of the first frame that does not parse.
pub fn decode_all(bytes: &Vec<u8>) -> (r: Result<Vec<Message>, CommError>)
    ensures
        r matches Ok(ms) ==> spec_decode_stream(bytes@) matches Ok(ss) && ms@.map_values(
            |m: Message| m@,
        ) == ss,
        r matches Err(e) ==> spec_decode_stream(bytes@) matches Err(e2) && e == e2,
{
    let n = bytes.len();
    let mut out: Vec<Message> = Vec::new();
    let mut at: usize = 0;
    proof {
        assert(bytes@.skip(0) =~= bytes@);
        assert(out@.map_values(|m: Message| m@) =~= Seq::<Seq<u8>>::empty());
        if spec_decode_stream(bytes@) is Ok {
            let rest = spec_decode_stream(bytes@)->Ok_0;
            assert(Seq::<Seq<u8>>::empty() + rest =~= rest);
        }
    }
    while at < n
        invariant
            at <= n,
            n == bytes@.len(),
            spec_decode_stream(bytes@.skip(at as int)) matches Ok(rest) ==> spec_decode_stream(
                bytes@,
            ) matches Ok(ss) && ss == out@.map_values(|m: Message| m@) + rest,
            spec_decode_stream(bytes@.skip(at as int)) matches Err(e) ==> spec_decode_stream(
                bytes@,
            ) matches Err(e2) && e == e2,
        decreases n - at,
    {
        let ghost tail = bytes@.skip(at as int);
        match decode_frame_at(bytes, at) {
            Ok((m, used)) => {
                proof {
                    assert(tail.skip(spec_decode_frame(tail)->Ok_0.1) =~= bytes@.skip(
                        at + used,
                    ));
                    let prev = out@.map_values(|m2: Message| m2@);
                    assert(prev.push(m@) =~= out@.push(m).map_values(|m2: Message| m2@));
                    if spec_decode_stream(bytes@.skip(at + used)) is Ok {
                        let rest = spec_decode_stream(bytes@.skip(at + used))->Ok_0;
                        assert(prev + (seq![m@] + rest) =~= prev.push(m@) + rest);
                    }
                }
                out.push(m);
                at = at + used;
            },
            Err(e) => {
                return Err(e);
            },
        }
    }
    proof {
        assert(bytes@.skip(n as int) =~= Seq::<u8>::empty());
        assert(out@.map_values(|m: Message| m@) + Seq::<Seq<u8>>::empty() =~= out@.map_values(
            |m: Message| m@,
        ));
    }
    Ok(out)
}

/// The whole-stream form of the ordering guarantee: the wire carrying a
/// sequence of messages decodes to exactly those messages, in order, each
/// with its type byte, content size and content preserved.
pub proof fn lemma_wire_decodes_in_order(msgs: Seq<Seq<u8>>)
    requires
        forall|k: int|
            0 <= k < msgs.len() ==> msg_wf(#[trigger] msgs[k]) && spec_content_size(msgs[k])
                <= MAX_CONTENT_SIZE,
    ensures
        spec_decode_stream(spec_wire(msgs)) matches Ok(ms) && ms.len() == msgs.len() && forall|
            k: int,
        |
            0 <= k < msgs.len() ==> spec_msg_type(#[trigger] ms[k]) == spec_msg_type(msgs[k])
                && spec_content_size(ms[k]) == spec_content_size(msgs[k]) && spec_content(ms[k])
                == spec_content(msgs[k]),
    decreases msgs.len(),
{
    if msgs.len() == 0 {
        assert(spec_wire(msgs).len() == 0);
    } else {
        lemma_wire_head(msgs);
        let b = spec_wire(msgs);
        let p = spec_decode_frame(b)->Ok_0;
        lemma_frame_fields(msgs[0]);
        assert(b.len() >= p.1);
        lemma_wire_decodes_in_order(msgs.skip(1));
        let rest = spec_decode_stream(spec_wire(msgs.skip(1)))->Ok_0;
        let ms = spec_decode_stream(b)->Ok_0;
        assert(ms == seq![p.0] + rest);
        assert forall|k: int| 0 <= k < msgs.len() implies spec_msg_type(#[trigger] ms[k])
            == spec_msg_type(msgs[k]) && spec_content_size(ms[k]) == spec_content_size(msgs[k])
            && spec_content(ms[k]) == spec_content(msgs[k]) by {
            if k == 0 {
                assert(ms[0] == p.0);
            } else {
                assert(ms[k] == rest[k - 1]);
                assert(msgs[k] == msgs.skip(1)[k - 1]);
            }
        }
    }
}

/// Flush correctness: a message of a flushing type (FLUSH, END or QUIT) is
/// handed to the writer as one complete frame, so once that frame is
/// flushed a peer that reads exactly the advertised length has the whole
/// message without any further send.
pub proof fn lemma_flush_completes(s: Seq<u8>)
    requires
        msg_wf(s),
        spec_content_size(s) <= MAX_CONTENT_SIZE,
        spec_needs_flush(spec_msg_type(s)),
    ensures
        spec_frame(s).len() == HEADER_SIZE + spec_content_size(s),
        spec_decode_frame(spec_frame(s)) matches Ok(p) && p.1 == spec_frame(s).len()
            && spec_msg_type(p.0) == spec_msg_type(s) && spec_content_size(p.0)
            == spec_content_size(s) && spec_content(p.0) == spec_content(s),
{
    lemma_round_trip(s);
}

} // verus!
