//! The wire format: a four-byte big-endian length, then that many bytes of
//! payload. Encoding and decoding are stated over sequences of bytes and
//! carried out on `BytesMut` buffers.

use crate::buffer::{advance, as_slice, be_bytes, contents, put_u32};
use bytes::BytesMut;
use vstd::prelude::*;

verus! {

/// The payload of one frame, in a buffer of its own.
pub type Packet = BytesMut;

/// Length of the length prefix in bytes.
pub const HEADER_LEN: usize = 4;

/// The number that the first four bytes of `buffer` stand for, read as a
/// big-endian unsigned integer.
pub open spec fn header_value(buffer: Seq<u8>) -> nat
    recommends
        buffer.len() >= 4,
{
    (buffer[0] as nat) * 0x100_0000 + (buffer[1] as nat) * 0x1_0000 + (buffer[2] as nat) * 0x100
        + (buffer[3] as nat)
}

/// Whether `buffer` starts with a whole frame: a length prefix and all of the
/// payload it announces.
pub open spec fn frame_ready(buffer: Seq<u8>) -> bool {
    buffer.len() >= 4 && buffer.len() >= 4 + header_value(buffer)
}

/// What decoding one frame from the front of `buffer` gives: the payload and
/// the bytes left behind it, or nothing while the frame is incomplete.
pub open spec fn decode_one(buffer: Seq<u8>) -> Option<(Seq<u8>, Seq<u8>)> {
    if frame_ready(buffer) {
        Some(
            (
                buffer.subrange(4, 4 + header_value(buffer) as int),
                buffer.skip(4 + header_value(buffer) as int),
            ),
        )
    } else {
        None
    }
}

/// The frame that carries `payload`: its length in four big-endian bytes,
/// then the payload itself.
pub open spec fn frame_of(payload: Seq<u8>) -> Seq<u8>
    recommends
        payload.len() <= u32::MAX,
{
    be_bytes(payload.len() as u32) + payload
}

/// All payloads of the whole frames at the front of `buffer`, in order.
pub open spec fn all_frames(buffer: Seq<u8>) -> Seq<Seq<u8>>
    decreases buffer.len(),
{
    match decode_one(buffer) {
        Some((payload, rest)) => seq![payload] + all_frames(rest),
        None => Seq::empty(),
    }
}

/// What is left of `buffer` once every whole frame at its front is taken
/// out: at most one incomplete frame.
pub open spec fn leftover(buffer: Seq<u8>) -> Seq<u8>
    decreases buffer.len(),
{
    match decode_one(buffer) {
        Some((_, rest)) => leftover(rest),
        None => buffer,
    }
}

/// The payloads held by a list of buffers, in order.
pub open spec fn payloads(frames: Seq<BytesMut>) -> Seq<Seq<u8>> {
    Seq::new(frames.len(), |i: int| contents(frames[i]))
}

/// Reads four bytes as a big-endian unsigned integer.
pub fn read_be_u32(b0: u8, b1: u8, b2: u8, b3: u8) -> (n: u32)
    ensures
        n == header_value(seq![b0, b1, b2, b3]),
{
    (b0 as u32) * 0x100_0000 + (b1 as u32) * 0x1_0000 + (b2 as u32) * 0x100 + (b3 as u32)
}

/// Takes one frame off the front of `buffer`, if a whole frame is there.
///
/// With fewer than four bytes, or with a length prefix whose payload has not
/// arrived in full, the buffer is left as it is, prefix included, and nothing
/// is returned. Otherwise the prefix and the payload leave the buffer and the
/// payload is returned.
pub fn try_decode_one(buffer: &mut BytesMut) -> (frame: Option<Packet>)
    ensures
        match decode_one(contents(*old(buffer))) {
            Some((payload, rest)) => frame is Some && contents(frame->0) == payload && contents(
                *final(buffer),
            ) == rest,
            None => frame is None && contents(*final(buffer)) == contents(*old(buffer)),
        },
{
    if buffer.len() < HEADER_LEN {
        return None;
    }
    let head = as_slice(buffer);
    let announced = read_be_u32(head[0], head[1], head[2], head[3]);
    let len = announced as usize;
    if buffer.len() - HEADER_LEN < len {
        return None;
    }
    advance(buffer, HEADER_LEN);
    let payload = buffer.split_to(len);
    proof {
        let before = contents(*old(buffer));
        assert(header_value(before) == header_value(seq![before[0], before[1], before[2], before[3]]));
        assert(before.skip(4).take(len as int) =~= before.subrange(4, 4 + len));
        assert(before.skip(4).skip(len as int) =~= before.skip(4 + len));
    }
    Some(payload)
}

/// Builds the frame that carries `payload`.
///
/// The payload must fit the 32-bit length field, and the frame must fit in
/// one allocation.
pub fn encode(payload: &[u8]) -> (frame: BytesMut)
    requires
        payload@.len() <= u32::MAX,
        payload@.len() + 4 <= isize::MAX,
    ensures
        contents(frame) == frame_of(payload@),
{
    let mut frame = BytesMut::with_capacity(HEADER_LEN + payload.len());
    put_u32(&mut frame, payload.len() as u32);
    frame.extend_from_slice(payload);
    assert(Seq::<u8>::empty() + be_bytes(payload@.len() as u32) =~= be_bytes(payload@.len() as u32));
    frame
}

/// Takes every whole frame off the front of `buffer`, in arrival order, and
/// leaves what follows the last of them: at most one incomplete frame.
pub fn drain_frames(buffer: &mut BytesMut) -> (frames: Vec<Packet>)
    ensures
        payloads(frames@) == all_frames(contents(*old(buffer))),
        contents(*final(buffer)) == leftover(contents(*old(buffer))),
{
    let mut frames: Vec<Packet> = Vec::new();
    loop
        invariant
            all_frames(contents(*old(buffer))) == payloads(frames@) + all_frames(
                contents(*buffer),
            ),
            leftover(contents(*old(buffer))) == leftover(contents(*buffer)),
        ensures
            payloads(frames@) == all_frames(contents(*old(buffer))),
            contents(*buffer) == leftover(contents(*old(buffer))),
        decreases contents(*buffer).len(),
    {
        let ghost before = contents(*buffer);
        let ghost taken = payloads(frames@);
        match try_decode_one(buffer) {
            Some(payload) => {
                frames.push(payload);
                assert(payloads(frames@) =~= taken + seq![contents(payload)]);
                assert(taken + (seq![contents(payload)] + all_frames(contents(*buffer)))
                    =~= (taken + seq![contents(payload)]) + all_frames(contents(*buffer)));
            },
            None => {
                assert(taken + Seq::<Seq<u8>>::empty() =~= taken);
                break ;
            },
        }
    }
    frames
}

/// The length prefix of a frame reads back as the payload's length, whatever
/// follows the frame.
pub proof fn lemma_header_of_frame(payload: Seq<u8>, tail: Seq<u8>)
    requires
        payload.len() <= u32::MAX,
    ensures
        frame_of(payload).len() == 4 + payload.len(),
        header_value(frame_of(payload) + tail) == payload.len(),
{
    let n = payload.len() as u32;
    let whole = frame_of(payload) + tail;
    assert(whole[0] == be_bytes(n)[0]);
    assert(whole[1] == be_bytes(n)[1]);
    assert(whole[2] == be_bytes(n)[2]);
    assert(whole[3] == be_bytes(n)[3]);
}

/// Framing round trip: decoding a buffer that starts with the frame of
/// `payload` gives back exactly `payload` and moves past exactly the frame's
/// `4 + |payload|` bytes, leaving what followed it.
pub proof fn lemma_round_trip(payload: Seq<u8>, tail: Seq<u8>)
    requires
        payload.len() <= u32::MAX,
    ensures
        frame_of(payload).len() == 4 + payload.len(),
        decode_one(frame_of(payload) + tail) == Some((payload, tail)),
        decode_one(frame_of(payload)) == Some((payload, Seq::<u8>::empty())),
{
    lemma_header_of_frame(payload, tail);
    let whole = frame_of(payload) + tail;
    assert(whole.subrange(4, 4 + payload.len() as int) =~= payload);
    assert(whole.skip(4 + payload.len() as int) =~= tail);
    lemma_header_of_frame(payload, Seq::empty());
    assert(frame_of(payload) + Seq::<u8>::empty() =~= frame_of(payload));
}

/// Partial-frame stability: while only the first `k` bytes of a frame have
/// arrived, for any `k` short of the whole frame, nothing is decoded; with
/// the last byte the payload comes out whole.
pub proof fn lemma_partial_frame(payload: Seq<u8>, k: int)
    requires
        payload.len() <= u32::MAX,
        0 <= k < 4 + payload.len(),
    ensures
        decode_one(frame_of(payload).take(k)) is None,
        decode_one(frame_of(payload).take(4 + payload.len() as int)) == Some(
            (payload, Seq::<u8>::empty()),
        ),
{
    lemma_round_trip(payload, Seq::empty());
    let frame = frame_of(payload);
    assert(frame.take(4 + payload.len() as int) =~= frame);
    if k >= 4 {
        lemma_header_of_frame(payload, Seq::empty());
        assert(frame + Seq::<u8>::empty() =~= frame);
        let part = frame.take(k);
        assert(part[0] == frame[0] && part[1] == frame[1] && part[2] == frame[2] && part[3]
            == frame[3]);
    }
}

/// Multi-frame drain, one step: a buffer that starts with the frame of
/// `payload` yields `payload` first, then whatever the rest yields, and its
/// leftover is that of the rest.
pub proof fn lemma_drain_step(payload: Seq<u8>, tail: Seq<u8>)
    requires
        payload.len() <= u32::MAX,
    ensures
        all_frames(frame_of(payload) + tail) == seq![payload] + all_frames(tail),
        leftover(frame_of(payload) + tail) == leftover(tail),
{
    lemma_round_trip(payload, tail);
}

/// Multi-frame drain: a buffer made of two consecutive frames yields the
/// first payload, then the second, then nothing, and ends up empty.
pub proof fn lemma_two_frames(first: Seq<u8>, second: Seq<u8>)
    requires
        first.len() <= u32::MAX,
        second.len() <= u32::MAX,
    ensures
        decode_one(frame_of(first) + frame_of(second)) == Some((first, frame_of(second))),
        decode_one(frame_of(second)) == Some((second, Seq::<u8>::empty())),
        decode_one(Seq::<u8>::empty()) is None,
        all_frames(frame_of(first) + frame_of(second)) == seq![first, second],
        leftover(frame_of(first) + frame_of(second)) == Seq::<u8>::empty(),
{
    lemma_round_trip(first, frame_of(second));
    lemma_round_trip(second, Seq::empty());
    lemma_drain_step(first, frame_of(second));
    lemma_drain_step(second, Seq::empty());
    assert(frame_of(second) + Seq::<u8>::empty() =~= frame_of(second));
    assert(all_frames(Seq::<u8>::empty()) =~= Seq::<Seq<u8>>::empty());
    assert(seq![first] + (seq![second] + Seq::<Seq<u8>>::empty()) =~= seq![first, second]);
}

/// After a drain no whole frame is left at the front of the buffer.
pub proof fn lemma_leftover_incomplete(buffer: Seq<u8>)
    ensures
        decode_one(leftover(buffer)) is None,
        leftover(buffer).len() <= buffer.len(),
    decreases buffer.len(),
{
    match decode_one(buffer) {
        Some((_, rest)) => lemma_leftover_incomplete(rest),
        None => {},
    }
}

/// Every payload that a drain yields fits the length field, and lay in the
/// buffer behind its four-byte prefix.
pub proof fn lemma_frames_bounded(buffer: Seq<u8>, i: int)
    requires
        0 <= i < all_frames(buffer).len(),
    ensures
        all_frames(buffer)[i].len() <= u32::MAX,
        all_frames(buffer)[i].len() + 4 <= buffer.len(),
    decreases buffer.len(),
{
    match decode_one(buffer) {
        Some((payload, rest)) => {
            if i > 0 {
                lemma_frames_bounded(rest, i - 1);
            }
        },
        None => {},
    }
}

/// Every decoded payload has exactly the length its prefix announced.
pub proof fn lemma_payload_length(buffer: Seq<u8>)
    requires
        frame_ready(buffer),
    ensures
        match decode_one(buffer) {
            Some((payload, rest)) => payload.len() == header_value(buffer) && rest.len()
                == buffer.len() - 4 - header_value(buffer),
            None => false,
        },
{
}

} // verus!
