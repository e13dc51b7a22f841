//! The payloads the protocol itself gives a meaning to. Every other payload
//! is application data that the protocol carries without looking inside.

use crate::buffer::{contents, from_text};
use bytes::BytesMut;
use vstd::prelude::*;
use vstd::string::is_ascii_spec_bytes;

verus! {

/// What a payload means to the protocol.
#[derive(Clone, Copy, Debug, PartialEq, Eq, Structural)]
pub enum PayloadKind {
    /// The heartbeat probe, the four ASCII bytes `PING`.
    Ping,
    /// The heartbeat answer, the four ASCII bytes `PONG`.
    Pong,
    /// Anything else.
    Data,
}

/// The bytes of the heartbeat probe, `PING` in ASCII.
pub open spec fn ping_bytes() -> Seq<u8> {
    seq![0x50u8, 0x49u8, 0x4eu8, 0x47u8]
}

/// The bytes of the heartbeat answer, `PONG` in ASCII.
pub open spec fn pong_bytes() -> Seq<u8> {
    seq![0x50u8, 0x4fu8, 0x4eu8, 0x47u8]
}

/// The bytes of the client's periodic application message, `DATA` in ASCII.
pub open spec fn data_bytes() -> Seq<u8> {
    seq![0x44u8, 0x41u8, 0x54u8, 0x41u8]
}

/// The kind of a payload: a probe or an answer only when it equals the
/// reserved bytes exactly.
pub open spec fn kind_of(payload: Seq<u8>) -> PayloadKind {
    if payload == ping_bytes() {
        PayloadKind::Ping
    } else if payload == pong_bytes() {
        PayloadKind::Pong
    } else {
        PayloadKind::Data
    }
}

/// A buffer holding the heartbeat probe.
pub fn ping_packet() -> (packet: BytesMut)
    ensures
        contents(packet) == ping_bytes(),
{
    let packet = from_text("PING");
    proof {
        reveal_strlit("PING");
        is_ascii_spec_bytes("PING");
        assert(contents(packet) =~= ping_bytes());
    }
    packet
}

/// A buffer holding the heartbeat answer.
pub fn pong_packet() -> (packet: BytesMut)
    ensures
        contents(packet) == pong_bytes(),
{
    let packet = from_text("PONG");
    proof {
        reveal_strlit("PONG");
        is_ascii_spec_bytes("PONG");
        assert(contents(packet) =~= pong_bytes());
    }
    packet
}

/// A buffer holding the client's periodic application message.
pub fn data_packet() -> (packet: BytesMut)
    ensures
        contents(packet) == data_bytes(),
{
    let packet = from_text("DATA");
    proof {
        reveal_strlit("DATA");
        is_ascii_spec_bytes("DATA");
        assert(contents(packet) =~= data_bytes());
    }
    packet
}

/// Tells a probe and an answer from application data.
pub fn classify(payload: &[u8]) -> (kind: PayloadKind)
    ensures
        kind == kind_of(payload@),
{
    if payload.len() == 4 && payload[0] == 0x50 && payload[2] == 0x4e && payload[3] == 0x47 {
        if payload[1] == 0x49 {
            assert(payload@ =~= ping_bytes());
            return PayloadKind::Ping;
        }
        if payload[1] == 0x4f {
            assert(payload@ =~= pong_bytes());
            return PayloadKind::Pong;
        }
    }
    assert(payload@ != ping_bytes() && payload@ != pong_bytes()) by {
        if payload@ == ping_bytes() {
            assert(payload@.len() == 4 && payload@[0] == 0x50 && payload@[1] == 0x49 && payload@[2]
                == 0x4e && payload@[3] == 0x47);
        }
        if payload@ == pong_bytes() {
            assert(payload@.len() == 4 && payload@[0] == 0x50 && payload@[1] == 0x4f && payload@[2]
                == 0x4e && payload@[3] == 0x47);
        }
    }
    PayloadKind::Data
}

} // verus!
