//! Operation tags and their codec.
//!
//! Every outstanding ring operation carries exactly one tag, packed into the
//! single 64-bit correlation value a ring entry can hold.  The completion side
//! recovers the semantic meaning of an entry only through this codec, so it
//! must be lossless.  The packing is an explicit, portable bit layout:
//! two discriminant bits, then 32 bits of file descriptor, then 16 bits of
//! buffer slot; the topmost 14 bits stay zero.

use vstd::prelude::*;

verus! {

/// What a completed ring entry meant.
///
/// `Recv` names the connection's file descriptor and the buffer slot the
/// operation owns; `Send` only the descriptor (the payload is the shared
/// canned response, not pool-owned); `Accept` and `Close` carry nothing the
/// dispatcher needs beyond their kind.
#[derive(Clone, Copy, Debug, PartialEq, Eq, Structural)]
pub enum OpTag {
    Accept,
    Recv { fd: u32, slot: u16 },
    Send { fd: u32 },
    Close,
}

/// An operation to be placed on the submission ring.
///
/// Unlike the tag that travels through the ring, a pending submission always
/// names its file descriptor, since the entry itself must be built from it.
#[derive(Clone, Copy, Debug, PartialEq, Eq, Structural)]
pub enum SubmitOp {
    Accept,
    Recv { fd: u32, slot: u16 },
    Send { fd: u32 },
    Close { fd: u32 },
}

/// The tag that a submission carries through the ring.
pub open spec fn tag_of(op: SubmitOp) -> OpTag {
    match op {
        SubmitOp::Accept => OpTag::Accept,
        SubmitOp::Recv { fd, slot } => OpTag::Recv { fd, slot },
        SubmitOp::Send { fd } => OpTag::Send { fd },
        SubmitOp::Close { fd: _ } => OpTag::Close,
    }
}

pub open spec fn encode_spec(t: OpTag) -> u64 {
    match t {
        OpTag::Accept => 0u64,
        OpTag::Recv { fd, slot } => 1u64 | ((fd as u64) << 2) | ((slot as u64) << 34),
        OpTag::Send { fd } => 2u64 | ((fd as u64) << 2),
        OpTag::Close => 3u64,
    }
}

pub open spec fn decode_spec(v: u64) -> OpTag {
    if v & 3 == 0 {
        OpTag::Accept
    } else if v & 3 == 1 {
        OpTag::Recv { fd: ((v >> 2) & 0xFFFF_FFFF) as u32, slot: ((v >> 34) & 0xFFFF) as u16 }
    } else if v & 3 == 2 {
        OpTag::Send { fd: ((v >> 2) & 0xFFFF_FFFF) as u32 }
    } else {
        OpTag::Close
    }
}

/// Pack a tag into the 64-bit correlation value.
pub fn encode(t: OpTag) -> (r: u64)
    ensures
        r == encode_spec(t),
{
    match t {
        OpTag::Accept => 0u64,
        OpTag::Recv { fd, slot } => 1u64 | ((fd as u64) << 2) | ((slot as u64) << 34),
        OpTag::Send { fd } => 2u64 | ((fd as u64) << 2),
        OpTag::Close => 3u64,
    }
}

/// Recover the tag from a completion's correlation value.
pub fn decode(v: u64) -> (t: OpTag)
    ensures
        t == decode_spec(v),
{
    let d = v & 3;
    if d == 0 {
        OpTag::Accept
    } else if d == 1 {
        OpTag::Recv { fd: ((v >> 2) & 0xFFFF_FFFF) as u32, slot: ((v >> 34) & 0xFFFF) as u16 }
    } else if d == 2 {
        OpTag::Send { fd: ((v >> 2) & 0xFFFF_FFFF) as u32 }
    } else {
        OpTag::Close
    }
}

/// The correlation value a submission should carry.
pub fn user_data_for(op: SubmitOp) -> (r: u64)
    ensures
        r == encode_spec(tag_of(op)),
{
    match op {
        SubmitOp::Accept => encode(OpTag::Accept),
        SubmitOp::Recv { fd, slot } => encode(OpTag::Recv { fd, slot }),
        SubmitOp::Send { fd } => encode(OpTag::Send { fd }),
        SubmitOp::Close { fd: _ } => encode(OpTag::Close),
    }
}

/// Law: the codec is lossless — decoding an encoded tag yields the tag back,
/// for every tag, so the ring's opaque correlation value never loses the
/// meaning of an operation.
pub proof fn lemma_codec_roundtrip(t: OpTag)
    ensures
        decode_spec(encode_spec(t)) == t,
{
    match t {
        OpTag::Accept => {
            assert(0u64 & 3 == 0) by (bit_vector);
        }
        OpTag::Recv { fd, slot } => {
            let f = fd as u64;
            let s = slot as u64;
            let v = 1u64 | (f << 2) | (s << 34);
            assert((1u64 | (f << 2) | (s << 34)) & 3 == 1 && (((1u64 | (f << 2) | (s << 34))
                >> 2) & 0xFFFF_FFFF) == f && (((1u64 | (f << 2) | (s << 34)) >> 34) & 0xFFFF)
                == s) by (bit_vector)
                requires
                    f < 0x1_0000_0000,
                    s < 0x1_0000,
            ;
            assert(((v >> 2) & 0xFFFF_FFFF) as u32 == fd);
            assert(((v >> 34) & 0xFFFF) as u16 == slot);
        }
        OpTag::Send { fd } => {
            let f = fd as u64;
            let v = 2u64 | (f << 2);
            assert((2u64 | (f << 2)) & 3 == 2 && (((2u64 | (f << 2)) >> 2) & 0xFFFF_FFFF) == f)
                by (bit_vector)
                requires
                    f < 0x1_0000_0000,
            ;
            assert(((v >> 2) & 0xFFFF_FFFF) as u32 == fd);
        }
        OpTag::Close => {
            assert(3u64 & 3 == 3) by (bit_vector);
        }
    }
}

} // verus!
