use vstd::prelude::*;

use crate::error::Error;

verus! {

/// Speeds are carried as the bits of an IEEE-754 single-precision number.
/// Among the patterns up to this one (zero, the positive numbers, positive
/// infinity) a greater pattern is a greater number.
pub const INFINITY_BITS: u32 = 0x7F80_0000;

/// Length of a telemetry payload in bytes.
pub const PAYLOAD_LEN: usize = 4;

/// Whether a pattern stands for zero, a positive number or positive
/// infinity: the speeds that can raise a maximum.
pub open spec fn spec_is_ordered(bits: u32) -> bool {
    bits <= INFINITY_BITS
}

#[verifier::when_used_as_spec(spec_is_ordered)]
pub fn is_ordered(bits: u32) -> (ordered: bool)
    ensures
        ordered == spec_is_ordered(bits),
{
    bits <= INFINITY_BITS
}

/// The greater of a maximum and a new speed. A speed that is negative or not
/// a number leaves the maximum as it was.
pub open spec fn spec_fold_speed(max: u32, speed: u32) -> u32 {
    if spec_is_ordered(speed) && speed > max {
        speed
    } else {
        max
    }
}

#[verifier::when_used_as_spec(spec_fold_speed)]
pub fn fold_speed(max: u32, speed: u32) -> (folded: u32)
    ensures
        folded == spec_fold_speed(max, speed),
{
    if is_ordered(speed) && speed > max {
        speed
    } else {
        max
    }
}

/// The four bytes of a word, least significant first.
pub open spec fn le_bytes(word: u32) -> Seq<u8> {
    seq![
        (word & 0xff) as u8,
        ((word >> 8) & 0xff) as u8,
        ((word >> 16) & 0xff) as u8,
        ((word >> 24) & 0xff) as u8,
    ]
}

/// The word whose bytes, least significant first, are the first four of `bytes`.
pub open spec fn from_le_bytes(bytes: Seq<u8>) -> u32
    recommends
        bytes.len() == 4,
{
    (bytes[0] as u32) | ((bytes[1] as u32) << 8) | ((bytes[2] as u32) << 16) | ((bytes[3] as u32)
        << 24)
}

/// What is advertised for a maximum speed: nothing while it is exactly zero,
/// else its four bytes.
pub open spec fn spec_encode(max: u32) -> Option<Seq<u8>> {
    if max == 0 {
        None
    } else {
        Some(le_bytes(max))
    }
}

/// What a received payload stands for: the speed's bits if it has exactly four
/// bytes, and an error that names its length if not.
pub open spec fn spec_decode(payload: Seq<u8>) -> Result<u32, Error> {
    if payload.len() == PAYLOAD_LEN {
        Ok(from_le_bytes(payload))
    } else {
        Err(Error::MalformedPayload(payload.len() as usize))
    }
}

/// The payload for a maximum speed.
pub fn encode(max: u32) -> (payload: Option<Vec<u8>>)
    ensures
        payload is Some == (max != 0),
        match payload {
            Some(bytes) => Some(bytes@) == spec_encode(max),
            None => spec_encode(max) is None,
        },
{
    if max == 0 {
        None
    } else {
        let mut bytes: Vec<u8> = Vec::with_capacity(PAYLOAD_LEN);
        bytes.push((max & 0xff) as u8);
        bytes.push(((max >> 8) & 0xff) as u8);
        bytes.push(((max >> 16) & 0xff) as u8);
        bytes.push(((max >> 24) & 0xff) as u8);
        assert(bytes@ =~= le_bytes(max));
        Some(bytes)
    }
}

/// The speed that a payload carries. A payload of any other length than four
/// bytes is refused; it is never cut short or filled up.
pub fn decode(payload: &[u8]) -> (speed: Result<u32, Error>)
    ensures
        speed == spec_decode(payload@),
        speed is Ok <==> payload@.len() == PAYLOAD_LEN,
{
    if payload.len() != PAYLOAD_LEN {
        return Err(Error::MalformedPayload(payload.len()));
    }
    let b0 = payload[0] as u32;
    let b1 = payload[1] as u32;
    let b2 = payload[2] as u32;
    let b3 = payload[3] as u32;
    Ok(b0 | (b1 << 8) | (b2 << 16) | (b3 << 24))
}

/// What was encoded is what is decoded: a speed other than zero comes back
/// bit for bit from its payload.
pub proof fn lemma_round_trip(max: u32)
    ensures
        le_bytes(max).len() == PAYLOAD_LEN,
        from_le_bytes(le_bytes(max)) == max,
        max != 0 ==> spec_encode(max) is Some && spec_decode(spec_encode(max)->Some_0) == Ok::<
            u32,
            Error,
        >(max),
{
    let b0 = (max & 0xff) as u8;
    let b1 = ((max >> 8) & 0xff) as u8;
    let b2 = ((max >> 16) & 0xff) as u8;
    let b3 = ((max >> 24) & 0xff) as u8;
    assert(((b0 as u32) | ((b1 as u32) << 8) | ((b2 as u32) << 16) | ((b3 as u32) << 24)) == max)
        by (bit_vector)
        requires
            b0 == (max & 0xff) as u8,
            b1 == ((max >> 8) & 0xff) as u8,
            b2 == ((max >> 16) & 0xff) as u8,
            b3 == ((max >> 24) & 0xff) as u8,
    ;
}

/// A payload of four bytes is the encoding of the speed decoded from it.
pub proof fn lemma_decode_then_encode(payload: Seq<u8>)
    requires
        payload.len() == PAYLOAD_LEN,
    ensures
        le_bytes(from_le_bytes(payload)) == payload,
{
    let b0 = payload[0];
    let b1 = payload[1];
    let b2 = payload[2];
    let b3 = payload[3];
    let w = (b0 as u32) | ((b1 as u32) << 8) | ((b2 as u32) << 16) | ((b3 as u32) << 24);
    assert((w & 0xff) as u8 == b0 && ((w >> 8) & 0xff) as u8 == b1 && ((w >> 16) & 0xff) as u8
        == b2 && ((w >> 24) & 0xff) as u8 == b3) by (bit_vector)
        requires
            w == (b0 as u32) | ((b1 as u32) << 8) | ((b2 as u32) << 16) | ((b3 as u32) << 24),
    ;
    assert(le_bytes(from_le_bytes(payload)) =~= payload);
}

/// A maximum never falls, stays among the ordered patterns, and is not moved
/// by a speed it has seen.
pub proof fn lemma_fold_speed(max: u32, speed: u32)
    ensures
        spec_fold_speed(max, speed) >= max,
        spec_fold_speed(max, speed) == max || spec_fold_speed(max, speed) == speed,
        spec_is_ordered(max) ==> spec_is_ordered(spec_fold_speed(max, speed)),
        spec_is_ordered(speed) ==> spec_fold_speed(max, speed) >= speed,
        spec_fold_speed(spec_fold_speed(max, speed), speed) == spec_fold_speed(max, speed),
{
}

} // verus!
