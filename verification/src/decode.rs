//! Turning register words into the bit pattern of a measurement, and back.
//!
//! The meter sends a measurement as two 16-bit registers. Written out as
//! bytes, high byte first, the two registers give the four bytes of a 32-bit
//! pattern, most significant byte first. That pattern is the IEEE-754
//! single-precision encoding of the measurement; this module stops at the
//! pattern and leaves its reading as a number to the caller.
//!
//! A payload is a measurement only if it has exactly two registers. Any other
//! length is malformed and decodes to nothing.

use crate::input_register::REGISTERS_PER_MEASUREMENT;
use vstd::prelude::*;

verus! {

/// The registers written out as bytes: for each register its high byte, then
/// its low byte.
pub open spec fn spec_be_bytes(words: Seq<u16>) -> Seq<u8> {
    Seq::new(
        2 * words.len(),
        |i: int|
            if i % 2 == 0 {
                (words[i / 2] / 0x100) as u8
            } else {
                (words[i / 2] % 0x100) as u8
            },
    )
}

/// The registers that pairs of bytes spell, high byte first. A trailing byte
/// without a partner spells nothing.
pub open spec fn spec_registers_from_be_bytes(bytes: Seq<u8>) -> Seq<u16> {
    Seq::new(
        (bytes.len() / 2) as nat,
        |i: int| (bytes[2 * i] * 0x100 + bytes[2 * i + 1]) as u16,
    )
}

/// The 32-bit pattern that four bytes spell, most significant byte first.
pub open spec fn spec_u32_from_be_bytes(bytes: Seq<u8>) -> u32
    recommends
        bytes.len() == 4,
{
    (bytes[0] * 0x100_0000 + bytes[1] * 0x1_0000 + bytes[2] * 0x100 + bytes[3]) as u32
}

/// The four bytes of a 32-bit pattern, most significant first.
pub open spec fn spec_u32_to_be_bytes(bits: u32) -> Seq<u8> {
    seq![
        (bits / 0x100_0000) as u8,
        (bits / 0x1_0000 % 0x100) as u8,
        (bits / 0x100 % 0x100) as u8,
        (bits % 0x100) as u8,
    ]
}

/// The bit pattern of the measurement that a register payload carries: the
/// two registers are written out as bytes and the four bytes are read as one
/// pattern. A payload of any other number of registers carries none.
pub open spec fn spec_decode(words: Seq<u16>) -> Option<u32> {
    if words.len() == REGISTERS_PER_MEASUREMENT {
        Some(spec_u32_from_be_bytes(spec_be_bytes(words)))
    } else {
        None
    }
}

/// The two registers that carry a bit pattern: its four bytes, most
/// significant first, split into pairs.
pub open spec fn spec_encode(bits: u32) -> Seq<u16> {
    spec_registers_from_be_bytes(spec_u32_to_be_bytes(bits))
}

/// Writes registers out as bytes, high byte first.
pub fn registers_to_be_bytes(words: &[u16]) -> (bytes: Vec<u8>)
    ensures
        bytes@ == spec_be_bytes(words@),
{
    let mut bytes: Vec<u8> = Vec::new();
    let mut i: usize = 0;
    while i < words.len()
        invariant
            i <= words@.len(),
            bytes@.len() == 2 * i,
            forall|j: int| 0 <= j < 2 * i ==> bytes@[j] == spec_be_bytes(words@)[j],
        decreases words@.len() - i,
    {
        let w: u16 = words[i];
        let high: u8 = (w >> 8) as u8;
        let low: u8 = (w & 0xff) as u8;
        proof {
            assert(w >> 8 == w / 0x100 && w & 0xff == w % 0x100) by (bit_vector);
        }
        bytes.push(high);
        bytes.push(low);
        i += 1;
    }
    bytes
}

/// Reads pairs of bytes as registers, high byte first. A trailing byte
/// without a partner is left out.
pub fn registers_from_be_bytes(bytes: &[u8]) -> (words: Vec<u16>)
    ensures
        words@ == spec_registers_from_be_bytes(bytes@),
{
    let pairs: usize = bytes.len() / 2;
    let mut words: Vec<u16> = Vec::new();
    let mut i: usize = 0;
    while i < pairs
        invariant
            pairs == bytes@.len() / 2,
            bytes@.len() <= usize::MAX,
            i <= pairs,
            words@.len() == i,
            forall|j: int| 0 <= j < i ==> words@[j] == spec_registers_from_be_bytes(bytes@)[j],
        decreases pairs - i,
    {
        let high: u8 = bytes[2 * i];
        let low: u8 = bytes[2 * i + 1];
        let w: u16 = ((high as u16) << 8) | (low as u16);
        proof {
            assert(((high as u16) << 8) | (low as u16) == high * 0x100 + low) by (bit_vector);
        }
        words.push(w);
        i += 1;
    }
    words
}

/// Reads four bytes as a 32-bit pattern, most significant byte first. Any
/// other number of bytes holds no pattern.
pub fn u32_from_be_bytes(bytes: &[u8]) -> (bits: Option<u32>)
    ensures
        bytes@.len() == 4 ==> bits == Some(spec_u32_from_be_bytes(bytes@)),
        bytes@.len() != 4 ==> bits is None,
{
    if bytes.len() != 4 {
        return None;
    }
    let b0: u8 = bytes[0];
    let b1: u8 = bytes[1];
    let b2: u8 = bytes[2];
    let b3: u8 = bytes[3];
    proof {
        assert(((b0 as u32) << 24) | ((b1 as u32) << 16) | ((b2 as u32) << 8) | (b3 as u32) == b0
            * 0x100_0000 + b1 * 0x1_0000 + b2 * 0x100 + b3) by (bit_vector);
    }
    Some(((b0 as u32) << 24) | ((b1 as u32) << 16) | ((b2 as u32) << 8) | (b3 as u32))
}

/// Writes a 32-bit pattern out as four bytes, most significant first.
pub fn u32_to_be_bytes(bits: u32) -> (bytes: Vec<u8>)
    ensures
        bytes@ == spec_u32_to_be_bytes(bits),
{
    proof {
        assert(bits >> 24 == bits / 0x100_0000 && (bits >> 16) & 0xff == bits / 0x1_0000 % 0x100
            && (bits >> 8) & 0xff == bits / 0x100 % 0x100 && bits & 0xff == bits % 0x100)
            by (bit_vector);
    }
    let mut bytes: Vec<u8> = Vec::new();
    bytes.push((bits >> 24) as u8);
    bytes.push(((bits >> 16) & 0xff) as u8);
    bytes.push(((bits >> 8) & 0xff) as u8);
    bytes.push((bits & 0xff) as u8);
    bytes
}

/// Decodes a register payload into the bit pattern of its measurement.
///
/// A payload of exactly two registers always decodes: the first register
/// gives the upper half of the pattern, the second the lower half. A payload
/// of any other length, shorter or longer, is malformed and decodes to
/// nothing.
pub fn decode_registers(words: &[u16]) -> (bits: Option<u32>)
    ensures
        bits == spec_decode(words@),
        words@.len() == 2 ==> bits == Some((words@[0] * 0x1_0000 + words@[1]) as u32),
        words@.len() != 2 ==> bits is None,
{
    proof {
        if words@.len() == 2 {
            lemma_decode_joins_halves(words@);
        }
    }
    let bytes = registers_to_be_bytes(words);
    u32_from_be_bytes(bytes.as_slice())
}

/// Encodes a bit pattern as the two registers that carry it: upper half
/// first.
pub fn encode_registers(bits: u32) -> (words: Vec<u16>)
    ensures
        words@ == spec_encode(bits),
        words@ == seq![(bits / 0x1_0000) as u16, (bits % 0x1_0000) as u16],
{
    proof {
        lemma_encode_splits_in_halves(bits);
    }
    let bytes = u32_to_be_bytes(bits);
    registers_from_be_bytes(bytes.as_slice())
}

/// Decoding reads the first register as the upper half of the pattern and the
/// second as the lower half.
pub proof fn lemma_decode_joins_halves(words: Seq<u16>)
    requires
        words.len() == 2,
    ensures
        spec_decode(words) == Some((words[0] * 0x1_0000 + words[1]) as u32),
{
    let bytes = spec_be_bytes(words);
    assert(bytes[0] == words[0] / 0x100 && bytes[1] == words[0] % 0x100);
    assert(bytes[2] == words[1] / 0x100 && bytes[3] == words[1] % 0x100);
}

/// Only a payload of exactly two registers decodes.
pub proof fn lemma_decode_needs_two_registers(words: Seq<u16>)
    ensures
        spec_decode(words) is Some <==> words.len() == 2,
{
}

/// Encoding puts the upper half of the pattern into the first register and
/// the lower half into the second.
pub proof fn lemma_encode_splits_in_halves(bits: u32)
    ensures
        spec_encode(bits) == seq![(bits / 0x1_0000) as u16, (bits % 0x1_0000) as u16],
{
    let words = spec_encode(bits);
    assert(words.len() == 2);
    assert(words[0] == bits / 0x1_0000);
    assert(words[1] == bits % 0x1_0000);
}

/// Encoding a bit pattern and decoding the registers gives the pattern back,
/// bit for bit.
pub proof fn lemma_decode_inverts_encode(bits: u32)
    ensures
        spec_decode(spec_encode(bits)) == Some(bits),
{
    lemma_encode_splits_in_halves(bits);
    lemma_decode_joins_halves(spec_encode(bits));
}

/// Decoding a payload of exactly two registers and encoding the pattern gives
/// the two registers back.
pub proof fn lemma_encode_inverts_decode(words: Seq<u16>)
    requires
        words.len() == 2,
    ensures
        spec_decode(words) matches Some(bits) && spec_encode(bits) == words,
{
    lemma_decode_joins_halves(words);
    lemma_encode_splits_in_halves(spec_decode(words)->0);
    lemma_halves_of_joined_pair(words[0], words[1]);
}

/// Two 16-bit halves joined into one number come apart again by division.
proof fn lemma_halves_of_joined_pair(upper: u16, lower: u16)
    ensures
        (upper * 0x1_0000 + lower) / 0x1_0000 == upper,
        (upper * 0x1_0000 + lower) % 0x1_0000 == lower,
{
}

/// Writing registers out as bytes and reading the bytes as registers gives
/// the registers back.
pub proof fn lemma_registers_survive_bytes(words: Seq<u16>)
    ensures
        spec_registers_from_be_bytes(spec_be_bytes(words)) == words,
{
    let bytes = spec_be_bytes(words);
    let back = spec_registers_from_be_bytes(bytes);
    assert forall|i: int| 0 <= i < words.len() implies back[i] == words[i] by {
        assert(bytes[2 * i] == words[i] / 0x100);
        assert(bytes[2 * i + 1] == words[i] % 0x100);
    }
}

/// Writing a bit pattern out as bytes and reading the bytes as a pattern
/// gives the pattern back.
pub proof fn lemma_pattern_survives_bytes(bits: u32)
    ensures
        spec_u32_to_be_bytes(bits).len() == 4,
        spec_u32_from_be_bytes(spec_u32_to_be_bytes(bits)) == bits,
{
}

} // verus!
