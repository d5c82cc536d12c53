//! Integers as bytes, least significant byte first.

use vstd::prelude::*;

verus! {

/// The `count` least significant bytes of `value`, least significant byte first.
pub open spec fn le_bytes(value: nat, count: nat) -> Seq<u8>
    decreases count,
{
    if count == 0 {
        seq![]
    } else {
        seq![(value % 256) as u8] + le_bytes(value / 256, (count - 1) as nat)
    }
}

/// The value of bytes of which the first is the least significant.
pub open spec fn le_value(bytes: Seq<u8>) -> nat
    decreases bytes.len(),
{
    if bytes.len() == 0 {
        0
    } else {
        bytes[0] as nat + 256 * le_value(bytes.skip(1))
    }
}

/// There are as many bytes as were asked for.
pub proof fn lemma_le_bytes_len(value: nat, count: nat)
    ensures
        le_bytes(value, count).len() == count,
    decreases count,
{
    if count > 0 {
        lemma_le_bytes_len(value / 256, (count - 1) as nat);
    }
}

/// The value of two bytes.
pub proof fn lemma_le_value_2(bytes: Seq<u8>)
    requires
        bytes.len() == 2,
    ensures
        le_value(bytes) == bytes[0] + 256 * bytes[1],
{
    reveal_with_fuel(le_value, 3);
}

/// The value of four bytes.
pub proof fn lemma_le_value_4(bytes: Seq<u8>)
    requires
        bytes.len() == 4,
    ensures
        le_value(bytes) == bytes[0] + 256 * bytes[1] + 65536 * bytes[2] + 16777216 * bytes[3],
{
    reveal_with_fuel(le_value, 5);
    let rest = bytes.skip(1);
    assert(rest.skip(1).skip(1)[0] == bytes[3]);
    assert(rest.skip(1)[0] == bytes[2]);
    assert(rest[0] == bytes[1]);
}

/// An integer is read from its bytes as it was written, if they are enough.
pub proof fn lemma_le_round_trip(value: nat, count: nat)
    requires
        value < vstd::arithmetic::power::pow(256, count),
    ensures
        le_value(le_bytes(value, count)) == value,
    decreases count,
{
    vstd::arithmetic::power::lemma_pow0(256);
    if count > 0 {
        let rest = (count - 1) as nat;
        vstd::arithmetic::power::lemma_pow1(256);
        vstd::arithmetic::power::lemma_pow_adds(256, 1, rest);
        assert(value / 256 < vstd::arithmetic::power::pow(256, rest));
        lemma_le_round_trip(value / 256, rest);
        assert(le_bytes(value, count).skip(1) =~= le_bytes(value / 256, rest));
    }
}

/// Appends the two bytes of `value`.
pub(crate) fn push_u16(bytes: &mut Vec<u8>, value: u16)
    ensures
        final(bytes)@ == old(bytes)@ + le_bytes(value as nat, 2),
{
    proof {
        reveal_with_fuel(le_bytes, 3);
    }
    bytes.push((value % 256) as u8);
    bytes.push((value / 256) as u8);
}

/// Appends the four bytes of `value`.
pub(crate) fn push_u32(bytes: &mut Vec<u8>, value: u32)
    ensures
        final(bytes)@ == old(bytes)@ + le_bytes(value as nat, 4),
{
    proof {
        reveal_with_fuel(le_bytes, 5);
    }
    bytes.push((value % 256) as u8);
    bytes.push((value / 256 % 256) as u8);
    bytes.push((value / 65536 % 256) as u8);
    bytes.push((value / 16777216) as u8);
}

/// The integer in two bytes at `offset`.
pub(crate) fn read_u16(bytes: &[u8], offset: usize) -> (value: u16)
    requires
        offset + 2 <= bytes@.len(),
    ensures
        value == le_value(bytes@.subrange(offset as int, offset + 2)),
{
    proof {
        lemma_le_value_2(bytes@.subrange(offset as int, offset + 2));
    }
    bytes[offset] as u16 + 256 * bytes[offset + 1] as u16
}

/// The integer in four bytes at `offset`.
pub(crate) fn read_u32(bytes: &[u8], offset: usize) -> (value: u32)
    requires
        offset + 4 <= bytes@.len(),
    ensures
        value == le_value(bytes@.subrange(offset as int, offset + 4)),
{
    proof {
        lemma_le_value_4(bytes@.subrange(offset as int, offset + 4));
    }
    bytes[offset] as u32 + 256 * bytes[offset + 1] as u32 + 65536 * bytes[offset + 2] as u32
        + 16777216 * bytes[offset + 3] as u32
}

} // verus!
