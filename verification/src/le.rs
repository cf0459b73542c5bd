//! Unsigned 64-bit numbers as eight bytes in little-endian order.

use vstd::bytes::lemma_auto_spec_u64_to_from_le_bytes;
use vstd::bytes::spec_u64_from_le_bytes;
use vstd::bytes::spec_u64_to_le_bytes;
use vstd::bytes::spec_u64_to_le_bytes_open;
use vstd::bytes::spec_u64_to_le_bytes_to_open;
use vstd::bytes::u64_from_le_bytes;
use vstd::bytes::u64_to_le_bytes;
use vstd::prelude::*;

verus! {

/// The number that eight bytes spell, the least significant byte first.
pub open spec fn le_u64_spec(bytes: Seq<u8>) -> int
    recommends
        bytes.len() == 8,
{
    bytes[0] + bytes[1] * 0x100 + bytes[2] * 0x1_0000 + bytes[3] * 0x100_0000 + bytes[4]
        * 0x1_0000_0000 + bytes[5] * 0x100_0000_0000 + bytes[6] * 0x1_0000_0000_0000 + bytes[7]
        * 0x100_0000_0000_0000
}

/// The eight bytes that spell `value`, the least significant byte first.
pub open spec fn le_bytes_spec(value: u64) -> Seq<u8> {
    seq![
        (value % 0x100) as u8,
        (value / 0x100 % 0x100) as u8,
        (value / 0x1_0000 % 0x100) as u8,
        (value / 0x100_0000 % 0x100) as u8,
        (value / 0x1_0000_0000 % 0x100) as u8,
        (value / 0x100_0000_0000 % 0x100) as u8,
        (value / 0x1_0000_0000_0000 % 0x100) as u8,
        (value / 0x100_0000_0000_0000 % 0x100) as u8,
    ]
}

/// Eight bytes spell a number that fits in 64 bits, and the bytes of that
/// number are the same eight bytes.
pub proof fn lemma_le_bytes_of_le_u64(bytes: Seq<u8>)
    requires
        bytes.len() == 8,
    ensures
        0 <= le_u64_spec(bytes) <= u64::MAX,
        le_bytes_spec(le_u64_spec(bytes) as u64) == bytes,
{
    let b0 = bytes[0];
    let b1 = bytes[1];
    let b2 = bytes[2];
    let b3 = bytes[3];
    let b4 = bytes[4];
    let b5 = bytes[5];
    let b6 = bytes[6];
    let b7 = bytes[7];
    let value = le_u64_spec(bytes) as u64;
    assert(value == le_u64_spec(bytes));
    assert({
        &&& value % 0x100 == b0
        &&& value / 0x100 % 0x100 == b1
        &&& value / 0x1_0000 % 0x100 == b2
        &&& value / 0x100_0000 % 0x100 == b3
        &&& value / 0x1_0000_0000 % 0x100 == b4
        &&& value / 0x100_0000_0000 % 0x100 == b5
        &&& value / 0x1_0000_0000_0000 % 0x100 == b6
        &&& value / 0x100_0000_0000_0000 % 0x100 == b7
    }) by (bit_vector)
        requires
            value == b0 + b1 * 0x100 + b2 * 0x1_0000 + b3 * 0x100_0000 + b4 * 0x1_0000_0000 + b5
                * 0x100_0000_0000 + b6 * 0x1_0000_0000_0000 + b7 * 0x100_0000_0000_0000,
    ;
    assert(le_bytes_spec(value) =~= bytes);
}

/// The bytes of a number spell that number.
pub proof fn lemma_le_u64_of_le_bytes(value: u64)
    ensures
        le_bytes_spec(value).len() == 8,
        le_u64_spec(le_bytes_spec(value)) == value,
{
    assert(value == (value % 0x100) + (value / 0x100 % 0x100) * 0x100 + (value / 0x1_0000 % 0x100)
        * 0x1_0000 + (value / 0x100_0000 % 0x100) * 0x100_0000 + (value / 0x1_0000_0000 % 0x100)
        * 0x1_0000_0000 + (value / 0x100_0000_0000 % 0x100) * 0x100_0000_0000 + (value
        / 0x1_0000_0000_0000 % 0x100) * 0x1_0000_0000_0000 + (value / 0x100_0000_0000_0000 % 0x100)
        * 0x100_0000_0000_0000) by (bit_vector);
}

/// The bytes that the standard library writes for a number are the bytes
/// that spell it.
proof fn lemma_to_le_bytes(value: u64)
    ensures
        spec_u64_to_le_bytes(value) == le_bytes_spec(value),
{
    spec_u64_to_le_bytes_to_open(value);
    assert(value & 0xff == value % 0x100) by (bit_vector);
    assert((value >> 8) & 0xff == value / 0x100 % 0x100) by (bit_vector);
    assert((value >> 16) & 0xff == value / 0x1_0000 % 0x100) by (bit_vector);
    assert((value >> 24) & 0xff == value / 0x100_0000 % 0x100) by (bit_vector);
    assert((value >> 32) & 0xff == value / 0x1_0000_0000 % 0x100) by (bit_vector);
    assert((value >> 40) & 0xff == value / 0x100_0000_0000 % 0x100) by (bit_vector);
    assert((value >> 48) & 0xff == value / 0x1_0000_0000_0000 % 0x100) by (bit_vector);
    assert((value >> 56) & 0xff == value / 0x100_0000_0000_0000 % 0x100) by (bit_vector);
    assert(spec_u64_to_le_bytes_open(value) =~= le_bytes_spec(value));
}

/// The number that the standard library reads from eight bytes is the
/// number that they spell.
proof fn lemma_from_le_bytes(bytes: Seq<u8>)
    requires
        bytes.len() == 8,
    ensures
        spec_u64_from_le_bytes(bytes) == le_u64_spec(bytes),
{
    lemma_auto_spec_u64_to_from_le_bytes();
    let value = spec_u64_from_le_bytes(bytes);
    assert(spec_u64_to_le_bytes(value) == bytes);
    lemma_to_le_bytes(value);
    lemma_le_u64_of_le_bytes(value);
}

/// Reads a number from eight bytes in little-endian order.
pub fn read_u64_le(bytes: &[u8]) -> (value: u64)
    requires
        bytes@.len() == 8,
    ensures
        value == le_u64_spec(bytes@),
{
    proof {
        lemma_from_le_bytes(bytes@);
    }
    u64_from_le_bytes(bytes)
}

/// Writes a number as eight bytes in little-endian order.
pub fn write_u64_le(value: u64) -> (bytes: Vec<u8>)
    ensures
        bytes@ == le_bytes_spec(value),
        bytes@.len() == 8,
{
    proof {
        lemma_to_le_bytes(value);
    }
    u64_to_le_bytes(value)
}

} // verus!
