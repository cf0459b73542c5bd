//! The DNA codec: how a zombie's 64-bit DNA is derived.
//!
//! A genesis zombie's DNA comes from the SHA-256 digest of its owner's
//! identity followed by a timestamp. A zombie won in battle takes a raw
//! 64-bit seed. Either way the value ends at or above [`DNA_MARKER`], which
//! leaves `0` free to mean "no zombie".

use crate::constants::DNA_MARKER;
use crate::le::le_bytes_spec;
use crate::le::le_u64_spec;
use crate::le::read_u64_le;
use crate::le::write_u64_le;
use vstd::prelude::*;
use vstd::slice::slice_subrange;

verus! {

/// A player's identity: 32 opaque bytes.
pub type Identity = [u8; 32];

/// The SHA-256 digest of `data`.
pub uninterp spec fn sha256(data: Seq<u8>) -> Seq<u8>;

/// Hashes `data` with `solana_program::hash::hash` and hands out the 32 bytes
/// of the digest. Trusted: that the bytes are the SHA-256 digest of `data`,
/// which depends on `data` alone.
#[verifier::external_body]
fn sha256_digest(data: &[u8]) -> (digest: [u8; 32])
    ensures
        digest@ == sha256(data@),
{
    solana_program::hash::hash(data).to_bytes()
}

/// A raw seed with the marker bit switched on.
pub open spec fn normalize_dna_spec(raw: u64) -> u64 {
    raw | DNA_MARKER
}

/// A raw value lifted to the DNA range: values below the marker get the
/// marker bit, all others stay as they are.
pub open spec fn lift_dna_spec(raw: u64) -> u64 {
    if raw < DNA_MARKER {
        raw | DNA_MARKER
    } else {
        raw
    }
}

/// A timestamp as an unsigned 64-bit number: itself from zero on, and
/// counted down from `2^64` when it is negative.
pub open spec fn unsigned_time_spec(now: i64) -> u64 {
    if now >= 0 {
        now as u64
    } else {
        (now + 0x1_0000_0000_0000_0000) as u64
    }
}

/// The bytes that are hashed for a genesis zombie: the owner's identity, then
/// the timestamp as an unsigned 64-bit number in little-endian order.
pub open spec fn dna_preimage_spec(owner: Seq<u8>, now: i64) -> Seq<u8> {
    owner + le_bytes_spec(unsigned_time_spec(now))
}

/// The DNA read from a digest: its first eight bytes as a little-endian
/// number, lifted to the DNA range.
pub open spec fn dna_of_digest_spec(digest: Seq<u8>) -> u64 {
    lift_dna_spec(le_u64_spec(digest.subrange(0, 8)) as u64)
}

/// The DNA of the genesis zombie of `owner` created at `now`.
pub open spec fn generate_dna_spec(owner: Seq<u8>, now: i64) -> u64 {
    dna_of_digest_spec(sha256(dna_preimage_spec(owner, now)))
}

/// Switches the marker bit of `raw` on.
pub fn normalize_dna(raw: u64) -> (dna: u64)
    ensures
        dna == normalize_dna_spec(raw),
        dna & DNA_MARKER != 0,
        dna >= DNA_MARKER,
{
    let dna: u64 = raw | DNA_MARKER;
    assert(raw | 0x1000_0000_0000_0000u64 >= 0x1000_0000_0000_0000u64) by (bit_vector);
    assert((raw | 0x1000_0000_0000_0000u64) & 0x1000_0000_0000_0000u64 != 0) by (bit_vector);
    dna
}

/// Normalizing always sets the marker bit, and normalizing twice is the same
/// as normalizing once.
pub proof fn lemma_normalize_dna_idempotent(raw: u64)
    ensures
        normalize_dna_spec(raw) & DNA_MARKER != 0,
        normalize_dna_spec(normalize_dna_spec(raw)) == normalize_dna_spec(raw),
        normalize_dna_spec(raw) >= DNA_MARKER,
{
    assert((raw | 0x1000_0000_0000_0000u64) & 0x1000_0000_0000_0000u64 != 0) by (bit_vector);
    assert((raw | 0x1000_0000_0000_0000u64) | 0x1000_0000_0000_0000u64 == raw
        | 0x1000_0000_0000_0000u64) by (bit_vector);
    assert(raw | 0x1000_0000_0000_0000u64 >= 0x1000_0000_0000_0000u64) by (bit_vector);
}

/// A lifted value is never below the marker; below the marker, lifting adds
/// exactly the marker.
pub proof fn lemma_lift_dna_range(raw: u64)
    ensures
        lift_dna_spec(raw) >= DNA_MARKER,
        lift_dna_spec(raw) != 0,
        raw < DNA_MARKER ==> lift_dna_spec(raw) == raw + DNA_MARKER,
        raw >= DNA_MARKER ==> lift_dna_spec(raw) == raw,
{
    assert(raw < 0x1000_0000_0000_0000u64 ==> (raw | 0x1000_0000_0000_0000u64) == raw
        + 0x1000_0000_0000_0000u64) by (bit_vector);
}

/// Whatever the digest, the DNA read from it is in the DNA range, and so
/// the DNA of a genesis zombie is never `0`.
pub proof fn lemma_generate_dna_nonzero(owner: Seq<u8>, now: i64)
    ensures
        generate_dna_spec(owner, now) >= DNA_MARKER,
        generate_dna_spec(owner, now) != 0,
{
    let digest = sha256(dna_preimage_spec(owner, now));
    lemma_lift_dna_range(le_u64_spec(digest.subrange(0, 8)) as u64);
}

/// Builds the bytes that are hashed for a genesis zombie.
pub fn dna_preimage(owner: &Identity, now: i64) -> (data: Vec<u8>)
    ensures
        data@ == dna_preimage_spec(owner@, now),
        data@.len() == 40,
{
    let timestamp: u64 = now as u64;
    assert(timestamp == unsigned_time_spec(now)) by {
        assert(now >= 0 ==> now as u64 == now) by (bit_vector);
        assert(now < 0 ==> now as u64 == now + 0x1_0000_0000_0000_0000) by (bit_vector);
    }
    let stamp: Vec<u8> = write_u64_le(timestamp);
    let mut data: Vec<u8> = Vec::with_capacity(40);
    let mut i: usize = 0;
    while i < 32
        invariant
            i <= 32,
            data@ == owner@.subrange(0, i as int),
        decreases 32 - i,
    {
        data.push(owner[i]);
        i += 1;
    }
    assert(owner@.subrange(0, 32) == owner@);
    let mut k: usize = 0;
    while k < 8
        invariant
            k <= 8,
            stamp@.len() == 8,
            data@ == owner@ + stamp@.subrange(0, k as int),
        decreases 8 - k,
    {
        data.push(stamp[k]);
        k += 1;
    }
    assert(stamp@.subrange(0, 8) == stamp@);
    data
}

/// Reads a DNA value from a digest.
pub fn dna_of_digest(digest: &[u8; 32]) -> (dna: u64)
    ensures
        dna == dna_of_digest_spec(digest@),
        dna >= DNA_MARKER,
{
    let head: &[u8] = slice_subrange(digest.as_slice(), 0, 8);
    let raw: u64 = read_u64_le(head);
    proof {
        lemma_lift_dna_range(raw);
    }
    if raw < DNA_MARKER {
        raw | DNA_MARKER
    } else {
        raw
    }
}

/// Derives the DNA of the genesis zombie of `owner` created at `now`.
pub fn generate_dna(owner: &Identity, now: i64) -> (dna: u64)
    ensures
        dna == generate_dna_spec(owner@, now),
        dna >= DNA_MARKER,
        dna != 0,
{
    let data: Vec<u8> = dna_preimage(owner, now);
    let digest: [u8; 32] = sha256_digest(data.as_slice());
    dna_of_digest(&digest)
}

} // verus!
