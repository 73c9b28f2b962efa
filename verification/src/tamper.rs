//! Tampering with an encoding, as a bit flipped in place.

use vstd::prelude::*;

verus! {

/// `bytes` with bit number `bit` of the byte at `index` inverted.
pub open spec fn flip_bit(bytes: Seq<u8>, index: int, bit: u8) -> Seq<u8>
    recommends
        0 <= index < bytes.len(),
        bit < 8,
{
    bytes.update(index, bytes[index] ^ (1u8 << bit))
}

/// Flipping a bit keeps the length, changes the encoding, and is undone by
/// flipping the same bit again.
pub proof fn lemma_flip_bit(bytes: Seq<u8>, index: int, bit: u8)
    requires
        0 <= index < bytes.len(),
        bit < 8,
    ensures
        flip_bit(bytes, index, bit).len() == bytes.len(),
        flip_bit(bytes, index, bit) != bytes,
        flip_bit(flip_bit(bytes, index, bit), index, bit) == bytes,
{
    let byte = bytes[index];
    assert(byte ^ (1u8 << bit) != byte && (byte ^ (1u8 << bit)) ^ (1u8 << bit) == byte)
        by (bit_vector)
        requires
            bit < 8,
    ;
    let flipped = flip_bit(bytes, index, bit);
    assert(flipped[index] != bytes[index]);
    assert(flip_bit(flipped, index, bit) =~= bytes);
}

} // verus!
