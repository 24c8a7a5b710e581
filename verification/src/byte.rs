//! Packing of bits that arrive one per byte.

use vstd::prelude::*;

verus! {

/// Eight items packed into one byte: item `j` is shifted left by `7 - j`
/// places and the results are or-ed together. Bits that a shift pushes out
/// of the byte are lost.
pub open spec fn packed(v: Seq<u8>) -> u8 {
    v[7] << 0u8 | v[6] << 1u8 | v[5] << 2u8 | v[4] << 3u8 | v[3] << 4u8 | v[2] << 5u8 | v[1] << 6u8
        | v[0] << 7u8
}

/// The last `n` of eight items packed: the fold that [`pack_8_in_1`] runs,
/// after `n` items.
pub open spec fn packed_last(v: Seq<u8>, n: nat) -> u8
    decreases n,
{
    if n <= 1 {
        v[7] << 0u8
    } else {
        packed_last(v, (n - 1) as nat) | v[8 - n] << ((n - 1) as u8)
    }
}

/// Packs eight items, each holding one bit, into one byte, first item first.
pub fn pack_8_in_1(v: &[u8]) -> (d: u8)
    requires
        v@.len() == 8,
    ensures
        d == packed(v@),
{
    let mut d: u8 = v[7] << 0u8;
    let mut i: u8 = 1;
    while i < 8
        invariant
            1 <= i <= 8,
            v@.len() == 8,
            d == packed_last(v@, i as nat),
        decreases 8 - i,
    {
        d = d | (v[(7 - i) as usize] << i);
        i += 1;
    }
    assert(packed_last(v@, 8) == packed(v@)) by {
        reveal_with_fuel(packed_last, 9);
    }
    d
}

/// Where every item is a single bit, the packed byte is the number whose
/// binary digits are the items, most significant first.
pub proof fn lemma_packed_bits(v: Seq<u8>)
    requires
        v.len() == 8,
        forall|j: int| 0 <= j < 8 ==> v[j] <= 1,
    ensures
        packed(v) == 128 * v[0] + 64 * v[1] + 32 * v[2] + 16 * v[3] + 8 * v[4] + 4 * v[5] + 2
            * v[6] + v[7],
{
    let (a, b, c, d, e, f, g, h) = (v[0], v[1], v[2], v[3], v[4], v[5], v[6], v[7]);
    assert(a <= 1 && b <= 1 && c <= 1 && d <= 1 && e <= 1 && f <= 1 && g <= 1 && h <= 1);
    assert((h << 0u8 | g << 1u8 | f << 2u8 | e << 3u8 | d << 4u8 | c << 5u8 | b << 6u8 | a << 7u8)
        == 128u8 * a + 64u8 * b + 32u8 * c + 16u8 * d + 8u8 * e + 4u8 * f + 2u8 * g + h)
        by (bit_vector)
        requires
            a <= 1 && b <= 1 && c <= 1 && d <= 1 && e <= 1 && f <= 1 && g <= 1 && h <= 1,
    ;
}

} // verus!
