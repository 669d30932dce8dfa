use vstd::prelude::*;
use vstd::arithmetic::power2::pow2;
use vstd::bits::lemma_u8_shr_is_div;

verus! {

/// Bit `i` of `byte`, counting from the most significant bit (index 0) to the least
/// significant one (index 7).
pub open spec fn sprite_bit(byte: u8, i: int) -> bool {
    (byte as nat / pow2((7 - i) as nat)) % 2 == 1
}

/// The byte made of the high nibble `k1` and the low nibble `k2`.
pub fn nibbles_to_byte(k1: u16, k2: u16) -> (byte: u8)
    ensures
        byte == ((k1 << 4u16) | k2) as u8,
        k1 < 16 && k2 < 16 ==> byte == k1 * 16 + k2,
{
    proof {
        assert(k1 < 16 && k2 < 16 ==> ((k1 << 4u16) | k2) as u8 == k1 * 16 + k2) by (bit_vector);
    }
    ((k1 << 4) | k2) as u8
}

/// The 12-bit address made of the nibbles `n1`, `n2`, `n3`, most significant first.
pub fn nibbles_to_addr(n1: u16, n2: u16, n3: u16) -> (addr: u16)
    ensures
        addr == (n1 << 8u16) | (n2 << 4u16) | n3,
        n1 < 16 && n2 < 16 && n3 < 16 ==> addr == n1 * 256 + n2 * 16 + n3,
{
    proof {
        assert(n1 < 16 && n2 < 16 && n3 < 16 ==> (n1 << 8u16) | (n2 << 4u16) | n3 == n1 * 256 + n2
            * 16 + n3) by (bit_vector);
    }
    (n1 << 8) | (n2 << 4) | n3
}

/// Whether bit `i` of `byte` is set, where the index counts from left to right: index 0
/// is the most significant bit.
pub fn bit_at_index(byte: u8, i: u8) -> (set: bool)
    requires
        i < 8,
    ensures
        set == sprite_bit(byte, i as int),
{
    let shift: u8 = 7 - i;
    proof {
        lemma_u8_shr_is_div(byte, shift);
        assert(((byte >> shift) & 1u8 != 0u8) == ((byte >> shift) % 2 == 1)) by (bit_vector);
    }
    // The index is for the index from left to right, so shift by 7 - i to bring the bit
    // into the lowest position.
    ((byte >> shift) & 1) != 0
}

} // verus!
