//! Facts about the low bits and the top bits of a byte, proved once.

use vstd::prelude::*;

verus! {

/// Masking off the low bits of a byte is taking it modulo a power of two,
/// and shifting it right is dividing by one.
pub proof fn lemma_u8_bits(x: u8)
    by (bit_vector)
    ensures
        x & 0x01 == x % 2,
        x & 0x03 == x % 4,
        x & 0x07 == x % 8,
        x & 0x0F == x % 16,
        x & 0x1F == x % 32,
        x & 0x3F == x % 64,
        x & 0x7F == x % 128,
        x >> 0 == x,
        x >> 1 == x / 2,
        x >> 2 == x / 4,
        x >> 4 == x / 16,
        x >> 6 == x / 64,
        x >> 4 & 0x07 == (x / 16) % 8,
        x >> 5 & 0x03 == (x / 32) % 4,
        x & 0x02 == (x / 2) % 2 * 2,
        x & 0x04 == (x / 4) % 2 * 4,
        x & 0x08 == (x / 8) % 2 * 8,
        x & 0x10 == (x / 16) % 2 * 16,
        x | 0 == x,
        0u8 & x == 0,
        x & 0x38 == (x / 8) % 8 * 8,
{
}

} // verus!
