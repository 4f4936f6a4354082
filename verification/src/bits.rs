use vstd::prelude::*;

verus! {

/// Bounds of the fields that registers are cut into.
pub proof fn lemma_byte_fields()
    by (bit_vector)
    ensures
        forall|x: u8| #![trigger x >> 4u8] x >> 4u8 <= 15,
        forall|x: u8| #![trigger x & 7u8] x & 7u8 <= 7,
        forall|x: u8| #![trigger (x >> 4u8) & 7u8] (x >> 4u8) & 7u8 <= 7,
        forall|x: u8| #![trigger x >> 6u8] x >> 6u8 < 4,
        forall|x: u8| #![trigger x & 0x3Fu8] x & 0x3Fu8 <= 63,
        forall|x: u8| #![trigger (x >> 5u8) & 3u8] (x >> 5u8) & 3u8 <= 3,
        forall|x: u8| #![trigger x & 0xFEu8] x & 0xFEu8 < 255,
        forall|x: u8| #![trigger x & 3u8] x & 3u8 < 4,
        forall|x: u8| #![trigger x & 0x7Fu8] x & 0x7Fu8 < 128,
        forall|f: u16, v: u8| f < 2048 ==> #[trigger] ((f & 0xFF00u16) | (v as u16)) < 2048,
        forall|f: u16, v: u8| #[trigger] ((f & 0x00FFu16) | (((v & 7u8) as u16) << 8u16)) < 2048,
{
}

/// Single bits and two-bit fields of a byte read as arithmetic: a bit is a digit of the
/// number in base 2, a two-bit field a digit in base 4.
pub proof fn lemma_byte_digits()
    by (bit_vector)
    ensures
        forall|p: u8| #![trigger p >> 0u8] (p >> 0u8) & 3 == p % 4,
        forall|p: u8| #![trigger p >> 2u8] (p >> 2u8) & 3 == (p / 4) % 4,
        forall|p: u8| #![trigger p >> 4u8] (p >> 4u8) & 3 == (p / 16) % 4,
        forall|p: u8| #![trigger p >> 6u8] (p >> 6u8) & 3 == (p / 64) % 4,
        forall|a: u8| #![trigger a & 0x80u8] (a & 0x80u8 != 0) == (a >= 0x80),
        forall|a: u8| #![trigger a & 0x10u8] (a & 0x10u8 != 0) == ((a / 16) % 2 == 1),
        forall|p: u8| #![trigger p & 0x01u8] (p & 0x01u8 != 0) == (p % 2 == 1),
        forall|q: u8| #![trigger q & 0x01u8] q & 0x01u8 == q % 2,
        forall|c: u8| #![trigger c & 3u8] c & 3u8 == c % 4,
        forall|r: u8| #![trigger r & 0x7Fu8] r & 0x7Fu8 == r % 128,
        forall|t: u8| #![trigger t & 0x0Fu8] t & 0x0Fu8 == t % 16,
        forall|p: u8| #![trigger p & 0x02u8] (p & 0x01u8 == 0 && p & 0x02u8 != 0) ==> (p / 2) % 2 == 1 && p % 2 == 0,
        forall|p: u8| #![trigger p & 0x04u8] (p & 0x01u8 == 0 && p & 0x02u8 == 0 && p & 0x04u8 != 0) ==> (p / 4) % 2 == 1 && p % 4 == 0,
        forall|p: u8| #![trigger p & 0x08u8] (p & 0x01u8 == 0 && p & 0x02u8 == 0 && p & 0x04u8 == 0 && p & 0x08u8 != 0) ==> (p / 8) % 2 == 1
            && p % 8 == 0,
        forall|p: u8| #![trigger p & 0x1Fu8] (p & 0x01u8 == 0 && p & 0x02u8 == 0 && p & 0x04u8 == 0 && p & 0x08u8 == 0 && p & 0x1Fu8 != 0) ==> p
            & 0x10u8 != 0 && (p / 16) % 2 == 1 && p % 16 == 0,
{
}

/// The masks and shifts of the cartridge controllers' bank registers read as arithmetic.
pub proof fn lemma_bank_register_bits()
    by (bit_vector)
    ensures
        forall|lo: usize, w: usize| w < 256 ==> #[trigger] ((lo & 0x100usize) | w) == (lo / 256) % 2 * 256 + w,
        forall|hi: usize, u: usize| u < 2 ==> #[trigger] ((hi & 0xFFusize) | (u << 8usize)) == hi % 256 + u * 256,
        forall|n: usize| #![trigger n >> 14usize] n >> 14usize == n / 0x4000,
        forall|k: usize, i: usize| k < 128 ==> #[trigger] ((k << 14usize) | (i & 0x3FFFusize)) == k * 0x4000 + i % 0x4000,
{
}

} // verus!
