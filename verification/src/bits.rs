//! Bit-field extraction and sign extension on 32-bit words.

use bit_field::BitField;
use vstd::prelude::*;

verus! {

/// The bits `start..end` of `value` (bit 0 is the least significant), moved
/// down to bit 0.
pub open spec fn field(value: u32, start: u32, end: u32) -> u32
    recommends
        start < end <= 32,
        end - start < 32,
{
    (value >> start) & (((1u32 << ((end - start) as u32)) - 1) as u32)
}

/// Calls `bit_field::BitField::get_bits` on a `u32` with the range
/// `start..end`. Trusted: the result is the bits `start..end` of `value`
/// moved down to bit 0, as `field` states. The bounds keep the range inside
/// the word, where the outside function does not panic.
#[verifier::external_body]
pub(crate) fn get_bits(value: u32, start: usize, end: usize) -> (r: u32)
    requires
        start < end <= 32,
        end - start < 32,
    ensures
        r == field(value, start as u32, end as u32),
{
    value.get_bits(start..end)
}

/// A 12-bit immediate widened to 32 bits by replicating bit 11.
pub open spec fn sign_extend_12(imm: u16) -> u32 {
    if imm & 0x800 != 0 {
        (imm as u32) | 0xffff_f000
    } else {
        imm as u32
    }
}

/// A 13-bit branch offset widened to 32 bits by replicating bit 12.
pub open spec fn sign_extend_13(imm: u16) -> u32 {
    if imm & 0x1000 != 0 {
        (imm as u32) | 0xffff_e000
    } else {
        imm as u32
    }
}

/// A 21-bit jump offset widened to 32 bits by replicating bit 20.
pub open spec fn sign_extend_21(imm: u32) -> u32 {
    if imm & 0x10_0000 != 0 {
        imm | 0xffe0_0000
    } else {
        imm
    }
}

/// An 8-bit value widened to 32 bits by replicating bit 7.
pub open spec fn sign_extend_8(value: u8) -> u32 {
    (value as i8) as u32
}

/// A 16-bit value widened to 32 bits by replicating bit 15.
pub open spec fn sign_extend_16(value: u16) -> u32 {
    (value as i16) as u32
}

/// Whether the 32-bit word `a`, read as two's complement, is below `b`.
pub open spec fn signed_lt(a: u32, b: u32) -> bool {
    (a as i32) < (b as i32)
}

/// `value` shifted right by `amount` with the sign bit replicated.
pub open spec fn shift_right_arithmetic(value: u32, amount: u32) -> u32 {
    ((value as i32) >> amount) as u32
}

/// A 12-bit immediate with bit 11 set extends to a word whose top 20 bits
/// are all set; one with bit 11 clear extends to itself. Either way the low
/// 12 bits are the immediate.
pub proof fn lemma_sign_extend_12(imm: u16)
    requires
        imm < 0x1000,
    ensures
        imm & 0x800 != 0 ==> sign_extend_12(imm) >> 12 == 0xf_ffff,
        imm & 0x800 == 0 ==> sign_extend_12(imm) == imm,
        sign_extend_12(imm) & 0xfff == imm,
{
    assert(imm < 0x1000 ==> ((imm as u32) | 0xffff_f000) >> 12 == 0xf_ffff && ((imm as u32)
        | 0xffff_f000) & 0xfff == imm && (imm as u32) & 0xfff == imm) by (bit_vector);
}

} // verus!
