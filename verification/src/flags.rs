//! The status register P: one bit per flag, `N V U B D I Z C` from bit 7 down
//! to bit 0.

use vstd::prelude::*;

verus! {

/// Carry.
pub const FLAG6502_C: u8 = 0x01;

/// Zero.
pub const FLAG6502_Z: u8 = 0x02;

/// Interrupt disable.
pub const FLAG6502_I: u8 = 0x04;

/// Decimal mode; it can be set and cleared but changes no arithmetic.
pub const FLAG6502_D: u8 = 0x08;

/// Break: only ever meaningful in a copy of P pushed on the stack.
pub const FLAG6502_B: u8 = 0x10;

/// The unused bit, seen as 1 in every pushed copy of P.
pub const FLAG6502_U: u8 = 0x20;

/// Overflow.
pub const FLAG6502_V: u8 = 0x40;

/// Negative.
pub const FLAG6502_N: u8 = 0x80;

/// The six bits of P that carry architectural state: everything but B and U.
pub const ARCHITECTURAL_FLAGS: u8 = 0xCF;

/// Whether any bit of `flag` is set in `p`.
pub open spec fn flag_is_set(p: u8, flag: u8) -> bool {
    p & flag != 0
}

/// `p` with the bits of `flag` set (`value`) or cleared (`!value`).
pub open spec fn with_flag(p: u8, flag: u8, value: bool) -> u8 {
    if value {
        p | flag
    } else {
        p & !flag
    }
}

/// `p` with Z and N describing the byte `value`: Z iff it is zero, N iff its
/// bit 7 is set.
pub open spec fn with_zn(p: u8, value: u8) -> u8 {
    with_flag(with_flag(p, FLAG6502_Z, value == 0), FLAG6502_N, value >= 0x80)
}

/// Forcing U to 1 changes no other flag, and nothing at all where U was
/// already set.
pub proof fn lemma_forcing_u(p: u8)
    ensures
        flag_is_set(with_flag(p, FLAG6502_U, true), FLAG6502_U),
        flag_is_set(p, FLAG6502_U) ==> with_flag(p, FLAG6502_U, true) == p,
        with_flag(p, FLAG6502_U, true) & ARCHITECTURAL_FLAGS == p & ARCHITECTURAL_FLAGS,
        flag_is_set(with_flag(p, FLAG6502_U, true), FLAG6502_C) == flag_is_set(p, FLAG6502_C),
        flag_is_set(with_flag(p, FLAG6502_U, true), FLAG6502_Z) == flag_is_set(p, FLAG6502_Z),
        flag_is_set(with_flag(p, FLAG6502_U, true), FLAG6502_I) == flag_is_set(p, FLAG6502_I),
        flag_is_set(with_flag(p, FLAG6502_U, true), FLAG6502_D) == flag_is_set(p, FLAG6502_D),
        flag_is_set(with_flag(p, FLAG6502_U, true), FLAG6502_B) == flag_is_set(p, FLAG6502_B),
        flag_is_set(with_flag(p, FLAG6502_U, true), FLAG6502_V) == flag_is_set(p, FLAG6502_V),
        flag_is_set(with_flag(p, FLAG6502_U, true), FLAG6502_N) == flag_is_set(p, FLAG6502_N),
{
    let q = p | 0x20;
    assert(q & 0x20 != 0 && (p & 0x20 != 0 ==> q == p) && q & 0xCF == p & 0xCF && q & 0x01 == p
        & 0x01 && q & 0x02 == p & 0x02 && q & 0x04 == p & 0x04 && q & 0x08 == p & 0x08 && q
        & 0x10 == p & 0x10 && q & 0x40 == p & 0x40 && q & 0x80 == p & 0x80) by (bit_vector)
        requires
            q == p | 0x20,
    ;
}

} // verus!
