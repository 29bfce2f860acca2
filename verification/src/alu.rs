//! The data path: the bit-level arithmetic that the processor performs on
//! bytes and addresses, each operation proved equal to its arithmetic meaning
//! in [`crate::model::arith`].

use crate::model::arith;
pub use crate::model::arith::{Comparison, Shifted, Sum};
use vstd::prelude::*;

verus! {

/// Joins two bytes into a little-endian word.
pub fn word(lo: u8, hi: u8) -> (w: u16)
    ensures
        w == arith::word(lo, hi),
{
    let w: u16 = ((hi as u16) << 8) | (lo as u16);
    assert(w == hi as u16 * 256 + lo as u16) by (bit_vector)
        requires
            w == ((hi as u16) << 8) | (lo as u16),
    ;
    w
}

/// The low byte of a word.
pub fn low_byte(w: u16) -> (b: u8)
    ensures
        b == arith::low_byte(w),
{
    let b: u8 = (w & 0x00FF) as u8;
    assert(b == w % 256) by (bit_vector)
        requires
            b == (w & 0x00FF) as u8,
    ;
    b
}

/// The high byte of a word.
pub fn high_byte(w: u16) -> (b: u8)
    ensures
        b == arith::high_byte(w),
{
    let b: u8 = ((w >> 8) & 0x00FF) as u8;
    assert(b == w / 256) by (bit_vector)
        requires
            b == ((w >> 8) & 0x00FF) as u8,
    ;
    b
}

/// Whether `from` and `to` lie in different pages.
pub fn page_crossed(from: u16, to: u16) -> (crossed: bool)
    ensures
        crossed == arith::page_crossed(from, to),
{
    assert(((from & 0xFF00) != (to & 0xFF00)) == (from / 256 != to / 256)) by (bit_vector);
    (from & 0xFF00) != (to & 0xFF00)
}

/// Widens a signed byte to sixteen bits.
pub fn sign_extend(b: u8) -> (w: u16)
    ensures
        w == arith::sign_extend(b),
{
    let w: u16 = b as u16;
    assert((w & 0x80 != 0) == (w >= 128) && w | 0xFF00 == 0xFF00 + w) by (bit_vector)
        requires
            w < 256,
    ;
    if w & 0x80 != 0 {
        w | 0xFF00
    } else {
        w
    }
}

/// Whether bit 7 of a byte is set.
pub fn is_negative(v: u8) -> (negative: bool)
    ensures
        negative == (v >= 0x80),
{
    assert((v & 0x80 != 0) == (v >= 0x80)) by (bit_vector);
    v & 0x80 != 0
}

/// Whether bit 6 of a byte is set.
pub fn bit6(v: u8) -> (set: bool)
    ensures
        set == arith::bit6(v),
{
    assert((v & 0x40 != 0) == ((v / 64) % 2 == 1)) by (bit_vector);
    v & 0x40 != 0
}

/// The one's complement of a byte.
pub fn complement(m: u8) -> (c: u8)
    ensures
        c == arith::complement(m),
{
    assert(m ^ 0xFF == 255 - m) by (bit_vector);
    m ^ 0xFF
}

/// The signed total of an addition leaves the range of a byte exactly when
/// both operands have the same sign and the result has the other one.
proof fn lemma_overflow_is_sign_disagreement(a: u8, m: u8, carry_in: bool)
    ensures
        arith::add_with_carry(a, m, carry_in).overflow <==> ((a >= 128) == (m >= 128) && (
        arith::add_with_carry(a, m, carry_in).value >= 128) != (a >= 128)),
{
}

/// Adds two bytes and a carry.
pub fn add_with_carry(a: u8, m: u8, carry_in: bool) -> (sum: Sum)
    ensures
        sum == arith::add_with_carry(a, m, carry_in),
{
    let c: u16 = if carry_in {
        1
    } else {
        0
    };
    let total: u16 = a as u16 + m as u16 + c;
    let value: u8 = (total & 0x00FF) as u8;
    let overflow: bool = (!((a as u16) ^ (m as u16)) & ((a as u16) ^ total) & 0x0080) != 0;
    proof {
        assert(value == total % 256 && overflow == ((a >= 128) == (m >= 128) && (value >= 128) != (
        a >= 128))) by (bit_vector)
            requires
                value == (total & 0x00FF) as u8,
                overflow == ((!((a as u16) ^ (m as u16)) & ((a as u16) ^ total) & 0x0080) != 0),
        ;
        lemma_overflow_is_sign_disagreement(a, m, carry_in);
    }
    Sum { value, carry: total > 255, overflow }
}

/// Subtracts a byte and a borrow (the inverse of the carry).
pub fn subtract_with_borrow(a: u8, m: u8, carry_in: bool) -> (sum: Sum)
    ensures
        sum == arith::subtract_with_borrow(a, m, carry_in),
{
    add_with_carry(a, complement(m), carry_in)
}

/// Compares a register with an operand.
pub fn compare(register: u8, m: u8) -> (outcome: Comparison)
    ensures
        outcome == arith::compare(register, m),
{
    let difference: u16 = (register as u16).wrapping_sub(m as u16);
    let zero: bool = difference & 0x00FF == 0;
    let negative: bool = difference & 0x0080 != 0;
    assert(zero == (register == m) && negative == ((register - m) % 256 >= 128)) by (bit_vector)
        requires
            zero == (difference & 0x00FF == 0),
            negative == (difference & 0x0080 != 0),
            difference == if register < m {
                (register as u16 + 0x10000 - m as u16) as u16
            } else {
                (register as u16 - m as u16) as u16
            },
    ;
    Comparison { carry: register >= m, zero, negative }
}

/// Shifts a byte left by one bit.
pub fn shift_left(v: u8) -> (r: Shifted)
    ensures
        r == arith::shift_left(v),
{
    let wide: u16 = (v as u16) << 1;
    let value: u8 = (wide & 0x00FF) as u8;
    let carry: bool = (wide & 0xFF00) > 0;
    assert(value == (v * 2) % 256 && carry == (v >= 128)) by (bit_vector)
        requires
            wide == (v as u16) << 1,
            value == (wide & 0x00FF) as u8,
            carry == ((wide & 0xFF00) > 0),
    ;
    Shifted { value, carry }
}

/// Shifts a byte right by one bit.
pub fn shift_right(v: u8) -> (r: Shifted)
    ensures
        r == arith::shift_right(v),
{
    let value: u8 = v >> 1;
    let carry: bool = v & 0x01 != 0;
    assert(value == v / 2 && carry == (v % 2 == 1)) by (bit_vector)
        requires
            value == v >> 1,
            carry == (v & 0x01 != 0),
    ;
    Shifted { value, carry }
}

/// Rotates a byte left by one bit through the carry.
pub fn rotate_left(v: u8, carry_in: bool) -> (r: Shifted)
    ensures
        r == arith::rotate_left(v, carry_in),
{
    let c: u16 = if carry_in {
        1
    } else {
        0
    };
    let wide: u16 = ((v as u16) << 1) | c;
    let value: u8 = (wide & 0x00FF) as u8;
    let carry: bool = wide & 0xFF00 != 0;
    assert(value == (v * 2 + c) % 256 && carry == (v >= 128)) by (bit_vector)
        requires
            c <= 1,
            wide == ((v as u16) << 1) | c,
            value == (wide & 0x00FF) as u8,
            carry == (wide & 0xFF00 != 0),
    ;
    Shifted { value, carry }
}

/// Rotates a byte right by one bit through the carry.
pub fn rotate_right(v: u8, carry_in: bool) -> (r: Shifted)
    ensures
        r == arith::rotate_right(v, carry_in),
{
    let c: u8 = if carry_in {
        0x80
    } else {
        0
    };
    let value: u8 = (v >> 1) | c;
    let carry: bool = v & 0x01 != 0;
    assert(value == v / 2 + c && carry == (v % 2 == 1)) by (bit_vector)
        requires
            c == 0x80 || c == 0,
            value == (v >> 1) | c,
            carry == (v & 0x01 != 0),
    ;
    Shifted { value, carry }
}

} // verus!
