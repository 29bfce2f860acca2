//! Byte and word arithmetic of the data path, as plain integer arithmetic.

use vstd::prelude::*;

verus! {

/// The 16-bit word with the given low and high bytes.
pub open spec fn word(lo: u8, hi: u8) -> u16 {
    (hi as int * 256 + lo as int) as u16
}

/// The low byte of a word.
pub open spec fn low_byte(w: u16) -> u8 {
    (w % 256) as u8
}

/// The high byte of a word: its page.
pub open spec fn high_byte(w: u16) -> u8 {
    (w / 256) as u8
}

/// Whether two addresses lie in different 256-byte pages.
pub open spec fn page_crossed(from: u16, to: u16) -> bool {
    from / 256 != to / 256
}

/// The value of a byte read as a two's-complement number.
pub open spec fn signed(b: u8) -> int {
    if b >= 128 {
        b as int - 256
    } else {
        b as int
    }
}

/// The 16-bit two's-complement encoding of `signed(b)`.
pub open spec fn sign_extend(b: u8) -> u16 {
    if b >= 128 {
        (0xFF00 + b as int) as u16
    } else {
        b as u16
    }
}

/// The result of an addition in the accumulator.
pub struct Sum {
    /// The low eight bits of the total.
    pub value: u8,
    /// Whether the unsigned total did not fit in a byte.
    pub carry: bool,
    /// Whether the signed total did not fit in a byte.
    pub overflow: bool,
}

/// `a + m + carry_in`, read both as an unsigned and as a two's-complement
/// addition.
pub open spec fn add_with_carry(a: u8, m: u8, carry_in: bool) -> Sum {
    let c: int = if carry_in {
        1
    } else {
        0
    };
    let total = a + m + c;
    let signed_total = signed(a) + signed(m) + c;
    Sum {
        value: (total % 256) as u8,
        carry: total > 255,
        overflow: signed_total < -128 || signed_total > 127,
    }
}

/// The one's complement of a byte.
pub open spec fn complement(m: u8) -> u8 {
    (255 - m) as u8
}

/// `a - m - (1 - carry_in)`: an addition of the complement of `m`, so that
/// carry out means "no borrow".
pub open spec fn subtract_with_borrow(a: u8, m: u8, carry_in: bool) -> Sum {
    add_with_carry(a, complement(m), carry_in)
}

/// What a compare instruction learns about a register and an operand.
pub struct Comparison {
    /// The register is at least the operand (unsigned).
    pub carry: bool,
    /// The two are equal.
    pub zero: bool,
    /// Bit 7 of the difference modulo 256.
    pub negative: bool,
}

/// The flags of `register - m`, computed without touching the register.
pub open spec fn compare(register: u8, m: u8) -> Comparison {
    Comparison {
        carry: register >= m,
        zero: register == m,
        negative: (register - m) % 256 >= 128,
    }
}

/// The result of a shift or rotate by one bit.
pub struct Shifted {
    pub value: u8,
    /// The bit that was shifted out.
    pub carry: bool,
}

/// Shift left: bit 7 leaves, 0 enters at bit 0.
pub open spec fn shift_left(v: u8) -> Shifted {
    Shifted { value: ((v * 2) % 256) as u8, carry: v >= 128 }
}

/// Shift right: bit 0 leaves, 0 enters at bit 7.
pub open spec fn shift_right(v: u8) -> Shifted {
    Shifted { value: v / 2, carry: v % 2 == 1 }
}

/// Rotate left through carry: bit 7 leaves, the old carry enters at bit 0.
pub open spec fn rotate_left(v: u8, carry_in: bool) -> Shifted {
    Shifted {
        value: ((v * 2 + if carry_in {
            1int
        } else {
            0int
        }) % 256) as u8,
        carry: v >= 128,
    }
}

/// Rotate right through carry: bit 0 leaves, the old carry enters at bit 7.
pub open spec fn rotate_right(v: u8, carry_in: bool) -> Shifted {
    Shifted {
        value: (v / 2 + if carry_in {
            128int
        } else {
            0int
        }) as u8,
        carry: v % 2 == 1,
    }
}

/// Bit 6 of a byte.
pub open spec fn bit6(v: u8) -> bool {
    (v / 64) % 2 == 1
}

/// A word is the word of its two bytes.
pub proof fn lemma_word_of_bytes(w: u16)
    ensures
        word(low_byte(w), high_byte(w)) == w,
{
}

/// Adding the sign-extended offset with 16-bit wrap-around is adding the
/// signed offset modulo 65 536.
pub proof fn lemma_branch_target(next: u16, offset: u8)
    ensures
        next.wrapping_add(sign_extend(offset)) == (next + signed(offset)) % 0x10000,
{
}

} // verus!
