//! The data path, against arithmetic written out the long way.

use nes_emulator::alu;

#[test]
fn word_joins_a_low_and_a_high_byte() {
    assert_eq!(alu::word(0x34, 0x12), 0x1234);
    assert_eq!(alu::word(0xFF, 0x00), 0x00FF);
    assert_eq!(alu::word(0x00, 0xFF), 0xFF00);
    assert_eq!(alu::word(0xFF, 0xFF), 0xFFFF);
}

#[test]
fn low_and_high_byte_split_a_word() {
    assert_eq!(alu::low_byte(0x1234), 0x34);
    assert_eq!(alu::high_byte(0x1234), 0x12);
    assert_eq!(alu::low_byte(0xFF00), 0x00);
    assert_eq!(alu::high_byte(0x00FF), 0x00);
    for w in [0x0000u16, 0x00FF, 0x0100, 0x8000, 0xABCD, 0xFFFF] {
        assert_eq!(alu::word(alu::low_byte(w), alu::high_byte(w)), w);
    }
}

#[test]
fn page_crossed_compares_high_bytes() {
    assert!(alu::page_crossed(0x12FF, 0x1300));
    assert!(alu::page_crossed(0x1300, 0x12FF));
    assert!(!alu::page_crossed(0x1200, 0x12FF));
    assert!(alu::page_crossed(0xFFFF, 0x0000));
    assert!(!alu::page_crossed(0x0000, 0x0000));
}

#[test]
fn sign_extend_keeps_the_signed_value() {
    assert_eq!(alu::sign_extend(0x00), 0x0000);
    assert_eq!(alu::sign_extend(0x04), 0x0004);
    assert_eq!(alu::sign_extend(0x7F), 0x007F);
    assert_eq!(alu::sign_extend(0x80), 0xFF80);
    assert_eq!(alu::sign_extend(0xFE), 0xFFFE);
    assert_eq!(alu::sign_extend(0xFF), 0xFFFF);
    for b in 0..=255u8 {
        assert_eq!(alu::sign_extend(b) as i16, b as i8 as i16);
    }
}

#[test]
fn is_negative_is_bit_seven() {
    assert!(!alu::is_negative(0x00));
    assert!(!alu::is_negative(0x7F));
    assert!(alu::is_negative(0x80));
    assert!(alu::is_negative(0xFF));
}

#[test]
fn bit6_is_bit_six() {
    assert!(alu::bit6(0x40));
    assert!(alu::bit6(0xFF));
    assert!(!alu::bit6(0xBF));
    assert!(!alu::bit6(0x80));
}

#[test]
fn complement_flips_every_bit() {
    assert_eq!(alu::complement(0x00), 0xFF);
    assert_eq!(alu::complement(0xFF), 0x00);
    assert_eq!(alu::complement(0x0F), 0xF0);
    assert_eq!(alu::complement(0xA5), 0x5A);
}

#[test]
fn add_with_carry_examples() {
    let sum = alu::add_with_carry(0x7F, 0x01, false);
    assert_eq!((sum.value, sum.carry, sum.overflow), (0x80, false, true));
    let sum = alu::add_with_carry(0xFF, 0x01, false);
    assert_eq!((sum.value, sum.carry, sum.overflow), (0x00, true, false));
    let sum = alu::add_with_carry(0x80, 0x80, false);
    assert_eq!((sum.value, sum.carry, sum.overflow), (0x00, true, true));
    let sum = alu::add_with_carry(0x50, 0x50, false);
    assert_eq!((sum.value, sum.carry, sum.overflow), (0xA0, false, true));
    let sum = alu::add_with_carry(0xFF, 0xFF, true);
    assert_eq!((sum.value, sum.carry, sum.overflow), (0xFF, true, false));
    let sum = alu::add_with_carry(0x00, 0x00, true);
    assert_eq!((sum.value, sum.carry, sum.overflow), (0x01, false, false));
    let sum = alu::add_with_carry(0x7F, 0x00, true);
    assert_eq!((sum.value, sum.carry, sum.overflow), (0x80, false, true));
}

#[test]
fn add_with_carry_is_twos_complement_addition_on_every_input() {
    for a in 0..=255u8 {
        for m in 0..=255u8 {
            for carry_in in [false, true] {
                let total = a as u16 + m as u16 + carry_in as u16;
                let signed = a as i8 as i16 + m as i8 as i16 + carry_in as i16;
                let sum = alu::add_with_carry(a, m, carry_in);
                assert_eq!(sum.value, (total & 0xFF) as u8);
                assert_eq!(sum.carry, total > 255);
                assert_eq!(sum.overflow, !(-128..=127).contains(&signed));
                let formula = (!(a ^ m) & (a ^ sum.value) & 0x80) != 0;
                assert_eq!(sum.overflow, formula);
            }
        }
    }
}

#[test]
fn subtract_with_borrow_examples() {
    let d = alu::subtract_with_borrow(0x50, 0xF0, true);
    assert_eq!((d.value, d.carry, d.overflow), (0x60, false, false));
    let d = alu::subtract_with_borrow(0x50, 0xB0, true);
    assert_eq!((d.value, d.carry, d.overflow), (0xA0, false, true));
    let d = alu::subtract_with_borrow(0x00, 0x01, true);
    assert_eq!((d.value, d.carry, d.overflow), (0xFF, false, false));
    let d = alu::subtract_with_borrow(0x05, 0x05, true);
    assert_eq!((d.value, d.carry, d.overflow), (0x00, true, false));
    let d = alu::subtract_with_borrow(0x05, 0x03, false);
    assert_eq!((d.value, d.carry, d.overflow), (0x01, true, false));
    let d = alu::subtract_with_borrow(0x80, 0x01, true);
    assert_eq!((d.value, d.carry, d.overflow), (0x7F, true, true));
}

#[test]
fn subtract_with_borrow_is_subtraction_on_every_input() {
    for a in 0..=255u8 {
        for m in 0..=255u8 {
            for carry_in in [false, true] {
                let borrow = if carry_in { 0 } else { 1 };
                let difference = a as i16 - m as i16 - borrow;
                let signed = a as i8 as i16 - m as i8 as i16 - borrow;
                let d = alu::subtract_with_borrow(a, m, carry_in);
                assert_eq!(d.value, difference.rem_euclid(256) as u8);
                assert_eq!(d.carry, difference >= 0);
                assert_eq!(d.overflow, !(-128..=127).contains(&signed));
            }
        }
    }
}

#[test]
fn compare_examples() {
    let c = alu::compare(0x10, 0x10);
    assert_eq!((c.carry, c.zero, c.negative), (true, true, false));
    let c = alu::compare(0x10, 0x20);
    assert_eq!((c.carry, c.zero, c.negative), (false, false, true));
    let c = alu::compare(0x20, 0x10);
    assert_eq!((c.carry, c.zero, c.negative), (true, false, false));
    let c = alu::compare(0x00, 0xFF);
    assert_eq!((c.carry, c.zero, c.negative), (false, false, false));
    let c = alu::compare(0xFF, 0x00);
    assert_eq!((c.carry, c.zero, c.negative), (true, false, true));
}

#[test]
fn compare_never_underflows_and_agrees_with_wrapping_subtraction() {
    for register in 0..=255u8 {
        for m in 0..=255u8 {
            let c = alu::compare(register, m);
            assert_eq!(c.carry, register >= m);
            assert_eq!(c.zero, register == m);
            assert_eq!(c.negative, register.wrapping_sub(m) & 0x80 != 0);
        }
    }
}

#[test]
fn shifts_and_rotates_examples() {
    let r = alu::shift_left(0x81);
    assert_eq!((r.value, r.carry), (0x02, true));
    let r = alu::shift_left(0x40);
    assert_eq!((r.value, r.carry), (0x80, false));
    let r = alu::shift_right(0x01);
    assert_eq!((r.value, r.carry), (0x00, true));
    let r = alu::shift_right(0x80);
    assert_eq!((r.value, r.carry), (0x40, false));
    let r = alu::rotate_left(0x80, true);
    assert_eq!((r.value, r.carry), (0x01, true));
    let r = alu::rotate_left(0x40, false);
    assert_eq!((r.value, r.carry), (0x80, false));
    let r = alu::rotate_right(0x01, true);
    assert_eq!((r.value, r.carry), (0x80, true));
    let r = alu::rotate_right(0x02, false);
    assert_eq!((r.value, r.carry), (0x01, false));
}

#[test]
fn shifts_and_rotates_on_every_input() {
    for v in 0..=255u8 {
        let r = alu::shift_left(v);
        assert_eq!((r.value, r.carry), (v << 1, v & 0x80 != 0));
        let r = alu::shift_right(v);
        assert_eq!((r.value, r.carry), (v >> 1, v & 0x01 != 0));
        for carry_in in [false, true] {
            let r = alu::rotate_left(v, carry_in);
            assert_eq!((r.value, r.carry), ((v << 1) | carry_in as u8, v & 0x80 != 0));
            let r = alu::rotate_right(v, carry_in);
            assert_eq!((r.value, r.carry), ((v >> 1) | ((carry_in as u8) << 7), v & 0x01 != 0));
        }
    }
}

#[test]
fn nine_rotations_through_carry_come_back_round() {
    for v in [0x00u8, 0x01, 0x80, 0xA5, 0xFF] {
        for carry_in in [false, true] {
            let mut value = v;
            let mut carry = carry_in;
            for _ in 0..9 {
                let r = alu::rotate_left(value, carry);
                value = r.value;
                carry = r.carry;
            }
            assert_eq!((value, carry), (v, carry_in));
        }
    }
}
