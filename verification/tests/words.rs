//! The value model on its own: arithmetic, shifts, comparisons and
//! unknown propagation, plus the ALU and comparator functions.

use rsim::backend::alu::alu_compute;
use rsim::backend::cmp::cmp_compute;
use rsim::word::{sign_extend, Byte, Word};

#[test]
fn word_roundtrip_and_unknowns() {
    let w = Word::from(0xdead_beefu32);
    assert_eq!(w.to_u32(), Some(0xdead_beef));
    assert!(!w.has_unknown());
    let u = Word::unknown();
    assert_eq!(u.to_u32(), None);
    assert!(u.has_unknown());
    assert!(!u.is_something_nonzero());
    assert!(Word::from(1u32).is_something_nonzero());
    assert!(Word::zeros().is_zero());
}

#[test]
fn word_arithmetic_wraps() {
    let a = Word::from(0xffff_ffffu32);
    let b = Word::from(2u32);
    assert_eq!(a.add(b), Word::from(1u32));
    assert_eq!(b.sub(a), Word::from(3u32));
    assert_eq!(a.add(Word::unknown()), Word::unknown());
}

#[test]
fn word_shifts() {
    let a = Word::from(0x8000_0001u32);
    assert_eq!(a.shl(Word::from(1u32)), Word::from(2u32));
    assert_eq!(a.shr(Word::from(1u32)), Word::from(0x4000_0000u32));
    assert_eq!(a.shra(Word::from(1u32)), Word::from(0xc000_0000u32));
    // Shift amounts are taken modulo the width, as the hardware does.
    assert_eq!(a.shl(Word::from(33u32)), Word::from(2u32));
}

#[test]
fn word_comparisons() {
    let minus_one = Word::from(0xffff_ffffu32);
    let one = Word::from(1u32);
    assert!(minus_one.lt_signed(one));
    assert!(!minus_one.lt_unsigned(one));
    assert!(!Word::unknown().lt_signed(one));
}

#[test]
fn sign_extend_small_values() {
    assert_eq!(sign_extend(0x0000_0080, 7), Word::from(0xffff_ff80u32));
    assert_eq!(sign_extend(0x0000_007f, 7), Word::from(0x0000_007fu32));
    assert_eq!(sign_extend(0x0000_0fff, 11), Word::from(0xffff_ffffu32));
}

#[test]
fn alu_operations() {
    let a = Word::from(12u32);
    let b = Word::from(10u32);
    assert_eq!(alu_compute(Byte::from(0u8), a, b), Word::from(22u32));
    assert_eq!(alu_compute(Byte::from(3u8), a, b), Word::from(2u32));
    assert_eq!(alu_compute(Byte::from(4u8), a, b), Word::from(6u32));
    assert_eq!(alu_compute(Byte::from(6u8), a, b), Word::from(14u32));
    assert_eq!(alu_compute(Byte::from(7u8), a, b), Word::from(8u32));
    assert_eq!(alu_compute(Byte::unknown(), a, b), Word::unknown());
    assert_eq!(alu_compute(Byte::from(0u8), a, Word::unknown()), Word::unknown());
}

#[test]
fn comparator_operations() {
    let minus_two = Word::from(0xffff_fffeu32);
    let three = Word::from(3u32);
    // Branch condition codes: equality, inequality, then the signed and
    // unsigned orders.
    assert!(cmp_compute(Byte::from(0u8), three, three));
    assert!(cmp_compute(Byte::from(1u8), minus_two, three));
    assert!(cmp_compute(Byte::from(4u8), minus_two, three));
    assert!(!cmp_compute(Byte::from(5u8), minus_two, three));
    assert!(!cmp_compute(Byte::from(6u8), minus_two, three));
    assert!(cmp_compute(Byte::from(7u8), minus_two, three));
}
