use bn254_scalar::operand::{all_disjoint, Access, Operand, OperandError, FR_BYTES, FR_WORDS, WORD_BYTES};

fn operand(addr: usize, access: Access) -> Operand {
    match Operand::new(addr, access) {
        Ok(op) => op,
        Err(e) => panic!("{:#x} is no operand: {:?}", addr, e),
    }
}

#[test]
fn element_is_eight_words_of_four_bytes() {
    assert_eq!(FR_WORDS, 8);
    assert_eq!(WORD_BYTES, 4);
    assert_eq!(FR_BYTES, 32);
    assert_eq!(FR_WORDS * WORD_BYTES, FR_BYTES);
}

#[test]
fn aligned_address_is_accepted() {
    let op = operand(0x1000, Access::Read);
    assert_eq!(op.addr(), 0x1000);
    assert_eq!(op.access(), Access::Read);
}

#[test]
fn address_zero_is_aligned() {
    assert_eq!(operand(0, Access::Write).addr(), 0);
}

#[test]
fn misaligned_address_is_rejected() {
    assert_eq!(Operand::new(0x1001, Access::Read), Err(OperandError::Misaligned));
    assert_eq!(Operand::new(0x1002, Access::Read), Err(OperandError::Misaligned));
    assert_eq!(Operand::new(0x1003, Access::ReadWrite), Err(OperandError::Misaligned));
}

#[test]
fn element_past_the_end_is_rejected() {
    assert_eq!(Operand::new(usize::MAX - 3, Access::Read), Err(OperandError::OutOfRange));
    assert_eq!(Operand::new(usize::MAX - 27, Access::Read), Err(OperandError::OutOfRange));
}

#[test]
fn last_element_of_the_address_space_is_accepted() {
    let op = operand(usize::MAX - 31, Access::Read);
    assert_eq!(op.addr(), usize::MAX - 31);
}

#[test]
fn misalignment_is_reported_before_range() {
    assert_eq!(Operand::new(usize::MAX, Access::Read), Err(OperandError::Misaligned));
    assert_eq!(Operand::new(usize::MAX - 1, Access::Read), Err(OperandError::Misaligned));
}

#[test]
fn access_modes_grant_what_they_name() {
    assert!(Access::Read.can_read());
    assert!(!Access::Read.can_write());
    assert!(!Access::Write.can_read());
    assert!(Access::Write.can_write());
    assert!(Access::ReadWrite.can_read());
    assert!(Access::ReadWrite.can_write());
}

#[test]
fn adjacent_elements_do_not_overlap() {
    let a = operand(0x1000, Access::Read);
    let b = operand(0x1020, Access::Read);
    assert!(!a.overlaps(&b));
    assert!(!b.overlaps(&a));
}

#[test]
fn elements_less_than_32_bytes_apart_overlap() {
    let a = operand(0x1000, Access::Read);
    let b = operand(0x101c, Access::Read);
    assert!(a.overlaps(&b));
    assert!(b.overlaps(&a));
    let c = operand(0x1004, Access::Write);
    assert!(a.overlaps(&c));
    assert!(c.overlaps(&a));
}

#[test]
fn an_element_overlaps_itself() {
    let a = operand(0x1000, Access::Read);
    assert!(a.overlaps(&a));
    let same_place = operand(0x1000, Access::Write);
    assert!(a.overlaps(&same_place));
}

#[test]
fn overlap_at_the_end_of_the_address_space() {
    let last = operand(usize::MAX - 31, Access::Read);
    let before = operand(usize::MAX - 63, Access::Read);
    let into = operand(usize::MAX - 35, Access::Read);
    assert!(!last.overlaps(&before));
    assert!(last.overlaps(&into));
    assert!(!operand(0, Access::Read).overlaps(&last));
}

#[test]
fn all_disjoint_accepts_separate_elements() {
    let ops = [
        operand(0x1000, Access::ReadWrite),
        operand(0x1020, Access::Read),
        operand(0x1040, Access::Read),
        operand(0x2000, Access::Read),
    ];
    assert!(all_disjoint(&ops));
}

#[test]
fn all_disjoint_finds_any_overlapping_pair() {
    let r = operand(0x1000, Access::ReadWrite);
    let a = operand(0x1020, Access::Read);
    let b = operand(0x1040, Access::Read);
    let on_r = operand(0x1010, Access::Read);
    let on_b = operand(0x1044, Access::Read);
    assert!(!all_disjoint(&[r, on_r, a, b]));
    assert!(!all_disjoint(&[r, a, b, on_b]));
    assert!(!all_disjoint(&[on_b, r, a, b]));
    assert!(!all_disjoint(&[r, a, a]));
}

#[test]
fn all_disjoint_of_none_or_one() {
    assert!(all_disjoint(&[]));
    assert!(all_disjoint(&[operand(0x1000, Access::Read)]));
}
