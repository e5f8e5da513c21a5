use biiot::word::Word;

fn w(v: u64) -> Word {
    Word::from_u64(v)
}

#[test]
fn zero_and_one() {
    assert_eq!(Word::zero(), Word { w0: 0, w1: 0, w2: 0, w3: 0 });
    assert_eq!(Word::one(), Word { w0: 1, w1: 0, w2: 0, w3: 0 });
    assert!(Word::zero().is_zero());
    assert!(!Word::one().is_zero());
}

#[test]
fn add_wraps_at_two_to_the_256() {
    assert_eq!(Word::max_value().wrapping_add(&Word::one()), Word::zero());
    assert_eq!(w(2).wrapping_add(&w(3)), w(5));
    let carry = Word { w0: u64::MAX, w1: 0, w2: 0, w3: 0 }.wrapping_add(&Word::one());
    assert_eq!(carry, Word { w0: 0, w1: 1, w2: 0, w3: 0 });
}

#[test]
fn sub_wraps_below_zero() {
    assert_eq!(Word::zero().wrapping_sub(&Word::one()), Word::max_value());
    assert_eq!(w(7).wrapping_sub(&w(3)), w(4));
}

#[test]
fn mul_wraps_at_two_to_the_256() {
    let high = Word { w0: 0, w1: 0, w2: 0, w3: 1u64 << 63 };
    assert_eq!(high.wrapping_mul(&w(2)), Word::zero());
    assert_eq!(w(6).wrapping_mul(&w(7)), w(42));
    assert_eq!(
        Word::max_value().wrapping_mul(&Word::max_value()),
        Word::one()
    );
}

#[test]
fn division_and_remainder() {
    assert_eq!(w(17).div_or_zero(&w(5)), w(3));
    assert_eq!(w(17).rem_or_zero(&w(5)), w(2));
    assert_eq!(w(17).div_or_zero(&Word::zero()), Word::zero());
    assert_eq!(w(17).rem_or_zero(&Word::zero()), Word::zero());
    let big = Word { w0: 0, w1: 0, w2: 1, w3: 0 };
    assert_eq!(big.div_or_zero(&w(2)), Word { w0: 0, w1: 1u64 << 63, w2: 0, w3: 0 });
}

#[test]
fn power_by_squaring() {
    assert_eq!(w(2).wrapping_pow(&w(10)), w(1024));
    assert_eq!(w(3).wrapping_pow(&Word::zero()), Word::one());
    assert_eq!(Word::zero().wrapping_pow(&Word::zero()), Word::one());
    assert_eq!(w(2).wrapping_pow(&w(64)), Word { w0: 0, w1: 1, w2: 0, w3: 0 });
    assert_eq!(w(2).wrapping_pow(&w(256)), Word::zero());
    assert_eq!(w(7).wrapping_pow(&Word::one()), w(7));
}

#[test]
fn comparisons_look_at_the_high_limbs_first() {
    let high = Word { w0: 0, w1: 0, w2: 0, w3: 1 };
    let low = Word { w0: u64::MAX, w1: u64::MAX, w2: u64::MAX, w3: 0 };
    assert!(low.lt(&high));
    assert!(high.gt(&low));
    assert!(!high.lt(&high));
    assert!(!high.gt(&high));
}

#[test]
fn bit_operations_work_limb_by_limb() {
    let a = Word { w0: 0b1100, w1: 1, w2: 0, w3: u64::MAX };
    let b = Word { w0: 0b1010, w1: 0, w2: 2, w3: 1 };
    assert_eq!(a.bitand(&b), Word { w0: 0b1000, w1: 0, w2: 0, w3: 1 });
    assert_eq!(a.bitor(&b), Word { w0: 0b1110, w1: 1, w2: 2, w3: u64::MAX });
    assert_eq!(a.bitxor(&b), Word { w0: 0b0110, w1: 1, w2: 2, w3: u64::MAX - 1 });
    assert_eq!(Word::zero().not(), Word::max_value());
}

#[test]
fn big_endian_bytes_round_trip() {
    let x = Word { w0: 0x0807060504030201, w1: 0, w2: 0, w3: 0xff00000000000000 };
    let bytes = x.to_big_endian();
    assert_eq!(bytes.len(), 32);
    assert_eq!(bytes[0], 0xff);
    assert_eq!(bytes[31], 0x01);
    assert_eq!(bytes[24], 0x08);
    assert_eq!(Word::from_big_endian(&bytes), x);
    assert_eq!(Word::from_big_endian(&[0x01, 0x00]), w(256));
    assert_eq!(Word::from_big_endian(&[]), Word::zero());
}

#[test]
fn byte_counts_from_the_low_end() {
    let x = Word { w0: 0x0807060504030201, w1: 0x11, w2: 0, w3: 0 };
    assert_eq!(x.byte_or_zero(&w(0)), 0x01);
    assert_eq!(x.byte_or_zero(&w(7)), 0x08);
    assert_eq!(x.byte_or_zero(&w(8)), 0x11);
    assert_eq!(x.byte_or_zero(&w(31)), 0);
    assert_eq!(x.byte_or_zero(&w(32)), 0);
    assert_eq!(x.byte_or_zero(&Word::max_value()), 0);
}

#[test]
fn fits_and_low_bits() {
    assert!(w(u64::MAX).fits_u64());
    assert!(!Word { w0: 0, w1: 1, w2: 0, w3: 0 }.fits_u64());
    assert_eq!(Word { w0: 9, w1: 1, w2: 0, w3: 0 }.low_u64(), 9);
}
