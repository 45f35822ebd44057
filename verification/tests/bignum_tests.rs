use cvss_rs::bignum::{BigInt, BigNat};
use cvss_rs::v3::scoring::round_big;

fn digits(n: &BigNat) -> Vec<u32> {
    let mut v = n.limbs.clone();
    while v.last() == Some(&0) {
        v.pop();
    }
    v
}

#[test]
fn test_bignat_from_u128() {
    assert_eq!(digits(&BigNat::zero()), Vec::<u32>::new());
    assert_eq!(digits(&BigNat::from_u128(0)), Vec::<u32>::new());
    assert_eq!(digits(&BigNat::from_u128(5)), vec![5]);
    assert_eq!(digits(&BigNat::from_u128(1 << 32)), vec![0, 1]);
    assert_eq!(digits(&BigNat::from_u128(u128::MAX)), vec![u32::MAX; 4]);
    assert_eq!(digits(&BigNat::from_u128(0x1_0000_0002_0000_0003)), vec![3, 2, 1]);
}

#[test]
fn test_bignat_mul_small() {
    let a = BigNat::from_u128(u128::MAX);
    // (2^128 - 1) * 3 = 2 * 2^128 + (2^128 - 3)
    assert_eq!(digits(&a.mul_small(3)), vec![u32::MAX - 2, u32::MAX, u32::MAX, u32::MAX, 2]);
    assert_eq!(digits(&a.mul_small(0)), Vec::<u32>::new());
    assert_eq!(digits(&a.mul_small(1)), vec![u32::MAX; 4]);
    let b = BigNat::from_u128(1_000_000_007);
    assert_eq!(digits(&b.mul_small(1_000_000_009)), digits(&BigNat::from_u128(1_000_000_007 * 1_000_000_009)));
    // A multiplier of more than one digit.
    let m: u128 = (1 << 95) + 12345;
    let c = BigNat::from_u128(7);
    assert_eq!(digits(&c.mul_small(m)), digits(&BigNat::from_u128(7 * m)));
}

#[test]
fn test_bignat_add_and_sub() {
    let a = BigNat::from_u128(u128::MAX);
    let one = BigNat::from_u128(1);
    let sum = a.add(&one);
    assert_eq!(digits(&sum), vec![0, 0, 0, 0, 1]);
    assert_eq!(digits(&sum.sub(&one)), vec![u32::MAX; 4]);
    assert_eq!(digits(&sum.sub(&a)), vec![1]);
    assert_eq!(digits(&sum.sub(&sum)), Vec::<u32>::new());
    assert_eq!(digits(&one.add(&BigNat::zero())), vec![1]);
    let x = BigNat::from_u128(123_456_789_012_345_678_901_234_567_890);
    let y = BigNat::from_u128(987_654_321_098_765_432_109_876_543);
    assert_eq!(
        digits(&x.add(&y)),
        digits(&BigNat::from_u128(123_456_789_012_345_678_901_234_567_890 + 987_654_321_098_765_432_109_876_543))
    );
    assert_eq!(
        digits(&x.sub(&y)),
        digits(&BigNat::from_u128(123_456_789_012_345_678_901_234_567_890 - 987_654_321_098_765_432_109_876_543))
    );
    assert_eq!(digits(&x.copy()), digits(&x));
}

#[test]
fn test_bignat_le() {
    let small = BigNat::from_u128(5);
    let large = BigNat::from_u128(1 << 100);
    assert!(small.le(&large));
    assert!(!large.le(&small));
    assert!(small.le(&small));
    assert!(BigNat::zero().le(&small));
    assert!(BigNat::zero().le(&BigNat::zero()));
    // Zero digits at the top do not count.
    let padded = BigNat { limbs: vec![5, 0, 0, 0, 0, 0] };
    assert!(padded.le(&small));
    assert!(small.le(&padded));
    assert!(padded.le(&large));
    assert!(BigNat::from_u128((1 << 64) + 1).le(&BigNat::from_u128((1 << 64) + 2)));
    assert!(!BigNat::from_u128((2 << 64) + 1).le(&BigNat::from_u128((1 << 64) + 2)));
}

fn signed(n: &BigInt) -> (bool, Vec<u32>) {
    let d = digits(&n.magnitude);
    (n.negative && !d.is_empty(), d)
}

#[test]
fn test_bigint() {
    assert_eq!(signed(&BigInt::from_i128(-7)), (true, vec![7]));
    assert_eq!(signed(&BigInt::from_i128(7)), (false, vec![7]));
    assert_eq!(signed(&BigInt::from_i128(-7).mul_small(-3)), (false, vec![21]));
    assert_eq!(signed(&BigInt::from_i128(7).mul_small(-3)), (true, vec![21]));
    assert_eq!(signed(&BigInt::from_i128(-7).add(&BigInt::from_i128(10))), (false, vec![3]));
    assert_eq!(signed(&BigInt::from_i128(-7).add(&BigInt::from_i128(3))), (true, vec![4]));
    assert_eq!(signed(&BigInt::from_i128(-7).add(&BigInt::from_i128(-3))), (true, vec![10]));
    assert_eq!(signed(&BigInt::from_i128(7).sub(&BigInt::from_i128(10))), (true, vec![3]));
    assert_eq!(signed(&BigInt::from_i128(7).sub(&BigInt::from_i128(-10))), (false, vec![17]));
    assert_eq!(signed(&BigInt::from_i128(7).sub(&BigInt::from_i128(7))), (false, vec![]));
    assert!(BigInt::from_i128(0).is_not_positive());
    assert!(BigInt::from_i128(-1).is_not_positive());
    assert!(!BigInt::from_i128(1).is_not_positive());
    assert!(BigInt::from_i128(5).sub(&BigInt::from_i128(5)).is_not_positive());
}

#[test]
fn test_bigint_pow() {
    assert_eq!(signed(&BigInt::pow(2, 10)), (false, vec![1024]));
    assert_eq!(signed(&BigInt::pow(-2, 3)), (true, vec![8]));
    assert_eq!(signed(&BigInt::pow(-2, 4)), (false, vec![16]));
    assert_eq!(signed(&BigInt::pow(12345, 0)), (false, vec![1]));
    assert_eq!(signed(&BigInt::pow(0, 5)), (false, vec![]));
    // 2^100
    assert_eq!(signed(&BigInt::pow(2, 100)), (false, vec![0, 0, 0, 16]));
    // 10^30 = 0xC9F2C9CD04674EDEA40000000
    assert_eq!(signed(&BigInt::pow(10, 30)), (false, vec![0x4000_0000, 0x4674_EDEA, 0x9F2C_9CD0, 0xC]));
}

#[test]
fn test_round_big() {
    let den = BigNat::from_u128(1000);
    assert_eq!(round_big(&BigInt::from_i128(12_499), &den).tenths(), 12);
    assert_eq!(round_big(&BigInt::from_i128(12_500), &den).tenths(), 13);
    assert_eq!(round_big(&BigInt::from_i128(0), &den).tenths(), 0);
    assert_eq!(round_big(&BigInt::from_i128(-12_500), &den).tenths(), 0);
    assert_eq!(round_big(&BigInt::from_i128(499), &den).tenths(), 0);
    assert_eq!(round_big(&BigInt::from_i128(500), &den).tenths(), 1);
    assert_eq!(round_big(&BigInt::from_i128(99_499), &den).tenths(), 99);
    assert_eq!(round_big(&BigInt::from_i128(99_500), &den).tenths(), 100);
    assert_eq!(round_big(&BigInt::from_i128(1_000_000_000), &den).tenths(), 100);
    // Beyond a machine word: 37.5 * 10^40 over 10^40.
    let big_den = BigInt::pow(10, 40);
    let num = BigInt::pow(10, 39).mul_small(375);
    assert_eq!(round_big(&num, &big_den.magnitude).tenths(), 38);
    let num = BigInt::pow(10, 39).mul_small(375).sub(&BigInt::from_i128(1));
    assert_eq!(round_big(&num, &big_den.magnitude).tenths(), 37);
}
