use pow_header::target::target_for;
use pow_header::u256::U256;

#[test]
fn zero_difficulty_has_no_target() {
    assert_eq!(target_for(&U256::zero()), None);
}

#[test]
fn difficulty_one_allows_any_digest() {
    let all_ones = U256 {
        l0: u64::MAX,
        l1: u64::MAX,
        l2: u64::MAX,
        l3: u64::MAX,
    };
    assert_eq!(target_for(&U256::from_u64(1)), Some(all_ones));
}

#[test]
fn difficulty_two_halves_the_space() {
    let expected = U256 {
        l0: u64::MAX,
        l1: u64::MAX,
        l2: u64::MAX,
        l3: u64::MAX / 2,
    };
    assert_eq!(target_for(&U256::from_u64(2)), Some(expected));
}

#[test]
fn difficulty_three_thirds_the_space() {
    // 2^256 - 1 is divisible by 3; the quotient repeats 0x55.
    let expected = U256 {
        l0: 0x5555_5555_5555_5555,
        l1: 0x5555_5555_5555_5555,
        l2: 0x5555_5555_5555_5555,
        l3: 0x5555_5555_5555_5555,
    };
    assert_eq!(target_for(&U256::from_u64(3)), Some(expected));
}

#[test]
fn difficulty_of_one_limb_shift() {
    // Dividing by 2^64 drops one limb.
    let divisor = U256 { l0: 0, l1: 1, l2: 0, l3: 0 };
    let expected = U256 {
        l0: u64::MAX,
        l1: u64::MAX,
        l2: u64::MAX,
        l3: 0,
    };
    assert_eq!(target_for(&divisor), Some(expected));
}

#[test]
fn target_shrinks_as_difficulty_grows() {
    let easy = target_for(&U256::from_u64(1000)).unwrap();
    let hard = target_for(&U256::from_u64(2000)).unwrap();
    assert!(hard.le(&easy));
    assert!(!easy.le(&hard));
}
