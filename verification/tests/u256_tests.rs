use pow_header::u256::U256;

#[test]
fn from_u64_and_zero() {
    assert_eq!(U256::zero(), U256 { l0: 0, l1: 0, l2: 0, l3: 0 });
    assert_eq!(U256::from_u64(5), U256 { l0: 5, l1: 0, l2: 0, l3: 0 });
}

#[test]
fn addition_carries_across_limbs() {
    let a = U256 { l0: u64::MAX, l1: 0, l2: 0, l3: 0 };
    let b = U256::from_u64(1);
    assert_eq!(a.add(&b), U256 { l0: 0, l1: 1, l2: 0, l3: 0 });
    let c = U256 { l0: u64::MAX, l1: u64::MAX, l2: u64::MAX, l3: 0 };
    assert_eq!(c.add(&b), U256 { l0: 0, l1: 0, l2: 0, l3: 1 });
}

#[test]
fn subtraction_borrows_across_limbs() {
    let a = U256 { l0: 0, l1: 1, l2: 0, l3: 0 };
    let b = U256::from_u64(1);
    assert_eq!(a.sub(&b), U256 { l0: u64::MAX, l1: 0, l2: 0, l3: 0 });
    let c = U256 { l0: 0, l1: 0, l2: 0, l3: 1 };
    assert_eq!(
        c.sub(&b),
        U256 { l0: u64::MAX, l1: u64::MAX, l2: u64::MAX, l3: 0 }
    );
}

#[test]
fn multiplication_by_small_factor() {
    let a = U256 { l0: u64::MAX, l1: 0, l2: 0, l3: 0 };
    assert_eq!(a.mul_u64(2), Some(U256 { l0: u64::MAX - 1, l1: 1, l2: 0, l3: 0 }));
    assert_eq!(U256::from_u64(1000).mul_u64(99), Some(U256::from_u64(99_000)));
    assert_eq!(a.mul_u64(0), Some(U256::zero()));
}

#[test]
fn multiplication_overflow_is_detected() {
    let top = U256 { l0: 0, l1: 0, l2: 0, l3: u64::MAX };
    assert_eq!(top.mul_u64(u64::MAX), None);
    let all = U256 {
        l0: u64::MAX,
        l1: u64::MAX,
        l2: u64::MAX,
        l3: u64::MAX,
    };
    assert_eq!(all.mul_u64(2), None);
    assert_eq!(all.mul_u64(1), Some(all));
}

#[test]
fn division_with_remainder() {
    let a = U256::from_u64(1_000_000);
    let (q, r) = a.div_rem_u64(10_000);
    assert_eq!(q, U256::from_u64(100));
    assert_eq!(r, 0);
    // 2^64 = 6148914691236517205 * 3 + 1
    let b = U256 { l0: 0, l1: 1, l2: 0, l3: 0 };
    let (q, r) = b.div_rem_u64(3);
    assert_eq!(q, U256::from_u64(6_148_914_691_236_517_205));
    assert_eq!(r, 1);
    let (q, r) = U256::from_u64(7).div_rem_u64(3);
    assert_eq!(q, U256::from_u64(2));
    assert_eq!(r, 1);
}

#[test]
fn ordering_follows_the_values() {
    let small = U256 { l0: u64::MAX, l1: u64::MAX, l2: 0, l3: 0 };
    let big = U256 { l0: 0, l1: 0, l2: 1, l3: 0 };
    assert!(small.le(&big));
    assert!(!big.le(&small));
    assert!(small.le(&small));
    assert!(U256::zero().le(&small));
}
