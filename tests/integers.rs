use complex_numbers::algebra::{One, Ring, Zero};

#[test]
fn identities_of_each_integer_type() {
    assert_eq!(<i32 as Zero>::zero(), 0);
    assert_eq!(<i64 as Zero>::zero(), 0);
    assert_eq!(<u32 as Zero>::zero(), 0);
    assert_eq!(<u64 as Zero>::zero(), 0);
    assert_eq!(<usize as Zero>::zero(), 0);
    assert_eq!(<i32 as One>::one(), 1);
    assert_eq!(<i64 as One>::one(), 1);
    assert_eq!(<u32 as One>::one(), 1);
    assert_eq!(<u64 as One>::one(), 1);
    assert_eq!(<usize as One>::one(), 1);
}

#[test]
fn ring_operations_on_small_values() {
    assert_eq!(7i32.plus(&-3), 4);
    assert_eq!(7i64.minus(&10), -3);
    assert_eq!((-6i32).times(&7), -42);
    assert_eq!(12u32.times(&3), 36);
    assert_eq!(5u64.plus(&6), 11);
    assert_eq!(9usize.minus(&4), 5);
    assert!(0i32.is_zero());
    assert!(!1u64.is_zero());
    assert!(!(-1i64).is_zero());
}

#[test]
fn ring_operations_wrap_around() {
    assert_eq!(i32::MAX.plus(&1), i32::MIN);
    assert_eq!(i64::MIN.minus(&1), i64::MAX);
    assert_eq!(0u32.minus(&1), u32::MAX);
    assert_eq!(u64::MAX.plus(&2), 1);
    assert_eq!(0x1_0000i32.times(&0x1_0000), 0);
    assert_eq!(usize::MAX.times(&usize::MAX), 1);
}
