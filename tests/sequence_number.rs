use rtps::SequenceNumber;

#[test]
fn sequence_number_sequence_number() {
    assert_eq!(SequenceNumber::new(0, 1), SequenceNumber::default());
    assert_eq!(SequenceNumber::new(0, 0), SequenceNumber::zero());
    assert_eq!(-1i64 << 32, SequenceNumber::unknown().into());
    assert_eq!(SequenceNumber::unknown(), SequenceNumber::from(-1i64 << 32));
}

#[test]
fn sequence_number_add() {
    assert!(SequenceNumber::unknown()
        .checked_add(SequenceNumber::from(1))
        .is_none());
    assert!(SequenceNumber::from(1)
        .checked_add(SequenceNumber::unknown())
        .is_none());
    assert_eq!(
        Some(SequenceNumber::new(1, 1)),
        SequenceNumber::new(0, 0xffffffff).checked_add(SequenceNumber::new(0, 2))
    );

    assert_eq!(
        SequenceNumber::new(3, 7),
        SequenceNumber::new(1, 3) + SequenceNumber::new(2, 4)
    );
    assert_eq!(
        SequenceNumber::new(1, 10),
        SequenceNumber::new(0, 0xfffffff0) + SequenceNumber::new(0, 26)
    );
}

#[test]
fn sequence_number_add_assign() {
    let mut n = SequenceNumber::zero();
    n = n + SequenceNumber::from(1);
    n = n + SequenceNumber::from(1);
    assert_eq!(SequenceNumber::new(0, 2), n);
}

#[test]
#[should_panic]
fn sequence_number_invalid_add() {
    let _ = SequenceNumber::unknown() + SequenceNumber::from(1);
}

#[test]
fn sequence_number_sub() {
    assert!(SequenceNumber::unknown()
        .checked_sub(SequenceNumber::from(1))
        .is_none());
    assert!(SequenceNumber::from(1)
        .checked_sub(SequenceNumber::unknown())
        .is_none());
    assert_eq!(
        Some(SequenceNumber::new(0, 0xffffffff)),
        SequenceNumber::new(1, 1).checked_sub(SequenceNumber::new(0, 2))
    );

    assert_eq!(
        SequenceNumber::new(1, 2),
        SequenceNumber::new(3, 5) - SequenceNumber::new(2, 3)
    );
    assert_eq!(
        SequenceNumber::new(1, 4),
        SequenceNumber::new(2, 3) - SequenceNumber::new(0, 0xffffffff)
    );
}

#[test]
fn sequence_number_sub_assign() {
    let mut n = SequenceNumber::new(1, 5);
    n = n - SequenceNumber::from(1);
    n = n - SequenceNumber::from(1);
    assert_eq!(SequenceNumber::new(1, 3), n);
}

#[test]
#[should_panic]
fn sequence_number_invalid_sub() {
    let _ = SequenceNumber::unknown() - SequenceNumber::from(1);
}

#[test]
fn sequence_number_order() {
    assert!(SequenceNumber::new(0, 0) < SequenceNumber::new(0, 1));
    assert!(SequenceNumber::new(0, 1) < SequenceNumber::new(1, 0));
    assert!(SequenceNumber::new(1, 0) < SequenceNumber::new(1, 1));
}

#[test]
fn sequence_number_order_is_lexicographic() {
    assert!(SequenceNumber::new(-1, 0xffffffff) < SequenceNumber::new(0, 0));
    assert!(SequenceNumber::new(2, 0) > SequenceNumber::new(1, 0xffffffff));
    assert_eq!(
        Some(std::cmp::Ordering::Equal),
        SequenceNumber::new(4, 4).partial_cmp(&SequenceNumber::new(4, 4))
    );
}

#[test]
fn sequence_number_add_then_sub_gives_back() {
    let a = SequenceNumber::new(7, 0xfffffffe);
    let b = SequenceNumber::new(3, 5);
    let c = a.checked_add(b).unwrap();
    assert_eq!(SequenceNumber::new(11, 3), c);
    assert_eq!(Some(a), c.checked_sub(b));
}

#[test]
fn sequence_number_unknown_absorbs() {
    let u = SequenceNumber::unknown();
    for x in [SequenceNumber::zero(), SequenceNumber::new(5, 9), u] {
        assert!(u.checked_add(x).is_none());
        assert!(x.checked_add(u).is_none());
        assert!(u.checked_sub(x).is_none());
        assert!(x.checked_sub(u).is_none());
    }
}

#[test]
fn sequence_number_overflow_and_negative_results() {
    assert!(SequenceNumber::new(i32::MAX, 0xffffffff)
        .checked_add(SequenceNumber::new(0, 1))
        .is_none());
    assert!(SequenceNumber::new(0, 1)
        .checked_sub(SequenceNumber::new(0, 2))
        .is_none());
    assert_eq!(
        Some(SequenceNumber::zero()),
        SequenceNumber::new(3, 3).checked_sub(SequenceNumber::new(3, 3))
    );
}

#[test]
fn sequence_number_i64_conversions() {
    assert_eq!(SequenceNumber::new(-1, 0xffffffff), SequenceNumber::from(-1i64));
    assert_eq!(SequenceNumber::new(1, 2), SequenceNumber::from((1i64 << 32) + 2));
    assert_eq!(SequenceNumber::new(i32::MIN, 0), SequenceNumber::from(i64::MIN));
    assert_eq!(SequenceNumber::new(i32::MAX, u32::MAX), SequenceNumber::from(i64::MAX));
    assert_eq!((5i64 << 32) + 9, SequenceNumber::new(5, 9).into_inner());
    assert_eq!(-2i64, SequenceNumber::new(-1, 0xfffffffe).into_inner());
}
