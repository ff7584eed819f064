use rtps::{ErrorKind, Time};

#[test]
fn time() {
    assert_eq!(
        Time {
            seconds: 1,
            fraction: 3,
        },
        Time::new(1, 3)
    );
    assert_eq!(
        Time {
            seconds: 0x7fffffff,
            fraction: 0xffffffff,
        },
        Time::infinite()
    );
    assert_eq!(
        Time {
            seconds: 0,
            fraction: 0,
        },
        Time::zero()
    );
}

#[test]
fn time_add() {
    assert!(Time::invalid().checked_add(Time::new(0, 1)).is_none());
    assert!(Time::new(0, 1).checked_add(Time::invalid()).is_none());
    assert!(Time::infinite().checked_add(Time::new(0, 1)).is_none());
    assert!(Time::now().unwrap().checked_add(Time::new(0, 1)).is_some());
    assert_eq!(
        Some(Time::new(2, 10)),
        Time::new(1, 0xffffffff - 9).checked_add(Time::new(0, 20))
    );

    assert_eq!(Time::new(6, 10), Time::new(1, 3) + Time::new(5, 7));
    assert_eq!(
        Time::new(6, 10),
        Time::new(1, 0xfffffff0) + Time::new(4, 26)
    );
}

#[test]
fn time_add_assign() {
    let mut t = Time::zero();
    t = t + Time::new(0, 1);
    t = t + Time::new(0, 1);
    assert_eq!(Time::new(0, 2), t);
}

#[test]
#[should_panic]
fn time_invalid_add() {
    let _ = Time::infinite() + Time::new(0, 1);
}

#[test]
fn time_sub() {
    assert!(Time::invalid().checked_sub(Time::new(0, 1)).is_none());
    assert!(Time::new(0, 1).checked_sub(Time::invalid()).is_none());
    assert!(Time::zero().checked_sub(Time::new(0, 1)).is_none());
    assert!(Time::now().unwrap().checked_sub(Time::new(0, 1)).is_some());
    assert_eq!(
        Some(Time::new(1, 0xffffffff - 9)),
        Time::new(2, 10).checked_sub(Time::new(0, 20))
    );

    assert_eq!(Time::new(1, 3), Time::new(3, 9) - Time::new(2, 6));
    assert_eq!(
        Time::new(1, 0xfffffff0),
        Time::new(3, 10) - Time::new(1, 26)
    );
}

#[test]
fn time_sub_assign() {
    let mut t = Time::new(1, 7);
    t = t - Time::new(0, 1);
    t = t - Time::new(0, 1);
    assert_eq!(Time::new(1, 5), t);
}

#[test]
#[should_panic]
fn time_invalid_sub() {
    let _ = Time::zero() - Time::new(0, 1);
}

#[test]
fn mul() {
    assert!(Time::invalid().checked_mul(10).is_none());
    assert!(Time::new(0, 1).checked_mul(-10).is_none());
    assert!(Time::infinite().checked_mul(2).is_none());
    assert_eq!(Some(Time::zero()), Time::now().unwrap().checked_mul(0));
    assert_eq!(
        Some(Time::new(0x1f, 0xfff00000)),
        Time::new(1, 0xffff0000).checked_mul(0x10)
    );

    assert_eq!(Time::new(6, 12), Time::new(3, 6) * 2);
    assert_eq!(
        Time::new(0x1ff, 0xff000000),
        Time::new(1, 0xffff0000) * 0x100
    );
}

#[test]
fn mul_assign() {
    let mut t = Time::new(1, 7);
    t = t * 2;
    t = t * 2;
    assert_eq!(Time::new(4, 28), t);
}

#[test]
#[should_panic]
fn invalid_mul() {
    let _ = Time::new(0, 1) * -1;
}

#[test]
fn div() {
    assert!(Time::invalid().checked_div(10).is_none());
    assert!(Time::infinite().checked_div(0).is_none());
    assert!(Time::infinite().checked_div(-10).is_none());
    assert_eq!(Time::zero(), Time::zero().checked_div(10).unwrap());
    assert_eq!(
        Some(Time::new(1, 0xffff000)),
        Time::new(0x10, 0xffff0000).checked_div(0x10)
    );

    assert_eq!(Time::new(3, 9), Time::new(6, 18) / 2);
    assert_eq!(
        Time::new(0x1, 0xffffff00),
        Time::new(0x1ff, 0xffff0000) / 0x100
    );
}

#[test]
fn div_assign() {
    let mut t = Time::new(8, 12);
    t = t / 2;
    t = t / 2;
    assert_eq!(Time::new(2, 3), t);
}

#[test]
#[should_panic]
fn invalid_div() {
    let _ = Time::new(0, 1) / -1;
}

#[test]
fn time_order() {
    assert!(Time::new(0, 1) < Time::new(0, 2));
    assert!(Time::new(0, 1) < Time::new(1, 0));
    assert!(Time::new(1, 0) < Time::new(1, 1));
}

#[test]
fn time_div_carries_remainder() {
    assert_eq!(Some(Time::new(2, 2863289685)), Time::new(7, 0xffff0000).checked_div(3));
    assert_eq!(Some(Time::new(0x7fffffff, 0xffffffff)), Time::infinite().checked_div(1));
}

#[test]
fn time_mul_overflow_and_edges() {
    assert!(Time::new(0x40000000, 0).checked_mul(2).is_none());
    assert_eq!(
        Some(Time::new(0x7fffffff, 0xfffffffe)),
        Time::new(0x3fffffff, 0xffffffff).checked_mul(2)
    );
    assert!(Time::new(0, 1).checked_div(0).is_none());
}

#[test]
fn time_validity() {
    assert!(Time::zero().is_valid());
    assert!(Time::infinite().is_valid());
    assert!(!Time::invalid().is_valid());
    assert!(!Time::new(-5, 0).is_valid());
    assert_eq!(Time::zero(), Time::default());
}

#[test]
fn time_now_is_after_2020() {
    let now = Time::now().unwrap();
    assert!(now.is_valid());
    assert!(now.seconds > 1_577_836_800);
}

#[test]
fn time_duration_round_trip() {
    let t = Time::try_from_duration(5, 999_999_999).unwrap();
    assert_eq!(Time::new(5, 4294967291), t);
    assert_eq!((5, 999_999_998), t.try_into_duration().unwrap());
    let half = Time::try_from_duration(0, 500_000_000).unwrap();
    assert_eq!(Time::new(0, 0x80000000), half);
    assert_eq!((0, 500_000_000), half.try_into_duration().unwrap());
    let one = Time::try_from_duration(i32::MAX as u64, 1).unwrap();
    assert_eq!(Time::new(i32::MAX, 4), one);
    assert_eq!((i32::MAX as u64, 0), one.try_into_duration().unwrap());
}

#[test]
fn time_duration_errors() {
    assert_eq!(
        ErrorKind::TryFromInt,
        Time::try_from_duration(i32::MAX as u64 + 1, 0).unwrap_err().kind
    );
    assert_eq!(
        ErrorKind::TryFromInt,
        Time::invalid().try_into_duration().unwrap_err().kind
    );
}
