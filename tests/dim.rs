use unitconv::dim::Dim;

#[test]
fn dim_constructors() {
    assert_eq!(Dim::zero(), Dim::new(0, 0, 0, 0, 0));
    assert_eq!(Dim::len(2), Dim::new(2, 0, 0, 0, 0));
    assert_eq!(Dim::mass(-1), Dim::new(0, -1, 0, 0, 0));
    assert_eq!(Dim::time(3), Dim::new(0, 0, 3, 0, 0));
    assert_eq!(Dim::temp(1), Dim::new(0, 0, 0, 1, 0));
    assert_eq!(Dim::curr(4), Dim::new(0, 0, 0, 0, 4));
}

#[test]
fn dim_arithmetic() {
    let energy = Dim::new(2, 1, -2, 0, 0);
    let force = Dim::new(1, 1, -2, 0, 0);
    assert_eq!(energy.div(force), Dim::len(1));
    assert_eq!(force.mul(Dim::len(1)), energy);
    assert_eq!(Dim::len(1).pow(3), Dim::len(3));
    assert_eq!(energy.pow(0), Dim::zero());
    assert_eq!(energy.pow(-2), Dim::new(-4, -2, 4, 0, 0));
}

#[test]
fn dim_checked_arithmetic() {
    assert_eq!(Dim::len(i64::MAX).checked_mul(Dim::len(1)), None);
    assert_eq!(Dim::len(1).checked_mul(Dim::len(2)), Some(Dim::len(3)));
    assert_eq!(Dim::len(i64::MIN).checked_div(Dim::len(1)), None);
    assert_eq!(Dim::len(3).checked_div(Dim::len(1)), Some(Dim::len(2)));
    assert_eq!(Dim::len(2).checked_pow(i64::MAX), None);
    assert_eq!(Dim::len(1).checked_pow(i64::MIN), Some(Dim::len(i64::MIN)));
}

#[test]
fn dim_render() {
    assert_eq!(Dim::zero().render(), "1");
    assert_eq!(Dim::len(1).render(), "L");
    assert_eq!(Dim::new(2, 1, -2, 0, 0).render(), "L^2_M_T^-2");
    assert_eq!(Dim::new(0, 0, 1, 0, 1).render(), "T_I");
    assert_eq!(Dim::temp(-10).render(), "Θ^-10");
    assert_eq!(Dim::curr(i64::MIN).render(), "I^-9223372036854775808");
}

#[test]
fn whitespace_class_matches_std() {
    for c in (0u32..=0x10ffff).filter_map(char::from_u32) {
        assert_eq!(unitconv::text::char_is_whitespace(c), c.is_whitespace(), "{:?}", c);
    }
}
