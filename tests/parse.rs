use unitconv::parse::{parse_expr, ParseErrorKind, UnitTarget};

fn assert_err(line: &str, expected_pos: Option<usize>, check: impl FnOnce(&ParseErrorKind)) {
    let err = parse_expr(line).expect_err("expected error");
    assert_eq!(err.pos, expected_pos);
    check(&err.kind);
}

#[test]
fn empty_line() {
    assert_err("", None, |k| assert!(matches!(k, ParseErrorKind::Empty)));
}

#[test]
fn whitespace_only_is_invalid_number() {
    // a line of whitespace alone is reported as empty, without a position
    assert_err("   \n", None, |k| assert!(matches!(k, ParseErrorKind::Empty)));
}

#[test]
fn invalid_number_no_digits() {
    assert_err("-", Some(1), |k| assert!(matches!(k, ParseErrorKind::InvalidNumber)));
    assert_err("+", Some(1), |k| assert!(matches!(k, ParseErrorKind::InvalidNumber)));
    assert_err(".", Some(1), |k| assert!(matches!(k, ParseErrorKind::InvalidNumber)));
}

#[test]
fn invalid_number_trailing_garbage() {
    assert_err("1x km to m", Some(1), |k| assert!(matches!(k, ParseErrorKind::InvalidNumber)));
    assert_err("1.2.3 km to m", Some(3), |k| assert!(matches!(k, ParseErrorKind::InvalidNumber)));
}

#[test]
fn invalid_exponent() {
    assert_err("1e km to m", Some(2), |k| assert!(matches!(k, ParseErrorKind::InvalidExponent)));
    assert_err("1e+ km to m", Some(3), |k| assert!(matches!(k, ParseErrorKind::InvalidExponent)));
    assert_err("1e2x km to m", Some(3), |k| assert!(matches!(k, ParseErrorKind::InvalidExponent)));
}

#[test]
fn missing_to_keyword() {
    assert_err("1 km m", Some(5), |k| assert!(matches!(k, ParseErrorKind::MissingTo)));
    assert_err("1 km too m", Some(5), |k| assert!(matches!(k, ParseErrorKind::MissingTo)));
}

#[test]
fn unknown_unit() {
    assert_err("1 xyz to m", Some(2), |k| match k {
        ParseErrorKind::UnknownUnit(u) => assert_eq!(*u, "xyz"),
        _ => panic!("unexpected kind: {k:?}"),
    });
}

#[test]
fn unexpected_char_in_unit() {
    assert_err("1 *m to m", Some(2), |k| match k {
        ParseErrorKind::UnexpectedChar('*') => {}
        _ => panic!("unexpected kind: {k:?}"),
    });
    assert_err("1 (m to m", Some(2), |k| match k {
        ParseErrorKind::UnexpectedChar('(') => {}
        _ => panic!("unexpected kind: {k:?}"),
    });
}

#[test]
fn unexpected_number_in_unit() {
    assert_err("1 2m to m", Some(2), |k| assert!(matches!(k, ParseErrorKind::UnexpectedNumber)));
    assert_err("1 -m to m", Some(2), |k| assert!(matches!(k, ParseErrorKind::UnexpectedNumber)));
}

#[test]
fn trailing_input() {
    assert_err("1 km to m foo", Some(10), |k| match k {
        ParseErrorKind::BadSyntax(msg) => assert_eq!(*msg, "trailing input"),
        _ => panic!("unexpected kind: {k:?}"),
    });
}

#[test]
fn bad_syntax_expect_token() {
    assert_err("1 ", Some(2), |k| match k {
        ParseErrorKind::BadSyntax(msg) => assert_eq!(*msg, "expect token"),
        _ => panic!("unexpected kind: {k:?}"),
    });
}

#[test]
fn invalid_exponent_in_pow() {
    assert_err("1 m^ to m", Some(5), |k| assert!(matches!(k, ParseErrorKind::InvalidNumber)));
    assert_err("1 m^+ to m", Some(4), |k| assert!(matches!(k, ParseErrorKind::InvalidNumber)));
}

#[test]
fn au_to_au_not_supported() {
    assert_err("1 au to au", None, |k| assert!(matches!(k, ParseErrorKind::AuToAu)));
}

#[test]
fn au_must_single_for_mul_div_pow() {
    assert_err("1 au*m to m", Some(4), |k| assert!(matches!(k, ParseErrorKind::AuMustSingle)));
    assert_err("1 m/au to m", Some(3), |k| assert!(matches!(k, ParseErrorKind::AuMustSingle)));
    assert_err("1 au^2 to m", Some(6), |k| assert!(matches!(k, ParseErrorKind::AuMustSingle)));
}

#[test]
fn incompatible_dimension() {
    assert_err("1 km to s", None, |k| assert!(matches!(k, ParseErrorKind::IncompatibleDim(_, _))));
}

#[test]
fn incompatible_dimension_carries_both_sides() {
    assert_err("1 km to s", None, |k| match k {
        ParseErrorKind::IncompatibleDim(a, b) => {
            assert_eq!(a.render(), "L");
            assert_eq!(b.render(), "T");
        }
        _ => panic!("unexpected kind: {k:?}"),
    });
}

#[test]
fn error_offsets_count_bytes() {
    // 'é' takes two bytes, so the unknown unit after it starts at byte 3
    assert_err("1\u{a0}é to m", Some(1), |k| assert!(matches!(k, ParseErrorKind::InvalidNumber)));
    assert_err("1 km to m é", Some(10), |k| assert!(matches!(k, ParseErrorKind::BadSyntax(_))));
    assert_err("1 \u{3000}xyz to m", Some(5), |k| match k {
        ParseErrorKind::UnknownUnit(u) => assert_eq!(*u, "xyz"),
        _ => panic!("unexpected kind: {k:?}"),
    });
}

#[test]
fn number_text_is_kept() {
    let e = parse_expr("  -1.5e3 m to km").unwrap();
    assert_eq!(e.value, "-1.5e3");
    let e = parse_expr("5. m to km").unwrap();
    assert_eq!(e.value, "5.");
    let e = parse_expr(".5 m to km").unwrap();
    assert_eq!(e.value, ".5");
}

#[test]
fn exponent_out_of_range() {
    assert_err("1 m^99999999999999999999 to m", Some(24), |k| {
        assert!(matches!(k, ParseErrorKind::InvalidExponent))
    });
    let e = parse_expr("1 m^-9223372036854775808 to m^-9223372036854775808").unwrap();
    match e.from {
        UnitTarget::Unit(u) => assert_eq!(u.dim.len, i64::MIN),
        UnitTarget::Au => panic!("expected a unit"),
    }
    assert_err("1 m/m^-9223372036854775808 to m", Some(26), |k| {
        assert!(matches!(k, ParseErrorKind::InvalidExponent))
    });
    assert_err("1 J^9223372036854775807 to m", Some(23), |k| {
        assert!(matches!(k, ParseErrorKind::InvalidExponent))
    });
}

#[test]
fn compound_symbols_and_dimensions() {
    let e = parse_expr("1 N/m^2 to kPa").unwrap();
    match (&e.from, &e.to) {
        (UnitTarget::Unit(f), UnitTarget::Unit(t)) => {
            assert_eq!(f.symbol, "N/m^2");
            assert_eq!(f.dim, t.dim);
            assert_eq!(f.dim.render(), "L^-1_M_T^-2");
            assert_eq!(f.scale.len(), 2);
            assert_eq!(f.scale[1].power, -2);
        }
        _ => panic!("expected units"),
    }
    let e = parse_expr("1 m/s^-2 to m*s^2").unwrap();
    match (&e.from, &e.to) {
        (UnitTarget::Unit(f), UnitTarget::Unit(t)) => {
            assert_eq!(f.symbol, "m/s^-2");
            assert_eq!(t.symbol, "m*s^2");
            assert_eq!(f.dim, t.dim);
        }
        _ => panic!("expected units"),
    }
}

#[test]
fn malformed_numbers_fail_at_first_bad_char() {
    for (line, pos, exponent) in [
        ("-", 1, false),
        ("+", 1, false),
        (".", 1, false),
        ("1.2.3", 3, false),
        ("1e", 2, true),
        ("1e+", 3, true),
    ] {
        let err = parse_expr(line).expect_err("expected error");
        assert_eq!(err.pos, Some(pos), "{line}");
        if exponent {
            assert!(matches!(err.kind, ParseErrorKind::InvalidExponent), "{line}");
        } else {
            assert!(matches!(err.kind, ParseErrorKind::InvalidNumber), "{line}");
        }
    }
}
