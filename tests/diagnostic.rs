use unitconv::catalog::{catalog_entry, lookup_unit, Decimal, CATALOG_LEN};
use unitconv::parse::{parse_expr, ParseError, ParseErrorKind};
use unitconv::repl::{parse_repl, ReplCmd};

#[test]
fn messages() {
    assert_eq!(ParseErrorKind::Empty.message(), "Line is empty");
    assert_eq!(ParseErrorKind::MissingTo.message(), "Missing 'to'");
    assert_eq!(ParseErrorKind::UnknownUnit("xyz".to_string()).message(), "Unknown unit: xyz");
    assert_eq!(ParseErrorKind::UnexpectedChar('(').message(), "Unexpected Char (");
    assert_eq!(ParseErrorKind::BadSyntax("trailing input".to_string()).message(), "Bad syntax trailing input");
    let k = parse_expr("1 km to s").unwrap_err().kind;
    assert_eq!(k.message(), "Incompatible dimension from:L to:T");
}

#[test]
fn caret_diagnostics() {
    let e = parse_expr("1 xyz to m\n").unwrap_err();
    assert_eq!(e.render(), "1 xyz to m\n  ^---Unknown unit: xyz\n");
    assert_eq!(e.format_repl(), "        ^---Unknown unit: xyz");
    let e = parse_expr("1 au to au").unwrap_err();
    assert_eq!(e.render(), "Au to Au not supported\n");
    assert_eq!(e.format_repl(), "Au to Au not supported");
    let e = ParseError::new("x".to_string(), Some(0), ParseErrorKind::InvalidNumber);
    assert_eq!(e.line, "x");
    assert_eq!(e.render(), "x\n^---Invalid number\n");
}

#[test]
fn catalog_lookups() {
    let chars: Vec<char> = "xkWhx".chars().collect();
    let (d, f) = lookup_unit(&chars, 1, 4).unwrap();
    assert_eq!(d.render(), "L^2_M_T^-2");
    assert_eq!(f, Decimal { mantissa: 36, exp10: 5 });
    assert_eq!(lookup_unit(&chars, 0, 4), None);
    assert_eq!(catalog_entry(0).symbol, "m");
    assert_eq!(catalog_entry(CATALOG_LEN - 1).symbol, "barye");
    assert_eq!(catalog_entry(CATALOG_LEN - 1).group, "pressure");
}

#[test]
fn repl_commands() {
    assert!(matches!(parse_repl("  "), ReplCmd::Empty));
    assert!(matches!(parse_repl(" help "), ReplCmd::Help));
    assert!(matches!(parse_repl("quit"), ReplCmd::Exit));
    assert!(matches!(parse_repl("exit"), ReplCmd::Exit));
    assert!(matches!(parse_repl("list"), ReplCmd::List(None)));
    match parse_repl("list  energy ") {
        ReplCmd::List(Some(g)) => assert_eq!(g, "energy"),
        _ => panic!("expected a group"),
    }
    match parse_repl("list a b") {
        ReplCmd::Invalid(m) => assert_eq!(m, "usage: list [group]"),
        _ => panic!("expected usage"),
    }
    match parse_repl("  10 km to m  ") {
        ReplCmd::Expr(e) => assert_eq!(e.value, "10"),
        _ => panic!("expected a conversion"),
    }
    match parse_repl("  1 xyz to m") {
        ReplCmd::Invalid(m) => assert_eq!(m, "        ^---Unknown unit: xyz"),
        _ => panic!("expected a diagnostic"),
    }
}

#[test]
fn positionless_faults_render_as_one_line() {
    let e = parse_expr("1 km to s\n").unwrap_err();
    assert_eq!(e.render(), "Incompatible dimension from:L to:T\n");
    let e = parse_expr("").unwrap_err();
    assert_eq!(e.render(), "Line is empty\n");
}
