use unitconv::catalog::Decimal;
use unitconv::convert::{plan_conversion, ConversionPlan};
use unitconv::parse::{parse_expr, ParseErrorKind, ScaleTerm};

fn decimal_value(d: Decimal) -> f64 {
    format!("{}e{}", d.mantissa, d.exp10).parse::<f64>().unwrap()
}

fn product(terms: &[ScaleTerm]) -> f64 {
    terms.iter().map(|t| decimal_value(t.base).powi(t.power as i32)).product()
}

fn evaluate(plan: &ConversionPlan) -> f64 {
    let v = plan.value.parse::<f64>().unwrap();
    v * product(&plan.from_scale) / product(&plan.to_scale)
}

fn convert(line: &str) -> String {
    let expr = parse_expr(line).unwrap();
    let plan = plan_conversion(expr).unwrap();
    let mut buffer = ryu::Buffer::new();
    format!("{} {}", buffer.format(evaluate(&plan)), plan.symbol)
}

fn approx_eq(a: f64, b: f64, rel: f64, abs: f64) -> bool {
    let d = (a - b).abs();
    d <= abs || d <= rel * b.abs().max(1.0)
}

fn parse_value_and_unit(out: &str) -> (f64, &str) {
    let mut it = out.split_whitespace();
    let v = it.next().unwrap().parse::<f64>().unwrap();
    let u = it.next().unwrap();
    (v, u)
}

fn assert_conv(line: &str, expected: f64, expected_unit: &str) {
    let out = convert(line);
    let (v, u) = parse_value_and_unit(&out);
    assert_eq!(u, expected_unit);
    assert!(
        approx_eq(v, expected, 1e-12, 1e-12),
        "line={line} out={out} expected={expected} {expected_unit}"
    );
}

#[test]
fn basic_length() {
    assert_conv("10 km to m", 10_000.0, "m");
    assert_conv("1 m to cm", 100.0, "cm");
    assert_conv("250 cm to m", 2.5, "m");
    assert_conv("1 angstrom to m", 1e-10, "m");
}

#[test]
fn basic_time() {
    assert_conv("2 hour to s", 7200.0, "s");
    assert_conv("90 min to hour", 1.5, "hour");
    assert_conv("1000 ms to s", 1.0, "s");
    assert_conv("1 day to hour", 24.0, "hour");
}

#[test]
fn energy_and_charge() {
    assert_conv("1 kWh to J", 3.6e6, "J");
    assert_conv("500 mAh to C", 1800.0, "C");
    assert_conv("1 Ah to C", 3600.0, "C");
    assert_conv("2 kcal to J", 8368.0, "J");
}

#[test]
fn force_and_pressure() {
    assert_conv("10 kN to N", 10_000.0, "N");
    assert_conv("1 bar to Pa", 100_000.0, "Pa");
    assert_conv("101325 Pa to atm", 1.0, "atm");
}

#[test]
fn composite_units_mul_div_pow() {
    assert_conv("1 m/s to km/hour", 3.6, "km/hour");
    assert_conv("1 m^2 to cm^2", 10_000.0, "cm^2");
    assert_conv("1 m/s^2 to m/s^2", 1.0, "m/s^2");
    assert_conv("1000 N/m^2 to kPa", 1.0, "kPa");
}

#[test]
fn au_conversions() {
    assert_conv("1 au to m", 5.291772108e-11, "m");
    assert_conv("1 m to au", 1.0 / 5.291772108e-11, "au");
    assert_conv("1 au to s", 2.418884326505e-17, "s");
    assert_conv("1 s to au", 1.0 / 2.418884326505e-17, "au");
}

#[test]
fn number_formats() {
    assert_conv("1e3 m to km", 1.0, "km");
    assert_conv("+2.5e2 cm to m", 2.5, "m");
    assert_conv("-1.5e3 m to km", -1.5, "km");
}

#[test]
fn scenario_outputs() {
    assert_eq!(convert("10 km to m"), "10000.0 m");
    assert_eq!(convert("2 hour to s"), "7200.0 s");
    assert_eq!(convert("1 kWh to J"), "3600000.0 J");
    assert_eq!(convert("1 bar to Pa"), "100000.0 Pa");
    let (v, u) = (convert("1 m/s to km/hour"), "km/hour");
    let (x, unit) = parse_value_and_unit(&v);
    assert!(approx_eq(x, 3.6, 1e-12, 1e-12));
    assert_eq!(unit, u);
    assert_conv("1 au to m", 0.00000000005291772108, "m");
    assert!(matches!(parse_expr("1 au to au").unwrap_err().kind, ParseErrorKind::AuToAu));
    assert!(matches!(
        parse_expr("1 km to s").unwrap_err().kind,
        ParseErrorKind::IncompatibleDim(_, _)
    ));
}

#[test]
fn identity_round_trip_over_catalog() {
    for i in 0..unitconv::catalog::CATALOG_LEN {
        let name = unitconv::catalog::catalog_entry(i).symbol;
        let line = format!("3.25 {name} to {name}");
        let plan = plan_conversion(parse_expr(&line).unwrap()).unwrap();
        assert_eq!(plan.from_scale, plan.to_scale);
        assert_eq!(plan.symbol, name);
        assert!(approx_eq(evaluate(&plan), 3.25, 1e-12, 1e-12), "{line}");
    }
}

#[test]
fn two_way_round_trip() {
    for (a, b) in [("km", "angstrom"), ("hour", "ms"), ("kWh", "eV"), ("psi", "Torr"), ("au", "J")] {
        if parse_expr(&format!("1 {a} to {b}")).is_err() {
            continue;
        }
        let there = plan_conversion(parse_expr(&format!("7.5 {a} to {b}")).unwrap()).unwrap();
        let mid = evaluate(&there);
        let back = plan_conversion(parse_expr(&format!("{mid:e} {b} to {a}")).unwrap()).unwrap();
        assert_eq!(back.from_scale, there.to_scale);
        assert_eq!(back.to_scale, there.from_scale);
        assert!(approx_eq(evaluate(&back), 7.5, 1e-12, 1e-12), "{a} {b}");
    }
}

#[test]
fn dimension_mismatch_over_catalog_pairs() {
    let n = unitconv::catalog::CATALOG_LEN;
    for i in 0..n {
        for j in 0..n {
            let a = unitconv::catalog::catalog_entry(i);
            let b = unitconv::catalog::catalog_entry(j);
            let r = parse_expr(&format!("1 {} to {}", a.symbol, b.symbol));
            if a.dim == b.dim {
                assert!(r.is_ok());
            } else {
                assert!(matches!(r.unwrap_err().kind, ParseErrorKind::IncompatibleDim(x, y) if x == a.dim && y == b.dim));
            }
        }
    }
}

#[test]
fn atomic_units_take_other_side_dimension() {
    let plan = plan_conversion(parse_expr("1 au to J").unwrap()).unwrap();
    let powers: Vec<i64> = plan.from_scale.iter().map(|t| t.power).collect();
    assert_eq!(powers, vec![2, 1, -2, 0, 0]);
    assert_eq!(plan.symbol, "J");
    let plan = plan_conversion(parse_expr("1 m/s to au").unwrap()).unwrap();
    let powers: Vec<i64> = plan.to_scale.iter().map(|t| t.power).collect();
    assert_eq!(powers, vec![1, 0, -1, 0, 0]);
    assert_eq!(plan.symbol, "au");
}
