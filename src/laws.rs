//! Laws that relate the parser's checks and the conversion plan.

use vstd::prelude::*;
use crate::catalog::{CATALOG_LEN, catalog_lookup, catalog_row, find_from};
use crate::convert::plan_spec;
use crate::parse::{
    ExprModel, KindModel, TargetModel, UnitModel, combine, combine_fits, expr_rest, parse_spec,
    request_fault, single_unit, skip_ws, term_spec, ErrModel, ident_end, is_ident_char,
};
use crate::text::{is_alpha, is_ascii_white, is_digit};
use crate::parse::{digits_end, has_digit, is_sign, mantissa_end, number_spec};

verus! {

/// Converting from a unit to itself is accepted, and multiplies and divides the
/// value by the same factors, so the value comes back unchanged.
pub proof fn law_identity(value: Seq<char>, u: UnitModel)
    ensures
        request_fault(TargetModel::Unit(u), TargetModel::Unit(u)) is None,
        plan_spec(ExprModel { value, from: TargetModel::Unit(u), to: TargetModel::Unit(u) }) matches Some(
            p,
        ) && p.value == value && p.from_scale == u.scale && p.to_scale == u.scale && p.symbol
            == u.symbol,
{
}

/// A conversion that is accepted can be reversed: the reverse is accepted too,
/// and it multiplies by the factors the first divided by and divides by the
/// factors the first multiplied by, so converting there and back returns the value.
pub proof fn law_round_trip(value: Seq<char>, back: Seq<char>, a: TargetModel, b: TargetModel)
    requires
        request_fault(a, b) is None,
    ensures
        request_fault(b, a) is None,
        plan_spec(ExprModel { value, from: a, to: b }) matches Some(p)
            && plan_spec(ExprModel { value: back, from: b, to: a }) matches Some(q)
            && q.from_scale == p.to_scale && q.to_scale == p.from_scale,
{
}

/// A line that parses never pairs units of different dimensions, nor atomic
/// units with atomic units; such a line fails without a position.
pub proof fn law_accepted_requests(s: Seq<char>)
    ensures
        parse_spec(s) matches Ok(m) ==> request_fault(m.from, m.to) is None,
        parse_spec(s) matches Err(e) ==> ((e.kind is IncompatibleDim || e.kind is AuToAu
            || e.kind is Empty) <==> e.at is None),
{
    if skip_ws(s, 0) < s.len() {
        if let Ok((a, b)) = crate::parse::number_spec(s, 0) {
            if let Ok((t, q)) = term_spec(s, b) {
                lemma_rest_positioned(s, t, q);
                if let Ok((from, c)) = expr_rest(s, t, q) {
                    if let Ok(d) = crate::parse::kw_to_spec(s, c) {
                        if let Ok((t2, q2)) = term_spec(s, d) {
                            lemma_rest_positioned(s, t2, q2);
                        }
                    }
                }
            }
        }
    }
}

/// Every fault in a unit expression after its first term has a position.
proof fn lemma_rest_positioned(s: Seq<char>, lhs: TargetModel, j: int)
    ensures
        expr_rest(s, lhs, j) matches Err(e) ==> e.at is Some && !(e.kind is IncompatibleDim
            || e.kind is AuToAu || e.kind is Empty),
    decreases s.len() - j,
{
    let k = skip_ws(s, j);
    if 0 <= k < s.len() && (s[k] == '*' || s[k] == '/') {
        if let Ok((rhs, j2)) = term_spec(s, k + 1) {
            if j < j2 <= s.len() {
                if let (TargetModel::Unit(l), TargetModel::Unit(r)) = (lhs, rhs) {
                    if combine_fits(l, s[k], r) {
                        lemma_rest_positioned(s, TargetModel::Unit(combine(l, s[k], r)), j2);
                    }
                }
            }
        }
    }
}

/// Every character of `n` from index `j` on is an ASCII letter.
pub open spec fn letters_from(n: Seq<char>, j: int) -> bool
    decreases n.len() - j,
{
    if j < 0 || j >= n.len() {
        true
    } else {
        is_alpha(n[j]) && letters_from(n, j + 1)
    }
}

/// A catalog name: ASCII letters, at least one, and not `au`.
pub open spec fn plain_name(n: Seq<char>) -> bool {
    &&& n.len() >= 1
    &&& letters_from(n, 0)
    &&& (n.len() != 2 || n[0] != 'a' || n[1] != 'u')
}

proof fn lemma_letters(n: Seq<char>, j: int)
    requires
        0 <= j,
        letters_from(n, j),
    ensures
        forall|i: int| j <= i < n.len() ==> is_alpha(n[i]),
    decreases n.len() - j,
{
    if j < n.len() {
        lemma_letters(n, j + 1);
    }
}

proof fn lemma_catalog_name(k: int)
    requires
        0 <= k < CATALOG_LEN,
    ensures
        plain_name(catalog_row(k).name),
{
    reveal_with_fuel(letters_from, 10);
    if k == 0 {
    } else if k == 1 {
    } else if k == 2 {
    } else if k == 3 {
    } else if k == 4 {
    } else if k == 5 {
    } else if k == 6 {
    } else if k == 7 {
    } else if k == 8 {
    } else if k == 9 {
    } else if k == 10 {
    } else if k == 11 {
    } else if k == 12 {
    } else if k == 13 {
    } else if k == 14 {
    } else if k == 15 {
    } else if k == 16 {
    } else if k == 17 {
    } else if k == 18 {
    } else if k == 19 {
    } else if k == 20 {
    } else if k == 21 {
    } else if k == 22 {
    } else if k == 23 {
    } else if k == 24 {
    } else if k == 25 {
    } else if k == 26 {
    } else if k == 27 {
    } else if k == 28 {
    } else if k == 29 {
    } else if k == 30 {
    } else if k == 31 {
    } else if k == 32 {
    } else if k == 33 {
    } else if k == 34 {
    } else if k == 35 {
    } else if k == 36 {
    } else if k == 37 {
    } else if k == 38 {
    } else if k == 39 {
    } else if k == 40 {
    } else if k == 41 {
    } else if k == 42 {
    } else if k == 43 {
    } else if k == 44 {
    } else if k == 45 {
    } else if k == 46 {
    } else if k == 47 {
    } else if k == 48 {
    } else if k == 49 {
    } else if k == 50 {
    } else if k == 51 {
    } else if k == 52 {
    } else if k == 53 {
    } else if k == 54 {
    } else if k == 55 {
    } else if k == 56 {
    } else if k == 57 {
    } else if k == 58 {
    } else if k == 59 {
    } else if k == 60 {
    } else if k == 61 {
    } else if k == 62 {
    } else if k == 63 {
    } else if k == 64 {
    } else if k == 65 {
    } else if k == 66 {
    } else if k == 67 {
    } else if k == 68 {
    } else if k == 69 {
    } else if k == 70 {
    } else if k == 71 {
    } else if k == 72 {
    } else if k == 73 {
    } else if k == 74 {
    } else if k == 75 {
    } else if k == 76 {
    } else if k == 77 {
    } else if k == 78 {
    } else if k == 79 {
    } else if k == 80 {
    } else if k == 81 {
    } else {
    }
}

proof fn lemma_find_from(name: Seq<char>, i: int)
    requires
        0 <= i,
    ensures
        find_from(name, i) matches Some(k) ==> i <= k < CATALOG_LEN && catalog_row(k).name == name,
    decreases CATALOG_LEN - i,
{
    if i < CATALOG_LEN && catalog_row(i).name != name {
        lemma_find_from(name, i + 1);
    }
}

proof fn lemma_ident_run(s: Seq<char>, i: int, j: int)
    requires
        0 <= i <= j <= s.len(),
        forall|k: int| i <= k < j ==> is_ident_char(s[k]),
        j < s.len() ==> !is_ident_char(s[j]),
    ensures
        ident_end(s, i) == j,
    decreases j - i,
{
    if i < j {
        lemma_ident_run(s, i + 1, j);
    }
}

/// The catalog facts that the dimension law needs of a unit name.
proof fn lemma_catalog_unit(n: Seq<char>)
    requires
        catalog_lookup(n) is Some,
    ensures
        n.len() >= 1,
        forall|i: int| 0 <= i < n.len() ==> is_alpha(n[i]),
        n != "au"@,
{
    reveal(catalog_lookup);
    lemma_find_from(n, 0);
    let k = find_from(n, 0)->0;
    lemma_catalog_name(k);
    lemma_letters(n, 0);
    reveal_strlit("au");
}

/// For any two catalog units, the line `1 <u1> to <u2>` fails with an
/// incompatible-dimension fault exactly when their dimensions differ, and is
/// accepted as a request from `u1` to `u2` when they agree.
pub proof fn law_catalog_pairs(n1: Seq<char>, n2: Seq<char>)
    requires
        catalog_lookup(n1) is Some,
        catalog_lookup(n2) is Some,
    ensures
        ({
            let line = seq!['1', ' '] + n1 + seq![' ', 't', 'o', ' '] + n2;
            let (d1, f1) = catalog_lookup(n1)->0;
            let (d2, f2) = catalog_lookup(n2)->0;
            &&& d1 != d2 ==> parse_spec(line) == Err::<ExprModel, ErrModel>(
                ErrModel { at: None, kind: KindModel::IncompatibleDim(d1, d2) },
            )
            &&& d1 == d2 ==> parse_spec(line) == Ok::<ExprModel, ErrModel>(
                ExprModel {
                    value: seq!['1'],
                    from: TargetModel::Unit(single_unit(n1, d1, f1)),
                    to: TargetModel::Unit(single_unit(n2, d2, f2)),
                },
            )
        }),
{
    let s = seq!['1', ' '] + n1 + seq![' ', 't', 'o', ' '] + n2;
    let (d1, f1) = catalog_lookup(n1)->0;
    let (d2, f2) = catalog_lookup(n2)->0;
    lemma_catalog_unit(n1);
    lemma_catalog_unit(n2);
    reveal_strlit("to");
    let q: int = 2 + n1.len() as int;
    let r: int = q + 4;
    let len = s.len() as int;
    assert(len == r + n2.len());
    assert(s[0] == '1' && s[1] == ' ');
    assert(forall|j: int| 0 <= j < n1.len() ==> s[2 + j] == n1[j]);
    assert(s[q] == ' ' && s[q + 1] == 't' && s[q + 2] == 'o' && s[q + 3] == ' ');
    assert(forall|j: int| 0 <= j < n2.len() ==> s[r + j] == n2[j]);
    assert(forall|k: int| 2 <= k < q ==> is_alpha(s[k])) by {
        assert forall|k: int| 2 <= k < q implies is_alpha(s[k]) by {
            assert(s[k] == n1[k - 2]);
        }
    }
    assert(forall|k: int| r <= k < len ==> is_alpha(s[k])) by {
        assert forall|k: int| r <= k < len implies is_alpha(s[k]) by {
            assert(s[k] == n2[k - r]);
        }
    }
    // the number
    assert(skip_ws(s, 0) == 0);
    assert(crate::parse::mantissa_end(s, 1, false) == 1);
    assert(crate::parse::mantissa_end(s, 0, false) == 1);
    assert(crate::parse::has_digit(s, 0, 1));
    assert(crate::parse::number_spec(s, 0) == Ok::<(int, int), ErrModel>((0, 1)));
    // the first unit
    assert(skip_ws(s, 2) == 2);
    assert(skip_ws(s, 1) == 2);
    lemma_ident_run(s, 2, q);
    assert(s.subrange(2, q) =~= n1);
    assert(skip_ws(s, q + 1) == q + 1);
    assert(skip_ws(s, q) == q + 1);
    let u1 = TargetModel::Unit(single_unit(n1, d1, f1));
    assert(term_spec(s, 1) == Ok::<(TargetModel, int), ErrModel>((u1, q + 1)));
    assert(expr_rest(s, u1, q + 1) == Ok::<(TargetModel, int), ErrModel>((u1, q + 1)));
    // the keyword
    lemma_ident_run(s, q + 1, q + 3);
    assert(s.subrange(q + 1, q + 3) =~= "to"@);
    assert(crate::parse::kw_to_spec(s, q + 1) == Ok::<int, ErrModel>(q + 3));
    // the second unit
    assert(skip_ws(s, r) == r);
    assert(skip_ws(s, q + 3) == r);
    lemma_ident_run(s, r, len);
    assert(s.subrange(r, len) =~= n2);
    assert(skip_ws(s, len) == len);
    let u2 = TargetModel::Unit(single_unit(n2, d2, f2));
    assert(term_spec(s, q + 3) == Ok::<(TargetModel, int), ErrModel>((u2, len)));
    assert(expr_rest(s, u2, len) == Ok::<(TargetModel, int), ErrModel>((u2, len)));
    assert(crate::parse::eof_spec(s, len) == Ok::<int, ErrModel>(len));
    assert(s.subrange(0, 1) =~= seq!['1']);
}

/// Digits with at most one `.`, and at least one digit.
pub open spec fn is_mantissa(t: Seq<char>) -> bool {
    &&& forall|j: int| 0 <= j < t.len() ==> is_digit(t[j]) || t[j] == '.'
    &&& forall|j: int, k: int| 0 <= j < t.len() && 0 <= k < t.len() && t[j] == '.' && t[k] == '.' ==> j == k
    &&& exists|j: int| 0 <= j < t.len() && is_digit(t[j])
}

/// One or more ASCII digits.
pub open spec fn is_digits(t: Seq<char>) -> bool {
    t.len() >= 1 && forall|j: int| 0 <= j < t.len() ==> is_digit(t[j])
}

/// `e` or `E`, an optional sign, then digits.
pub open spec fn is_exponent(t: Seq<char>) -> bool {
    &&& t.len() >= 2
    &&& (t[0] == 'e' || t[0] == 'E')
    &&& (is_digits(t.subrange(1, t.len() as int)) || (is_sign(t[1]) && is_digits(
        t.subrange(2, t.len() as int),
    )))
}

/// A number token: an optional sign, a mantissa, and an optional exponent.
pub open spec fn number_token(t: Seq<char>) -> bool {
    exists|b: int, c: int|
        0 <= b <= 1 && b <= c <= t.len() && (b == 1 ==> is_sign(t[0])) && #[trigger] is_mantissa(
            t.subrange(b, c),
        ) && (c == t.len() || is_exponent(#[trigger] t.subrange(c, t.len() as int)))
}

proof fn lemma_mantissa_run(s: Seq<char>, i: int, dot: bool)
    requires
        0 <= i <= s.len(),
    ensures
        i <= mantissa_end(s, i, dot) <= s.len(),
        forall|k: int| i <= k < mantissa_end(s, i, dot) ==> is_digit(s[k]) || s[k] == '.',
        forall|j: int, k: int|
            i <= j < mantissa_end(s, i, dot) && i <= k < mantissa_end(s, i, dot) && s[j] == '.'
                && s[k] == '.' ==> j == k,
        dot ==> forall|k: int| i <= k < mantissa_end(s, i, dot) ==> s[k] != '.',
    decreases s.len() - i,
{
    if i < s.len() && (is_digit(s[i]) || (s[i] == '.' && !dot)) {
        lemma_mantissa_run(s, i + 1, dot || s[i] == '.');
    }
}

proof fn lemma_digits_run(s: Seq<char>, i: int)
    requires
        0 <= i <= s.len(),
    ensures
        i <= digits_end(s, i) <= s.len(),
        forall|k: int| i <= k < digits_end(s, i) ==> is_digit(s[k]),
    decreases s.len() - i,
{
    if i < s.len() && is_digit(s[i]) {
        lemma_digits_run(s, i + 1);
    }
}

proof fn lemma_has_digit(s: Seq<char>, a: int, b: int)
    requires
        has_digit(s, a, b),
    ensures
        exists|k: int| a <= k < b && is_digit(s[k]),
    decreases b - a,
{
    if has_digit(s, a, b - 1) {
        lemma_has_digit(s, a, b - 1);
    }
}

/// A number that scans is a well-formed token, after leading whitespace and
/// before whitespace or the end of the line; a number that does not scan fails
/// with a position, as an invalid number or an invalid exponent.
pub proof fn law_number(s: Seq<char>, i: int)
    requires
        0 <= i <= s.len(),
    ensures
        number_spec(s, i) matches Ok((a, b)) ==> a == skip_ws(s, i) && a <= b <= s.len()
            && number_token(s.subrange(a, b)) && (b == s.len() || is_ascii_white(s[b])),
        number_spec(s, i) matches Err(m) ==> m.at is Some && (m.kind is InvalidNumber
            || m.kind is InvalidExponent),
{
    crate::parse::lemma_skip_ws(s, i);
    let a = skip_ws(s, i);
    let b = if a < s.len() && is_sign(s[a]) { a + 1 } else { a };
    let c = mantissa_end(s, b, false);
    lemma_mantissa_run(s, b, false);
    if has_digit(s, b, c) {
        lemma_has_digit(s, b, c);
        let t = s.subrange(a, c);
        let m = t.subrange(b - a, c - a);
        assert(m =~= s.subrange(b, c));
        let k = choose|k: int| b <= k < c && is_digit(s[k]);
        assert(is_digit(m[k - b]));
        assert(is_mantissa(m));
        if c < s.len() && (s[c] == 'e' || s[c] == 'E') {
            let d = c + 1;
            let e = if d < s.len() && is_sign(s[d]) { d + 1 } else { d };
            lemma_digits_run(s, e);
            let f = digits_end(s, e);
            if f != e && !(f < s.len() && !is_ascii_white(s[f])) {
                let tf = s.subrange(a, f);
                assert(tf.subrange(b - a, c - a) =~= s.subrange(b, c));
                let x = tf.subrange(c - a, f - a);
                assert(x =~= s.subrange(c, f));
                if e == d {
                    assert(x.subrange(1, x.len() as int) =~= s.subrange(d, f));
                } else {
                    assert(x.subrange(2, x.len() as int) =~= s.subrange(e, f));
                }
                assert(is_exponent(x));
                assert(is_mantissa(tf.subrange(b - a, c - a)));
                assert(tf.len() == f - a);
                assert(b - a == 1 ==> is_sign(tf[0]));
                assert(is_exponent(tf.subrange(c - a, tf.len() as int)));
                assert(number_token(tf));
            }
        } else if !(c < s.len() && !is_ascii_white(s[c])) {
            assert(t.subrange(b - a, c - a) =~= s.subrange(b, c));
            assert(t.subrange(c - a, t.len() as int) =~= Seq::<char>::empty());
            assert(number_token(t));
        }
    }
}

} // verus!
