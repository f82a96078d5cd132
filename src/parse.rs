//! Scanner and recursive-descent parser for `<number> <unit-expr> to <unit-expr>`.

use vstd::prelude::*;
use vstd::string::*;
use crate::catalog::{Decimal, catalog_lookup, lookup_unit, spells};
use crate::dim::{Dim, mul_fits, div_fits, pow_fits, spec_mul, spec_div, spec_pow, fits_i64};
use crate::text::{alnum_of, char_is_alphanumeric, ascii_white, byte_len, char_is_whitespace, chars_of, int_text, is_alpha, is_ascii_white, is_digit, is_white, lemma_prefix_step, push_int, str_byte_len, utf8_width};

verus! {

/// The factor `base^power`; a unit's factor to SI is the product of its terms.
#[derive(Clone, Copy, Debug, PartialEq, Eq, Structural)]
pub struct ScaleTerm {
    pub base: Decimal,
    pub power: i64,
}

/// A resolved, possibly compound unit.
#[derive(Debug)]
pub struct UnitExpr {
    /// The unit as written, with `*`, `/` and `^k` as applied.
    pub symbol: String,
    pub dim: Dim,
    /// Factor to SI, as a product of powers of exact decimals.
    pub scale: Vec<ScaleTerm>,
}

/// Either side of a conversion: atomic units, or a resolved unit.
#[derive(Debug)]
pub enum UnitTarget {
    Au,
    Unit(UnitExpr),
}

/// A parsed conversion request; `value` is the number as written.
#[derive(Debug)]
pub struct ConversionExpr {
    pub value: String,
    pub from: UnitTarget,
    pub to: UnitTarget,
}

#[derive(Debug)]
pub enum ParseErrorKind {
    Empty,
    InvalidNumber,
    InvalidExponent,
    MissingTo,
    BadSyntax(String),
    UnknownUnit(String),
    IncompatibleDim(Dim, Dim),
    AuToAu,
    AuMustSingle,
    UnexpectedNumber,
    UnexpectedChar(char),
}

/// A parse failure: the line, the byte offset of the fault when it has one, and its kind.
#[derive(Debug)]
pub struct ParseError {
    pub line: String,
    pub pos: Option<usize>,
    pub kind: ParseErrorKind,
}

pub struct UnitModel {
    pub symbol: Seq<char>,
    pub dim: Dim,
    pub scale: Seq<ScaleTerm>,
}

pub enum TargetModel {
    Au,
    Unit(UnitModel),
}

pub struct ExprModel {
    pub value: Seq<char>,
    pub from: TargetModel,
    pub to: TargetModel,
}

pub enum KindModel {
    Empty,
    InvalidNumber,
    InvalidExponent,
    MissingTo,
    BadSyntax(Seq<char>),
    UnknownUnit(Seq<char>),
    IncompatibleDim(Dim, Dim),
    AuToAu,
    AuMustSingle,
    UnexpectedNumber,
    UnexpectedChar(char),
}

/// A fault at a character index of the line, or at none.
pub struct ErrModel {
    pub at: Option<int>,
    pub kind: KindModel,
}

impl View for UnitExpr {
    type V = UnitModel;

    open spec fn view(&self) -> UnitModel {
        UnitModel { symbol: self.symbol@, dim: self.dim, scale: self.scale@ }
    }
}

impl View for UnitTarget {
    type V = TargetModel;

    open spec fn view(&self) -> TargetModel {
        match self {
            UnitTarget::Au => TargetModel::Au,
            UnitTarget::Unit(u) => TargetModel::Unit(u@),
        }
    }
}

impl View for ConversionExpr {
    type V = ExprModel;

    open spec fn view(&self) -> ExprModel {
        ExprModel { value: self.value@, from: self.from@, to: self.to@ }
    }
}

impl View for ParseErrorKind {
    type V = KindModel;

    open spec fn view(&self) -> KindModel {
        match self {
            ParseErrorKind::Empty => KindModel::Empty,
            ParseErrorKind::InvalidNumber => KindModel::InvalidNumber,
            ParseErrorKind::InvalidExponent => KindModel::InvalidExponent,
            ParseErrorKind::MissingTo => KindModel::MissingTo,
            ParseErrorKind::BadSyntax(m) => KindModel::BadSyntax(m@),
            ParseErrorKind::UnknownUnit(u) => KindModel::UnknownUnit(u@),
            ParseErrorKind::IncompatibleDim(a, b) => KindModel::IncompatibleDim(*a, *b),
            ParseErrorKind::AuToAu => KindModel::AuToAu,
            ParseErrorKind::AuMustSingle => KindModel::AuMustSingle,
            ParseErrorKind::UnexpectedNumber => KindModel::UnexpectedNumber,
            ParseErrorKind::UnexpectedChar(c) => KindModel::UnexpectedChar(*c),
        }
    }
}

/// The byte offset of character index `i` of `s`.
pub open spec fn byte_offset(s: Seq<char>, i: int) -> int {
    byte_len(s.subrange(0, i))
}

/// `e` reports the fault `m` on the line `s`, with its position in bytes.
pub open spec fn reports(e: ParseError, s: Seq<char>, m: ErrModel) -> bool {
    &&& e.line@ == s
    &&& e.kind@ == m.kind
    &&& match m.at {
        Some(i) => e.pos == Some(byte_offset(s, i) as usize),
        None => e.pos == None::<usize>,
    }
}

pub open spec fn fault(i: int, kind: KindModel) -> ErrModel {
    ErrModel { at: Some(i), kind }
}

pub open spec fn is_sign(c: char) -> bool {
    c == '+' || c == '-'
}

/// The first index at or after `i` that does not hold whitespace.
pub open spec fn skip_ws(s: Seq<char>, i: int) -> int
    decreases s.len() - i,
{
    if 0 <= i < s.len() && is_white(s[i]) {
        skip_ws(s, i + 1)
    } else {
        i
    }
}

/// The end of the run of ASCII digits that starts at `i`.
pub open spec fn digits_end(s: Seq<char>, i: int) -> int
    decreases s.len() - i,
{
    if 0 <= i < s.len() && is_digit(s[i]) {
        digits_end(s, i + 1)
    } else {
        i
    }
}

/// The end of the run of digits with at most one `.` (or none more once `dot`) from `i`.
pub open spec fn mantissa_end(s: Seq<char>, i: int, dot: bool) -> int
    decreases s.len() - i,
{
    if 0 <= i < s.len() && (is_digit(s[i]) || (s[i] == '.' && !dot)) {
        mantissa_end(s, i + 1, dot || s[i] == '.')
    } else {
        i
    }
}

/// Whether `s[a..b]` holds an ASCII digit.
pub open spec fn has_digit(s: Seq<char>, a: int, b: int) -> bool
    decreases b - a,
{
    if b <= a {
        false
    } else {
        has_digit(s, a, b - 1) || is_digit(s[b - 1])
    }
}

/// The value of the decimal digits `s[a..b]`.
pub open spec fn digits_value(s: Seq<char>, a: int, b: int) -> int
    decreases b - a,
{
    if b <= a {
        0
    } else {
        digits_value(s, a, b - 1) * 10 + ((s[b - 1] as u32) - 48)
    }
}

/// A character that continues an identifier: a letter or digit in the Unicode
/// sense, or `.`; among ASCII characters these are the letters, digits and `.`.
pub open spec fn is_ident_char(c: char) -> bool {
    if (c as u32) < 128 {
        is_alpha(c) || is_digit(c) || c == '.'
    } else {
        alnum_of(c)
    }
}

/// The end of an identifier: letters, digits and `.` from `i`.
pub open spec fn ident_end(s: Seq<char>, i: int) -> int
    decreases s.len() - i,
{
    if 0 <= i < s.len() && is_ident_char(s[i]) {
        ident_end(s, i + 1)
    } else {
        i
    }
}

/// A number: sign, digits with at most one `.`, at least one digit, an optional
/// exponent with at least one digit, then whitespace or the end of the line.
/// On success, the start and end of the number after leading whitespace.
pub open spec fn number_spec(s: Seq<char>, i: int) -> Result<(int, int), ErrModel> {
    let a = skip_ws(s, i);
    let b = if a < s.len() && is_sign(s[a]) { a + 1 } else { a };
    let c = mantissa_end(s, b, false);
    if !has_digit(s, b, c) {
        Err(fault(c, KindModel::InvalidNumber))
    } else if c < s.len() && (s[c] == 'e' || s[c] == 'E') {
        let d = c + 1;
        let e = if d < s.len() && is_sign(s[d]) { d + 1 } else { d };
        let f = digits_end(s, e);
        if f == e {
            Err(fault(f, KindModel::InvalidExponent))
        } else if f < s.len() && !is_ascii_white(s[f]) {
            Err(fault(f, KindModel::InvalidExponent))
        } else {
            Ok((a, f))
        }
    } else if c < s.len() && !is_ascii_white(s[c]) {
        Err(fault(c, KindModel::InvalidNumber))
    } else {
        Ok((a, c))
    }
}

/// An identifier after optional whitespace: an ASCII letter, then letters, digits and `.`.
pub open spec fn ident_spec(s: Seq<char>, i: int) -> Result<(int, int), ErrModel> {
    let a = skip_ws(s, i);
    if a >= s.len() {
        Err(fault(a, KindModel::BadSyntax("expect token"@)))
    } else if !is_alpha(s[a]) {
        Err(fault(a, KindModel::UnexpectedChar(s[a])))
    } else {
        Ok((a, ident_end(s, a)))
    }
}

/// A single unit name: atomic units, or a catalog unit with its dimension and factor.
pub enum AtomModel {
    Au,
    Named(Seq<char>, Dim, Decimal),
}

pub open spec fn atom_spec(s: Seq<char>, i: int) -> Result<(AtomModel, int), ErrModel> {
    let a = skip_ws(s, i);
    if a < s.len() && (is_digit(s[a]) || is_sign(s[a])) {
        Err(fault(a, KindModel::UnexpectedNumber))
    } else {
        match ident_spec(s, a) {
            Err(m) => Err(m),
            Ok((p, q)) => {
                let name = s.subrange(p, q);
                if name == "au"@ {
                    Ok((AtomModel::Au, q))
                } else {
                    match catalog_lookup(name) {
                        Some((d, f)) => Ok((AtomModel::Named(name, d, f), q)),
                        None => Err(fault(p, KindModel::UnknownUnit(name))),
                    }
                }
            },
        }
    }
}

/// A signed decimal integer that fits in `i64`.
pub open spec fn int_spec(s: Seq<char>, i: int) -> Result<(i64, int), ErrModel> {
    let a = skip_ws(s, i);
    let b = if a < s.len() && is_sign(s[a]) { a + 1 } else { a };
    let c = digits_end(s, b);
    let v = if b > a && s[a] == '-' { -digits_value(s, b, c) } else { digits_value(s, b, c) };
    if c == b {
        Err(fault(a, KindModel::InvalidNumber))
    } else if fits_i64(v) {
        Ok((v as i64, c))
    } else {
        Err(fault(c, KindModel::InvalidExponent))
    }
}

pub open spec fn single_unit(name: Seq<char>, d: Dim, f: Decimal) -> UnitModel {
    UnitModel { symbol: name, dim: d, scale: seq![ScaleTerm { base: f, power: 1 }] }
}

/// A unit name with an optional `^k`.
pub open spec fn term_spec(s: Seq<char>, i: int) -> Result<(TargetModel, int), ErrModel> {
    match atom_spec(s, i) {
        Err(m) => Err(m),
        Ok((atom, q)) => {
            let r = skip_ws(s, q);
            if r < s.len() && s[r] == '^' {
                match int_spec(s, r + 1) {
                    Err(m) => Err(m),
                    Ok((k, u)) => match atom {
                        AtomModel::Au => Err(fault(u, KindModel::AuMustSingle)),
                        AtomModel::Named(name, d, f) => if pow_fits(d, k as int) {
                            Ok(
                                (
                                    TargetModel::Unit(
                                        UnitModel {
                                            symbol: name + seq!['^'] + int_text(k as int),
                                            dim: spec_pow(d, k as int),
                                            scale: seq![ScaleTerm { base: f, power: k }],
                                        },
                                    ),
                                    u,
                                ),
                            )
                        } else {
                            Err(fault(u, KindModel::InvalidExponent))
                        },
                    },
                }
            } else {
                match atom {
                    AtomModel::Au => Ok((TargetModel::Au, r)),
                    AtomModel::Named(name, d, f) => Ok((TargetModel::Unit(single_unit(name, d, f)), r)),
                }
            }
        },
    }
}

pub open spec fn negate_scale(sc: Seq<ScaleTerm>) -> Seq<ScaleTerm> {
    sc.map_values(|t: ScaleTerm| ScaleTerm { base: t.base, power: (-t.power) as i64 })
}

pub open spec fn negatable(sc: Seq<ScaleTerm>) -> bool {
    forall|j: int| 0 <= j < sc.len() ==> sc[j].power != i64::MIN
}

/// `l * r` or `l / r`.
pub open spec fn combine(l: UnitModel, op: char, r: UnitModel) -> UnitModel {
    if op == '*' {
        UnitModel {
            symbol: l.symbol + seq!['*'] + r.symbol,
            dim: spec_mul(l.dim, r.dim),
            scale: l.scale + r.scale,
        }
    } else {
        UnitModel {
            symbol: l.symbol + seq!['/'] + r.symbol,
            dim: spec_div(l.dim, r.dim),
            scale: l.scale + negate_scale(r.scale),
        }
    }
}

/// The exponents of `combine(l, op, r)` fit in `i64`.
pub open spec fn combine_fits(l: UnitModel, op: char, r: UnitModel) -> bool {
    if op == '*' {
        mul_fits(l.dim, r.dim)
    } else {
        div_fits(l.dim, r.dim) && negatable(r.scale)
    }
}

/// The rest of a unit expression after `lhs`, which ended at `j`: `*` or `/` terms, left to right.
pub open spec fn expr_rest(s: Seq<char>, lhs: TargetModel, j: int) -> Result<(TargetModel, int), ErrModel>
    decreases s.len() - j,
{
    let k = skip_ws(s, j);
    if 0 <= k < s.len() && (s[k] == '*' || s[k] == '/') {
        match term_spec(s, k + 1) {
            Err(m) => Err(m),
            Ok((rhs, j2)) => if !(j < j2 <= s.len()) {
                // never taken: a term ends after the operator before it
                Ok((lhs, k))
            } else {
                match (lhs, rhs) {
                    (TargetModel::Unit(l), TargetModel::Unit(r)) => if combine_fits(l, s[k], r) {
                        expr_rest(s, TargetModel::Unit(combine(l, s[k], r)), j2)
                    } else {
                        Err(fault(j2, KindModel::InvalidExponent))
                    },
                    _ => Err(fault(k, KindModel::AuMustSingle)),
                }
            },
        }
    } else {
        Ok((lhs, k))
    }
}

/// A unit expression: terms joined by `*` and `/`.
pub open spec fn expr_spec(s: Seq<char>, i: int) -> Result<(TargetModel, int), ErrModel> {
    match term_spec(s, i) {
        Err(m) => Err(m),
        Ok((t, q)) => expr_rest(s, t, q),
    }
}

/// The keyword `to`.
pub open spec fn kw_to_spec(s: Seq<char>, i: int) -> Result<int, ErrModel> {
    match ident_spec(s, i) {
        Err(m) => Err(m),
        Ok((p, q)) => if s.subrange(p, q) == "to"@ {
            Ok(q)
        } else {
            Err(fault(p, KindModel::MissingTo))
        },
    }
}

/// Nothing but whitespace from `i` on.
pub open spec fn eof_spec(s: Seq<char>, i: int) -> Result<int, ErrModel> {
    let a = skip_ws(s, i);
    if a >= s.len() {
        Ok(a)
    } else {
        Err(fault(a, KindModel::BadSyntax("trailing input"@)))
    }
}

/// The semantic fault of a request, if any: different dimensions, or atomic units on both sides.
pub open spec fn request_fault(from: TargetModel, to: TargetModel) -> Option<KindModel> {
    match (from, to) {
        (TargetModel::Unit(x), TargetModel::Unit(y)) => if x.dim != y.dim {
            Some(KindModel::IncompatibleDim(x.dim, y.dim))
        } else {
            None
        },
        (TargetModel::Au, TargetModel::Au) => Some(KindModel::AuToAu),
        _ => None,
    }
}

/// What parsing the line `s` yields.
pub open spec fn parse_spec(s: Seq<char>) -> Result<ExprModel, ErrModel> {
    if skip_ws(s, 0) >= s.len() {
        Err(ErrModel { at: None, kind: KindModel::Empty })
    } else {
        match number_spec(s, 0) {
            Err(m) => Err(m),
            Ok((a, b)) => match expr_spec(s, b) {
                Err(m) => Err(m),
                Ok((from, c)) => match kw_to_spec(s, c) {
                    Err(m) => Err(m),
                    Ok(d) => match expr_spec(s, d) {
                        Err(m) => Err(m),
                        Ok((to, e)) => match eof_spec(s, e) {
                            Err(m) => Err(m),
                            Ok(_) => match request_fault(from, to) {
                                Some(k) => Err(ErrModel { at: None, kind: k }),
                                None => Ok(ExprModel { value: s.subrange(a, b), from, to }),
                            },
                        },
                    },
                },
            },
        }
    }
}

pub proof fn lemma_skip_ws(s: Seq<char>, i: int)
    requires
        0 <= i <= s.len(),
    ensures
        i <= skip_ws(s, i) <= s.len(),
        skip_ws(s, skip_ws(s, i)) == skip_ws(s, i),
    decreases s.len() - i,
{
    if i < s.len() && is_white(s[i]) {
        lemma_skip_ws(s, i + 1);
    }
}

enum Atom {
    Au,
    Named(String, Dim, Decimal),
}

impl View for Atom {
    type V = AtomModel;

    closed spec fn view(&self) -> AtomModel {
        match self {
            Atom::Au => AtomModel::Au,
            Atom::Named(n, d, f) => AtomModel::Named(n@, *d, *f),
        }
    }
}

struct Lexer<'a> {
    s: &'a str,
    chars: Vec<char>,
    idx: usize,
    pos: usize,
}

impl<'a> Lexer<'a> {
    spec fn wf(&self) -> bool {
        &&& self.chars@ == self.s@
        &&& self.idx <= self.s@.len()
        &&& self.pos == byte_offset(self.s@, self.idx as int)
        &&& byte_len(self.s@) <= usize::MAX
        &&& self.s@.len() <= usize::MAX
    }

    spec fn line(&self) -> Seq<char> {
        self.s@
    }

    fn new(s: &'a str) -> (r: Lexer<'a>)
        ensures
            r.wf(),
            r.line() == s@,
            r.idx == 0,
    {
        let _bytes = str_byte_len(s);
        let chars = chars_of(s);
        assert(s@.subrange(0, 0) =~= Seq::<char>::empty());
        Lexer { s, chars, idx: 0, pos: 0 }
    }

    fn err(&self, kind: ParseErrorKind) -> (r: ParseError)
        requires
            self.wf(),
        ensures
            reports(r, self.line(), fault(self.idx as int, kind@)),
    {
        ParseError { line: String::from_str(self.s), pos: Some(self.pos), kind }
    }

    fn peek(&self) -> (r: Option<char>)
        requires
            self.wf(),
        ensures
            r == (if self.idx < self.line().len() { Some(self.line()[self.idx as int]) } else { None::<char> }),
    {
        if self.idx < self.chars.len() {
            Some(self.chars[self.idx])
        } else {
            None
        }
    }

    fn bump(&mut self)
        requires
            old(self).wf(),
            old(self).idx < old(self).line().len(),
        ensures
            final(self).wf(),
            final(self).line() == old(self).line(),
            final(self).idx == old(self).idx + 1,
    {
        proof {
            lemma_prefix_step(self.s@, self.idx as int);
        }
        let w = utf8_width(self.chars[self.idx]);
        self.pos = self.pos + w;
        self.idx = self.idx + 1;
    }

    /// Moves back to an index passed earlier.
    fn rewind(&mut self, idx: usize, pos: usize)
        requires
            old(self).wf(),
            idx <= old(self).line().len(),
            pos == byte_offset(old(self).line(), idx as int),
        ensures
            final(self).wf(),
            final(self).line() == old(self).line(),
            final(self).idx == idx,
    {
        self.idx = idx;
        self.pos = pos;
    }

    fn skip_ws(&mut self)
        requires
            old(self).wf(),
        ensures
            final(self).wf(),
            final(self).line() == old(self).line(),
            final(self).idx == skip_ws(old(self).line(), old(self).idx as int),
            final(self).idx >= old(self).idx,
    {
        let ghost s = self.line();
        let ghost i0 = self.idx as int;
        while self.idx < self.chars.len() && char_is_whitespace(self.chars[self.idx])
            invariant
                self.wf(),
                self.line() == s,
                skip_ws(s, i0) == skip_ws(s, self.idx as int),
                i0 <= self.idx,
            decreases s.len() - self.idx,
        {
            self.bump();
        }
    }

    fn scan_digits(&mut self)
        requires
            old(self).wf(),
        ensures
            final(self).wf(),
            final(self).line() == old(self).line(),
            final(self).idx == digits_end(old(self).line(), old(self).idx as int),
            final(self).idx >= old(self).idx,
    {
        let ghost s = self.line();
        let ghost i0 = self.idx as int;
        while self.idx < self.chars.len() && ascii_digit(self.chars[self.idx])
            invariant
                self.wf(),
                self.line() == s,
                digits_end(s, i0) == digits_end(s, self.idx as int),
                i0 <= self.idx,
            decreases s.len() - self.idx,
        {
            self.bump();
        }
    }

    fn skip_sign(&mut self)
        requires
            old(self).wf(),
        ensures
            final(self).wf(),
            final(self).line() == old(self).line(),
            final(self).idx == (if old(self).idx < old(self).line().len() && is_sign(
                old(self).line()[old(self).idx as int],
            ) {
                old(self).idx + 1
            } else {
                old(self).idx as int
            }),
    {
        if self.idx < self.chars.len() && (self.chars[self.idx] == '+' || self.chars[self.idx] == '-') {
            self.bump();
        }
    }

    fn substring(&self, a: usize, b: usize) -> (r: String)
        requires
            self.wf(),
            a <= b <= self.line().len(),
        ensures
            r@ == self.line().subrange(a as int, b as int),
    {
        String::from_str(self.s.substring_char(a, b))
    }

    fn parse_number(&mut self) -> (r: Result<String, ParseError>)
        requires
            old(self).wf(),
        ensures
            final(self).wf(),
            final(self).line() == old(self).line(),
            match number_spec(old(self).line(), old(self).idx as int) {
                Ok((a, b)) => r matches Ok(v) && v@ == old(self).line().subrange(a, b)
                    && final(self).idx == b,
                Err(m) => r matches Err(e) && reports(e, old(self).line(), m),
            },
    {
        let ghost s = self.line();
        self.skip_ws();
        let start = self.idx;
        self.skip_sign();
        let b = self.idx;
        let mut saw_digit = false;
        let mut saw_dot = false;
        while self.idx < self.chars.len() && (ascii_digit(self.chars[self.idx]) || (
        self.chars[self.idx] == '.' && !saw_dot))
            invariant
                self.wf(),
                self.line() == s,
                b <= self.idx,
                mantissa_end(s, b as int, false) == mantissa_end(s, self.idx as int, saw_dot),
                saw_digit == has_digit(s, b as int, self.idx as int),
            decreases s.len() - self.idx,
        {
            if ascii_digit(self.chars[self.idx]) {
                saw_digit = true;
            } else {
                saw_dot = true;
            }
            self.bump();
        }
        if !saw_digit {
            return Err(self.err(ParseErrorKind::InvalidNumber));
        }
        if self.idx < self.chars.len() && (self.chars[self.idx] == 'e' || self.chars[self.idx] == 'E') {
            self.bump();
            self.skip_sign();
            let e = self.idx;
            self.scan_digits();
            if self.idx == e {
                return Err(self.err(ParseErrorKind::InvalidExponent));
            }
            if self.idx < self.chars.len() && !ascii_white(self.chars[self.idx]) {
                return Err(self.err(ParseErrorKind::InvalidExponent));
            }
        }
        if self.idx < self.chars.len() && !ascii_white(self.chars[self.idx]) {
            return Err(self.err(ParseErrorKind::InvalidNumber));
        }
        Ok(self.substring(start, self.idx))
    }
    fn read_ident_token(&mut self) -> (r: Result<(usize, usize), ParseError>)
        requires
            old(self).wf(),
        ensures
            final(self).wf(),
            final(self).line() == old(self).line(),
            final(self).idx >= old(self).idx,
            match ident_spec(old(self).line(), old(self).idx as int) {
                Ok((p, q)) => r matches Ok((p2, q2)) && p2 == p && q2 == q && final(self).idx == q
                    && p <= q,
                Err(m) => r matches Err(e) && reports(e, old(self).line(), m),
            },
    {
        let ghost s = self.line();
        self.skip_ws();
        let start = self.idx;
        match self.peek() {
            None => {
                return Err(self.err(ParseErrorKind::BadSyntax(String::from_str("expect token"))));
            },
            Some(first) => {
                if !ascii_alpha(first) {
                    return Err(self.err(ParseErrorKind::UnexpectedChar(first)));
                }
            },
        }
        while self.idx < self.chars.len() && ident_char(self.chars[self.idx])
            invariant
                self.wf(),
                self.line() == s,
                start <= self.idx,
                ident_end(s, start as int) == ident_end(s, self.idx as int),
            decreases s.len() - self.idx,
        {
            self.bump();
        }
        Ok((start, self.idx))
    }

    fn parse_unit_atom(&mut self) -> (r: Result<Atom, ParseError>)
        requires
            old(self).wf(),
        ensures
            final(self).wf(),
            final(self).line() == old(self).line(),
            final(self).idx >= old(self).idx,
            match atom_spec(old(self).line(), old(self).idx as int) {
                Ok((am, q)) => r matches Ok(a) && a@ == am && final(self).idx == q,
                Err(m) => r matches Err(e) && reports(e, old(self).line(), m),
            },
    {
        let ghost s = self.line();
        self.skip_ws();
        proof {
            lemma_skip_ws(s, old(self).idx as int);
        }
        if self.idx < self.chars.len() && (ascii_digit(self.chars[self.idx])
            || self.chars[self.idx] == '+' || self.chars[self.idx] == '-') {
            return Err(self.err(ParseErrorKind::UnexpectedNumber));
        }
        let start_pos = self.pos;
        let (p, q) = match self.read_ident_token() {
            Ok(pq) => pq,
            Err(e) => return Err(e),
        };
        if spells(&self.chars, p, q, "au") {
            Ok(Atom::Au)
        } else {
            match lookup_unit(&self.chars, p, q) {
                Some((d, f)) => Ok(Atom::Named(self.substring(p, q), d, f)),
                None => {
                    let name = self.substring(p, q);
                    self.rewind(p, start_pos);
                    Err(self.err(ParseErrorKind::UnknownUnit(name)))
                },
            }
        }
    }

    fn parse_signed_int(&mut self) -> (r: Result<i64, ParseError>)
        requires
            old(self).wf(),
        ensures
            final(self).wf(),
            final(self).line() == old(self).line(),
            final(self).idx >= old(self).idx,
            match int_spec(old(self).line(), old(self).idx as int) {
                Ok((k, q)) => r matches Ok(v) && v == k && final(self).idx == q,
                Err(m) => r matches Err(e) && reports(e, old(self).line(), m),
            },
    {
        let ghost s = self.line();
        self.skip_ws();
        let start = self.idx;
        let start_pos = self.pos;
        let neg = self.idx < self.chars.len() && self.chars[self.idx] == '-';
        self.skip_sign();
        let b = self.idx;
        let mut acc: u64 = 0;
        let mut big = false;
        while self.idx < self.chars.len() && ascii_digit(self.chars[self.idx])
            invariant
                self.wf(),
                self.line() == s,
                b <= self.idx,
                digits_end(s, b as int) == digits_end(s, self.idx as int),
                !big ==> acc == digits_value(s, b as int, self.idx as int),
                !big ==> acc <= 0x8000_0000_0000_0000u64,
                big ==> digits_value(s, b as int, self.idx as int) > 0x8000_0000_0000_0000,
            decreases s.len() - self.idx,
        {
            let d = (self.chars[self.idx] as u32 - 48) as u64;
            if !big {
                let next: u128 = acc as u128 * 10 + d as u128;
                if next > 0x8000_0000_0000_0000u128 {
                    big = true;
                } else {
                    acc = next as u64;
                }
            }
            self.bump();
        }
        if self.idx == b {
            self.rewind(start, start_pos);
            return Err(self.err(ParseErrorKind::InvalidNumber));
        }
        if big {
            return Err(self.err(ParseErrorKind::InvalidExponent));
        }
        if neg {
            Ok((-(acc as i128)) as i64)
        } else if acc <= 0x7fff_ffff_ffff_ffffu64 {
            Ok(acc as i64)
        } else {
            Err(self.err(ParseErrorKind::InvalidExponent))
        }
    }

    fn parse_unit_term(&mut self) -> (r: Result<UnitTarget, ParseError>)
        requires
            old(self).wf(),
        ensures
            final(self).wf(),
            final(self).line() == old(self).line(),
            final(self).idx >= old(self).idx,
            match term_spec(old(self).line(), old(self).idx as int) {
                Ok((t, q)) => r matches Ok(v) && v@ == t && final(self).idx == q,
                Err(m) => r matches Err(e) && reports(e, old(self).line(), m),
            },
    {
        let atom = match self.parse_unit_atom() {
            Ok(a) => a,
            Err(e) => return Err(e),
        };
        self.skip_ws();
        if self.idx < self.chars.len() && self.chars[self.idx] == '^' {
            self.bump();
            let k = match self.parse_signed_int() {
                Ok(k) => k,
                Err(e) => return Err(e),
            };
            match atom {
                Atom::Au => Err(self.err(ParseErrorKind::AuMustSingle)),
                Atom::Named(name, d, f) => match d.checked_pow(k) {
                    Some(d2) => {
                        let ghost name_view = name@;
                        let mut symbol = name;
                        proof {
                            reveal_strlit("^");
                        }
                        symbol.append("^");
                        push_int(&mut symbol, k);
                        assert(symbol@ =~= name_view + seq!['^'] + int_text(k as int));
                        let mut scale: Vec<ScaleTerm> = Vec::new();
                        scale.push(ScaleTerm { base: f, power: k });
                        proof {
                            assert(scale@ =~= seq![ScaleTerm { base: f, power: k }]);
                        }
                        Ok(UnitTarget::Unit(UnitExpr { symbol, dim: d2, scale }))
                    },
                    None => Err(self.err(ParseErrorKind::InvalidExponent)),
                },
            }
        } else {
            match atom {
                Atom::Au => Ok(UnitTarget::Au),
                Atom::Named(name, d, f) => {
                    let mut scale: Vec<ScaleTerm> = Vec::new();
                    scale.push(ScaleTerm { base: f, power: 1 });
                    proof {
                        assert(scale@ =~= seq![ScaleTerm { base: f, power: 1 }]);
                    }
                    Ok(UnitTarget::Unit(UnitExpr { symbol: name, dim: d, scale }))
                },
            }
        }
    }

    fn parse_unit_expr(&mut self) -> (r: Result<UnitTarget, ParseError>)
        requires
            old(self).wf(),
        ensures
            final(self).wf(),
            final(self).line() == old(self).line(),
            final(self).idx >= old(self).idx,
            match expr_spec(old(self).line(), old(self).idx as int) {
                Ok((t, q)) => r matches Ok(v) && v@ == t && final(self).idx == q,
                Err(m) => r matches Err(e) && reports(e, old(self).line(), m),
            },
    {
        let ghost s = self.line();
        let ghost i0 = self.idx as int;
        let mut lhs = match self.parse_unit_term() {
            Ok(t) => t,
            Err(e) => return Err(e),
        };
        loop
            invariant
                self.wf(),
                self.line() == s,
                i0 <= self.idx,
                s == old(self).line(),
                i0 == old(self).idx,
                expr_spec(s, i0) == expr_rest(s, lhs@, self.idx as int),
            decreases s.len() - self.idx,
        {
            let ghost j = self.idx as int;
            self.skip_ws();
            let k = self.idx;
            if k < self.chars.len() && (self.chars[k] == '*' || self.chars[k] == '/') {
                let op = self.chars[k];
                let k_pos = self.pos;
                self.bump();
                let rhs = match self.parse_unit_term() {
                    Ok(t) => t,
                    Err(e) => return Err(e),
                };
                match (lhs, rhs) {
                    (UnitTarget::Unit(l), UnitTarget::Unit(r)) => match combine_units(l, op, r) {
                        Some(u) => {
                            lhs = UnitTarget::Unit(u);
                        },
                        None => return Err(self.err(ParseErrorKind::InvalidExponent)),
                    },
                    _ => {
                        self.rewind(k, k_pos);
                        return Err(self.err(ParseErrorKind::AuMustSingle));
                    },
                }
            } else {
                return Ok(lhs);
            }
        }
    }

    fn consume_kw_to(&mut self) -> (r: Result<(), ParseError>)
        requires
            old(self).wf(),
        ensures
            final(self).wf(),
            final(self).line() == old(self).line(),
            final(self).idx >= old(self).idx,
            match kw_to_spec(old(self).line(), old(self).idx as int) {
                Ok(q) => r is Ok && final(self).idx == q,
                Err(m) => r matches Err(e) && reports(e, old(self).line(), m),
            },
    {
        let ghost s = self.line();
        self.skip_ws();
        proof {
            lemma_skip_ws(s, old(self).idx as int);
        }
        let start_pos = self.pos;
        let (p, q) = match self.read_ident_token() {
            Ok(pq) => pq,
            Err(e) => return Err(e),
        };
        if spells(&self.chars, p, q, "to") {
            Ok(())
        } else {
            self.rewind(p, start_pos);
            Err(self.err(ParseErrorKind::MissingTo))
        }
    }

    fn ensure_eof(&mut self) -> (r: Result<(), ParseError>)
        requires
            old(self).wf(),
        ensures
            final(self).wf(),
            final(self).line() == old(self).line(),
            match eof_spec(old(self).line(), old(self).idx as int) {
                Ok(q) => r is Ok && final(self).idx == q && q == old(self).line().len(),
                Err(m) => r matches Err(e) && reports(e, old(self).line(), m),
            },
    {
        self.skip_ws();
        if self.idx < self.chars.len() {
            Err(self.err(ParseErrorKind::BadSyntax(String::from_str("trailing input"))))
        } else {
            Ok(())
        }
    }
}

/// `l * r` or `l / r`, or `None` when an exponent would leave the range of `i64`.
fn combine_units(l: UnitExpr, op: char, r: UnitExpr) -> (res: Option<UnitExpr>)
    requires
        op == '*' || op == '/',
    ensures
        match res {
            Some(u) => combine_fits(l@, op, r@) && u@ == combine(l@, op, r@),
            None => !combine_fits(l@, op, r@),
        },
{
    let ghost l_view = l@;
    let ghost r_view = r@;
    let UnitExpr { symbol: mut symbol, dim, scale: mut scale } = l;
    let UnitExpr { symbol: r_symbol, dim: r_dim, scale: r_scale } = r;
    if op == '*' {
        match dim.checked_mul(r_dim) {
            None => None,
            Some(d) => {
                proof {
                    reveal_strlit("*");
                }
                symbol.append("*");
                symbol.append(r_symbol.as_str());
                let mut rest = r_scale;
                scale.append(&mut rest);
                assert(symbol@ =~= l_view.symbol + seq!['*'] + r_view.symbol);
                assert(scale@ =~= l_view.scale + r_view.scale);
                Some(UnitExpr { symbol, dim: d, scale })
            },
        }
    } else {
        match dim.checked_div(r_dim) {
            None => None,
            Some(d) => {
                let mut i: usize = 0;
                while i < r_scale.len()
                    invariant
                        i <= r_scale@.len(),
                        r_scale@ == r_view.scale,
                        op == '/',
                        l_view == l@,
                        r_view == r@,
                        symbol@ == l_view.symbol,
                        r_symbol@ == r_view.symbol,
                        div_fits(l_view.dim, r_view.dim),
                        d == spec_div(l_view.dim, r_view.dim),
                        scale@.len() == l_view.scale.len() + i,
                        scale@.subrange(0, l_view.scale.len() as int) == l_view.scale,
                        forall|j: int| 0 <= j < i ==> r_scale@[j].power != i64::MIN,
                        forall|j: int|
                            0 <= j < i ==> scale@[l_view.scale.len() + j] == (ScaleTerm {
                                base: r_scale@[j].base,
                                power: (-r_scale@[j].power) as i64,
                            }),
                    decreases r_scale@.len() - i,
                {
                    let t = r_scale[i];
                    if t.power == i64::MIN {
                        assert(r_view.scale[i as int].power == i64::MIN);
                        return None;
                    }
                    scale.push(ScaleTerm { base: t.base, power: -t.power });
                    i = i + 1;
                }
                proof {
                    reveal_strlit("/");
                    assert(scale@ =~= l_view.scale + negate_scale(r_scale@));
                }
                symbol.append("/");
                symbol.append(r_symbol.as_str());
                assert(symbol@ =~= l_view.symbol + seq!['/'] + r_view.symbol);
                Some(UnitExpr { symbol, dim: d, scale })
            },
        }
    }
}

/// Parses a line `<number> <unit-expr> to <unit-expr>` into a conversion request.
pub fn parse_expr(line: &str) -> (r: Result<ConversionExpr, ParseError>)
    ensures
        match parse_spec(line@) {
            Ok(m) => r matches Ok(e) && e@ == m,
            Err(m) => r matches Err(e) && reports(e, line@, m),
        },
{
    let mut lexer = Lexer::new(line);
    lexer.skip_ws();
    if lexer.idx >= lexer.chars.len() {
        return Err(ParseError::new(String::from_str(line), None, ParseErrorKind::Empty));
    }
    lexer.rewind(0, 0);
    let value = match lexer.parse_number() {
        Ok(v) => v,
        Err(e) => return Err(e),
    };
    let from = match lexer.parse_unit_expr() {
        Ok(t) => t,
        Err(e) => return Err(e),
    };
    match lexer.consume_kw_to() {
        Ok(()) => {},
        Err(e) => return Err(e),
    }
    let to = match lexer.parse_unit_expr() {
        Ok(t) => t,
        Err(e) => return Err(e),
    };
    match lexer.ensure_eof() {
        Ok(()) => {},
        Err(e) => return Err(e),
    }
    match check_request(&from, &to) {
        Some(kind) => Err(ParseError::new(String::from_str(line), None, kind)),
        None => Ok(ConversionExpr { value, from, to }),
    }
}

/// The fault of a request whose sides have been parsed, if it has one.
pub fn check_request(from: &UnitTarget, to: &UnitTarget) -> (r: Option<ParseErrorKind>)
    ensures
        match request_fault(from@, to@) {
            Some(k) => r matches Some(v) && v@ == k,
            None => r is None,
        },
{
    match (from, to) {
        (UnitTarget::Unit(x), UnitTarget::Unit(y)) => {
            if x.dim != y.dim {
                Some(ParseErrorKind::IncompatibleDim(x.dim, y.dim))
            } else {
                None
            }
        },
        (UnitTarget::Au, UnitTarget::Au) => Some(ParseErrorKind::AuToAu),
        _ => None,
    }
}

impl ParseError {
    pub fn new(line: String, pos: Option<usize>, kind: ParseErrorKind) -> (r: ParseError)
        ensures
            r.line == line,
            r.pos == pos,
            r.kind == kind,
    {
        ParseError { line, pos, kind }
    }
}

fn ascii_digit(c: char) -> (r: bool)
    ensures
        r == is_digit(c),
{
    '0' <= c && c <= '9'
}

fn ident_char(c: char) -> (r: bool)
    ensures
        r == is_ident_char(c),
{
    if (c as u32) < 128 {
        ascii_alpha(c) || ascii_digit(c) || c == '.'
    } else {
        char_is_alphanumeric(c)
    }
}

fn ascii_alpha(c: char) -> (r: bool)
    ensures
        r == is_alpha(c),
{
    ('a' <= c && c <= 'z') || ('A' <= c && c <= 'Z')
}

} // verus!
