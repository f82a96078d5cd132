//! The dimension algebra: integer exponents over length, mass, time,
//! temperature and electric current.

use vstd::prelude::*;
use vstd::string::*;
use crate::text::{int_text, push_int};

verus! {

/// Exponents of the five base dimensions.
#[derive(Clone, Copy, Debug, PartialEq, Eq, Structural)]
pub struct Dim {
    pub len: i64,
    pub mass: i64,
    pub time: i64,
    pub temp: i64,
    pub curr: i64,
}

pub open spec fn fits_i64(x: int) -> bool {
    i64::MIN <= x <= i64::MAX
}

/// The componentwise sum (the dimension of a product) fits in `i64`.
pub open spec fn mul_fits(a: Dim, b: Dim) -> bool {
    fits_i64(a.len + b.len) && fits_i64(a.mass + b.mass) && fits_i64(a.time + b.time)
        && fits_i64(a.temp + b.temp) && fits_i64(a.curr + b.curr)
}

/// The componentwise difference (the dimension of a quotient) fits in `i64`.
pub open spec fn div_fits(a: Dim, b: Dim) -> bool {
    fits_i64(a.len - b.len) && fits_i64(a.mass - b.mass) && fits_i64(a.time - b.time)
        && fits_i64(a.temp - b.temp) && fits_i64(a.curr - b.curr)
}

/// Every component times `k` fits in `i64`.
pub open spec fn pow_fits(a: Dim, k: int) -> bool {
    fits_i64(a.len * k) && fits_i64(a.mass * k) && fits_i64(a.time * k) && fits_i64(a.temp * k)
        && fits_i64(a.curr * k)
}

pub open spec fn spec_mul(a: Dim, b: Dim) -> Dim {
    Dim {
        len: (a.len + b.len) as i64,
        mass: (a.mass + b.mass) as i64,
        time: (a.time + b.time) as i64,
        temp: (a.temp + b.temp) as i64,
        curr: (a.curr + b.curr) as i64,
    }
}

pub open spec fn spec_div(a: Dim, b: Dim) -> Dim {
    Dim {
        len: (a.len - b.len) as i64,
        mass: (a.mass - b.mass) as i64,
        time: (a.time - b.time) as i64,
        temp: (a.temp - b.temp) as i64,
        curr: (a.curr - b.curr) as i64,
    }
}

pub open spec fn spec_pow(a: Dim, k: int) -> Dim {
    Dim {
        len: (a.len * k) as i64,
        mass: (a.mass * k) as i64,
        time: (a.time * k) as i64,
        temp: (a.temp * k) as i64,
        curr: (a.curr * k) as i64,
    }
}

pub open spec fn spec_dim(len: int, mass: int, time: int, temp: int, curr: int) -> Dim {
    Dim { len: len as i64, mass: mass as i64, time: time as i64, temp: temp as i64, curr: curr as i64 }
}

/// One rendered component: the symbol alone for exponent one, else `symbol^exponent`.
pub open spec fn part_text(sym: char, e: int) -> Seq<char> {
    if e == 1 {
        seq![sym]
    } else {
        seq![sym, '^'] + int_text(e)
    }
}

/// The rendered non-zero components, in the order L, M, T, Θ, I.
pub open spec fn part_of(sym: char, e: int) -> Seq<Seq<char>> {
    if e == 0 {
        Seq::empty()
    } else {
        seq![part_text(sym, e)]
    }
}

pub open spec fn dim_parts(d: Dim) -> Seq<Seq<char>> {
    part_of('L', d.len as int) + part_of('M', d.mass as int) + part_of('T', d.time as int)
        + part_of('Θ', d.temp as int) + part_of('I', d.curr as int)
}

/// The pieces joined by `_`.
pub open spec fn join_parts(ps: Seq<Seq<char>>) -> Seq<char>
    decreases ps.len(),
{
    if ps.len() == 0 {
        Seq::empty()
    } else if ps.len() == 1 {
        ps[0]
    } else {
        join_parts(ps.drop_last()) + seq!['_'] + ps.last()
    }
}

/// The display form of a dimension: `1` when dimensionless.
pub open spec fn dim_text(d: Dim) -> Seq<char> {
    if dim_parts(d).len() == 0 {
        seq!['1']
    } else {
        join_parts(dim_parts(d))
    }
}

fn push_part(out: &mut String, first: &mut bool, sym: &str, e: i64, Ghost(ps): Ghost<Seq<Seq<char>>>)
    requires
        old(out)@ == join_parts(ps),
        *old(first) == (ps.len() == 0),
        sym@.len() == 1,
    ensures
        final(out)@ == join_parts(ps + part_of(sym@[0], e as int)),
        *final(first) == ((ps + part_of(sym@[0], e as int)).len() == 0),
{
    let ghost c = sym@[0];
    if e == 0 {
        assert(ps + part_of(c, e as int) =~= ps);
        return;
    }
    let ghost before = out@;
    if !*first {
        proof {
            reveal_strlit("_");
        }
        out.append("_");
    }
    *first = false;
    let ghost at_sym = out@;
    out.append(sym);
    if e != 1 {
        proof {
            reveal_strlit("^");
        }
        out.append("^");
        push_int(out, e);
    }
    let ghost qs = ps + part_of(c, e as int);
    assert(qs.drop_last() =~= ps);
    assert(sym@ =~= seq![c]);
    proof {
        if ps.len() == 0 {
            assert(out@ =~= part_text(c, e as int));
        } else {
            assert(out@ =~= before + seq!['_'] + part_text(c, e as int));
        }
    }
}

impl Dim {
    pub fn zero() -> (r: Dim)
        ensures
            r == spec_dim(0, 0, 0, 0, 0),
    {
        Dim::new(0, 0, 0, 0, 0)
    }

    pub fn new(len: i64, mass: i64, time: i64, temp: i64, curr: i64) -> (r: Dim)
        ensures
            r == (Dim { len, mass, time, temp, curr }),
    {
        Dim { len, mass, time, temp, curr }
    }

    /// Length to the power `p`.
    pub fn len(p: i64) -> (r: Dim)
        ensures
            r == spec_dim(p as int, 0, 0, 0, 0),
    {
        Dim { len: p, mass: 0, time: 0, temp: 0, curr: 0 }
    }

    /// Mass to the power `p`.
    pub fn mass(p: i64) -> (r: Dim)
        ensures
            r == spec_dim(0, p as int, 0, 0, 0),
    {
        Dim { len: 0, mass: p, time: 0, temp: 0, curr: 0 }
    }

    /// Time to the power `p`.
    pub fn time(p: i64) -> (r: Dim)
        ensures
            r == spec_dim(0, 0, p as int, 0, 0),
    {
        Dim { len: 0, mass: 0, time: p, temp: 0, curr: 0 }
    }

    /// Temperature to the power `p`.
    pub fn temp(p: i64) -> (r: Dim)
        ensures
            r == spec_dim(0, 0, 0, p as int, 0),
    {
        Dim { len: 0, mass: 0, time: 0, temp: p, curr: 0 }
    }

    /// Electric current to the power `p`.
    pub fn curr(p: i64) -> (r: Dim)
        ensures
            r == spec_dim(0, 0, 0, 0, p as int),
    {
        Dim { len: 0, mass: 0, time: 0, temp: 0, curr: p }
    }

    /// The dimension of a product: exponents add.
    pub fn mul(self, other: Dim) -> (r: Dim)
        requires
            mul_fits(self, other),
        ensures
            r == spec_mul(self, other),
    {
        Dim {
            len: self.len + other.len,
            mass: self.mass + other.mass,
            time: self.time + other.time,
            temp: self.temp + other.temp,
            curr: self.curr + other.curr,
        }
    }

    /// The dimension of a quotient: exponents subtract.
    pub fn div(self, other: Dim) -> (r: Dim)
        requires
            div_fits(self, other),
        ensures
            r == spec_div(self, other),
    {
        Dim {
            len: self.len - other.len,
            mass: self.mass - other.mass,
            time: self.time - other.time,
            temp: self.temp - other.temp,
            curr: self.curr - other.curr,
        }
    }

    /// The dimension of a power: exponents scale by `k`.
    pub fn pow(self, k: i64) -> (r: Dim)
        requires
            pow_fits(self, k as int),
        ensures
            r == spec_pow(self, k as int),
    {
        Dim {
            len: self.len * k,
            mass: self.mass * k,
            time: self.time * k,
            temp: self.temp * k,
            curr: self.curr * k,
        }
    }

    /// The product, or `None` when an exponent leaves the range of `i64`.
    pub fn checked_mul(self, other: Dim) -> (r: Option<Dim>)
        ensures
            r == (if mul_fits(self, other) { Some(spec_mul(self, other)) } else { None::<Dim> }),
    {
        let a = self.len as i128 + other.len as i128;
        let b = self.mass as i128 + other.mass as i128;
        let c = self.time as i128 + other.time as i128;
        let d = self.temp as i128 + other.temp as i128;
        let e = self.curr as i128 + other.curr as i128;
        if in_i64(a) && in_i64(b) && in_i64(c) && in_i64(d) && in_i64(e) {
            Some(self.mul(other))
        } else {
            None
        }
    }

    /// The quotient, or `None` when an exponent leaves the range of `i64`.
    pub fn checked_div(self, other: Dim) -> (r: Option<Dim>)
        ensures
            r == (if div_fits(self, other) { Some(spec_div(self, other)) } else { None::<Dim> }),
    {
        let a = self.len as i128 - other.len as i128;
        let b = self.mass as i128 - other.mass as i128;
        let c = self.time as i128 - other.time as i128;
        let d = self.temp as i128 - other.temp as i128;
        let e = self.curr as i128 - other.curr as i128;
        if in_i64(a) && in_i64(b) && in_i64(c) && in_i64(d) && in_i64(e) {
            Some(self.div(other))
        } else {
            None
        }
    }

    /// The power, or `None` when an exponent leaves the range of `i64`.
    pub fn checked_pow(self, k: i64) -> (r: Option<Dim>)
        ensures
            r == (if pow_fits(self, k as int) { Some(spec_pow(self, k as int)) } else { None::<Dim> }),
    {
        let a = wide_mul(self.len, k);
        let b = wide_mul(self.mass, k);
        let c = wide_mul(self.time, k);
        let d = wide_mul(self.temp, k);
        let e = wide_mul(self.curr, k);
        if in_i64(a) && in_i64(b) && in_i64(c) && in_i64(d) && in_i64(e) {
            Some(self.pow(k))
        } else {
            None
        }
    }

    /// The display form, for instance `L^2_M_T^-2`, or `1` when dimensionless.
    pub fn render(&self) -> (r: String)
        ensures
            r@ == dim_text(*self),
    {
        let mut out = String::new();
        let mut first = true;
        let ghost ps = Seq::<Seq<char>>::empty();
        proof {
            reveal_strlit("L");
            reveal_strlit("M");
            reveal_strlit("T");
            reveal_strlit("Θ");
            reveal_strlit("I");
        }
        push_part(&mut out, &mut first, "L", self.len, Ghost(ps));
        let ghost ps = ps + part_of('L', self.len as int);
        push_part(&mut out, &mut first, "M", self.mass, Ghost(ps));
        let ghost ps = ps + part_of('M', self.mass as int);
        push_part(&mut out, &mut first, "T", self.time, Ghost(ps));
        let ghost ps = ps + part_of('T', self.time as int);
        push_part(&mut out, &mut first, "Θ", self.temp, Ghost(ps));
        let ghost ps = ps + part_of('Θ', self.temp as int);
        push_part(&mut out, &mut first, "I", self.curr, Ghost(ps));
        let ghost ps = ps + part_of('I', self.curr as int);
        assert(ps =~= dim_parts(*self));
        if first {
            proof {
                reveal_strlit("1");
            }
            out.append("1");
        }
        out
    }
}

fn wide_mul(a: i64, k: i64) -> (r: i128)
    ensures
        r == a as int * k as int,
{
    proof {
        assert(-0x8000_0000_0000_0000 * 0x8000_0000_0000_0000 <= a as int * k as int
            <= 0x8000_0000_0000_0000 * 0x8000_0000_0000_0000) by (nonlinear_arith)
            requires
                -0x8000_0000_0000_0000 <= a as int <= 0x7fff_ffff_ffff_ffff,
                -0x8000_0000_0000_0000 <= k as int <= 0x7fff_ffff_ffff_ffff,
        ;
    }
    a as i128 * k as i128
}

fn in_i64(x: i128) -> (r: bool)
    ensures
        r == fits_i64(x as int),
{
    -9223372036854775808i128 <= x && x <= 9223372036854775807i128
}

} // verus!
