//! The unit catalog: each unit name with its group, its dimension and its
//! factor to SI, held exactly as a decimal.

use vstd::prelude::*;
use vstd::string::*;
use crate::dim::{Dim, spec_dim};

verus! {

/// The exact decimal `mantissa * 10^exp10`.
#[derive(Clone, Copy, Debug, PartialEq, Eq, Structural)]
pub struct Decimal {
    pub mantissa: u64,
    pub exp10: i32,
}

/// One catalog row, as the contracts see it.
pub struct CatalogRow {
    pub name: Seq<char>,
    pub group: Seq<char>,
    pub dim: Dim,
    pub factor: Decimal,
}

/// One catalog row: the unit's symbol, which is also its name in a line.
#[derive(Clone, Copy, Debug)]
pub struct UnitDef {
    pub symbol: &'static str,
    pub group: &'static str,
    pub dim: Dim,
    pub factor: Decimal,
}

/// Number of rows in the catalog.
pub const CATALOG_LEN: usize = 83;

/// The atomic unit of each base dimension, in SI units, for axis 0 to 4:
/// length (Bohr radius, m), mass (electron mass, kg), time (s),
/// temperature (K) and current (A).
pub open spec fn atomic_unit(axis: int) -> Decimal {
    if axis == 0 {
        Decimal { mantissa: 5291772108, exp10: -20i32 }
    } else if axis == 1 {
        Decimal { mantissa: 91093826, exp10: -38i32 }
    } else if axis == 2 {
        Decimal { mantissa: 2418884326505, exp10: -29i32 }
    } else if axis == 3 {
        Decimal { mantissa: 31577464, exp10: -2i32 }
    } else {
        Decimal { mantissa: 662361782, exp10: -11i32 }
    }
}

/// The atomic unit of a base dimension (axis 0 to 4 as in `atomic_unit`).
pub fn atomic_unit_of(axis: usize) -> (r: Decimal)
    ensures
        r == atomic_unit(axis as int),
{
    match axis {
        0 => Decimal { mantissa: 5291772108, exp10: -20i32 },
        1 => Decimal { mantissa: 91093826, exp10: -38i32 },
        2 => Decimal { mantissa: 2418884326505, exp10: -29i32 },
        3 => Decimal { mantissa: 31577464, exp10: -2i32 },
        _ => Decimal { mantissa: 662361782, exp10: -11i32 },
    }
}

/// Row `i` of the catalog; rows are grouped by quantity.
pub open spec fn catalog_row(i: int) -> CatalogRow {
    if i == 0 {
        CatalogRow { name: seq!['m'], group: "length"@, dim: spec_dim(1, 0, 0, 0, 0), factor: Decimal { mantissa: 1, exp10: 0i32 } }
    } else if i == 1 {
        CatalogRow { name: seq!['k', 'm'], group: "length"@, dim: spec_dim(1, 0, 0, 0, 0), factor: Decimal { mantissa: 1, exp10: 3i32 } }
    } else if i == 2 {
        CatalogRow { name: seq!['d', 'm'], group: "length"@, dim: spec_dim(1, 0, 0, 0, 0), factor: Decimal { mantissa: 1, exp10: -1i32 } }
    } else if i == 3 {
        CatalogRow { name: seq!['c', 'm'], group: "length"@, dim: spec_dim(1, 0, 0, 0, 0), factor: Decimal { mantissa: 1, exp10: -2i32 } }
    } else if i == 4 {
        CatalogRow { name: seq!['m', 'm'], group: "length"@, dim: spec_dim(1, 0, 0, 0, 0), factor: Decimal { mantissa: 1, exp10: -3i32 } }
    } else if i == 5 {
        CatalogRow { name: seq!['u', 'm'], group: "length"@, dim: spec_dim(1, 0, 0, 0, 0), factor: Decimal { mantissa: 1, exp10: -6i32 } }
    } else if i == 6 {
        CatalogRow { name: seq!['n', 'm'], group: "length"@, dim: spec_dim(1, 0, 0, 0, 0), factor: Decimal { mantissa: 1, exp10: -9i32 } }
    } else if i == 7 {
        CatalogRow { name: seq!['a', 'n', 'g', 's', 't', 'r', 'o', 'm'], group: "length"@, dim: spec_dim(1, 0, 0, 0, 0), factor: Decimal { mantissa: 1, exp10: -10i32 } }
    } else if i == 8 {
        CatalogRow { name: seq!['a', 'n', 'g'], group: "length"@, dim: spec_dim(1, 0, 0, 0, 0), factor: Decimal { mantissa: 1, exp10: -10i32 } }
    } else if i == 9 {
        CatalogRow { name: seq!['p', 'm'], group: "length"@, dim: spec_dim(1, 0, 0, 0, 0), factor: Decimal { mantissa: 1, exp10: -12i32 } }
    } else if i == 10 {
        CatalogRow { name: seq!['f', 'm'], group: "length"@, dim: spec_dim(1, 0, 0, 0, 0), factor: Decimal { mantissa: 1, exp10: -15i32 } }
    } else if i == 11 {
        CatalogRow { name: seq!['d', 'a', 'y'], group: "time"@, dim: spec_dim(0, 0, 1, 0, 0), factor: Decimal { mantissa: 864, exp10: 2i32 } }
    } else if i == 12 {
        CatalogRow { name: seq!['h', 'o', 'u', 'r'], group: "time"@, dim: spec_dim(0, 0, 1, 0, 0), factor: Decimal { mantissa: 36, exp10: 2i32 } }
    } else if i == 13 {
        CatalogRow { name: seq!['m', 'i', 'n', 'u', 't', 'e'], group: "time"@, dim: spec_dim(0, 0, 1, 0, 0), factor: Decimal { mantissa: 6, exp10: 1i32 } }
    } else if i == 14 {
        CatalogRow { name: seq!['m', 'i', 'n'], group: "time"@, dim: spec_dim(0, 0, 1, 0, 0), factor: Decimal { mantissa: 6, exp10: 1i32 } }
    } else if i == 15 {
        CatalogRow { name: seq!['s'], group: "time"@, dim: spec_dim(0, 0, 1, 0, 0), factor: Decimal { mantissa: 1, exp10: 0i32 } }
    } else if i == 16 {
        CatalogRow { name: seq!['m', 's'], group: "time"@, dim: spec_dim(0, 0, 1, 0, 0), factor: Decimal { mantissa: 1, exp10: -3i32 } }
    } else if i == 17 {
        CatalogRow { name: seq!['u', 's'], group: "time"@, dim: spec_dim(0, 0, 1, 0, 0), factor: Decimal { mantissa: 1, exp10: -6i32 } }
    } else if i == 18 {
        CatalogRow { name: seq!['n', 's'], group: "time"@, dim: spec_dim(0, 0, 1, 0, 0), factor: Decimal { mantissa: 1, exp10: -9i32 } }
    } else if i == 19 {
        CatalogRow { name: seq!['p', 's'], group: "time"@, dim: spec_dim(0, 0, 1, 0, 0), factor: Decimal { mantissa: 1, exp10: -12i32 } }
    } else if i == 20 {
        CatalogRow { name: seq!['f', 's'], group: "time"@, dim: spec_dim(0, 0, 1, 0, 0), factor: Decimal { mantissa: 1, exp10: -15i32 } }
    } else if i == 21 {
        CatalogRow { name: seq!['K'], group: "temperature"@, dim: spec_dim(0, 0, 0, 1, 0), factor: Decimal { mantissa: 1, exp10: 0i32 } }
    } else if i == 22 {
        CatalogRow { name: seq!['A'], group: "current"@, dim: spec_dim(0, 0, 0, 0, 1), factor: Decimal { mantissa: 1, exp10: 0i32 } }
    } else if i == 23 {
        CatalogRow { name: seq!['k', 'A'], group: "current"@, dim: spec_dim(0, 0, 0, 0, 1), factor: Decimal { mantissa: 1, exp10: 3i32 } }
    } else if i == 24 {
        CatalogRow { name: seq!['M', 'A'], group: "current"@, dim: spec_dim(0, 0, 0, 0, 1), factor: Decimal { mantissa: 1, exp10: 6i32 } }
    } else if i == 25 {
        CatalogRow { name: seq!['m', 'A'], group: "current"@, dim: spec_dim(0, 0, 0, 0, 1), factor: Decimal { mantissa: 1, exp10: -3i32 } }
    } else if i == 26 {
        CatalogRow { name: seq!['u', 'A'], group: "current"@, dim: spec_dim(0, 0, 0, 0, 1), factor: Decimal { mantissa: 1, exp10: -6i32 } }
    } else if i == 27 {
        CatalogRow { name: seq!['n', 'A'], group: "current"@, dim: spec_dim(0, 0, 0, 0, 1), factor: Decimal { mantissa: 1, exp10: -9i32 } }
    } else if i == 28 {
        CatalogRow { name: seq!['p', 'A'], group: "current"@, dim: spec_dim(0, 0, 0, 0, 1), factor: Decimal { mantissa: 1, exp10: -12i32 } }
    } else if i == 29 {
        CatalogRow { name: seq!['f', 'A'], group: "current"@, dim: spec_dim(0, 0, 0, 0, 1), factor: Decimal { mantissa: 1, exp10: -15i32 } }
    } else if i == 30 {
        CatalogRow { name: seq!['k', 'g'], group: "mass"@, dim: spec_dim(0, 1, 0, 0, 0), factor: Decimal { mantissa: 1, exp10: 0i32 } }
    } else if i == 31 {
        CatalogRow { name: seq!['g'], group: "mass"@, dim: spec_dim(0, 1, 0, 0, 0), factor: Decimal { mantissa: 1, exp10: -3i32 } }
    } else if i == 32 {
        CatalogRow { name: seq!['m', 'g'], group: "mass"@, dim: spec_dim(0, 1, 0, 0, 0), factor: Decimal { mantissa: 1, exp10: -6i32 } }
    } else if i == 33 {
        CatalogRow { name: seq!['u', 'g'], group: "mass"@, dim: spec_dim(0, 1, 0, 0, 0), factor: Decimal { mantissa: 1, exp10: -9i32 } }
    } else if i == 34 {
        CatalogRow { name: seq!['n', 'g'], group: "mass"@, dim: spec_dim(0, 1, 0, 0, 0), factor: Decimal { mantissa: 1, exp10: -12i32 } }
    } else if i == 35 {
        CatalogRow { name: seq!['p', 'g'], group: "mass"@, dim: spec_dim(0, 1, 0, 0, 0), factor: Decimal { mantissa: 1, exp10: -15i32 } }
    } else if i == 36 {
        CatalogRow { name: seq!['t'], group: "mass"@, dim: spec_dim(0, 1, 0, 0, 0), factor: Decimal { mantissa: 1, exp10: 3i32 } }
    } else if i == 37 {
        CatalogRow { name: seq!['a', 'm', 'u'], group: "mass"@, dim: spec_dim(0, 1, 0, 0, 0), factor: Decimal { mantissa: 166053904, exp10: -35i32 } }
    } else if i == 38 {
        CatalogRow { name: seq!['D', 'a'], group: "mass"@, dim: spec_dim(0, 1, 0, 0, 0), factor: Decimal { mantissa: 166053904, exp10: -35i32 } }
    } else if i == 39 {
        CatalogRow { name: seq!['J'], group: "energy"@, dim: spec_dim(2, 1, -2, 0, 0), factor: Decimal { mantissa: 1, exp10: 0i32 } }
    } else if i == 40 {
        CatalogRow { name: seq!['k', 'J'], group: "energy"@, dim: spec_dim(2, 1, -2, 0, 0), factor: Decimal { mantissa: 1, exp10: 3i32 } }
    } else if i == 41 {
        CatalogRow { name: seq!['M', 'J'], group: "energy"@, dim: spec_dim(2, 1, -2, 0, 0), factor: Decimal { mantissa: 1, exp10: 6i32 } }
    } else if i == 42 {
        CatalogRow { name: seq!['G', 'J'], group: "energy"@, dim: spec_dim(2, 1, -2, 0, 0), factor: Decimal { mantissa: 1, exp10: 9i32 } }
    } else if i == 43 {
        CatalogRow { name: seq!['m', 'J'], group: "energy"@, dim: spec_dim(2, 1, -2, 0, 0), factor: Decimal { mantissa: 1, exp10: -3i32 } }
    } else if i == 44 {
        CatalogRow { name: seq!['u', 'J'], group: "energy"@, dim: spec_dim(2, 1, -2, 0, 0), factor: Decimal { mantissa: 1, exp10: -6i32 } }
    } else if i == 45 {
        CatalogRow { name: seq!['n', 'J'], group: "energy"@, dim: spec_dim(2, 1, -2, 0, 0), factor: Decimal { mantissa: 1, exp10: -9i32 } }
    } else if i == 46 {
        CatalogRow { name: seq!['p', 'J'], group: "energy"@, dim: spec_dim(2, 1, -2, 0, 0), factor: Decimal { mantissa: 1, exp10: -12i32 } }
    } else if i == 47 {
        CatalogRow { name: seq!['e', 'V'], group: "energy"@, dim: spec_dim(2, 1, -2, 0, 0), factor: Decimal { mantissa: 160217653, exp10: -27i32 } }
    } else if i == 48 {
        CatalogRow { name: seq!['k', 'e', 'V'], group: "energy"@, dim: spec_dim(2, 1, -2, 0, 0), factor: Decimal { mantissa: 160217653, exp10: -24i32 } }
    } else if i == 49 {
        CatalogRow { name: seq!['M', 'e', 'V'], group: "energy"@, dim: spec_dim(2, 1, -2, 0, 0), factor: Decimal { mantissa: 160217653, exp10: -21i32 } }
    } else if i == 50 {
        CatalogRow { name: seq!['G', 'e', 'V'], group: "energy"@, dim: spec_dim(2, 1, -2, 0, 0), factor: Decimal { mantissa: 160217653, exp10: -18i32 } }
    } else if i == 51 {
        CatalogRow { name: seq!['c', 'a', 'l'], group: "energy"@, dim: spec_dim(2, 1, -2, 0, 0), factor: Decimal { mantissa: 4184, exp10: -3i32 } }
    } else if i == 52 {
        CatalogRow { name: seq!['k', 'c', 'a', 'l'], group: "energy"@, dim: spec_dim(2, 1, -2, 0, 0), factor: Decimal { mantissa: 4184, exp10: 0i32 } }
    } else if i == 53 {
        CatalogRow { name: seq!['C', 'a', 'l'], group: "energy"@, dim: spec_dim(2, 1, -2, 0, 0), factor: Decimal { mantissa: 4184, exp10: 0i32 } }
    } else if i == 54 {
        CatalogRow { name: seq!['W', 'h'], group: "energy"@, dim: spec_dim(2, 1, -2, 0, 0), factor: Decimal { mantissa: 36, exp10: 2i32 } }
    } else if i == 55 {
        CatalogRow { name: seq!['k', 'W', 'h'], group: "energy"@, dim: spec_dim(2, 1, -2, 0, 0), factor: Decimal { mantissa: 36, exp10: 5i32 } }
    } else if i == 56 {
        CatalogRow { name: seq!['M', 'W', 'h'], group: "energy"@, dim: spec_dim(2, 1, -2, 0, 0), factor: Decimal { mantissa: 36, exp10: 8i32 } }
    } else if i == 57 {
        CatalogRow { name: seq!['C'], group: "charge"@, dim: spec_dim(0, 0, 1, 0, 1), factor: Decimal { mantissa: 1, exp10: 0i32 } }
    } else if i == 58 {
        CatalogRow { name: seq!['k', 'C'], group: "charge"@, dim: spec_dim(0, 0, 1, 0, 1), factor: Decimal { mantissa: 1, exp10: 3i32 } }
    } else if i == 59 {
        CatalogRow { name: seq!['m', 'C'], group: "charge"@, dim: spec_dim(0, 0, 1, 0, 1), factor: Decimal { mantissa: 1, exp10: -3i32 } }
    } else if i == 60 {
        CatalogRow { name: seq!['u', 'C'], group: "charge"@, dim: spec_dim(0, 0, 1, 0, 1), factor: Decimal { mantissa: 1, exp10: -6i32 } }
    } else if i == 61 {
        CatalogRow { name: seq!['n', 'C'], group: "charge"@, dim: spec_dim(0, 0, 1, 0, 1), factor: Decimal { mantissa: 1, exp10: -9i32 } }
    } else if i == 62 {
        CatalogRow { name: seq!['p', 'C'], group: "charge"@, dim: spec_dim(0, 0, 1, 0, 1), factor: Decimal { mantissa: 1, exp10: -12i32 } }
    } else if i == 63 {
        CatalogRow { name: seq!['A', 'h'], group: "charge"@, dim: spec_dim(0, 0, 1, 0, 1), factor: Decimal { mantissa: 36, exp10: 2i32 } }
    } else if i == 64 {
        CatalogRow { name: seq!['m', 'A', 'h'], group: "charge"@, dim: spec_dim(0, 0, 1, 0, 1), factor: Decimal { mantissa: 36, exp10: -1i32 } }
    } else if i == 65 {
        CatalogRow { name: seq!['N'], group: "force"@, dim: spec_dim(1, 1, -2, 0, 0), factor: Decimal { mantissa: 1, exp10: 0i32 } }
    } else if i == 66 {
        CatalogRow { name: seq!['k', 'N'], group: "force"@, dim: spec_dim(1, 1, -2, 0, 0), factor: Decimal { mantissa: 1, exp10: 3i32 } }
    } else if i == 67 {
        CatalogRow { name: seq!['M', 'N'], group: "force"@, dim: spec_dim(1, 1, -2, 0, 0), factor: Decimal { mantissa: 1, exp10: 6i32 } }
    } else if i == 68 {
        CatalogRow { name: seq!['m', 'N'], group: "force"@, dim: spec_dim(1, 1, -2, 0, 0), factor: Decimal { mantissa: 1, exp10: -3i32 } }
    } else if i == 69 {
        CatalogRow { name: seq!['u', 'N'], group: "force"@, dim: spec_dim(1, 1, -2, 0, 0), factor: Decimal { mantissa: 1, exp10: -6i32 } }
    } else if i == 70 {
        CatalogRow { name: seq!['d', 'y', 'n'], group: "force"@, dim: spec_dim(1, 1, -2, 0, 0), factor: Decimal { mantissa: 1, exp10: -5i32 } }
    } else if i == 71 {
        CatalogRow { name: seq!['P', 'a'], group: "pressure"@, dim: spec_dim(-1, 1, -2, 0, 0), factor: Decimal { mantissa: 1, exp10: 0i32 } }
    } else if i == 72 {
        CatalogRow { name: seq!['h', 'P', 'a'], group: "pressure"@, dim: spec_dim(-1, 1, -2, 0, 0), factor: Decimal { mantissa: 1, exp10: 2i32 } }
    } else if i == 73 {
        CatalogRow { name: seq!['k', 'P', 'a'], group: "pressure"@, dim: spec_dim(-1, 1, -2, 0, 0), factor: Decimal { mantissa: 1, exp10: 3i32 } }
    } else if i == 74 {
        CatalogRow { name: seq!['M', 'P', 'a'], group: "pressure"@, dim: spec_dim(-1, 1, -2, 0, 0), factor: Decimal { mantissa: 1, exp10: 6i32 } }
    } else if i == 75 {
        CatalogRow { name: seq!['G', 'P', 'a'], group: "pressure"@, dim: spec_dim(-1, 1, -2, 0, 0), factor: Decimal { mantissa: 1, exp10: 9i32 } }
    } else if i == 76 {
        CatalogRow { name: seq!['b', 'a', 'r'], group: "pressure"@, dim: spec_dim(-1, 1, -2, 0, 0), factor: Decimal { mantissa: 1, exp10: 5i32 } }
    } else if i == 77 {
        CatalogRow { name: seq!['m', 'b', 'a', 'r'], group: "pressure"@, dim: spec_dim(-1, 1, -2, 0, 0), factor: Decimal { mantissa: 1, exp10: 2i32 } }
    } else if i == 78 {
        CatalogRow { name: seq!['a', 't', 'm'], group: "pressure"@, dim: spec_dim(-1, 1, -2, 0, 0), factor: Decimal { mantissa: 101325, exp10: 0i32 } }
    } else if i == 79 {
        CatalogRow { name: seq!['T', 'o', 'r', 'r'], group: "pressure"@, dim: spec_dim(-1, 1, -2, 0, 0), factor: Decimal { mantissa: 13332236842105263, exp10: -14i32 } }
    } else if i == 80 {
        CatalogRow { name: seq!['m', 'm', 'H', 'g'], group: "pressure"@, dim: spec_dim(-1, 1, -2, 0, 0), factor: Decimal { mantissa: 133322387415, exp10: -9i32 } }
    } else if i == 81 {
        CatalogRow { name: seq!['p', 's', 'i'], group: "pressure"@, dim: spec_dim(-1, 1, -2, 0, 0), factor: Decimal { mantissa: 6894757293168, exp10: -9i32 } }
    } else {
        CatalogRow { name: seq!['b', 'a', 'r', 'y', 'e'], group: "pressure"@, dim: spec_dim(-1, 1, -2, 0, 0), factor: Decimal { mantissa: 1, exp10: -1i32 } }
    }
}

/// The index of the first row at or after `i` whose name is `name`.
pub open spec fn find_from(name: Seq<char>, i: int) -> Option<int>
    decreases CATALOG_LEN - i,
{
    if i < 0 || i >= CATALOG_LEN {
        None
    } else if catalog_row(i).name == name {
        Some(i)
    } else {
        find_from(name, i + 1)
    }
}

/// The dimension and factor that the catalog gives the unit `name`, if any.
#[verifier::opaque]
pub open spec fn catalog_lookup(name: Seq<char>) -> Option<(Dim, Decimal)> {
    match find_from(name, 0) {
        Some(i) => Some((catalog_row(i).dim, catalog_row(i).factor)),
        None => None,
    }
}

impl UnitDef {
    pub open spec fn matches(self, row: CatalogRow) -> bool {
        self.symbol@ == row.name && self.group@ == row.group && self.dim == row.dim
            && self.factor == row.factor
    }
}

/// Row `i` of the catalog.
pub fn catalog_entry(i: usize) -> (r: UnitDef)
    requires
        i < CATALOG_LEN,
    ensures
        r.matches(catalog_row(i as int)),
{
    match i {
        0 => {
            proof {
                reveal_strlit("m");
                assert("m"@ =~= seq!['m']);
            }
            UnitDef { symbol: "m", group: "length", dim: Dim { len: 1, mass: 0, time: 0, temp: 0, curr: 0 }, factor: Decimal { mantissa: 1, exp10: 0i32 } }
        },
        1 => {
            proof {
                reveal_strlit("km");
                assert("km"@ =~= seq!['k', 'm']);
            }
            UnitDef { symbol: "km", group: "length", dim: Dim { len: 1, mass: 0, time: 0, temp: 0, curr: 0 }, factor: Decimal { mantissa: 1, exp10: 3i32 } }
        },
        2 => {
            proof {
                reveal_strlit("dm");
                assert("dm"@ =~= seq!['d', 'm']);
            }
            UnitDef { symbol: "dm", group: "length", dim: Dim { len: 1, mass: 0, time: 0, temp: 0, curr: 0 }, factor: Decimal { mantissa: 1, exp10: -1i32 } }
        },
        3 => {
            proof {
                reveal_strlit("cm");
                assert("cm"@ =~= seq!['c', 'm']);
            }
            UnitDef { symbol: "cm", group: "length", dim: Dim { len: 1, mass: 0, time: 0, temp: 0, curr: 0 }, factor: Decimal { mantissa: 1, exp10: -2i32 } }
        },
        4 => {
            proof {
                reveal_strlit("mm");
                assert("mm"@ =~= seq!['m', 'm']);
            }
            UnitDef { symbol: "mm", group: "length", dim: Dim { len: 1, mass: 0, time: 0, temp: 0, curr: 0 }, factor: Decimal { mantissa: 1, exp10: -3i32 } }
        },
        5 => {
            proof {
                reveal_strlit("um");
                assert("um"@ =~= seq!['u', 'm']);
            }
            UnitDef { symbol: "um", group: "length", dim: Dim { len: 1, mass: 0, time: 0, temp: 0, curr: 0 }, factor: Decimal { mantissa: 1, exp10: -6i32 } }
        },
        6 => {
            proof {
                reveal_strlit("nm");
                assert("nm"@ =~= seq!['n', 'm']);
            }
            UnitDef { symbol: "nm", group: "length", dim: Dim { len: 1, mass: 0, time: 0, temp: 0, curr: 0 }, factor: Decimal { mantissa: 1, exp10: -9i32 } }
        },
        7 => {
            proof {
                reveal_strlit("angstrom");
                assert("angstrom"@ =~= seq!['a', 'n', 'g', 's', 't', 'r', 'o', 'm']);
            }
            UnitDef { symbol: "angstrom", group: "length", dim: Dim { len: 1, mass: 0, time: 0, temp: 0, curr: 0 }, factor: Decimal { mantissa: 1, exp10: -10i32 } }
        },
        8 => {
            proof {
                reveal_strlit("ang");
                assert("ang"@ =~= seq!['a', 'n', 'g']);
            }
            UnitDef { symbol: "ang", group: "length", dim: Dim { len: 1, mass: 0, time: 0, temp: 0, curr: 0 }, factor: Decimal { mantissa: 1, exp10: -10i32 } }
        },
        9 => {
            proof {
                reveal_strlit("pm");
                assert("pm"@ =~= seq!['p', 'm']);
            }
            UnitDef { symbol: "pm", group: "length", dim: Dim { len: 1, mass: 0, time: 0, temp: 0, curr: 0 }, factor: Decimal { mantissa: 1, exp10: -12i32 } }
        },
        10 => {
            proof {
                reveal_strlit("fm");
                assert("fm"@ =~= seq!['f', 'm']);
            }
            UnitDef { symbol: "fm", group: "length", dim: Dim { len: 1, mass: 0, time: 0, temp: 0, curr: 0 }, factor: Decimal { mantissa: 1, exp10: -15i32 } }
        },
        11 => {
            proof {
                reveal_strlit("day");
                assert("day"@ =~= seq!['d', 'a', 'y']);
            }
            UnitDef { symbol: "day", group: "time", dim: Dim { len: 0, mass: 0, time: 1, temp: 0, curr: 0 }, factor: Decimal { mantissa: 864, exp10: 2i32 } }
        },
        12 => {
            proof {
                reveal_strlit("hour");
                assert("hour"@ =~= seq!['h', 'o', 'u', 'r']);
            }
            UnitDef { symbol: "hour", group: "time", dim: Dim { len: 0, mass: 0, time: 1, temp: 0, curr: 0 }, factor: Decimal { mantissa: 36, exp10: 2i32 } }
        },
        13 => {
            proof {
                reveal_strlit("minute");
                assert("minute"@ =~= seq!['m', 'i', 'n', 'u', 't', 'e']);
            }
            UnitDef { symbol: "minute", group: "time", dim: Dim { len: 0, mass: 0, time: 1, temp: 0, curr: 0 }, factor: Decimal { mantissa: 6, exp10: 1i32 } }
        },
        14 => {
            proof {
                reveal_strlit("min");
                assert("min"@ =~= seq!['m', 'i', 'n']);
            }
            UnitDef { symbol: "min", group: "time", dim: Dim { len: 0, mass: 0, time: 1, temp: 0, curr: 0 }, factor: Decimal { mantissa: 6, exp10: 1i32 } }
        },
        15 => {
            proof {
                reveal_strlit("s");
                assert("s"@ =~= seq!['s']);
            }
            UnitDef { symbol: "s", group: "time", dim: Dim { len: 0, mass: 0, time: 1, temp: 0, curr: 0 }, factor: Decimal { mantissa: 1, exp10: 0i32 } }
        },
        16 => {
            proof {
                reveal_strlit("ms");
                assert("ms"@ =~= seq!['m', 's']);
            }
            UnitDef { symbol: "ms", group: "time", dim: Dim { len: 0, mass: 0, time: 1, temp: 0, curr: 0 }, factor: Decimal { mantissa: 1, exp10: -3i32 } }
        },
        17 => {
            proof {
                reveal_strlit("us");
                assert("us"@ =~= seq!['u', 's']);
            }
            UnitDef { symbol: "us", group: "time", dim: Dim { len: 0, mass: 0, time: 1, temp: 0, curr: 0 }, factor: Decimal { mantissa: 1, exp10: -6i32 } }
        },
        18 => {
            proof {
                reveal_strlit("ns");
                assert("ns"@ =~= seq!['n', 's']);
            }
            UnitDef { symbol: "ns", group: "time", dim: Dim { len: 0, mass: 0, time: 1, temp: 0, curr: 0 }, factor: Decimal { mantissa: 1, exp10: -9i32 } }
        },
        19 => {
            proof {
                reveal_strlit("ps");
                assert("ps"@ =~= seq!['p', 's']);
            }
            UnitDef { symbol: "ps", group: "time", dim: Dim { len: 0, mass: 0, time: 1, temp: 0, curr: 0 }, factor: Decimal { mantissa: 1, exp10: -12i32 } }
        },
        20 => {
            proof {
                reveal_strlit("fs");
                assert("fs"@ =~= seq!['f', 's']);
            }
            UnitDef { symbol: "fs", group: "time", dim: Dim { len: 0, mass: 0, time: 1, temp: 0, curr: 0 }, factor: Decimal { mantissa: 1, exp10: -15i32 } }
        },
        21 => {
            proof {
                reveal_strlit("K");
                assert("K"@ =~= seq!['K']);
            }
            UnitDef { symbol: "K", group: "temperature", dim: Dim { len: 0, mass: 0, time: 0, temp: 1, curr: 0 }, factor: Decimal { mantissa: 1, exp10: 0i32 } }
        },
        22 => {
            proof {
                reveal_strlit("A");
                assert("A"@ =~= seq!['A']);
            }
            UnitDef { symbol: "A", group: "current", dim: Dim { len: 0, mass: 0, time: 0, temp: 0, curr: 1 }, factor: Decimal { mantissa: 1, exp10: 0i32 } }
        },
        23 => {
            proof {
                reveal_strlit("kA");
                assert("kA"@ =~= seq!['k', 'A']);
            }
            UnitDef { symbol: "kA", group: "current", dim: Dim { len: 0, mass: 0, time: 0, temp: 0, curr: 1 }, factor: Decimal { mantissa: 1, exp10: 3i32 } }
        },
        24 => {
            proof {
                reveal_strlit("MA");
                assert("MA"@ =~= seq!['M', 'A']);
            }
            UnitDef { symbol: "MA", group: "current", dim: Dim { len: 0, mass: 0, time: 0, temp: 0, curr: 1 }, factor: Decimal { mantissa: 1, exp10: 6i32 } }
        },
        25 => {
            proof {
                reveal_strlit("mA");
                assert("mA"@ =~= seq!['m', 'A']);
            }
            UnitDef { symbol: "mA", group: "current", dim: Dim { len: 0, mass: 0, time: 0, temp: 0, curr: 1 }, factor: Decimal { mantissa: 1, exp10: -3i32 } }
        },
        26 => {
            proof {
                reveal_strlit("uA");
                assert("uA"@ =~= seq!['u', 'A']);
            }
            UnitDef { symbol: "uA", group: "current", dim: Dim { len: 0, mass: 0, time: 0, temp: 0, curr: 1 }, factor: Decimal { mantissa: 1, exp10: -6i32 } }
        },
        27 => {
            proof {
                reveal_strlit("nA");
                assert("nA"@ =~= seq!['n', 'A']);
            }
            UnitDef { symbol: "nA", group: "current", dim: Dim { len: 0, mass: 0, time: 0, temp: 0, curr: 1 }, factor: Decimal { mantissa: 1, exp10: -9i32 } }
        },
        28 => {
            proof {
                reveal_strlit("pA");
                assert("pA"@ =~= seq!['p', 'A']);
            }
            UnitDef { symbol: "pA", group: "current", dim: Dim { len: 0, mass: 0, time: 0, temp: 0, curr: 1 }, factor: Decimal { mantissa: 1, exp10: -12i32 } }
        },
        29 => {
            proof {
                reveal_strlit("fA");
                assert("fA"@ =~= seq!['f', 'A']);
            }
            UnitDef { symbol: "fA", group: "current", dim: Dim { len: 0, mass: 0, time: 0, temp: 0, curr: 1 }, factor: Decimal { mantissa: 1, exp10: -15i32 } }
        },
        30 => {
            proof {
                reveal_strlit("kg");
                assert("kg"@ =~= seq!['k', 'g']);
            }
            UnitDef { symbol: "kg", group: "mass", dim: Dim { len: 0, mass: 1, time: 0, temp: 0, curr: 0 }, factor: Decimal { mantissa: 1, exp10: 0i32 } }
        },
        31 => {
            proof {
                reveal_strlit("g");
                assert("g"@ =~= seq!['g']);
            }
            UnitDef { symbol: "g", group: "mass", dim: Dim { len: 0, mass: 1, time: 0, temp: 0, curr: 0 }, factor: Decimal { mantissa: 1, exp10: -3i32 } }
        },
        32 => {
            proof {
                reveal_strlit("mg");
                assert("mg"@ =~= seq!['m', 'g']);
            }
            UnitDef { symbol: "mg", group: "mass", dim: Dim { len: 0, mass: 1, time: 0, temp: 0, curr: 0 }, factor: Decimal { mantissa: 1, exp10: -6i32 } }
        },
        33 => {
            proof {
                reveal_strlit("ug");
                assert("ug"@ =~= seq!['u', 'g']);
            }
            UnitDef { symbol: "ug", group: "mass", dim: Dim { len: 0, mass: 1, time: 0, temp: 0, curr: 0 }, factor: Decimal { mantissa: 1, exp10: -9i32 } }
        },
        34 => {
            proof {
                reveal_strlit("ng");
                assert("ng"@ =~= seq!['n', 'g']);
            }
            UnitDef { symbol: "ng", group: "mass", dim: Dim { len: 0, mass: 1, time: 0, temp: 0, curr: 0 }, factor: Decimal { mantissa: 1, exp10: -12i32 } }
        },
        35 => {
            proof {
                reveal_strlit("pg");
                assert("pg"@ =~= seq!['p', 'g']);
            }
            UnitDef { symbol: "pg", group: "mass", dim: Dim { len: 0, mass: 1, time: 0, temp: 0, curr: 0 }, factor: Decimal { mantissa: 1, exp10: -15i32 } }
        },
        36 => {
            proof {
                reveal_strlit("t");
                assert("t"@ =~= seq!['t']);
            }
            UnitDef { symbol: "t", group: "mass", dim: Dim { len: 0, mass: 1, time: 0, temp: 0, curr: 0 }, factor: Decimal { mantissa: 1, exp10: 3i32 } }
        },
        37 => {
            proof {
                reveal_strlit("amu");
                assert("amu"@ =~= seq!['a', 'm', 'u']);
            }
            UnitDef { symbol: "amu", group: "mass", dim: Dim { len: 0, mass: 1, time: 0, temp: 0, curr: 0 }, factor: Decimal { mantissa: 166053904, exp10: -35i32 } }
        },
        38 => {
            proof {
                reveal_strlit("Da");
                assert("Da"@ =~= seq!['D', 'a']);
            }
            UnitDef { symbol: "Da", group: "mass", dim: Dim { len: 0, mass: 1, time: 0, temp: 0, curr: 0 }, factor: Decimal { mantissa: 166053904, exp10: -35i32 } }
        },
        39 => {
            proof {
                reveal_strlit("J");
                assert("J"@ =~= seq!['J']);
            }
            UnitDef { symbol: "J", group: "energy", dim: Dim { len: 2, mass: 1, time: -2, temp: 0, curr: 0 }, factor: Decimal { mantissa: 1, exp10: 0i32 } }
        },
        40 => {
            proof {
                reveal_strlit("kJ");
                assert("kJ"@ =~= seq!['k', 'J']);
            }
            UnitDef { symbol: "kJ", group: "energy", dim: Dim { len: 2, mass: 1, time: -2, temp: 0, curr: 0 }, factor: Decimal { mantissa: 1, exp10: 3i32 } }
        },
        41 => {
            proof {
                reveal_strlit("MJ");
                assert("MJ"@ =~= seq!['M', 'J']);
            }
            UnitDef { symbol: "MJ", group: "energy", dim: Dim { len: 2, mass: 1, time: -2, temp: 0, curr: 0 }, factor: Decimal { mantissa: 1, exp10: 6i32 } }
        },
        42 => {
            proof {
                reveal_strlit("GJ");
                assert("GJ"@ =~= seq!['G', 'J']);
            }
            UnitDef { symbol: "GJ", group: "energy", dim: Dim { len: 2, mass: 1, time: -2, temp: 0, curr: 0 }, factor: Decimal { mantissa: 1, exp10: 9i32 } }
        },
        43 => {
            proof {
                reveal_strlit("mJ");
                assert("mJ"@ =~= seq!['m', 'J']);
            }
            UnitDef { symbol: "mJ", group: "energy", dim: Dim { len: 2, mass: 1, time: -2, temp: 0, curr: 0 }, factor: Decimal { mantissa: 1, exp10: -3i32 } }
        },
        44 => {
            proof {
                reveal_strlit("uJ");
                assert("uJ"@ =~= seq!['u', 'J']);
            }
            UnitDef { symbol: "uJ", group: "energy", dim: Dim { len: 2, mass: 1, time: -2, temp: 0, curr: 0 }, factor: Decimal { mantissa: 1, exp10: -6i32 } }
        },
        45 => {
            proof {
                reveal_strlit("nJ");
                assert("nJ"@ =~= seq!['n', 'J']);
            }
            UnitDef { symbol: "nJ", group: "energy", dim: Dim { len: 2, mass: 1, time: -2, temp: 0, curr: 0 }, factor: Decimal { mantissa: 1, exp10: -9i32 } }
        },
        46 => {
            proof {
                reveal_strlit("pJ");
                assert("pJ"@ =~= seq!['p', 'J']);
            }
            UnitDef { symbol: "pJ", group: "energy", dim: Dim { len: 2, mass: 1, time: -2, temp: 0, curr: 0 }, factor: Decimal { mantissa: 1, exp10: -12i32 } }
        },
        47 => {
            proof {
                reveal_strlit("eV");
                assert("eV"@ =~= seq!['e', 'V']);
            }
            UnitDef { symbol: "eV", group: "energy", dim: Dim { len: 2, mass: 1, time: -2, temp: 0, curr: 0 }, factor: Decimal { mantissa: 160217653, exp10: -27i32 } }
        },
        48 => {
            proof {
                reveal_strlit("keV");
                assert("keV"@ =~= seq!['k', 'e', 'V']);
            }
            UnitDef { symbol: "keV", group: "energy", dim: Dim { len: 2, mass: 1, time: -2, temp: 0, curr: 0 }, factor: Decimal { mantissa: 160217653, exp10: -24i32 } }
        },
        49 => {
            proof {
                reveal_strlit("MeV");
                assert("MeV"@ =~= seq!['M', 'e', 'V']);
            }
            UnitDef { symbol: "MeV", group: "energy", dim: Dim { len: 2, mass: 1, time: -2, temp: 0, curr: 0 }, factor: Decimal { mantissa: 160217653, exp10: -21i32 } }
        },
        50 => {
            proof {
                reveal_strlit("GeV");
                assert("GeV"@ =~= seq!['G', 'e', 'V']);
            }
            UnitDef { symbol: "GeV", group: "energy", dim: Dim { len: 2, mass: 1, time: -2, temp: 0, curr: 0 }, factor: Decimal { mantissa: 160217653, exp10: -18i32 } }
        },
        51 => {
            proof {
                reveal_strlit("cal");
                assert("cal"@ =~= seq!['c', 'a', 'l']);
            }
            UnitDef { symbol: "cal", group: "energy", dim: Dim { len: 2, mass: 1, time: -2, temp: 0, curr: 0 }, factor: Decimal { mantissa: 4184, exp10: -3i32 } }
        },
        52 => {
            proof {
                reveal_strlit("kcal");
                assert("kcal"@ =~= seq!['k', 'c', 'a', 'l']);
            }
            UnitDef { symbol: "kcal", group: "energy", dim: Dim { len: 2, mass: 1, time: -2, temp: 0, curr: 0 }, factor: Decimal { mantissa: 4184, exp10: 0i32 } }
        },
        53 => {
            proof {
                reveal_strlit("Cal");
                assert("Cal"@ =~= seq!['C', 'a', 'l']);
            }
            UnitDef { symbol: "Cal", group: "energy", dim: Dim { len: 2, mass: 1, time: -2, temp: 0, curr: 0 }, factor: Decimal { mantissa: 4184, exp10: 0i32 } }
        },
        54 => {
            proof {
                reveal_strlit("Wh");
                assert("Wh"@ =~= seq!['W', 'h']);
            }
            UnitDef { symbol: "Wh", group: "energy", dim: Dim { len: 2, mass: 1, time: -2, temp: 0, curr: 0 }, factor: Decimal { mantissa: 36, exp10: 2i32 } }
        },
        55 => {
            proof {
                reveal_strlit("kWh");
                assert("kWh"@ =~= seq!['k', 'W', 'h']);
            }
            UnitDef { symbol: "kWh", group: "energy", dim: Dim { len: 2, mass: 1, time: -2, temp: 0, curr: 0 }, factor: Decimal { mantissa: 36, exp10: 5i32 } }
        },
        56 => {
            proof {
                reveal_strlit("MWh");
                assert("MWh"@ =~= seq!['M', 'W', 'h']);
            }
            UnitDef { symbol: "MWh", group: "energy", dim: Dim { len: 2, mass: 1, time: -2, temp: 0, curr: 0 }, factor: Decimal { mantissa: 36, exp10: 8i32 } }
        },
        57 => {
            proof {
                reveal_strlit("C");
                assert("C"@ =~= seq!['C']);
            }
            UnitDef { symbol: "C", group: "charge", dim: Dim { len: 0, mass: 0, time: 1, temp: 0, curr: 1 }, factor: Decimal { mantissa: 1, exp10: 0i32 } }
        },
        58 => {
            proof {
                reveal_strlit("kC");
                assert("kC"@ =~= seq!['k', 'C']);
            }
            UnitDef { symbol: "kC", group: "charge", dim: Dim { len: 0, mass: 0, time: 1, temp: 0, curr: 1 }, factor: Decimal { mantissa: 1, exp10: 3i32 } }
        },
        59 => {
            proof {
                reveal_strlit("mC");
                assert("mC"@ =~= seq!['m', 'C']);
            }
            UnitDef { symbol: "mC", group: "charge", dim: Dim { len: 0, mass: 0, time: 1, temp: 0, curr: 1 }, factor: Decimal { mantissa: 1, exp10: -3i32 } }
        },
        60 => {
            proof {
                reveal_strlit("uC");
                assert("uC"@ =~= seq!['u', 'C']);
            }
            UnitDef { symbol: "uC", group: "charge", dim: Dim { len: 0, mass: 0, time: 1, temp: 0, curr: 1 }, factor: Decimal { mantissa: 1, exp10: -6i32 } }
        },
        61 => {
            proof {
                reveal_strlit("nC");
                assert("nC"@ =~= seq!['n', 'C']);
            }
            UnitDef { symbol: "nC", group: "charge", dim: Dim { len: 0, mass: 0, time: 1, temp: 0, curr: 1 }, factor: Decimal { mantissa: 1, exp10: -9i32 } }
        },
        62 => {
            proof {
                reveal_strlit("pC");
                assert("pC"@ =~= seq!['p', 'C']);
            }
            UnitDef { symbol: "pC", group: "charge", dim: Dim { len: 0, mass: 0, time: 1, temp: 0, curr: 1 }, factor: Decimal { mantissa: 1, exp10: -12i32 } }
        },
        63 => {
            proof {
                reveal_strlit("Ah");
                assert("Ah"@ =~= seq!['A', 'h']);
            }
            UnitDef { symbol: "Ah", group: "charge", dim: Dim { len: 0, mass: 0, time: 1, temp: 0, curr: 1 }, factor: Decimal { mantissa: 36, exp10: 2i32 } }
        },
        64 => {
            proof {
                reveal_strlit("mAh");
                assert("mAh"@ =~= seq!['m', 'A', 'h']);
            }
            UnitDef { symbol: "mAh", group: "charge", dim: Dim { len: 0, mass: 0, time: 1, temp: 0, curr: 1 }, factor: Decimal { mantissa: 36, exp10: -1i32 } }
        },
        65 => {
            proof {
                reveal_strlit("N");
                assert("N"@ =~= seq!['N']);
            }
            UnitDef { symbol: "N", group: "force", dim: Dim { len: 1, mass: 1, time: -2, temp: 0, curr: 0 }, factor: Decimal { mantissa: 1, exp10: 0i32 } }
        },
        66 => {
            proof {
                reveal_strlit("kN");
                assert("kN"@ =~= seq!['k', 'N']);
            }
            UnitDef { symbol: "kN", group: "force", dim: Dim { len: 1, mass: 1, time: -2, temp: 0, curr: 0 }, factor: Decimal { mantissa: 1, exp10: 3i32 } }
        },
        67 => {
            proof {
                reveal_strlit("MN");
                assert("MN"@ =~= seq!['M', 'N']);
            }
            UnitDef { symbol: "MN", group: "force", dim: Dim { len: 1, mass: 1, time: -2, temp: 0, curr: 0 }, factor: Decimal { mantissa: 1, exp10: 6i32 } }
        },
        68 => {
            proof {
                reveal_strlit("mN");
                assert("mN"@ =~= seq!['m', 'N']);
            }
            UnitDef { symbol: "mN", group: "force", dim: Dim { len: 1, mass: 1, time: -2, temp: 0, curr: 0 }, factor: Decimal { mantissa: 1, exp10: -3i32 } }
        },
        69 => {
            proof {
                reveal_strlit("uN");
                assert("uN"@ =~= seq!['u', 'N']);
            }
            UnitDef { symbol: "uN", group: "force", dim: Dim { len: 1, mass: 1, time: -2, temp: 0, curr: 0 }, factor: Decimal { mantissa: 1, exp10: -6i32 } }
        },
        70 => {
            proof {
                reveal_strlit("dyn");
                assert("dyn"@ =~= seq!['d', 'y', 'n']);
            }
            UnitDef { symbol: "dyn", group: "force", dim: Dim { len: 1, mass: 1, time: -2, temp: 0, curr: 0 }, factor: Decimal { mantissa: 1, exp10: -5i32 } }
        },
        71 => {
            proof {
                reveal_strlit("Pa");
                assert("Pa"@ =~= seq!['P', 'a']);
            }
            UnitDef { symbol: "Pa", group: "pressure", dim: Dim { len: -1, mass: 1, time: -2, temp: 0, curr: 0 }, factor: Decimal { mantissa: 1, exp10: 0i32 } }
        },
        72 => {
            proof {
                reveal_strlit("hPa");
                assert("hPa"@ =~= seq!['h', 'P', 'a']);
            }
            UnitDef { symbol: "hPa", group: "pressure", dim: Dim { len: -1, mass: 1, time: -2, temp: 0, curr: 0 }, factor: Decimal { mantissa: 1, exp10: 2i32 } }
        },
        73 => {
            proof {
                reveal_strlit("kPa");
                assert("kPa"@ =~= seq!['k', 'P', 'a']);
            }
            UnitDef { symbol: "kPa", group: "pressure", dim: Dim { len: -1, mass: 1, time: -2, temp: 0, curr: 0 }, factor: Decimal { mantissa: 1, exp10: 3i32 } }
        },
        74 => {
            proof {
                reveal_strlit("MPa");
                assert("MPa"@ =~= seq!['M', 'P', 'a']);
            }
            UnitDef { symbol: "MPa", group: "pressure", dim: Dim { len: -1, mass: 1, time: -2, temp: 0, curr: 0 }, factor: Decimal { mantissa: 1, exp10: 6i32 } }
        },
        75 => {
            proof {
                reveal_strlit("GPa");
                assert("GPa"@ =~= seq!['G', 'P', 'a']);
            }
            UnitDef { symbol: "GPa", group: "pressure", dim: Dim { len: -1, mass: 1, time: -2, temp: 0, curr: 0 }, factor: Decimal { mantissa: 1, exp10: 9i32 } }
        },
        76 => {
            proof {
                reveal_strlit("bar");
                assert("bar"@ =~= seq!['b', 'a', 'r']);
            }
            UnitDef { symbol: "bar", group: "pressure", dim: Dim { len: -1, mass: 1, time: -2, temp: 0, curr: 0 }, factor: Decimal { mantissa: 1, exp10: 5i32 } }
        },
        77 => {
            proof {
                reveal_strlit("mbar");
                assert("mbar"@ =~= seq!['m', 'b', 'a', 'r']);
            }
            UnitDef { symbol: "mbar", group: "pressure", dim: Dim { len: -1, mass: 1, time: -2, temp: 0, curr: 0 }, factor: Decimal { mantissa: 1, exp10: 2i32 } }
        },
        78 => {
            proof {
                reveal_strlit("atm");
                assert("atm"@ =~= seq!['a', 't', 'm']);
            }
            UnitDef { symbol: "atm", group: "pressure", dim: Dim { len: -1, mass: 1, time: -2, temp: 0, curr: 0 }, factor: Decimal { mantissa: 101325, exp10: 0i32 } }
        },
        79 => {
            proof {
                reveal_strlit("Torr");
                assert("Torr"@ =~= seq!['T', 'o', 'r', 'r']);
            }
            UnitDef { symbol: "Torr", group: "pressure", dim: Dim { len: -1, mass: 1, time: -2, temp: 0, curr: 0 }, factor: Decimal { mantissa: 13332236842105263, exp10: -14i32 } }
        },
        80 => {
            proof {
                reveal_strlit("mmHg");
                assert("mmHg"@ =~= seq!['m', 'm', 'H', 'g']);
            }
            UnitDef { symbol: "mmHg", group: "pressure", dim: Dim { len: -1, mass: 1, time: -2, temp: 0, curr: 0 }, factor: Decimal { mantissa: 133322387415, exp10: -9i32 } }
        },
        81 => {
            proof {
                reveal_strlit("psi");
                assert("psi"@ =~= seq!['p', 's', 'i']);
            }
            UnitDef { symbol: "psi", group: "pressure", dim: Dim { len: -1, mass: 1, time: -2, temp: 0, curr: 0 }, factor: Decimal { mantissa: 6894757293168, exp10: -9i32 } }
        },
        _ => {
            proof {
                reveal_strlit("barye");
                assert("barye"@ =~= seq!['b', 'a', 'r', 'y', 'e']);
            }
            UnitDef { symbol: "barye", group: "pressure", dim: Dim { len: -1, mass: 1, time: -2, temp: 0, curr: 0 }, factor: Decimal { mantissa: 1, exp10: -1i32 } }
        },
    }
}

/// Whether `chars[a..b]` spells `name`.
pub fn spells(chars: &Vec<char>, a: usize, b: usize, name: &str) -> (r: bool)
    requires
        a <= b <= chars@.len(),
    ensures
        r == (chars@.subrange(a as int, b as int) == name@),
{
    let n = name.unicode_len();
    if b - a != n {
        proof {
            assert(chars@.subrange(a as int, b as int).len() != name@.len());
        }
        return false;
    }
    let mut k: usize = 0;
    while k < n
        invariant
            n == name@.len(),
            b - a == n,
            a <= b <= chars@.len(),
            k <= n,
            forall|j: int| 0 <= j < k ==> chars@[a + j] == name@[j],
        decreases n - k,
    {
        if chars[a + k] != name.get_char(k) {
            proof {
                assert(chars@.subrange(a as int, b as int)[k as int] != name@[k as int]);
            }
            return false;
        }
        k = k + 1;
    }
    assert(chars@.subrange(a as int, b as int) =~= name@);
    true
}

/// Looks up the unit spelled by `chars[a..b]`.
pub fn lookup_unit(chars: &Vec<char>, a: usize, b: usize) -> (r: Option<(Dim, Decimal)>)
    requires
        a <= b <= chars@.len(),
    ensures
        r == catalog_lookup(chars@.subrange(a as int, b as int)),
{
    let ghost name = chars@.subrange(a as int, b as int);
    proof {
        reveal(catalog_lookup);
    }
    let mut i: usize = 0;
    while i < CATALOG_LEN
        invariant
            i <= CATALOG_LEN,
            a <= b <= chars@.len(),
            name == chars@.subrange(a as int, b as int),
            find_from(name, 0) == find_from(name, i as int),
        decreases CATALOG_LEN - i,
    {
        let e = catalog_entry(i);
        if spells(chars, a, b, e.symbol) {
            proof {
                reveal(catalog_lookup);
            }
            return Some((e.dim, e.factor));
        }
        i = i + 1;
    }
    None
}

} // verus!
