//! The conversion engine: which scale factors multiply and divide the value,
//! with atomic units resolved against the dimension of the other side.

use vstd::prelude::*;
use vstd::string::*;
use crate::catalog::{atomic_unit, atomic_unit_of};
use crate::dim::Dim;
use crate::parse::{ConversionExpr, ExprModel, ScaleTerm, TargetModel, UnitTarget};

verus! {

/// The arithmetic of a conversion: the result is `value` times the product of
/// `from_scale` divided by the product of `to_scale`, shown with `symbol`.
#[derive(Debug)]
pub struct ConversionPlan {
    pub value: String,
    pub from_scale: Vec<ScaleTerm>,
    pub to_scale: Vec<ScaleTerm>,
    pub symbol: String,
}

pub struct PlanModel {
    pub value: Seq<char>,
    pub from_scale: Seq<ScaleTerm>,
    pub to_scale: Seq<ScaleTerm>,
    pub symbol: Seq<char>,
}

impl View for ConversionPlan {
    type V = PlanModel;

    open spec fn view(&self) -> PlanModel {
        PlanModel {
            value: self.value@,
            from_scale: self.from_scale@,
            to_scale: self.to_scale@,
            symbol: self.symbol@,
        }
    }
}

/// The factor to SI of atomic units of dimension `d`: each base atomic unit
/// raised to the matching exponent of `d`.
pub open spec fn au_scale(d: Dim) -> Seq<ScaleTerm> {
    seq![
        ScaleTerm { base: atomic_unit(0), power: d.len },
        ScaleTerm { base: atomic_unit(1), power: d.mass },
        ScaleTerm { base: atomic_unit(2), power: d.time },
        ScaleTerm { base: atomic_unit(3), power: d.temp },
        ScaleTerm { base: atomic_unit(4), power: d.curr },
    ]
}

/// The plan of a request; none when both sides are atomic units.
pub open spec fn plan_spec(e: ExprModel) -> Option<PlanModel> {
    match (e.from, e.to) {
        (TargetModel::Au, TargetModel::Unit(t)) => Some(
            PlanModel { value: e.value, from_scale: au_scale(t.dim), to_scale: t.scale, symbol: t.symbol },
        ),
        (TargetModel::Unit(f), TargetModel::Au) => Some(
            PlanModel { value: e.value, from_scale: f.scale, to_scale: au_scale(f.dim), symbol: "au"@ },
        ),
        (TargetModel::Unit(f), TargetModel::Unit(t)) => Some(
            PlanModel { value: e.value, from_scale: f.scale, to_scale: t.scale, symbol: t.symbol },
        ),
        (TargetModel::Au, TargetModel::Au) => None,
    }
}

fn au_terms(d: Dim) -> (r: Vec<ScaleTerm>)
    ensures
        r@ == au_scale(d),
{
    let mut r: Vec<ScaleTerm> = Vec::new();
    r.push(ScaleTerm { base: atomic_unit_of(0), power: d.len });
    r.push(ScaleTerm { base: atomic_unit_of(1), power: d.mass });
    r.push(ScaleTerm { base: atomic_unit_of(2), power: d.time });
    r.push(ScaleTerm { base: atomic_unit_of(3), power: d.temp });
    r.push(ScaleTerm { base: atomic_unit_of(4), power: d.curr });
    assert(r@ =~= au_scale(d));
    r
}

/// Resolves both sides of a request to scale factors.
pub fn plan_conversion(expr: ConversionExpr) -> (r: Option<ConversionPlan>)
    ensures
        match plan_spec(expr@) {
            Some(m) => r matches Some(p) && p@ == m,
            None => r is None,
        },
{
    let ConversionExpr { value, from, to } = expr;
    match (from, to) {
        (UnitTarget::Au, UnitTarget::Au) => None,
        (UnitTarget::Au, UnitTarget::Unit(t)) => Some(
            ConversionPlan { value, from_scale: au_terms(t.dim), to_scale: t.scale, symbol: t.symbol },
        ),
        (UnitTarget::Unit(f), UnitTarget::Au) => {
            let to_scale = au_terms(f.dim);
            Some(
                ConversionPlan { value, from_scale: f.scale, to_scale, symbol: String::from_str("au") },
            )
        },
        (UnitTarget::Unit(f), UnitTarget::Unit(t)) => Some(
            ConversionPlan { value, from_scale: f.scale, to_scale: t.scale, symbol: t.symbol },
        ),
    }
}

} // verus!
