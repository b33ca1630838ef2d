//! The six model families and their fitted instances.
//!
//! A fitted model is a closed tagged union over the six families, each
//! variant carrying its derived coefficients as binary64 bit patterns.  The
//! family order is fixed — linear, quadratic, cubic, exponential,
//! logarithmic, power — and ties in the final ranking are broken in its
//! favour, so it is part of the engine's contract.

use vstd::prelude::*;

use crate::point_set::{Point, PointSet, all_x_positive_spec, all_y_positive_spec};
use crate::real_bits::{is_finite_pattern, pattern_is_finite};

verus! {

/// The tags of the six model families, in the fixed fitting order.
#[derive(Clone, Copy, Debug, PartialEq, Eq, Structural)]
pub enum Family {
    /// a·x + b
    Linear,
    /// a0 + a1·x + a2·x²
    Quadratic,
    /// a0 + a1·x + a2·x² + a3·x³
    Cubic,
    /// exp(a0·x + a1)
    Exponent,
    /// a0·ln(x) + a1
    Logrithm,
    /// exp(a0)·x^a1
    Power,
}

/// How many model families there are.
pub const FAMILY_COUNT: usize = 6;

impl Family {
    /// The position of this family in the fixed fitting order.
    pub open spec fn index_spec(&self) -> int {
        match self {
            Family::Linear => 0,
            Family::Quadratic => 1,
            Family::Cubic => 2,
            Family::Exponent => 3,
            Family::Logrithm => 4,
            Family::Power => 5,
        }
    }

    /// The position of this family in the fixed fitting order.
    pub fn index(&self) -> (r: usize)
        ensures
            r == self.index_spec(),
            r < FAMILY_COUNT,
    {
        match self {
            Family::Linear => 0,
            Family::Quadratic => 1,
            Family::Cubic => 2,
            Family::Exponent => 3,
            Family::Logrithm => 4,
            Family::Power => 5,
        }
    }

    /// The family's display name.
    pub open spec fn name_spec(&self) -> Seq<char> {
        match self {
            Family::Linear => "Linear"@,
            Family::Quadratic => "Quadratic"@,
            Family::Cubic => "Cubic"@,
            Family::Exponent => "Exponent"@,
            Family::Logrithm => "Natural Logarithm"@,
            Family::Power => "Power"@,
        }
    }

    /// The family's display name.
    pub fn name(&self) -> (r: String)
        ensures
            r@ == self.name_spec(),
    {
        match self {
            Family::Linear => "Linear".to_owned(),
            Family::Quadratic => "Quadratic".to_owned(),
            Family::Cubic => "Cubic".to_owned(),
            Family::Exponent => "Exponent".to_owned(),
            Family::Logrithm => "Natural Logarithm".to_owned(),
            Family::Power => "Power".to_owned(),
        }
    }

    /// Whether this family's derivation takes the natural logarithm of the
    /// abscissas, so that every x must be strictly positive.
    pub open spec fn takes_log_x_spec(&self) -> bool {
        match self {
            Family::Logrithm | Family::Power => true,
            _ => false,
        }
    }

    /// Whether this family's derivation takes the natural logarithm of the
    /// ordinates, so that every y must be strictly positive.
    pub open spec fn takes_log_y_spec(&self) -> bool {
        match self {
            Family::Exponent | Family::Power => true,
            _ => false,
        }
    }

    /// Whether this family's derivation is defined on the prepared set `ps`:
    /// every coordinate a logarithm will be taken of is strictly positive.
    pub open spec fn domain_ok_spec(&self, ps: Seq<Point>) -> bool {
        &&& (self.takes_log_x_spec() ==> all_x_positive_spec(ps))
        &&& (self.takes_log_y_spec() ==> all_y_positive_spec(ps))
    }

    /// Decides whether this family may be fitted against `ps` at all.  A
    /// family whose derivation would take a logarithm of a non-positive
    /// coordinate is excluded before any arithmetic runs.
    pub fn domain_ok(&self, ps: &PointSet) -> (r: bool)
        ensures
            r == self.domain_ok_spec(ps@),
    {
        let x_ok = match self {
            Family::Logrithm | Family::Power => ps.all_x_positive(),
            _ => true,
        };
        if !x_ok {
            return false;
        }
        match self {
            Family::Exponent | Family::Power => ps.all_y_positive(),
            _ => true,
        }
    }
}

/// The fixed fitting order of the families.
pub open spec fn family_order_spec() -> Seq<Family> {
    seq![
        Family::Linear,
        Family::Quadratic,
        Family::Cubic,
        Family::Exponent,
        Family::Logrithm,
        Family::Power,
    ]
}

/// The families in their fixed fitting order; position `i` of every
/// per-family vector the engine handles refers to `family_order()[i]`.
pub fn family_order() -> (r: Vec<Family>)
    ensures
        r@ == family_order_spec(),
        r@.len() == FAMILY_COUNT,
{
    let families = vec![
        Family::Linear,
        Family::Quadratic,
        Family::Cubic,
        Family::Exponent,
        Family::Logrithm,
        Family::Power,
    ];
    proof {
        assert(families@ =~= family_order_spec());
    }
    families
}

/// A fitted linear model: a·x + b.
#[derive(Clone, Copy, Debug, PartialEq, Eq, Structural)]
pub struct Linear {
    /// Multiplier.
    pub a: u64,
    /// Addition.
    pub b: u64,
}

/// A fitted quadratic model: a0 + a1·x + a2·x².
#[derive(Clone, Copy, Debug, PartialEq, Eq, Structural)]
pub struct Quadratic {
    pub a0: u64,
    pub a1: u64,
    pub a2: u64,
}

/// A fitted cubic model: a0 + a1·x + a2·x² + a3·x³.
#[derive(Clone, Copy, Debug, PartialEq, Eq, Structural)]
pub struct Cubic {
    pub a0: u64,
    pub a1: u64,
    pub a2: u64,
    pub a3: u64,
}

/// A fitted exponential model: exp(a0·x + a1).
#[derive(Clone, Copy, Debug, PartialEq, Eq, Structural)]
pub struct Exponent {
    pub a0: u64,
    pub a1: u64,
}

/// A fitted logarithmic model: a0·ln(x) + a1.
#[derive(Clone, Copy, Debug, PartialEq, Eq, Structural)]
pub struct Logrithm {
    pub a0: u64,
    pub a1: u64,
}

/// A fitted power model: exp(a0)·x^a1.
#[derive(Clone, Copy, Debug, PartialEq, Eq, Structural)]
pub struct Power {
    pub a0: u64,
    pub a1: u64,
}

/// One fitted model: a closed union over the six families, each variant
/// holding its derived coefficients.  Immutable once constructed.
#[derive(Clone, Copy, Debug, PartialEq, Eq, Structural)]
pub enum FittedModel {
    Linear(Linear),
    Quadratic(Quadratic),
    Cubic(Cubic),
    Exponent(Exponent),
    Logrithm(Logrithm),
    Power(Power),
}

impl FittedModel {
    /// The family this model belongs to.
    pub open spec fn family_spec(&self) -> Family {
        match self {
            FittedModel::Linear(_) => Family::Linear,
            FittedModel::Quadratic(_) => Family::Quadratic,
            FittedModel::Cubic(_) => Family::Cubic,
            FittedModel::Exponent(_) => Family::Exponent,
            FittedModel::Logrithm(_) => Family::Logrithm,
            FittedModel::Power(_) => Family::Power,
        }
    }

    /// The family this model belongs to.
    pub fn family(&self) -> (r: Family)
        ensures
            r == self.family_spec(),
    {
        match self {
            FittedModel::Linear(_) => Family::Linear,
            FittedModel::Quadratic(_) => Family::Quadratic,
            FittedModel::Cubic(_) => Family::Cubic,
            FittedModel::Exponent(_) => Family::Exponent,
            FittedModel::Logrithm(_) => Family::Logrithm,
            FittedModel::Power(_) => Family::Power,
        }
    }

    /// The model's coefficients, lowest order first, as bit patterns.
    pub open spec fn coefficients_spec(&self) -> Seq<u64> {
        match self {
            FittedModel::Linear(m) => seq![m.b, m.a],
            FittedModel::Quadratic(m) => seq![m.a0, m.a1, m.a2],
            FittedModel::Cubic(m) => seq![m.a0, m.a1, m.a2, m.a3],
            FittedModel::Exponent(m) => seq![m.a1, m.a0],
            FittedModel::Logrithm(m) => seq![m.a1, m.a0],
            FittedModel::Power(m) => seq![m.a0, m.a1],
        }
    }

    /// The model's coefficients, lowest order first, as bit patterns.
    pub fn coefficients(&self) -> (r: Vec<u64>)
        ensures
            r@ == self.coefficients_spec(),
    {
        let coeffs = match self {
            FittedModel::Linear(m) => vec![m.b, m.a],
            FittedModel::Quadratic(m) => vec![m.a0, m.a1, m.a2],
            FittedModel::Cubic(m) => vec![m.a0, m.a1, m.a2, m.a3],
            FittedModel::Exponent(m) => vec![m.a1, m.a0],
            FittedModel::Logrithm(m) => vec![m.a1, m.a0],
            FittedModel::Power(m) => vec![m.a0, m.a1],
        };
        proof {
            assert(coeffs@ =~= self.coefficients_spec());
        }
        coeffs
    }

    /// Every coefficient of the model is finite.
    pub open spec fn coefficients_finite_spec(&self) -> bool {
        forall|j: int|
            0 <= j < self.coefficients_spec().len() ==> is_finite_pattern(
                self.coefficients_spec()[j],
            )
    }

    /// Checks that every derived coefficient is finite.  A model whose
    /// derivation produced a NaN or infinite coefficient is excluded from
    /// evaluation and ranking.
    pub fn coefficients_finite(&self) -> (r: bool)
        ensures
            r == self.coefficients_finite_spec(),
    {
        let coeffs = self.coefficients();
        let n = coeffs.len();
        for i in 0..n
            invariant
                n == coeffs@.len(),
                coeffs@ == self.coefficients_spec(),
                forall|j: int| 0 <= j < i ==> is_finite_pattern(coeffs@[j]),
        {
            if !pattern_is_finite(coeffs[i]) {
                return false;
            }
        }
        true
    }
}

} // verus!
