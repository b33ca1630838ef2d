//! Residual records and the finiteness screen over a model's evaluation.
//!
//! For one fitted model, evaluation yields one record per point: the point,
//! the model's prediction φ(x), and the signed error ε = φ(x) − y.  The
//! predictions and errors are floating-point results computed outside this
//! crate and handed in as bit patterns; this module assembles them into
//! records and enforces the engine's policy that a non-finite prediction or
//! error fails that model's evaluation instead of flowing into the ranking.

use vstd::prelude::*;

use crate::EngineError;
use crate::point_set::{Point, PointSet};
use crate::real_bits::{is_finite_pattern, pattern_is_finite};

verus! {

/// One point's residual detail against one fitted model.
#[derive(Clone, Copy, Debug, PartialEq, Eq, Structural)]
pub struct ResidualRecord {
    /// The point of the prepared set the model was evaluated at.
    pub point: Point,
    /// The bit pattern of the model's prediction φ(x).
    pub phi: u64,
    /// The bit pattern of the signed error ε = φ(x) − y.
    pub epsilon: u64,
}

/// Every prediction and every error in the two sequences is finite.
pub open spec fn all_results_finite_spec(phis: Seq<u64>, epsilons: Seq<u64>) -> bool {
    &&& forall|j: int| 0 <= j < phis.len() ==> is_finite_pattern(phis[j])
    &&& forall|j: int| 0 <= j < epsilons.len() ==> is_finite_pattern(epsilons[j])
}

/// Assembles one model's residual detail: record `i` pairs point `i` of the
/// prepared set with its prediction and error.  If any prediction or error
/// is NaN or infinite, the whole evaluation of this model fails instead,
/// so no non-finite score can ever reach the ranking.
pub fn assemble_residuals(ps: &PointSet, phis: &Vec<u64>, epsilons: &Vec<u64>) -> (r: Result<
    Vec<ResidualRecord>,
    EngineError,
>)
    requires
        phis@.len() == ps@.len(),
        epsilons@.len() == ps@.len(),
    ensures
        r is Ok <==> all_results_finite_spec(phis@, epsilons@),
        r matches Err(e) ==> e == EngineError::NonFiniteResult,
        r matches Ok(recs) ==> {
            &&& recs@.len() == ps@.len()
            &&& forall|j: int|
                0 <= j < recs@.len() ==> recs@[j] == (ResidualRecord {
                    point: ps@[j],
                    phi: phis@[j],
                    epsilon: epsilons@[j],
                })
        },
{
    let n = ps.len();
    let mut records: Vec<ResidualRecord> = Vec::new();
    for i in 0..n
        invariant
            n == ps@.len(),
            phis@.len() == n,
            epsilons@.len() == n,
            records@.len() == i,
            forall|j: int| 0 <= j < i ==> is_finite_pattern(phis@[j]),
            forall|j: int| 0 <= j < i ==> is_finite_pattern(epsilons@[j]),
            forall|j: int|
                0 <= j < i ==> records@[j] == (ResidualRecord {
                    point: ps@[j],
                    phi: phis@[j],
                    epsilon: epsilons@[j],
                }),
    {
        let phi = phis[i];
        let epsilon = epsilons[i];
        if !pattern_is_finite(phi) || !pattern_is_finite(epsilon) {
            return Err(EngineError::NonFiniteResult);
        }
        records.push(ResidualRecord { point: ps.at(i), phi, epsilon });
    }
    Ok(records)
}

} // verus!
