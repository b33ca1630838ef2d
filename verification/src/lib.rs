//! A model-selection engine for two-dimensional data.
//!
//! The engine fits a point set to six one-dimensional model families
//! (linear, quadratic, cubic, exponential, logarithmic, power), scores each
//! fitted model by the root-mean-square of its residuals, and selects the
//! model with the lowest score.
//!
//! Every real number crossing this crate's boundary is carried as the `u64`
//! bit pattern of an IEEE 754 binary64 value.  The crate owns every decision
//! of the engine that is a function of those patterns: zero-coordinate
//! substitution, domain screening for the log-transformed families,
//! finiteness screening of fitted coefficients, residuals and scores, and the
//! final ranking with its first-wins tie break.  The floating-point
//! arithmetic itself (sums, the normal-equations solve, logarithms, the
//! root-mean-square) is left to the surrounding binary, which hands its
//! results back as bit patterns.

use vstd::prelude::*;

pub mod evaluate;
pub mod family;
pub mod point_set;
pub mod real_bits;
pub mod select;

verus! {

/// The failures the engine distinguishes.
///
/// A failure local to one model family (a singular normal-equations system, a
/// logarithm of a non-positive coordinate, a non-finite coefficient or score)
/// removes that family from the ranking but does not abort the run; only an
/// empty point set does.
#[derive(Clone, Copy, Debug, PartialEq, Eq, Structural)]
pub enum EngineError {
    /// The point set is empty; no reduction over it is defined.
    EmptyInput,
    /// The normal-equations system for a polynomial family is singular.
    DegenerateInput,
    /// A logarithm required by a transformed family received a non-positive
    /// argument.
    DomainError,
    /// A computed coefficient, prediction or score is NaN or infinite.
    NonFiniteResult,
}

impl EngineError {
    /// A human-readable description of the failure.
    pub fn message(&self) -> (r: String)
        ensures
            r@ == self.message_spec(),
    {
        match self {
            EngineError::EmptyInput => "the point set is empty".to_owned(),
            EngineError::DegenerateInput => "the normal equations are singular".to_owned(),
            EngineError::DomainError => "a logarithm received a non-positive argument".to_owned(),
            EngineError::NonFiniteResult => "a computed value is not finite".to_owned(),
        }
    }

    /// What `message` returns for each variant.
    pub open spec fn message_spec(&self) -> Seq<char> {
        match self {
            EngineError::EmptyInput => "the point set is empty"@,
            EngineError::DegenerateInput => "the normal equations are singular"@,
            EngineError::DomainError => "a logarithm received a non-positive argument"@,
            EngineError::NonFiniteResult => "a computed value is not finite"@,
        }
    }
}

} // verus!
