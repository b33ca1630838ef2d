//! Points, point sets, and the canonical preparation of raw input.
//!
//! A raw point set is prepared once, up front: every zero coordinate is
//! replaced by the positive epsilon substitute, and an empty set is rejected.
//! All six model families are then fitted against the one prepared set.

use vstd::prelude::*;

use crate::EngineError;
use crate::real_bits::{clamp_zero, clamp_zero_spec, is_positive_pattern, pattern_is_positive};

verus! {

/// One data point: the binary64 bit patterns of its two coordinates.
#[derive(Clone, Copy, Debug, PartialEq, Eq, Structural)]
pub struct Point {
    /// The bit pattern of the abscissa.
    pub x: u64,
    /// The bit pattern of the ordinate.
    pub y: u64,
}

/// The point `p` with zero coordinates replaced by the epsilon substitute.
pub open spec fn clamp_point_spec(p: Point) -> Point {
    Point { x: clamp_zero_spec(p.x), y: clamp_zero_spec(p.y) }
}

/// An ordered, non-empty sequence of points, already prepared: this is the
/// one canonical set every model family is fitted against and evaluated on.
pub struct PointSet {
    points: Vec<Point>,
}

impl View for PointSet {
    type V = Seq<Point>;

    closed spec fn view(&self) -> Seq<Point> {
        self.points@
    }
}

impl PointSet {
    /// A point set holds at least one point: every reduction the engine
    /// performs (sums, means, the root-mean-square) assumes a non-empty set.
    pub open spec fn wf(&self) -> bool {
        self@.len() >= 1
    }

    /// Wraps an already-prepared sequence of points, rejecting an empty one.
    pub fn new(points: Vec<Point>) -> (r: Result<PointSet, EngineError>)
        ensures
            points@.len() == 0 <==> r is Err,
            r matches Err(e) ==> e == EngineError::EmptyInput,
            r matches Ok(ps) ==> ps@ == points@ && ps.wf(),
    {
        if points.len() == 0 {
            Err(EngineError::EmptyInput)
        } else {
            Ok(PointSet { points })
        }
    }

    /// The number of points in the set.
    pub fn len(&self) -> (r: usize)
        ensures
            r == self@.len(),
    {
        self.points.len()
    }

    /// The point at position `i`.
    pub fn at(&self, i: usize) -> (r: Point)
        requires
            i < self@.len(),
        ensures
            r == self@[i as int],
    {
        self.points[i]
    }

    /// Whether every abscissa in the set is strictly positive — the domain
    /// the logarithmic and power families need, since both take ln(x).
    pub fn all_x_positive(&self) -> (r: bool)
        ensures
            r == all_x_positive_spec(self@),
    {
        let n = self.points.len();
        for i in 0..n
            invariant
                n == self@.len(),
                forall|j: int| 0 <= j < i ==> is_positive_pattern(self@[j].x),
        {
            if !pattern_is_positive(self.points[i].x) {
                return false;
            }
        }
        true
    }

    /// Whether every ordinate in the set is strictly positive — the domain
    /// the exponential and power families need, since both take ln(y).
    pub fn all_y_positive(&self) -> (r: bool)
        ensures
            r == all_y_positive_spec(self@),
    {
        let n = self.points.len();
        for i in 0..n
            invariant
                n == self@.len(),
                forall|j: int| 0 <= j < i ==> is_positive_pattern(self@[j].y),
        {
            if !pattern_is_positive(self.points[i].y) {
                return false;
            }
        }
        true
    }
}

/// Every abscissa of `ps` is strictly positive.
pub open spec fn all_x_positive_spec(ps: Seq<Point>) -> bool {
    forall|j: int| 0 <= j < ps.len() ==> is_positive_pattern(ps[j].x)
}

/// Every ordinate of `ps` is strictly positive.
pub open spec fn all_y_positive_spec(ps: Seq<Point>) -> bool {
    forall|j: int| 0 <= j < ps.len() ==> is_positive_pattern(ps[j].y)
}

/// Prepares raw input for fitting: rejects an empty set, and replaces every
/// zero coordinate of every point by the epsilon substitute.  The prepared
/// set — not the raw one — is what every family is fitted against and what
/// every residual is reported over.
pub fn prepare_point_set(raw: &Vec<Point>) -> (r: Result<PointSet, EngineError>)
    ensures
        raw@.len() == 0 <==> r is Err,
        r matches Err(e) ==> e == EngineError::EmptyInput,
        r matches Ok(ps) ==> {
            &&& ps@.len() == raw@.len()
            &&& forall|j: int| 0 <= j < raw@.len() ==> ps@[j] == clamp_point_spec(raw@[j])
            &&& ps.wf()
        },
{
    let n = raw.len();
    let mut prepared: Vec<Point> = Vec::new();
    for i in 0..n
        invariant
            n == raw@.len(),
            prepared@.len() == i,
            forall|j: int| 0 <= j < i ==> prepared@[j] == clamp_point_spec(raw@[j]),
    {
        let p = raw[i];
        prepared.push(Point { x: clamp_zero(p.x), y: clamp_zero(p.y) });
    }
    PointSet::new(prepared)
}

} // verus!
