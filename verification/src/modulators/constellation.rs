//! The set of ideal symbol values of a modulation, with its decision rule.

use crate::math::complex::Complex;
use vstd::prelude::*;

verus! {

/// A constellation, as the timing error detector uses it. Implementations
/// decide how samples are sliced; the detector's contracts speak of whatever
/// they return.
pub trait Constellation {
    /// The index of the symbol nearest to the sample `x`.
    fn decision_maker(&self, x: Complex) -> usize;

    /// The ideal points of the symbol at `index`, one for each dimension.
    fn map_to_points(&self, index: usize) -> Vec<Complex>;

    /// The number of complex values per symbol.
    fn dimensionality(&self) -> usize;
}

/// `index` is what `c` decided for the sample `x`.
pub open spec fn is_decision<C: Constellation>(c: &C, x: Complex, index: usize) -> bool {
    call_ensures(C::decision_maker, (c, x), index)
}

/// `points` is what `c` gave as the points of the symbol at `index`.
pub open spec fn is_points<C: Constellation>(c: &C, index: usize, points: Seq<Complex>) -> bool {
    exists|v: Vec<Complex>| v@ == points && #[trigger] call_ensures(C::map_to_points, (c, index), v)
}

/// `d` is what `c` gave as its dimensionality.
pub open spec fn is_dimensionality<C: Constellation>(c: &C, d: usize) -> bool {
    call_ensures(C::dimensionality, (c,), d)
}

/// `point` is the sample `x` sliced by `c`: the first point of the symbol
/// that `c` decided for, or zero where `c` gave no point. Without a
/// constellation every sample slices to zero.
pub open spec fn slices_to<C: Constellation>(c: Option<&C>, x: Complex, point: Complex) -> bool {
    match c {
        Some(c) => exists|index: usize, points: Seq<Complex>|
            #![trigger is_decision(c, x, index), is_points(c, index, points)]
            is_decision(c, x, index) && is_points(c, index, points) && point == if points.len()
                > 0 {
                points[0]
            } else {
                Complex::zero_value()
            },
        None => point == Complex::zero_value(),
    }
}

} // verus!
