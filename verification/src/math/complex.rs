//! Complex baseband samples.

use crate::math::single::Single;
use vstd::prelude::*;

verus! {

/// A complex sample in Cartesian form.
#[derive(Clone, Copy, Debug)]
pub struct Complex {
    pub re: Single,
    pub im: Single,
}

impl Complex {
    /// The sample whose two parts are positive zero.
    pub open spec fn zero_value() -> Complex {
        Complex { re: Single::zero_value(), im: Single::zero_value() }
    }

    pub fn new(re: Single, im: Single) -> (c: Complex)
        ensures
            c == (Complex { re, im }),
    {
        Complex { re, im }
    }

    #[verifier::when_used_as_spec(zero_value)]
    pub fn zero() -> (c: Complex)
        ensures
            c == Self::zero_value(),
    {
        Complex { re: Single::zero(), im: Single::zero() }
    }
}

impl Default for Complex {
    /// The sample whose two parts are positive zero.
    fn default() -> (c: Complex)
        ensures
            c == Complex::zero_value(),
    {
        Complex { re: Single { bits: 0 }, im: Single { bits: 0 } }
    }
}

} // verus!
