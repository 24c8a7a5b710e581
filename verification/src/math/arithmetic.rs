//! The rounding operations that the blocks apply to single-precision values.
//!
//! An implementation says how each operation rounds. The blocks fix which
//! operations are applied to which values and in which order, and their
//! contracts say so through the relations below. Nothing is assumed about
//! what an operation returns: a contract that mentions a result holds for
//! whatever the implementation gave.

use crate::math::single::Single;
use vstd::prelude::*;

verus! {

/// Single-precision arithmetic, supplied by whoever uses the blocks.
pub trait Arithmetic {
    /// `a + b`
    fn sum(a: Single, b: Single) -> Single;

    /// `a - b`
    fn difference(a: Single, b: Single) -> Single;

    /// `a * b`
    fn product(a: Single, b: Single) -> Single;

    /// `a / b`
    fn quotient(a: Single, b: Single) -> Single;

    /// `e` to the power `a`
    fn exp(a: Single) -> Single;

    /// The hyperbolic sine of `a`.
    fn sinh(a: Single) -> Single;

    /// The hyperbolic cosine of `a`.
    fn cosh(a: Single) -> Single;

    /// The cosine of `a`, in radians.
    fn cos(a: Single) -> Single;

    /// The square root of `a`.
    fn sqrt(a: Single) -> Single;

    /// `a` to the integer power `n`.
    fn powi(a: Single, n: i32) -> Single;

    /// The count `n` as a single-precision value.
    fn from_count(n: usize) -> Single;
}

/// `r` is what `R` gave for `a + b`.
pub open spec fn is_sum<R: Arithmetic>(a: Single, b: Single, r: Single) -> bool {
    call_ensures(R::sum, (a, b), r)
}

/// `r` is what `R` gave for `a - b`.
pub open spec fn is_difference<R: Arithmetic>(a: Single, b: Single, r: Single) -> bool {
    call_ensures(R::difference, (a, b), r)
}

/// `r` is what `R` gave for `a * b`.
pub open spec fn is_product<R: Arithmetic>(a: Single, b: Single, r: Single) -> bool {
    call_ensures(R::product, (a, b), r)
}

/// `r` is what `R` gave for `a / b`.
pub open spec fn is_quotient<R: Arithmetic>(a: Single, b: Single, r: Single) -> bool {
    call_ensures(R::quotient, (a, b), r)
}

/// `r` is what `R` gave for the exponential of `a`.
pub open spec fn is_exp<R: Arithmetic>(a: Single, r: Single) -> bool {
    call_ensures(R::exp, (a,), r)
}

/// `r` is what `R` gave for the hyperbolic sine of `a`.
pub open spec fn is_sinh<R: Arithmetic>(a: Single, r: Single) -> bool {
    call_ensures(R::sinh, (a,), r)
}

/// `r` is what `R` gave for the hyperbolic cosine of `a`.
pub open spec fn is_cosh<R: Arithmetic>(a: Single, r: Single) -> bool {
    call_ensures(R::cosh, (a,), r)
}

/// `r` is what `R` gave for the cosine of `a`.
pub open spec fn is_cos<R: Arithmetic>(a: Single, r: Single) -> bool {
    call_ensures(R::cos, (a,), r)
}

/// `r` is what `R` gave for the square root of `a`.
pub open spec fn is_sqrt<R: Arithmetic>(a: Single, r: Single) -> bool {
    call_ensures(R::sqrt, (a,), r)
}

/// `r` is what `R` gave for `a` to the power `n`.
pub open spec fn is_powi<R: Arithmetic>(a: Single, n: i32, r: Single) -> bool {
    call_ensures(R::powi, (a, n), r)
}

/// `r` is what `R` gave for the count `n`.
pub open spec fn is_count<R: Arithmetic>(n: usize, r: Single) -> bool {
    call_ensures(R::from_count, (n,), r)
}

/// `r` is what `R` gave for `a + g * e`, the product rounded first.
pub open spec fn is_scaled_sum<R: Arithmetic>(a: Single, g: Single, e: Single, r: Single) -> bool {
    exists|p: Single| #[trigger] is_product::<R>(g, e, p) && is_sum::<R>(a, p, r)
}

/// The arithmetic returns numbers where IEEE 754 does: the product of two
/// finite numbers is a number, and so is the sum of a finite number and any
/// number. Nothing in this crate assumes this of an implementation; laws that
/// need it say so.
pub open spec fn gives_numbers<R: Arithmetic>() -> bool {
    &&& forall|a: Single, b: Single, p: Single|
        a.finite() && b.finite() && #[trigger] is_product::<R>(a, b, p) ==> !p.nan()
    &&& forall|a: Single, b: Single, s: Single|
        a.finite() && !b.nan() && #[trigger] is_sum::<R>(a, b, s) ==> !s.nan()
}

/// Computes `a + g * e`.
pub fn scaled_sum<R: Arithmetic>(a: Single, g: Single, e: Single) -> (r: Single)
    ensures
        is_scaled_sum::<R>(a, g, e, r),
{
    let p = R::product(g, e);
    assert(is_product::<R>(g, e, p));
    R::sum(a, p)
}

} // verus!
