//! The root mean square of the last `L` items of a stream, computed
//! recursively: `y[n] = sqrt(y[n-1]^2 + (x[n]^2 - x[n-L]^2) / L)`.

use crate::math::arithmetic::{
    is_count, is_difference, is_powi, is_product, is_quotient, is_sqrt, is_sum, Arithmetic,
};
use crate::math::complex::Complex;
use crate::math::single::Single;
use std::marker::PhantomData;
use vstd::prelude::*;

verus! {

/// Builds the recursion for items of type `A` and a window of `L` items.
pub struct RootMeanSquareBuilder<A, const L: usize> {
    _item: PhantomData<A>,
}

/// The recursion itself. It keeps the mean square that it last computed; the
/// squares of the last `L` items are kept by whoever drives it.
pub struct RootMeanSquare<A, R: Arithmetic, const L: usize> {
    y_n_1_pow2: Single,
    _item: PhantomData<A>,
    _arithmetic: PhantomData<R>,
}

/// `s` is what `R` gave for the squared norm `re * re + im * im` of `x`.
pub open spec fn is_norm_sqr<R: Arithmetic>(x: Complex, s: Single) -> bool {
    exists|a: Single, b: Single|
        #![trigger is_product::<R>(x.re, x.re, a), is_product::<R>(x.im, x.im, b)]
        is_product::<R>(x.re, x.re, a) && is_product::<R>(x.im, x.im, b) && is_sum::<R>(a, b, s)
}

/// `mean` is what `R` gave for `previous + (entering - leaving) / window`, the
/// mean square after one item's square entered the window and one left it.
pub open spec fn is_mean_square<R: Arithmetic>(
    previous: Single,
    entering: Single,
    leaving: Single,
    window: usize,
    mean: Single,
) -> bool {
    exists|change: Single, count: Single, share: Single|
        #![trigger is_difference::<R>(entering, leaving, change), is_count::<R>(window, count), is_quotient::<R>(change, count, share)]
        is_difference::<R>(entering, leaving, change) && is_count::<R>(window, count)
            && is_quotient::<R>(change, count, share) && is_sum::<R>(previous, share, mean)
}

impl<A, const L: usize> RootMeanSquareBuilder<A, L> {
    pub fn new() -> (builder: Self) {
        RootMeanSquareBuilder { _item: PhantomData }
    }
}

impl<A, const L: usize> Default for RootMeanSquareBuilder<A, L> {
    fn default() -> (builder: Self) {
        Self::new()
    }
}

impl<const L: usize> RootMeanSquareBuilder<Single, L> {
    /// The recursion for real items, starting from a mean square of zero.
    pub fn build<R: Arithmetic>(self) -> (rms: RootMeanSquare<Single, R, L>)
        ensures
            rms.mean_square() == Single::zero_value(),
    {
        RootMeanSquare { y_n_1_pow2: Single::zero(), _item: PhantomData, _arithmetic: PhantomData }
    }
}

impl<const L: usize> RootMeanSquareBuilder<Complex, L> {
    /// The recursion for complex items, starting from a mean square of zero.
    pub fn build<R: Arithmetic>(self) -> (rms: RootMeanSquare<Complex, R, L>)
        ensures
            rms.mean_square() == Single::zero_value(),
    {
        RootMeanSquare { y_n_1_pow2: Single::zero(), _item: PhantomData, _arithmetic: PhantomData }
    }
}

impl<A, R: Arithmetic, const L: usize> RootMeanSquare<A, R, L> {
    /// The mean square that the last step computed.
    pub closed spec fn mean_square(&self) -> Single {
        self.y_n_1_pow2
    }

    /// Moves the window on by one item whose square is `x_n_pow2`, while the
    /// square `x_n_l_pow2` leaves it, and returns the new root mean square.
    fn advance(&mut self, x_n_pow2: Single, x_n_l_pow2: Single) -> (y_n: Single)
        ensures
            is_mean_square::<R>(
                old(self).mean_square(),
                x_n_pow2,
                x_n_l_pow2,
                L,
                final(self).mean_square(),
            ),
            is_sqrt::<R>(final(self).mean_square(), y_n),
    {
        let change = R::difference(x_n_pow2, x_n_l_pow2);
        let count = R::from_count(L);
        let share = R::quotient(change, count);
        let y_n_pow2 = R::sum(self.y_n_1_pow2, share);
        assert(is_difference::<R>(x_n_pow2, x_n_l_pow2, change) && is_count::<R>(L, count)
            && is_quotient::<R>(change, count, share));
        self.y_n_1_pow2 = y_n_pow2;
        R::sqrt(y_n_pow2)
    }
}

impl<R: Arithmetic, const L: usize> RootMeanSquare<Single, R, L> {
    /// One step on the item `x_n`, given the square `x_n_l_pow2` of the item
    /// `L` steps back. Returns the root mean square, and the square of `x_n`
    /// to be handed back `L` steps on.
    pub fn next(&mut self, x_n: &Single, x_n_l_pow2: &Single) -> (r: (Single, Single))
        ensures
            is_powi::<R>(*x_n, 2, r.1),
            is_mean_square::<R>(
                old(self).mean_square(),
                r.1,
                *x_n_l_pow2,
                L,
                final(self).mean_square(),
            ),
            is_sqrt::<R>(final(self).mean_square(), r.0),
    {
        let x_n_pow2 = R::powi(*x_n, 2);
        let y_n = self.advance(x_n_pow2, *x_n_l_pow2);
        (y_n, x_n_pow2)
    }
}

impl<R: Arithmetic, const L: usize> RootMeanSquare<Complex, R, L> {
    /// One step on the item `x_n`, given the squared norm `x_n_l_pow2` of the
    /// item `L` steps back. Returns the root mean square, and the squared
    /// norm of `x_n` to be handed back `L` steps on.
    pub fn next(&mut self, x_n: &Complex, x_n_l_pow2: &Single) -> (r: (Single, Single))
        ensures
            is_norm_sqr::<R>(*x_n, r.1),
            is_mean_square::<R>(
                old(self).mean_square(),
                r.1,
                *x_n_l_pow2,
                L,
                final(self).mean_square(),
            ),
            is_sqrt::<R>(final(self).mean_square(), r.0),
    {
        let a = R::product(x_n.re, x_n.re);
        let b = R::product(x_n.im, x_n.im);
        let x_n_pow2 = R::sum(a, b);
        assert(is_product::<R>(x_n.re, x_n.re, a) && is_product::<R>(x_n.im, x_n.im, b));
        let y_n = self.advance(x_n_pow2, *x_n_l_pow2);
        (y_n, x_n_pow2)
    }
}

} // verus!
