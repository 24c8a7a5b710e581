//! The Mueller and Müller timing error detector: a decision-directed
//! detector that works on one sample per symbol.

use crate::math::arithmetic::{is_difference, is_product, is_sum, Arithmetic};
use crate::math::complex::Complex;
use crate::math::single::Single;
use crate::modulators::constellation::{is_dimensionality, Constellation};
use crate::synchronizers::timing_error_detector::{
    is_error, DetectorState, NoDerivativeType, TimingErrorDetector, TimingErrorDetectorAlgorithm,
    TimingErrorDetectorAlgorithmNoDerivatives, TimingErrorDetectorAlgorithmNoLookahead,
    WithoutLookAhead,
};
use std::collections::VecDeque;
use std::marker::PhantomData;
use vstd::prelude::*;

verus! {

/// The algorithm, doing its arithmetic with `R`.
pub struct TedMuellerAndMuller<R: Arithmetic> {
    _arithmetic: PhantomData<R>,
}

/// `r` is what `R` gave for `a * b - c * d`, each product rounded first.
pub open spec fn is_cross_difference<R: Arithmetic>(
    a: Single,
    b: Single,
    c: Single,
    d: Single,
    r: Single,
) -> bool {
    exists|p: Single, q: Single|
        #![trigger is_product::<R>(a, b, p), is_product::<R>(c, d, q)]
        is_product::<R>(a, b, p) && is_product::<R>(c, d, q) && is_difference::<R>(p, q, r)
}

/// `e` is the Mueller and Müller error of the two newest decisions and
/// samples: with `d0`, `x0` the newest and `d1`, `x1` the ones before,
/// `(re(d1) * re(x0) - re(d0) * re(x1)) + (im(d1) * im(x0) - im(d0) * im(x1))`.
pub open spec fn is_mueller_and_muller_error<R: Arithmetic>(
    decision: Seq<Complex>,
    input: Seq<Complex>,
    e: Single,
) -> bool {
    exists|re: Single, im: Single|
        #![trigger is_sum::<R>(re, im, e)]
        is_cross_difference::<R>(decision[1].re, input[0].re, decision[0].re, input[1].re, re)
            && is_cross_difference::<R>(
            decision[1].im,
            input[0].im,
            decision[0].im,
            input[1].im,
            im,
        ) && is_sum::<R>(re, im, e)
}

/// The message of a detector refused for its constellation.
pub open spec fn dimensionality_message() -> Seq<char> {
    "timing_error_detector: constellation dimensionality (ie complex numbers per symbol) must be 1."@
}

fn cross_difference<R: Arithmetic>(a: Single, b: Single, c: Single, d: Single) -> (r: Single)
    ensures
        is_cross_difference::<R>(a, b, c, d, r),
{
    let p = R::product(a, b);
    let q = R::product(c, d);
    assert(is_product::<R>(a, b, p) && is_product::<R>(c, d, q));
    R::difference(p, q)
}

impl<R: Arithmetic> TimingErrorDetectorAlgorithm for TedMuellerAndMuller<R> {
    type Derivative = NoDerivativeType;

    type LookAhead = WithoutLookAhead;
}

impl<R: Arithmetic> TimingErrorDetectorAlgorithmNoDerivatives<
    WithoutLookAhead,
> for TedMuellerAndMuller<R> {
    /// The error reads two decisions and two samples.
    open spec fn accepts(decision: Seq<Complex>, input: Seq<Complex>) -> bool {
        decision.len() >= 2 && input.len() >= 2
    }

    fn compute_error_cf(d_decision: &VecDeque<Complex>, d_input: &VecDeque<Complex>) -> (e: Single)
        ensures
            is_mueller_and_muller_error::<R>(d_decision@, d_input@, e),
    {
        let re = cross_difference::<R>(
            d_decision[1].re,
            d_input[0].re,
            d_decision[0].re,
            d_input[1].re,
        );
        let im = cross_difference::<R>(
            d_decision[1].im,
            d_input[0].im,
            d_decision[0].im,
            d_input[1].im,
        );
        let e = R::sum(re, im);
        assert(is_sum::<R>(re, im, e));
        e
    }
}

impl<R: Arithmetic> TimingErrorDetectorAlgorithmNoLookahead<
    NoDerivativeType,
> for TedMuellerAndMuller<R> {
}

impl<R: Arithmetic> TedMuellerAndMuller<R> {
    /// A detector with this algorithm, for a constellation of one complex
    /// value per symbol. Any other constellation is refused. A detector needs
    /// at least one input per symbol; the count is not looked at where the
    /// constellation is refused.
    pub fn build<C>(
        inputs_per_symbol: usize,
        error_computation_depth: usize,
        constellation: &C,
    ) -> (r: Result<
        TimingErrorDetector<'_, TedMuellerAndMuller<R>, C, WithoutLookAhead, NoDerivativeType>,
        &'static str,
    >) where C: Constellation
        requires
            inputs_per_symbol >= 1 || forall|d: usize|
                #[trigger] is_dimensionality(constellation, d) ==> d != 1,
        ensures
            exists|d: usize| #[trigger]
                is_dimensionality(constellation, d) && match r {
                    Ok(ted) => {
                        &&& d == 1
                        &&& ted@ == DetectorState::initial(
                            inputs_per_symbol as nat,
                            error_computation_depth as nat,
                            true,
                        )
                        &&& ted@.wf()
                        &&& ted.constellation() == Some(constellation)
                    },
                    Err(message) => d != 1 && message@ == dimensionality_message(),
                },
    {
        let d = constellation.dimensionality();
        assert(is_dimensionality(constellation, d));
        if d != 1 {
            return Err(
                "timing_error_detector: constellation dimensionality (ie complex numbers per symbol) must be 1.",
            );
        }
        return Ok(
            TimingErrorDetector::new(
                inputs_per_symbol,
                error_computation_depth,
                Some(constellation),
            ),
        );
    }
}

/// A detector with a constellation and histories of at least two entries is
/// ready for every input.
pub proof fn lemma_ready_with_two_entries<R: Arithmetic>(pre: DetectorState, x: Complex)
    requires
        pre.wf(),
        pre.sliced,
        pre.error_depth >= 2,
    ensures
        pre.ready_for::<TedMuellerAndMuller<R>, WithoutLookAhead>(x),
{
}

/// An error that a detector with this algorithm holds was computed by the
/// Mueller and Müller formula.
pub proof fn lemma_error_is_mueller_and_muller<R: Arithmetic>(
    decision: Seq<Complex>,
    input: Seq<Complex>,
    e: Single,
)
    requires
        is_error::<TedMuellerAndMuller<R>, WithoutLookAhead>(decision, input, e),
    ensures
        is_mueller_and_muller_error::<R>(decision, input, e),
{
}

} // verus!
