//! A second-order proportional-integral loop that tracks a symbol clock.
//!
//! The loop turns timing errors into estimates of the symbol period and of the
//! clock phase, both in units of input samples. It keeps one earlier state so
//! that the last step can be taken back.

use crate::math::arithmetic::{
    gives_numbers, is_cos, is_cosh, is_difference, is_exp, is_product, is_quotient,
    is_scaled_sum, is_sinh, is_sqrt, is_sum, scaled_sum, Arithmetic,
};
use crate::math::single::Single;
use std::marker::PhantomData;
use vstd::prelude::*;

verus! {

/// The state of a [`ClockTrackingLoop`], as a mathematical value.
pub struct LoopState {
    /// Estimate of the average symbol period.
    pub avg_period: Single,
    /// Upper limit of `avg_period`.
    pub max_avg_period: Single,
    /// Lower limit of `avg_period`.
    pub min_avg_period: Single,
    /// Nominal symbol period.
    pub nom_avg_period: Single,
    /// Estimate of the current symbol period.
    pub inst_period: Single,
    /// Clock phase, not wrapped.
    pub phase: Single,
    /// Damping factor.
    pub zeta: Single,
    /// Normalized natural radian frequency.
    pub omega_n_norm: Single,
    /// Slope of the detector's response at zero offset.
    pub ted_gain: Single,
    /// Proportional gain.
    pub alpha: Single,
    /// Integral gain.
    pub beta: Single,
    /// `avg_period` before the last step.
    pub prev_avg_period: Single,
    /// `inst_period` before the last step.
    pub prev_inst_period: Single,
    /// `phase` before the last step.
    pub prev_phase: Single,
}

/// Where a phase wrap stands: it first lowers the phase, then raises it.
#[derive(Clone, Copy, Debug, PartialEq, Eq, Structural)]
pub enum WrapStage {
    /// A period is taken off the phase while it is above the range.
    Lowering,
    /// A period is added to the phase while it is below the range.
    Raising,
    /// The phase is left as it is.
    Done,
}

/// `x` held between `min` and `max`: the upper limit is tried first, and a
/// NaN passes through.
pub open spec fn limited(x: Single, min: Single, max: Single) -> Single {
    if max.less(x) {
        max
    } else if x.less(min) {
        min
    } else {
        x
    }
}

/// `cross` is the cross term of the gain formulas for damping `zeta` and
/// natural frequency `omega`: `cosh(omega * sqrt(zeta^2 - 1))` above critical
/// damping, one at critical damping, `cos(omega * sqrt(1 - zeta^2))` below.
pub open spec fn is_cross_term<R: Arithmetic>(zeta: Single, omega: Single, cross: Single) -> bool {
    if Single::one_value().less(zeta) {
        exists|zz: Single, a: Single, q: Single, w: Single|
            #![trigger is_product::<R>(zeta, zeta, zz), is_difference::<R>(zz, Single::one_value(), a), is_sqrt::<R>(a, q), is_product::<R>(omega, q, w)]
            is_product::<R>(zeta, zeta, zz) && is_difference::<R>(zz, Single::one_value(), a)
                && is_sqrt::<R>(a, q) && is_product::<R>(omega, q, w) && is_cosh::<R>(w, cross)
    } else if zeta.same(Single::one_value()) {
        cross == Single::one_value()
    } else {
        exists|zz: Single, a: Single, q: Single, w: Single|
            #![trigger is_product::<R>(zeta, zeta, zz), is_difference::<R>(Single::one_value(), zz, a), is_sqrt::<R>(a, q), is_product::<R>(omega, q, w)]
            is_product::<R>(zeta, zeta, zz) && is_difference::<R>(Single::one_value(), zz, a)
                && is_sqrt::<R>(a, q) && is_product::<R>(omega, q, w) && is_cos::<R>(w, cross)
    }
}

/// `alpha` and `beta` follow from `k0 = 2 / ted_gain`, `k1 = exp(-zw)`, the
/// hyperbolic sine `sh` of `zw` and the cross term `cross`:
/// `alpha = (k0 * k1) * sh` and `beta = k0 * (1 - k1 * (sh + cross))`.
pub open spec fn is_gain_pair<R: Arithmetic>(
    k0: Single,
    k1: Single,
    sh: Single,
    cross: Single,
    alpha: Single,
    beta: Single,
) -> bool {
    exists|k: Single, s: Single, t: Single, d: Single|
        #![trigger is_product::<R>(k0, k1, k), is_sum::<R>(sh, cross, s), is_product::<R>(k1, s, t), is_difference::<R>(Single::one_value(), t, d)]
        is_product::<R>(k0, k1, k) && is_product::<R>(k, sh, alpha) && is_sum::<R>(sh, cross, s)
            && is_product::<R>(k1, s, t) && is_difference::<R>(Single::one_value(), t, d)
            && is_product::<R>(k0, d, beta)
}

/// `alpha` and `beta` are the loop gains for damping `zeta`, normalized
/// natural frequency `omega` and detector gain `ted_gain`.
pub open spec fn is_gains<R: Arithmetic>(
    zeta: Single,
    omega: Single,
    ted_gain: Single,
    alpha: Single,
    beta: Single,
) -> bool {
    exists|zw: Single, k0: Single, k1: Single, sh: Single, cross: Single|
        #![trigger is_product::<R>(zeta, omega, zw), is_quotient::<R>(Single::two_value(), ted_gain, k0), is_exp::<R>(zw.negated(), k1), is_sinh::<R>(zw, sh), is_cross_term::<R>(zeta, omega, cross)]
        is_product::<R>(zeta, omega, zw) && is_quotient::<R>(Single::two_value(), ted_gain, k0)
            && is_exp::<R>(zw.negated(), k1) && is_sinh::<R>(zw, sh) && is_cross_term::<R>(
            zeta,
            omega,
            cross,
        ) && is_gain_pair::<R>(k0, k1, sh, cross, alpha, beta)
}

impl LoopState {
    /// The limits are ordered, so neither is a NaN.
    pub open spec fn limits_ordered(self) -> bool {
        self.min_avg_period.at_most(self.max_avg_period)
    }

    /// What a step reads is finite, and the limits are ordered. The average
    /// period need not lie between the limits.
    pub open spec fn finite_and_ordered(self) -> bool {
        &&& self.min_avg_period.finite()
        &&& self.max_avg_period.finite()
        &&& self.limits_ordered()
        &&& self.avg_period.finite()
        &&& self.alpha.finite()
        &&& self.beta.finite()
    }

    /// The state that one step back restores.
    pub open spec fn reverted(self) -> LoopState {
        LoopState {
            avg_period: self.prev_avg_period,
            inst_period: self.prev_inst_period,
            phase: self.prev_phase,
            ..self
        }
    }

    /// The state with the average period held between its limits.
    pub open spec fn period_limited(self) -> LoopState {
        LoopState {
            avg_period: limited(self.avg_period, self.min_avg_period, self.max_avg_period),
            ..self
        }
    }

    /// `post` is this state after one step on `error`:
    /// the earlier state is kept for one step back;
    /// the average period is `avg_period + beta * error`, held between its
    /// limits; the current period is that average plus `alpha * error`, or the
    /// average itself where the sum is zero or less; the phase grows by the
    /// current period.
    pub open spec fn advances_to<R: Arithmetic>(self, error: Single, post: LoopState) -> bool {
        exists|integral: Single, sum: Single|
            #![trigger is_scaled_sum::<R>(self.avg_period, self.beta, error, integral), is_scaled_sum::<R>(limited(integral, self.min_avg_period, self.max_avg_period), self.alpha, error, sum)]
            {
                let avg = limited(integral, self.min_avg_period, self.max_avg_period);
                let inst = if sum.at_most(Single::zero_value()) {
                    avg
                } else {
                    sum
                };
                &&& is_scaled_sum::<R>(self.avg_period, self.beta, error, integral)
                &&& is_scaled_sum::<R>(avg, self.alpha, error, sum)
                &&& is_sum::<R>(self.phase, inst, post.phase)
                &&& post == LoopState {
                    avg_period: avg,
                    inst_period: inst,
                    phase: post.phase,
                    prev_avg_period: self.avg_period,
                    prev_inst_period: self.inst_period,
                    prev_phase: self.phase,
                    ..self
                }
            }
    }

    /// `post` is this state with `alpha` and `beta` computed anew from the
    /// damping factor, the natural frequency and the detector gain.
    pub open spec fn regains_to<R: Arithmetic>(self, post: LoopState) -> bool {
        &&& is_gains::<R>(self.zeta, self.omega_n_norm, self.ted_gain, post.alpha, post.beta)
        &&& post == LoopState { alpha: post.alpha, beta: post.beta, ..self }
    }

    /// `post` and `next` are this state and the stage after one step of a
    /// phase wrap at `stage`. With `limit` half the average period: while
    /// lowering, a phase above `limit` loses one period; while raising, a
    /// phase at or below `-limit` gains one; a stage that finds nothing to do
    /// hands over to the next.
    pub open spec fn wraps_to<R: Arithmetic>(
        self,
        stage: WrapStage,
        post: LoopState,
        next: WrapStage,
    ) -> bool {
        exists|limit: Single| #[trigger]
            is_quotient::<R>(self.avg_period, Single::two_value(), limit) && match stage {
                WrapStage::Lowering => if limit.less(self.phase) {
                    &&& is_difference::<R>(self.phase, self.avg_period, post.phase)
                    &&& post == LoopState { phase: post.phase, ..self }
                    &&& next == WrapStage::Lowering
                } else {
                    post == self && next == WrapStage::Raising
                },
                WrapStage::Raising => if self.phase.at_most(limit.negated()) {
                    &&& is_sum::<R>(self.phase, self.avg_period, post.phase)
                    &&& post == LoopState { phase: post.phase, ..self }
                    &&& next == WrapStage::Raising
                } else {
                    post == self && next == WrapStage::Done
                },
                WrapStage::Done => post == self && next == WrapStage::Done,
            }
    }

    /// `post` and `next` are this state and the stage after `steps` steps of
    /// a phase wrap that stands at `stage`.
    pub open spec fn wraps_in<R: Arithmetic>(
        self,
        stage: WrapStage,
        steps: nat,
        post: LoopState,
        next: WrapStage,
    ) -> bool
        decreases steps,
    {
        if steps == 0 {
            post == self && next == stage
        } else {
            exists|mid: LoopState, then: WrapStage|
                #![trigger self.wraps_to::<R>(stage, mid, then)]
                self.wraps_to::<R>(stage, mid, then) && mid.wraps_in::<R>(
                    then,
                    (steps - 1) as nat,
                    post,
                    next,
                )
        }
    }
}

/// The loop, doing its arithmetic with `R`.
pub struct ClockTrackingLoop<R: Arithmetic> {
    d_avg_period: Single,
    d_max_avg_period: Single,
    d_min_avg_period: Single,
    d_nom_avg_period: Single,
    d_inst_period: Single,
    d_phase: Single,
    d_zeta: Single,
    d_omega_n_norm: Single,
    d_ted_gain: Single,
    d_alpha: Single,
    d_beta: Single,
    d_prev_avg_period: Single,
    d_prev_inst_period: Single,
    d_prev_phase: Single,
    _arithmetic: PhantomData<R>,
}

impl<R: Arithmetic> View for ClockTrackingLoop<R> {
    type V = LoopState;

    closed spec fn view(&self) -> LoopState {
        LoopState {
            avg_period: self.d_avg_period,
            max_avg_period: self.d_max_avg_period,
            min_avg_period: self.d_min_avg_period,
            nom_avg_period: self.d_nom_avg_period,
            inst_period: self.d_inst_period,
            phase: self.d_phase,
            zeta: self.d_zeta,
            omega_n_norm: self.d_omega_n_norm,
            ted_gain: self.d_ted_gain,
            alpha: self.d_alpha,
            beta: self.d_beta,
            prev_avg_period: self.d_prev_avg_period,
            prev_inst_period: self.d_prev_inst_period,
            prev_phase: self.d_prev_phase,
        }
    }
}

impl<R: Arithmetic> ClockTrackingLoop<R> {
    /// A loop with every field as given. The gains are taken as they are: call
    /// [`Self::update_gains`] if they were not computed from the other three
    /// parameters.
    pub fn new(
        d_avg_period: Single,
        d_max_avg_period: Single,
        d_min_avg_period: Single,
        d_nom_avg_period: Single,
        d_inst_period: Single,
        d_phase: Single,
        d_zeta: Single,
        d_omega_n_norm: Single,
        d_ted_gain: Single,
        d_alpha: Single,
        d_beta: Single,
        d_prev_avg_period: Single,
        d_prev_inst_period: Single,
        d_prev_phase: Single,
    ) -> (r: Self)
        ensures
            r@ == (LoopState {
                avg_period: d_avg_period,
                max_avg_period: d_max_avg_period,
                min_avg_period: d_min_avg_period,
                nom_avg_period: d_nom_avg_period,
                inst_period: d_inst_period,
                phase: d_phase,
                zeta: d_zeta,
                omega_n_norm: d_omega_n_norm,
                ted_gain: d_ted_gain,
                alpha: d_alpha,
                beta: d_beta,
                prev_avg_period: d_prev_avg_period,
                prev_inst_period: d_prev_inst_period,
                prev_phase: d_prev_phase,
            }),
    {
        ClockTrackingLoop {
            d_avg_period,
            d_max_avg_period,
            d_min_avg_period,
            d_nom_avg_period,
            d_inst_period,
            d_phase,
            d_zeta,
            d_omega_n_norm,
            d_ted_gain,
            d_alpha,
            d_beta,
            d_prev_avg_period,
            d_prev_inst_period,
            d_prev_phase,
            _arithmetic: PhantomData,
        }
    }

    /// Takes one step on a timing error. Where the limits are ordered and the
    /// arithmetic gave numbers, the new average period lies between them, and
    /// the new current period is above zero if the lower limit is. An
    /// arithmetic that returns numbers where IEEE 754 does gives numbers on
    /// every finite state and error.
    pub fn advance_loop(&mut self, error: Single)
        ensures
            old(self)@.advances_to::<R>(error, final(self)@),
            gives_numbers::<R>() && old(self)@.finite_and_ordered() && error.finite() ==> {
                &&& final(self)@.finite_and_ordered()
                &&& final(self)@.min_avg_period.at_most(final(self)@.avg_period)
                &&& final(self)@.avg_period.at_most(final(self)@.max_avg_period)
                &&& Single::zero_value().less(final(self)@.min_avg_period)
                    ==> Single::zero_value().less(final(self)@.inst_period)
            },
            old(self)@.limits_ordered() && !final(self)@.avg_period.nan() ==> {
                &&& final(self)@.min_avg_period.at_most(final(self)@.avg_period)
                &&& final(self)@.avg_period.at_most(final(self)@.max_avg_period)
                &&& Single::zero_value().less(final(self)@.min_avg_period)
                    && !final(self)@.inst_period.nan() ==> Single::zero_value().less(
                    final(self)@.inst_period,
                )
            },
    {
        // So the loop can be reverted one step, if needed.
        self.d_prev_avg_period = self.d_avg_period;
        self.d_prev_inst_period = self.d_inst_period;
        self.d_prev_phase = self.d_phase;

        // Integral arm of the filter. Its output is limited here: a large
        // negative error would otherwise drive the average period below zero.
        let integral = scaled_sum::<R>(self.d_avg_period, self.d_beta, error);
        self.d_avg_period = integral;
        self.period_limit();

        // Proportional arm and the sum of the two. A sum of zero or less
        // would move the clock backwards, so the average stands in for it.
        let sum = scaled_sum::<R>(self.d_avg_period, self.d_alpha, error);
        self.d_inst_period = sum;
        if self.d_inst_period.le(Single::zero()) {
            self.d_inst_period = self.d_avg_period;
        }
        // The new clock phase, not wrapped.
        self.d_phase = R::sum(self.d_phase, self.d_inst_period);
        assert(is_sum::<R>(old(self)@.phase, self@.inst_period, self@.phase));
        proof {
            if old(self)@.limits_ordered() && !self@.avg_period.nan() {
                lemma_advance_keeps_limits::<R>(old(self)@, error, self@);
            }
            if gives_numbers::<R>() && old(self)@.finite_and_ordered() && error.finite() {
                lemma_advance_keeps_limits_on_numbers::<R>(old(self)@, error, self@);
            }
        }
    }

    /// Takes the last step back.
    pub fn revert_loop(&mut self)
        ensures
            final(self)@ == old(self)@.reverted(),
    {
        self.d_avg_period = self.d_prev_avg_period;
        self.d_inst_period = self.d_prev_inst_period;
        self.d_phase = self.d_prev_phase;
    }

    /// Holds the average period between its limits.
    pub fn period_limit(&mut self)
        ensures
            final(self)@ == old(self)@.period_limited(),
    {
        if self.d_avg_period.gt(self.d_max_avg_period) {
            self.d_avg_period = self.d_max_avg_period;
        } else if self.d_avg_period.lt(self.d_min_avg_period) {
            self.d_avg_period = self.d_min_avg_period;
        }
    }

    /// One step of a phase wrap. Start at [`WrapStage::Lowering`] and repeat
    /// with the stage returned until it is [`WrapStage::Done`]. Each step
    /// changes the phase by at most one period, so a wrap that never ends (an
    /// average period that is zero, negative or not a number) shows as a
    /// stage that never becomes `Done`.
    pub fn phase_wrap_step(&mut self, stage: WrapStage) -> (next: WrapStage)
        ensures
            old(self)@.wraps_to::<R>(stage, final(self)@, next),
    {
        let period = self.d_avg_period;  // One could argue d_inst_period instead
        let limit = R::quotient(period, Single::two());
        assert(is_quotient::<R>(period, Single::two_value(), limit));
        let mut next = stage;
        match stage {
            WrapStage::Lowering => {
                if self.d_phase.gt(limit) {
                    self.d_phase = R::difference(self.d_phase, period);
                    assert(is_difference::<R>(old(self)@.phase, period, self@.phase));
                } else {
                    next = WrapStage::Raising;
                }
            },
            WrapStage::Raising => {
                if self.d_phase.le(limit.neg()) {
                    self.d_phase = R::sum(self.d_phase, period);
                    assert(is_sum::<R>(old(self)@.phase, period, self@.phase));
                } else {
                    next = WrapStage::Done;
                }
            },
            WrapStage::Done => {},
        }
        assert(self@ == LoopState { phase: self@.phase, ..old(self)@ });
        next
    }

    /// Wraps the phase into the half-open range from minus half the average
    /// period, exclusive, to plus half of it, inclusive, in at most
    /// `max_steps` steps of one period each. The stage returned is
    /// [`WrapStage::Done`] when the phase is in range; any other stage says
    /// where to go on with [`Self::phase_wrap_step`] after the steps ran out.
    pub fn phase_wrap(&mut self, max_steps: usize) -> (stage: WrapStage)
        ensures
            exists|steps: nat|
                #![trigger old(self)@.wraps_in::<R>(WrapStage::Lowering, steps, final(self)@, stage)]
                steps <= max_steps && old(self)@.wraps_in::<R>(
                    WrapStage::Lowering,
                    steps,
                    final(self)@,
                    stage,
                ) && (stage != WrapStage::Done ==> steps == max_steps),
    {
        let mut stage = WrapStage::Lowering;
        let mut steps: usize = 0;
        while steps < max_steps && stage != WrapStage::Done
            invariant
                steps <= max_steps,
                old(self)@.wraps_in::<R>(WrapStage::Lowering, steps as nat, self@, stage),
            decreases max_steps - steps,
        {
            let ghost mid = self@;
            let ghost then = stage;
            stage = self.phase_wrap_step(stage);
            proof {
                lemma_wrap_one_more::<R>(
                    old(self)@,
                    WrapStage::Lowering,
                    steps as nat,
                    mid,
                    then,
                    self@,
                    stage,
                );
            }
            steps += 1;
        }
        stage
    }

    /// Computes `alpha` and `beta` from the damping factor, the normalized
    /// natural frequency and the detector gain.
    pub fn update_gains(&mut self)
        ensures
            old(self)@.regains_to::<R>(final(self)@),
    {
        let omega_n_t = self.d_omega_n_norm;
        let zeta_omega_n_t = R::product(self.d_zeta, omega_n_t);
        let k0 = R::quotient(Single::two(), self.d_ted_gain);
        let k1 = R::exp(zeta_omega_n_t.neg());
        let sinh_zeta_omega_n_t = R::sinh(zeta_omega_n_t);

        let cosx_omega_d_t = if self.d_zeta.gt(Single::one()) {
            // Over-damped
            let zeta_squared = R::product(self.d_zeta, self.d_zeta);
            let radicand = R::difference(zeta_squared, Single::one());
            let root = R::sqrt(radicand);
            let omega_d_t = R::product(omega_n_t, root);
            let cross = R::cosh(omega_d_t);
            assert(is_product::<R>(self.d_zeta, self.d_zeta, zeta_squared) && is_difference::<R>(
                zeta_squared,
                Single::one_value(),
                radicand,
            ) && is_sqrt::<R>(radicand, root) && is_product::<R>(omega_n_t, root, omega_d_t));
            cross
        } else if self.d_zeta.equals(Single::one()) {
            // Critically damped: both cosh and cos are one at zero
            Single::one()
        } else {
            // Under-damped
            let zeta_squared = R::product(self.d_zeta, self.d_zeta);
            let radicand = R::difference(Single::one(), zeta_squared);
            let root = R::sqrt(radicand);
            let omega_d_t = R::product(omega_n_t, root);
            let cross = R::cos(omega_d_t);
            assert(is_product::<R>(self.d_zeta, self.d_zeta, zeta_squared) && is_difference::<R>(
                Single::one_value(),
                zeta_squared,
                radicand,
            ) && is_sqrt::<R>(radicand, root) && is_product::<R>(omega_n_t, root, omega_d_t));
            cross
        };
        assert(is_cross_term::<R>(self.d_zeta, omega_n_t, cosx_omega_d_t));

        let k0_k1 = R::product(k0, k1);
        let alpha = R::product(k0_k1, sinh_zeta_omega_n_t);
        let inner = R::sum(sinh_zeta_omega_n_t, cosx_omega_d_t);
        let decay = R::product(k1, inner);
        let rest = R::difference(Single::one(), decay);
        let beta = R::product(k0, rest);
        assert(is_product::<R>(k0, k1, k0_k1) && is_sum::<R>(
            sinh_zeta_omega_n_t,
            cosx_omega_d_t,
            inner,
        ) && is_product::<R>(k1, inner, decay) && is_difference::<R>(
            Single::one_value(),
            decay,
            rest,
        ));
        assert(is_gain_pair::<R>(k0, k1, sinh_zeta_omega_n_t, cosx_omega_d_t, alpha, beta));
        assert(is_product::<R>(self.d_zeta, omega_n_t, zeta_omega_n_t) && is_quotient::<R>(
            Single::two_value(),
            self.d_ted_gain,
            k0,
        ) && is_exp::<R>(zeta_omega_n_t.negated(), k1) && is_sinh::<R>(
            zeta_omega_n_t,
            sinh_zeta_omega_n_t,
        ));

        self.d_alpha = alpha;
        self.d_beta = beta;
    }

    /// Sets the normalized natural frequency, which must not be below zero,
    /// and computes the gains anew.
    pub fn set_loop_bandwidth(&mut self, bw: Single)
        requires
            Single::zero_value().at_most(bw),
        ensures
            (LoopState { omega_n_norm: bw, ..old(self)@ }).regains_to::<R>(final(self)@),
    {
        self.d_omega_n_norm = bw;
        self.update_gains();
    }

    /// Sets the damping factor, which must not be below zero, and computes
    /// the gains anew.
    pub fn set_damping_factor(&mut self, df: Single)
        requires
            Single::zero_value().at_most(df),
        ensures
            (LoopState { zeta: df, ..old(self)@ }).regains_to::<R>(final(self)@),
    {
        self.d_zeta = df;
        self.update_gains();
    }

    /// Sets the detector gain, which must be above zero, and computes the
    /// gains anew.
    pub fn set_ted_gain(&mut self, ted_gain: Single)
        requires
            Single::zero_value().less(ted_gain),
        ensures
            (LoopState { ted_gain, ..old(self)@ }).regains_to::<R>(final(self)@),
    {
        self.d_ted_gain = ted_gain;
        self.update_gains();
    }

    /// Sets the average period, and the one that a step back restores.
    pub fn set_avg_period(&mut self, period: Single)
        ensures
            final(self)@ == (LoopState {
                avg_period: period,
                prev_avg_period: period,
                ..old(self)@
            }),
    {
        self.d_avg_period = period;
        self.d_prev_avg_period = period;
    }

    /// Sets the current period, and the one that a step back restores.
    pub fn set_inst_period(&mut self, period: Single)
        ensures
            final(self)@ == (LoopState {
                inst_period: period,
                prev_inst_period: period,
                ..old(self)@
            }),
    {
        self.d_inst_period = period;
        self.d_prev_inst_period = period;
    }

    /// Sets the nominal period. A value outside the limits is replaced by the
    /// middle between them, `(max + min) / 2`.
    pub fn set_nom_avg_period(&mut self, period: Single)
        ensures
            final(self)@ == (LoopState {
                nom_avg_period: final(self)@.nom_avg_period,
                ..old(self)@
            }),
            if period.less(old(self)@.min_avg_period) || old(self)@.max_avg_period.less(period) {
                exists|span: Single| #[trigger]
                    is_sum::<R>(old(self)@.max_avg_period, old(self)@.min_avg_period, span)
                        && is_quotient::<R>(
                        span,
                        Single::two_value(),
                        final(self)@.nom_avg_period,
                    )
            } else {
                final(self)@.nom_avg_period == period
            },
            !period.nan() && old(self)@.limits_ordered() && !(period.less(
                old(self)@.min_avg_period,
            ) || old(self)@.max_avg_period.less(period)) ==> {
                &&& final(self)@.min_avg_period.at_most(final(self)@.nom_avg_period)
                &&& final(self)@.nom_avg_period.at_most(final(self)@.max_avg_period)
            },
    {
        if period.lt(self.d_min_avg_period) || period.gt(self.d_max_avg_period) {
            let span = R::sum(self.d_max_avg_period, self.d_min_avg_period);
            self.d_nom_avg_period = R::quotient(span, Single::two());
            assert(is_sum::<R>(old(self)@.max_avg_period, old(self)@.min_avg_period, span));
        } else {
            self.d_nom_avg_period = period;
        }
    }

    /// Sets the phase, and the one that a step back restores: after the
    /// caller has overridden the phase, a step back must not bring back an
    /// older one.
    pub fn set_phase(&mut self, phase: Single)
        ensures
            final(self)@ == (LoopState { phase, prev_phase: phase, ..old(self)@ }),
    {
        self.d_prev_phase = phase;
        self.d_phase = phase;
    }

    /// The normalized natural frequency.
    pub fn loop_bandwidth(&self) -> (r: Single)
        ensures
            r == self@.omega_n_norm,
    {
        self.d_omega_n_norm
    }

    /// The damping factor.
    pub fn damping_factor(&self) -> (r: Single)
        ensures
            r == self@.zeta,
    {
        self.d_zeta
    }

    /// The detector gain.
    pub fn ted_gain(&self) -> (r: Single)
        ensures
            r == self@.ted_gain,
    {
        self.d_ted_gain
    }

    /// The proportional gain.
    pub fn alpha(&self) -> (r: Single)
        ensures
            r == self@.alpha,
    {
        self.d_alpha
    }

    /// The integral gain.
    pub fn beta(&self) -> (r: Single)
        ensures
            r == self@.beta,
    {
        self.d_beta
    }

    /// The estimate of the average symbol period.
    pub fn avg_period(&self) -> (r: Single)
        ensures
            r == self@.avg_period,
    {
        self.d_avg_period
    }

    /// The estimate of the current symbol period.
    pub fn inst_period(&self) -> (r: Single)
        ensures
            r == self@.inst_period,
    {
        self.d_inst_period
    }

    /// The nominal symbol period.
    pub fn nom_avg_period(&self) -> (r: Single)
        ensures
            r == self@.nom_avg_period,
    {
        self.d_nom_avg_period
    }

    /// The clock phase, not wrapped.
    pub fn phase(&self) -> (r: Single)
        ensures
            r == self@.phase,
    {
        self.d_phase
    }
}

/// At critical damping the cross term of the gains is exactly one, whatever
/// the natural frequency and the arithmetic.
pub proof fn lemma_cross_term_at_critical_damping<R: Arithmetic>(
    zeta: Single,
    omega: Single,
    cross: Single,
)
    requires
        zeta.same(Single::one_value()),
    ensures
        is_cross_term::<R>(zeta, omega, cross) <==> cross == Single::one_value(),
{
}

/// A wrap of `steps` steps followed by one more step is a wrap of
/// `steps + 1` steps.
pub proof fn lemma_wrap_one_more<R: Arithmetic>(
    pre: LoopState,
    stage: WrapStage,
    steps: nat,
    mid: LoopState,
    then: WrapStage,
    post: LoopState,
    next: WrapStage,
)
    requires
        pre.wraps_in::<R>(stage, steps, mid, then),
        mid.wraps_to::<R>(then, post, next),
    ensures
        pre.wraps_in::<R>(stage, steps + 1, post, next),
    decreases steps,
{
    if steps == 0 {
        assert(post.wraps_in::<R>(next, 0, post, next));
        assert(pre.wraps_to::<R>(stage, post, next));
    } else {
        let (first, second) = choose|first: LoopState, second: WrapStage|
            #![trigger pre.wraps_to::<R>(stage, first, second)]
            pre.wraps_to::<R>(stage, first, second) && first.wraps_in::<R>(
                second,
                (steps - 1) as nat,
                mid,
                then,
            );
        lemma_wrap_one_more::<R>(first, second, (steps - 1) as nat, mid, then, post, next);
        assert(first.wraps_in::<R>(second, steps, post, next));
    }
}

/// A wrap changes nothing but the phase.
pub proof fn lemma_wrap_moves_phase_only<R: Arithmetic>(
    pre: LoopState,
    stage: WrapStage,
    steps: nat,
    post: LoopState,
    next: WrapStage,
)
    requires
        pre.wraps_in::<R>(stage, steps, post, next),
    ensures
        post == (LoopState { phase: post.phase, ..pre }),
    decreases steps,
{
    if steps > 0 {
        let (first, second) = choose|first: LoopState, second: WrapStage|
            #![trigger pre.wraps_to::<R>(stage, first, second)]
            pre.wraps_to::<R>(stage, first, second) && first.wraps_in::<R>(
                second,
                (steps - 1) as nat,
                post,
                next,
            );
        lemma_wrap_moves_phase_only::<R>(first, second, (steps - 1) as nat, post, next);
    }
}

/// After a step the average period lies between its limits, and the current
/// period is above zero where the lower limit is. Both hold of results that
/// are numbers: a NaN that the arithmetic returns is stored as it is.
pub proof fn lemma_advance_keeps_limits<R: Arithmetic>(
    pre: LoopState,
    error: Single,
    post: LoopState,
)
    requires
        pre.limits_ordered(),
        pre.advances_to::<R>(error, post),
        !post.avg_period.nan(),
    ensures
        post.min_avg_period == pre.min_avg_period,
        post.max_avg_period == pre.max_avg_period,
        post.limits_ordered(),
        post.min_avg_period.at_most(post.avg_period),
        post.avg_period.at_most(post.max_avg_period),
        Single::zero_value().less(pre.min_avg_period) && !post.inst_period.nan()
            ==> Single::zero_value().less(post.inst_period),
{
}

/// With an arithmetic that returns numbers where IEEE 754 does, every step
/// on a finite error brings the average period between its limits, wherever
/// it was before, and leaves the current period above zero where the lower
/// limit is. The state stays fit for the next step, so this holds after
/// every step of any sequence of finite errors.
pub proof fn lemma_advance_keeps_limits_on_numbers<R: Arithmetic>(
    pre: LoopState,
    error: Single,
    post: LoopState,
)
    requires
        gives_numbers::<R>(),
        pre.finite_and_ordered(),
        error.finite(),
        pre.advances_to::<R>(error, post),
    ensures
        post.finite_and_ordered(),
        post.min_avg_period.at_most(post.avg_period),
        post.avg_period.at_most(post.max_avg_period),
        Single::zero_value().less(post.min_avg_period) ==> Single::zero_value().less(
            post.inst_period,
        ),
{
    let (integral, sum) = choose|integral: Single, sum: Single|
        #![trigger is_scaled_sum::<R>(pre.avg_period, pre.beta, error, integral), is_scaled_sum::<R>(limited(integral, pre.min_avg_period, pre.max_avg_period), pre.alpha, error, sum)]
        {
            let avg = limited(integral, pre.min_avg_period, pre.max_avg_period);
            let inst = if sum.at_most(Single::zero_value()) {
                avg
            } else {
                sum
            };
            &&& is_scaled_sum::<R>(pre.avg_period, pre.beta, error, integral)
            &&& is_scaled_sum::<R>(avg, pre.alpha, error, sum)
            &&& is_sum::<R>(pre.phase, inst, post.phase)
            &&& post == LoopState {
                avg_period: avg,
                inst_period: inst,
                phase: post.phase,
                prev_avg_period: pre.avg_period,
                prev_inst_period: pre.inst_period,
                prev_phase: pre.phase,
                ..pre
            }
        };
    let avg = limited(integral, pre.min_avg_period, pre.max_avg_period);
    let p = choose|p: Single| #[trigger]
        is_product::<R>(pre.beta, error, p) && is_sum::<R>(pre.avg_period, p, integral);
    assert(!p.nan());
    assert(!integral.nan());
    assert(avg.finite());
    let q = choose|q: Single| #[trigger]
        is_product::<R>(pre.alpha, error, q) && is_sum::<R>(avg, q, sum);
    assert(!q.nan());
    assert(!sum.nan());
}

/// A step followed by a step back restores the average period, the current
/// period and the phase, whatever the error was, and leaves every parameter
/// as it was.
pub proof fn lemma_revert_undoes_advance<R: Arithmetic>(
    pre: LoopState,
    error: Single,
    post: LoopState,
)
    requires
        pre.advances_to::<R>(error, post),
    ensures
        post.reverted() == (LoopState {
            prev_avg_period: pre.avg_period,
            prev_inst_period: pre.inst_period,
            prev_phase: pre.phase,
            ..pre
        }),
        post.reverted().avg_period == pre.avg_period,
        post.reverted().inst_period == pre.inst_period,
        post.reverted().phase == pre.phase,
{
}

} // verus!
