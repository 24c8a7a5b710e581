//! The state that every timing error detector shares: histories of the last
//! samples, a clock that counts the inputs of one symbol, and the last two
//! error values. What the error is computed from those histories is left to
//! an algorithm.

use crate::math::complex::Complex;
use crate::math::single::Single;
use crate::modulators::constellation::{is_decision, is_points, slices_to, Constellation};
use std::collections::VecDeque;
use std::marker::PhantomData;
use vstd::prelude::*;

verus! {

/// What a revert does to the error when it crosses a symbol boundary.
#[derive(Clone, Copy, Debug)]
pub enum ErrorPolicy {
    /// Bring back the error from before the boundary.
    Preserve,
    /// Leave the error as it is.
    Reset,
}

/// Marks an algorithm that reads the derivatives of the samples.
pub struct NeedsDerivativeType;

/// Marks an algorithm that reads the samples alone.
pub struct NoDerivativeType;

/// What an algorithm says about derivatives: one of the two marks above.
pub trait DerivativeType {
}

impl DerivativeType for NeedsDerivativeType {
}

impl DerivativeType for NoDerivativeType {
}

/// Marks an algorithm whose error needs the sample after the symbol.
pub struct WithLookAhead;

/// Marks an algorithm whose error needs nothing after the symbol.
pub struct WithoutLookAhead;

/// What an algorithm says about looking ahead: one of the two marks above.
pub trait LookAheadType {
}

impl LookAheadType for WithLookAhead {
}

impl LookAheadType for WithoutLookAhead {
}

/// An error computation declares what it reads.
pub trait TimingErrorDetectorAlgorithm {
    type Derivative: DerivativeType;

    type LookAhead: LookAheadType;
}

/// An algorithm that looks ahead.
pub trait TimingErrorDetectorAlgorithmNeedsLookahead<D>: TimingErrorDetectorAlgorithm<
    LookAhead = WithLookAhead,
    Derivative = D,
> where D: DerivativeType {
}

/// An algorithm that does not look ahead.
pub trait TimingErrorDetectorAlgorithmNoLookahead<D>: TimingErrorDetectorAlgorithm<
    LookAhead = WithoutLookAhead,
    Derivative = D,
> where D: DerivativeType {
}

/// An algorithm that computes its error from decisions, samples and the
/// derivatives of the samples. The detector's contracts speak of whatever it
/// returns.
pub trait TimingErrorDetectorAlgorithmNeedsDerivatives<L>: TimingErrorDetectorAlgorithm<
    Derivative = NeedsDerivativeType,
    LookAhead = L,
> where L: LookAheadType {
    /// The histories on which the error can be computed. An algorithm that
    /// says nothing accepts them all.
    open spec fn accepts(
        decision: Seq<Complex>,
        input: Seq<Complex>,
        input_derivative: Seq<Complex>,
    ) -> bool {
        true
    }

    /// The timing error, from the histories of decisions, samples and
    /// derivatives, newest first.
    fn compute_error_cf(
        d_decision: &VecDeque<Complex>,
        d_input: &VecDeque<Complex>,
        d_input_derivative: &VecDeque<Complex>,
    ) -> Single
        requires
            Self::accepts(d_decision@, d_input@, d_input_derivative@),
    ;
}

/// An algorithm that computes its error from decisions and samples. The
/// detector's contracts speak of whatever it returns.
pub trait TimingErrorDetectorAlgorithmNoDerivatives<L>: TimingErrorDetectorAlgorithm<
    Derivative = NoDerivativeType,
    LookAhead = L,
> where L: LookAheadType {
    /// The histories on which the error can be computed. An algorithm that
    /// says nothing accepts them all.
    open spec fn accepts(decision: Seq<Complex>, input: Seq<Complex>) -> bool {
        true
    }

    /// The timing error, from the histories of decisions and samples, newest
    /// first.
    fn compute_error_cf(d_decision: &VecDeque<Complex>, d_input: &VecDeque<Complex>) -> Single
        requires
            Self::accepts(d_decision@, d_input@),
    ;
}

/// `e` is an error that `A` computed from histories with these contents.
pub open spec fn is_error<A, L>(decision: Seq<Complex>, input: Seq<Complex>, e: Single) -> bool where
    A: TimingErrorDetectorAlgorithmNoDerivatives<L>,
    L: LookAheadType,
 {
    exists|d: VecDeque<Complex>, i: VecDeque<Complex>|
        #![trigger call_ensures(A::compute_error_cf, (&d, &i), e)]
        d@ == decision && i@ == input && call_ensures(A::compute_error_cf, (&d, &i), e)
}

/// `e` is an error that `A` computed from histories with these contents.
pub open spec fn is_error_with_derivative<A, L>(
    decision: Seq<Complex>,
    input: Seq<Complex>,
    input_derivative: Seq<Complex>,
    e: Single,
) -> bool where A: TimingErrorDetectorAlgorithmNeedsDerivatives<L>, L: LookAheadType {
    exists|d: VecDeque<Complex>, i: VecDeque<Complex>, dx: VecDeque<Complex>|
        #![trigger call_ensures(A::compute_error_cf, (&d, &i, &dx), e)]
        d@ == decision && i@ == input && dx@ == input_derivative && call_ensures(
            A::compute_error_cf,
            (&d, &i, &dx),
            e,
        )
}

/// A history of `n` zero samples.
pub open spec fn zeros(n: nat) -> Seq<Complex> {
    Seq::new(n, |k: int| Complex::zero_value())
}

/// The history `s` after `x` came in at the front and the oldest entry left.
pub open spec fn shifted_in(s: Seq<Complex>, x: Complex) -> Seq<Complex> {
    (seq![x] + s).drop_last()
}

/// The history `s` with `x` in front of it, for a look ahead.
pub open spec fn peeked(s: Seq<Complex>, x: Complex) -> Seq<Complex> {
    seq![x] + s
}

/// The history `s`, which is not empty, after its newest entry was taken
/// back: the rest moves up, and the oldest entry that is left stands in for
/// the one that was lost.
pub open spec fn taken_back(s: Seq<Complex>) -> Seq<Complex>
    recommends
        s.len() > 0,
{
    s.drop_first().push(s.last())
}

/// The state of a [`TimingErrorDetector`], as a mathematical value.
pub struct DetectorState {
    /// The last error computed.
    pub error: Single,
    /// The error before that.
    pub prev_error: Single,
    /// Input samples per symbol.
    pub inputs_per_symbol: nat,
    /// Position within the inputs of the current symbol.
    pub input_clock: nat,
    /// Length of the histories.
    pub error_depth: nat,
    /// The last samples, newest first.
    pub input: Seq<Complex>,
    /// The ideal points nearest to those samples, newest first.
    pub decision: Seq<Complex>,
    /// The derivatives of those samples, newest first.
    pub input_derivative: Seq<Complex>,
    /// A constellation is attached, so decisions are kept.
    pub sliced: bool,
}

impl DetectorState {
    /// The clock is within a symbol of at least one input, and every history
    /// that is kept has `error_depth` entries.
    pub open spec fn wf(self) -> bool {
        &&& self.inputs_per_symbol >= 1
        &&& self.input_clock < self.inputs_per_symbol
        &&& self.input.len() == self.error_depth
        &&& self.input_derivative.len() == self.error_depth
        &&& self.decision.len() == if self.sliced {
            self.error_depth
        } else {
            0
        }
    }

    /// The state of a detector that has seen nothing: no error, histories of
    /// zeros, and the clock on the last input of a symbol, so that the next
    /// input completes one.
    pub open spec fn initial(inputs_per_symbol: nat, error_depth: nat, sliced: bool) -> DetectorState {
        DetectorState {
            error: Single::zero_value(),
            prev_error: Single::zero_value(),
            inputs_per_symbol,
            input_clock: (inputs_per_symbol - 1) as nat,
            error_depth,
            input: zeros(error_depth),
            decision: if sliced {
                zeros(error_depth)
            } else {
                Seq::empty()
            },
            input_derivative: zeros(error_depth),
            sliced,
        }
    }

    /// The state after a reset: as [`Self::initial`], but a detector without
    /// a constellation keeps its decisions as they are.
    pub open spec fn reset(self) -> DetectorState {
        DetectorState {
            decision: if self.sliced {
                zeros(self.error_depth)
            } else {
                self.decision
            },
            ..Self::initial(self.inputs_per_symbol, self.error_depth, self.sliced)
        }
    }

    /// The clock one input on.
    pub open spec fn next_clock(self) -> nat {
        (self.input_clock + 1) % self.inputs_per_symbol
    }

    /// The clock `k` inputs on.
    pub open spec fn clock_after(self, k: nat) -> nat {
        (self.input_clock + k) % self.inputs_per_symbol
    }

    /// The clock one input back.
    pub open spec fn previous_clock(self) -> nat {
        if self.input_clock == 0 {
            (self.inputs_per_symbol - 1) as nat
        } else {
            (self.input_clock - 1) as nat
        }
    }

    /// The state after the sample `x`, sliced to `point`, came in, with its
    /// derivative where one is kept: the histories shift and the clock moves
    /// on. The error is not touched.
    pub open spec fn shifted(self, x: Complex, point: Complex, d_x: Option<Complex>) -> DetectorState {
        DetectorState {
            input: shifted_in(self.input, x),
            decision: if self.sliced {
                shifted_in(self.decision, point)
            } else {
                self.decision
            },
            input_derivative: match d_x {
                Some(d_x) => shifted_in(self.input_derivative, d_x),
                None => self.input_derivative,
            },
            input_clock: self.next_clock(),
            ..self
        }
    }

    /// The decisions as a look ahead at a sample sliced to `point` shows them.
    pub open spec fn peeked_decision(self, point: Complex) -> Seq<Complex> {
        if self.sliced {
            peeked(self.decision, point)
        } else {
            self.decision
        }
    }

    /// The state with `e` as its error and the old error kept behind it.
    pub open spec fn with_error(self, e: Single) -> DetectorState {
        DetectorState { prev_error: self.error, error: e, ..self }
    }

    /// The state after one input was taken back. At a symbol boundary the
    /// policy `Preserve` brings the earlier error back. The clock moves one
    /// input back, and so does each history that is kept; `with_derivative`
    /// says whether the derivatives are.
    pub open spec fn reverted(self, policy: ErrorPolicy, with_derivative: bool) -> DetectorState {
        DetectorState {
            error: if self.input_clock == 0 && policy is Preserve {
                self.prev_error
            } else {
                self.error
            },
            input_clock: self.previous_clock(),
            input: taken_back(self.input),
            decision: if self.sliced {
                taken_back(self.decision)
            } else {
                self.decision
            },
            input_derivative: if with_derivative {
                taken_back(self.input_derivative)
            } else {
                self.input_derivative
            },
            ..self
        }
    }
}

impl DetectorState {
    /// `post` is this state once the error has been brought up to date: at a
    /// symbol boundary the algorithm computes a new error from the decisions
    /// and samples, elsewhere nothing changes.
    pub open spec fn settles_to<A, L>(self, post: DetectorState) -> bool where
        A: TimingErrorDetectorAlgorithmNoDerivatives<L>,
        L: LookAheadType,
     {
        if self.input_clock == 0 {
            exists|e: Single| #[trigger]
                is_error::<A, L>(self.decision, self.input, e) && post == self.with_error(e)
        } else {
            post == self
        }
    }

    /// As [`Self::settles_to`], for an algorithm that reads the derivatives
    /// too.
    pub open spec fn settles_with_derivative_to<A, L>(self, post: DetectorState) -> bool where
        A: TimingErrorDetectorAlgorithmNeedsDerivatives<L>,
        L: LookAheadType,
     {
        if self.input_clock == 0 {
            exists|e: Single| #[trigger]
                is_error_with_derivative::<A, L>(
                    self.decision,
                    self.input,
                    self.input_derivative,
                    e,
                ) && post == self.with_error(e)
        } else {
            post == self
        }
    }

    /// Where the input `x` completes a symbol, the algorithm accepts the
    /// histories that it will find, whatever `x` is sliced to.
    pub open spec fn ready_for<A, L>(self, x: Complex) -> bool where
        A: TimingErrorDetectorAlgorithmNoDerivatives<L>,
        L: LookAheadType,
     {
        self.next_clock() == 0 ==> forall|point: Complex|
            A::accepts(
                (#[trigger] self.shifted(x, point, None)).decision,
                shifted_in(self.input, x),
            )
    }

    /// As [`Self::ready_for`], for an algorithm that reads the derivatives
    /// too.
    pub open spec fn ready_with_derivative_for<A, L>(self, x: Complex, d_x: Complex) -> bool where
        A: TimingErrorDetectorAlgorithmNeedsDerivatives<L>,
        L: LookAheadType,
     {
        self.next_clock() == 0 ==> forall|point: Complex|
            A::accepts(
                (#[trigger] self.shifted(x, point, Some(d_x))).decision,
                shifted_in(self.input, x),
                shifted_in(self.input_derivative, d_x),
            )
    }

    /// At a symbol boundary, the algorithm accepts the histories that a look
    /// ahead at `x` shows, whatever `x` is sliced to.
    pub open spec fn ready_to_peek<A, L>(self, x: Complex) -> bool where
        A: TimingErrorDetectorAlgorithmNoDerivatives<L>,
        L: LookAheadType,
     {
        self.input_clock == 0 ==> forall|point: Complex|
            A::accepts(#[trigger] self.peeked_decision(point), peeked(self.input, x))
    }

    /// As [`Self::ready_to_peek`], for an algorithm that reads the
    /// derivatives too.
    pub open spec fn ready_to_peek_with_derivative<A, L>(self, x: Complex, d_x: Complex) -> bool where
        A: TimingErrorDetectorAlgorithmNeedsDerivatives<L>,
        L: LookAheadType,
     {
        self.input_clock == 0 ==> forall|point: Complex|
            A::accepts(
                #[trigger] self.peeked_decision(point),
                peeked(self.input, x),
                peeked(self.input_derivative, d_x),
            )
    }

    /// `post` is this state after a look ahead, at a symbol boundary, at the
    /// sample `x` sliced to `point`: the algorithm computes a new error from
    /// the histories with the sample in front; the histories themselves stay
    /// as they are.
    pub open spec fn peeks_to<A, L>(self, x: Complex, point: Complex, post: DetectorState) -> bool where
        A: TimingErrorDetectorAlgorithmNoDerivatives<L>,
        L: LookAheadType,
     {
        exists|e: Single| #[trigger]
            is_error::<A, L>(self.peeked_decision(point), peeked(self.input, x), e) && post
                == self.with_error(e)
    }

    /// As [`Self::peeks_to`], for an algorithm that reads the derivatives
    /// too.
    pub open spec fn peeks_with_derivative_to<A, L>(
        self,
        x: Complex,
        point: Complex,
        d_x: Complex,
        post: DetectorState,
    ) -> bool where A: TimingErrorDetectorAlgorithmNeedsDerivatives<L>, L: LookAheadType {
        exists|e: Single| #[trigger]
            is_error_with_derivative::<A, L>(
                self.peeked_decision(point),
                peeked(self.input, x),
                peeked(self.input_derivative, d_x),
                e,
            ) && post == self.with_error(e)
    }
}

/// Taking an entry back after one came in restores a history but for its
/// oldest entry: the one that left is lost, and the oldest that stayed stands
/// in for it.
pub proof fn lemma_taken_back_after_shift(s: Seq<Complex>, x: Complex)
    requires
        s.len() >= 1,
    ensures
        taken_back(shifted_in(s, x)).len() == s.len(),
        forall|i: int| 0 <= i < s.len() - 1 ==> taken_back(shifted_in(s, x))[i] == s[i],
        s.len() >= 2 ==> taken_back(shifted_in(s, x))[s.len() - 1] == s[s.len() - 2],
{
}

/// The error is computed once per symbol: an input within a symbol leaves
/// both errors as they were, and the input that completes a symbol moves the
/// error behind and has the algorithm compute a new one.
pub proof fn lemma_error_changes_at_boundary<A, L>(
    pre: DetectorState,
    x: Complex,
    point: Complex,
    post: DetectorState,
) where A: TimingErrorDetectorAlgorithmNoDerivatives<L>, L: LookAheadType
    requires
        pre.shifted(x, point, None).settles_to::<A, L>(post),
    ensures
        pre.next_clock() != 0 ==> post.error == pre.error && post.prev_error == pre.prev_error,
        pre.next_clock() == 0 ==> post.prev_error == pre.error && is_error::<A, L>(
            post.decision,
            post.input,
            post.error,
        ),
        post.input_clock == pre.next_clock(),
{
}

/// A detector that has seen nothing completes a symbol with its first input.
pub proof fn lemma_first_input_completes_symbol(
    inputs_per_symbol: nat,
    error_depth: nat,
    sliced: bool,
)
    requires
        inputs_per_symbol >= 1,
    ensures
        DetectorState::initial(inputs_per_symbol, error_depth, sliced).wf(),
        DetectorState::initial(inputs_per_symbol, error_depth, sliced).next_clock() == 0,
{
    let n = inputs_per_symbol as int;
    assert(n % n == 0) by (nonlinear_arith)
        requires
            n >= 1,
    ;
}

/// The clock counts the inputs of a symbol round and round: each input moves
/// it one on, `inputs_per_symbol` inputs bring it back to where it was, and
/// exactly one of them completes a symbol.
pub proof fn lemma_one_boundary_per_symbol(pre: DetectorState, k: nat)
    requires
        pre.wf(),
    ensures
        pre.clock_after(0) == pre.input_clock,
        pre.clock_after(1) == pre.next_clock(),
        (DetectorState { input_clock: pre.clock_after(k), ..pre }).next_clock() == pre.clock_after(
            k + 1,
        ),
        pre.clock_after(pre.inputs_per_symbol) == pre.input_clock,
        1 <= k <= pre.inputs_per_symbol ==> (pre.clock_after(k) == 0 <==> k
            == pre.inputs_per_symbol - pre.input_clock),
{
    let n = pre.inputs_per_symbol as int;
    let c = pre.input_clock as int;
    vstd::arithmetic::div_mod::lemma_small_mod(c as nat, n as nat);
    vstd::arithmetic::div_mod::lemma_mod_add_multiples_vanish(c, n);
    vstd::arithmetic::div_mod::lemma_add_mod_noop(c + k, 1, n);
    vstd::arithmetic::div_mod::lemma_mod_twice(c + k, n);
    if n == 1 {
        assert(1int % 1 == 0);
        assert(((c + k) % n + 1) % n == (c + k + 1) % n) by (nonlinear_arith)
            requires
                n == 1,
        ;
    } else {
        vstd::arithmetic::div_mod::lemma_small_mod(1, n as nat);
    }
    if 1 <= k <= n {
        if c + k < n {
            vstd::arithmetic::div_mod::lemma_small_mod((c + k) as nat, n as nat);
        } else {
            vstd::arithmetic::div_mod::lemma_small_mod((c + k - n) as nat, n as nat);
            vstd::arithmetic::div_mod::lemma_mod_add_multiples_vanish(c + k - n, n);
        }
    }
}

/// A revert takes one input back, for a detector whose histories are not
/// empty: the clock returns to where it was, and under the policy `Preserve`
/// so does the error. This holds whether or not the input completed a symbol
/// and had the error `e` computed.
pub proof fn lemma_revert_undoes_input(
    pre: DetectorState,
    x: Complex,
    point: Complex,
    d_x: Option<Complex>,
    e: Single,
    with_derivative: bool,
)
    requires
        pre.wf(),
        pre.error_depth >= 1,
    ensures
        ({
            let mid = pre.shifted(x, point, d_x);
            let post = if mid.input_clock == 0 {
                mid.with_error(e)
            } else {
                mid
            };
            let back = post.reverted(ErrorPolicy::Preserve, with_derivative);
            &&& back.wf()
            &&& back.input_clock == pre.input_clock
            &&& back.error == pre.error
            &&& back.input == taken_back(shifted_in(pre.input, x))
            &&& post.reverted(ErrorPolicy::Reset, with_derivative).error == post.error
        }),
{
    let n = pre.inputs_per_symbol as int;
    let c = pre.input_clock as int;
    if c + 1 < n {
        assert((c + 1) % n == c + 1) by (nonlinear_arith)
            requires
                0 <= c,
                c + 1 < n,
        ;
    } else {
        assert((c + 1) % n == 0) by (nonlinear_arith)
            requires
                c + 1 == n,
                n >= 1,
        ;
    }
}

/// A timing error detector that computes its error with the algorithm `A`
/// and slices samples with the constellation `C`, if it has one.
#[verifier::reject_recursive_types(A)]
#[verifier::reject_recursive_types(C)]
#[verifier::reject_recursive_types(L)]
#[verifier::reject_recursive_types(D)]
pub struct TimingErrorDetector<'a, A, C, L, D> where
    A: TimingErrorDetectorAlgorithm<LookAhead = L, Derivative = D>,
    C: Constellation,
    D: DerivativeType,
    L: LookAheadType,
 {
    d_constellation: Option<&'a C>,
    d_error: Single,
    d_prev_error: Single,
    d_inputs_per_symbol: usize,
    d_input_clock: usize,
    d_error_depth: usize,
    d_input: VecDeque<Complex>,
    d_decision: VecDeque<Complex>,
    d_input_derivative: VecDeque<Complex>,
    _phantom_l: PhantomData<L>,
    _phantom_d: PhantomData<D>,
    _phantom_a: PhantomData<A>,
}

/// A history of `len` zero samples.
fn new_dequeue_of_len(len: usize) -> (history: VecDeque<Complex>)
    ensures
        history@ == zeros(len as nat),
{
    let zero = Complex::default();
    let mut history: VecDeque<Complex> = VecDeque::new();
    let mut k: usize = 0;
    while k < len
        invariant
            k <= len,
            zero == Complex::zero_value(),
            history@ == zeros(k as nat),
        decreases len - k,
    {
        history.push_back(zero);
        k += 1;
        assert(history@ =~= zeros(k as nat));
    }
    history
}

/// Takes the newest entry of a history back, keeping its length. The
/// history must not be empty: there is no entry then to stand in for the
/// lost one.
pub fn dup_back_same_size(v: &mut VecDeque<Complex>)
    requires
        old(v)@.len() > 0,
    ensures
        final(v)@ == taken_back(old(v)@),
        final(v)@.len() == old(v)@.len(),
{
    let elt = v[v.len() - 1];
    v.push_back(elt);
    v.pop_front();
    assert(v@ =~= taken_back(old(v)@));
}

impl<'a, A, C, L, D> View for TimingErrorDetector<'a, A, C, L, D> where
    D: DerivativeType,
    L: LookAheadType,
    A: TimingErrorDetectorAlgorithm<LookAhead = L, Derivative = D>,
    C: Constellation,
 {
    type V = DetectorState;

    closed spec fn view(&self) -> DetectorState {
        DetectorState {
            error: self.d_error,
            prev_error: self.d_prev_error,
            inputs_per_symbol: self.d_inputs_per_symbol as nat,
            input_clock: self.d_input_clock as nat,
            error_depth: self.d_error_depth as nat,
            input: self.d_input@,
            decision: self.d_decision@,
            input_derivative: self.d_input_derivative@,
            sliced: self.d_constellation is Some,
        }
    }
}

impl<'a, A, C, L, D> TimingErrorDetector<'a, A, C, L, D> where
    D: DerivativeType,
    L: LookAheadType,
    A: TimingErrorDetectorAlgorithm<LookAhead = L, Derivative = D>,
    C: Constellation,
 {
    /// The constellation that samples are sliced with.
    pub closed spec fn constellation(&self) -> Option<&'a C> {
        self.d_constellation
    }

    /// Decisions are kept exactly when there is a constellation.
    pub proof fn lemma_sliced_with_constellation(&self)
        ensures
            self@.sliced == (self.constellation() is Some),
    {
    }

    /// A detector for symbols of `inputs_per_symbol` samples, with histories
    /// of `error_computation_depth` entries.
    pub fn new(
        inputs_per_symbol: usize,
        error_computation_depth: usize,
        constellation: Option<&'a C>,
    ) -> (ted: TimingErrorDetector<'a, A, C, L, D>)
        requires
            inputs_per_symbol >= 1,
        ensures
            ted@ == DetectorState::initial(
                inputs_per_symbol as nat,
                error_computation_depth as nat,
                constellation is Some,
            ),
            ted@.wf(),
            ted.constellation() == constellation,
    {
        let mut ted = TimingErrorDetector {
            d_constellation: constellation,
            d_error: Single::zero(),
            d_prev_error: Single::zero(),
            d_inputs_per_symbol: inputs_per_symbol,
            d_input_clock: 0,
            d_error_depth: error_computation_depth,
            d_input: VecDeque::new(),
            d_decision: VecDeque::new(),
            d_input_derivative: VecDeque::new(),
            _phantom_l: PhantomData,
            _phantom_d: PhantomData,
            _phantom_a: PhantomData,
        };
        ted.sync_reset();
        ted
    }

    /// Input samples per symbol.
    pub fn inputs_per_symbol(&self) -> (n: usize)
        ensures
            n == self@.inputs_per_symbol,
    {
        self.d_inputs_per_symbol
    }

    /// Whether the next input completes a symbol, and so has the error
    /// computed.
    pub fn next_input_completes_symbol(&self) -> (b: bool)
        requires
            self@.wf(),
        ensures
            b == (self@.next_clock() == 0),
    {
        (self.d_input_clock + 1) % self.d_inputs_per_symbol == 0
    }

    /// The last error computed.
    pub fn error(&self) -> (e: Single)
        ensures
            e == self@.error,
    {
        self.d_error
    }

    fn advance_input_clock(&mut self)
        requires
            old(self)@.inputs_per_symbol >= 1,
            old(self)@.input_clock < old(self)@.inputs_per_symbol,
        ensures
            final(self)@ == (DetectorState { input_clock: old(self)@.next_clock(), ..old(self)@ }),
            final(self).constellation() == old(self).constellation(),
    {
        self.d_input_clock = (self.d_input_clock + 1) % self.d_inputs_per_symbol;
    }

    fn revert_input_clock(&mut self)
        requires
            old(self)@.inputs_per_symbol >= 1,
        ensures
            final(self)@ == (DetectorState {
                input_clock: old(self)@.previous_clock(),
                ..old(self)@
            }),
            final(self).constellation() == old(self).constellation(),
    {
        if self.d_input_clock == 0 {
            self.d_input_clock = self.d_inputs_per_symbol - 1;
        } else {
            self.d_input_clock -= 1;
        }
    }

    fn sync_reset_input_clock(&mut self)
        requires
            old(self)@.inputs_per_symbol >= 1,
        ensures
            final(self)@ == (DetectorState {
                input_clock: (old(self)@.inputs_per_symbol - 1) as nat,
                ..old(self)@
            }),
            final(self).constellation() == old(self).constellation(),
    {
        self.d_input_clock = self.d_inputs_per_symbol - 1;
    }

    /// Starts over, as at the start of a stream: the errors are zero, the
    /// histories hold zeros, and the next input completes a symbol.
    pub fn sync_reset(&mut self)
        requires
            old(self)@.inputs_per_symbol >= 1,
        ensures
            final(self)@ == old(self)@.reset(),
            final(self).constellation() == old(self).constellation(),
            old(self)@.sliced || old(self)@.decision.len() == 0 ==> final(self)@.wf(),
    {
        self.d_error = Single::zero();
        self.d_prev_error = Single::zero();

        self.d_input = new_dequeue_of_len(self.d_error_depth);

        self.d_input_derivative = new_dequeue_of_len(self.d_error_depth);

        if self.d_constellation.is_some() {
            self.d_decision = new_dequeue_of_len(self.d_input.len());
        }
        self.sync_reset_input_clock();
    }

    /// The ideal point nearest to the sample `x`, or zero for a detector
    /// without a constellation.
    pub fn slice(&self, x: Complex) -> (point: Complex)
        ensures
            slices_to(self.constellation(), x, point),
    {
        let mut z = Complex::zero();
        match self.d_constellation {
            Some(constellation) => {
                let index = constellation.decision_maker(x);
                let points = constellation.map_to_points(index);
                if points.len() > 0 {
                    z = points[0];
                }
                assert(is_decision(constellation, x, index));
                assert(call_ensures(C::map_to_points, (constellation, index), points));
                assert(is_points(constellation, index, points@));
            },
            None => {},
        }
        z
    }
}

impl<'a, A, C, L, D> TimingErrorDetector<'a, A, C, L, D> where
    D: DerivativeType,
    L: LookAheadType,
    A: TimingErrorDetectorAlgorithm<LookAhead = L, Derivative = D>,
    C: Constellation,
 {
    /// Shifts the sample `x` and what it slices to into their histories. The
    /// sample is sliced where it stands in its history, so a detector with a
    /// constellation needs a history that is not empty.
    fn shift_in(&mut self, x: Complex) -> (point: Complex)
        requires
            old(self)@.sliced ==> old(self)@.input.len() >= 1,
        ensures
            slices_to(old(self).constellation(), x, point),
            final(self).constellation() == old(self).constellation(),
            final(self)@ == (DetectorState {
                input: shifted_in(old(self)@.input, x),
                decision: if old(self)@.sliced {
                    shifted_in(old(self)@.decision, point)
                } else {
                    old(self)@.decision
                },
                ..old(self)@
            }),
    {
        self.d_input.push_front(x);
        self.d_input.pop_back();
        assert(self.d_input@ =~= shifted_in(old(self)@.input, x));

        let mut point = Complex::zero();
        if self.d_constellation.is_some() {
            point = self.slice(self.d_input[0]);
            self.d_decision.push_front(point);
            self.d_decision.pop_back();
            assert(self.d_decision@ =~= shifted_in(old(self)@.decision, point));
        }
        point
    }

    /// Puts the sample `x` and what it slices to in front of their histories.
    fn peek_in(&mut self, x: Complex) -> (point: Complex)
        ensures
            slices_to(old(self).constellation(), x, point),
            final(self).constellation() == old(self).constellation(),
            final(self)@ == (DetectorState {
                input: peeked(old(self)@.input, x),
                decision: old(self)@.peeked_decision(point),
                ..old(self)@
            }),
    {
        self.d_input.push_front(x);
        let mut point = Complex::zero();
        if self.d_constellation.is_some() {
            point = self.slice(self.d_input[0]);
            self.d_decision.push_front(point);
        }
        point
    }

    /// Takes back what [`Self::peek_in`] put in front.
    fn peek_out(&mut self)
        ensures
            final(self).constellation() == old(self).constellation(),
            final(self)@ == (DetectorState {
                input: if old(self)@.input.len() > 0 {
                    old(self)@.input.drop_first()
                } else {
                    old(self)@.input
                },
                decision: if old(self)@.sliced && old(self)@.decision.len() > 0 {
                    old(self)@.decision.drop_first()
                } else {
                    old(self)@.decision
                },
                ..old(self)@
            }),
    {
        if self.d_constellation.is_some() {
            self.d_decision.pop_front();
        }
        self.d_input.pop_front();
    }
}

impl<'a, A, C, L> TimingErrorDetector<'a, A, C, L, NeedsDerivativeType> where
    A: TimingErrorDetectorAlgorithmNeedsDerivatives<L, Derivative = NeedsDerivativeType>,
    C: Constellation,
    L: LookAheadType,
 {
    fn compute_error_cf(&self) -> (e: Single)
        requires
            A::accepts(self@.decision, self@.input, self@.input_derivative),
        ensures
            is_error_with_derivative::<A, L>(
                self@.decision,
                self@.input,
                self@.input_derivative,
                e,
            ),
    {
        A::compute_error_cf(&self.d_decision, &self.d_input, &self.d_input_derivative)
    }

    /// Takes the last input back. The histories must not be empty.
    pub fn revert(&mut self, err_policy: ErrorPolicy)
        requires
            old(self)@.wf(),
            old(self)@.error_depth >= 1,
        ensures
            final(self)@ == old(self)@.reverted(err_policy, true),
            final(self)@.wf(),
            final(self).constellation() == old(self).constellation(),
    {
        if self.d_input_clock == 0 {
            match err_policy {
                ErrorPolicy::Preserve => {
                    self.d_error = self.d_prev_error;
                },
                _ => {},
            }
        }
        self.revert_input_clock();

        dup_back_same_size(&mut self.d_input_derivative);

        if self.d_constellation.is_some() {
            dup_back_same_size(&mut self.d_decision);
        }
        dup_back_same_size(&mut self.d_input);
    }
}

impl<'a, A, C, L> TimingErrorDetector<'a, A, C, L, NoDerivativeType> where
    A: TimingErrorDetectorAlgorithmNoDerivatives<L, Derivative = NoDerivativeType>,
    C: Constellation,
    L: LookAheadType,
 {
    fn compute_error_cf(&self) -> (e: Single)
        requires
            A::accepts(self@.decision, self@.input),
        ensures
            is_error::<A, L>(self@.decision, self@.input, e),
    {
        A::compute_error_cf(&self.d_decision, &self.d_input)
    }

    /// Takes the last input back. The histories must not be empty.
    pub fn revert(&mut self, err_policy: ErrorPolicy)
        requires
            old(self)@.wf(),
            old(self)@.error_depth >= 1,
        ensures
            final(self)@ == old(self)@.reverted(err_policy, false),
            final(self)@.wf(),
            final(self).constellation() == old(self).constellation(),
    {
        if self.d_input_clock == 0 {
            match err_policy {
                ErrorPolicy::Preserve => {
                    self.d_error = self.d_prev_error;
                },
                _ => {},
            }
        }
        self.revert_input_clock();

        if self.d_constellation.is_some() {
            dup_back_same_size(&mut self.d_decision)
        }
        dup_back_same_size(&mut self.d_input);
    }
}

impl<'a, A, C> TimingErrorDetector<'a, A, C, WithLookAhead, NeedsDerivativeType> where
    A: TimingErrorDetectorAlgorithmNeedsLookahead<NeedsDerivativeType, LookAhead = WithLookAhead>
        + TimingErrorDetectorAlgorithmNeedsDerivatives<
        WithLookAhead,
        Derivative = NeedsDerivativeType,
    >,
    C: Constellation,
 {
    /// Looks ahead at the sample `x` with derivative `d_x`: at a symbol
    /// boundary the error is computed as if they had come in, and the
    /// histories are left as they are. Elsewhere nothing happens.
    pub fn input_lookahead(&mut self, x: Complex, d_x: Complex)
        requires
            old(self)@.wf(),
            old(self)@.ready_to_peek_with_derivative::<A, WithLookAhead>(x, d_x),
        ensures
            old(self)@.input_clock != 0 ==> final(self)@ == old(self)@,
            old(self)@.input_clock == 0 ==> exists|point: Complex| #[trigger]
                slices_to(old(self).constellation(), x, point) && old(
                    self,
                )@.peeks_with_derivative_to::<A, WithLookAhead>(x, point, d_x, final(self)@),
            final(self)@.wf(),
            final(self).constellation() == old(self).constellation(),
    {
        if self.d_input_clock != 0 {
            return ;
        }
        let point = self.peek_in(x);
        self.d_input_derivative.push_front(d_x);

        self.d_prev_error = self.d_error;
        self.d_error = self.compute_error_cf();

        self.d_input_derivative.pop_front();
        self.peek_out();
        assert(self.d_input@ =~= old(self)@.input);
        assert(self.d_decision@ =~= old(self)@.decision);
        assert(self.d_input_derivative@ =~= old(self)@.input_derivative);
    }

    /// Takes in the sample `x` with derivative `d_x`. The error is left to
    /// the look ahead. With a constellation the histories must not be empty.
    pub fn input(&mut self, x: Complex, d_x: Complex)
        requires
            old(self)@.wf(),
            old(self)@.sliced ==> old(self)@.error_depth >= 1,
        ensures
            exists|point: Complex| #[trigger]
                slices_to(old(self).constellation(), x, point) && final(self)@ == old(
                    self,
                )@.shifted(x, point, Some(d_x)),
            final(self)@.wf(),
            final(self).constellation() == old(self).constellation(),
    {
        let point = self.shift_in(x);

        self.d_input_derivative.push_front(d_x);
        self.d_input_derivative.pop_back();
        assert(self.d_input_derivative@ =~= shifted_in(old(self)@.input_derivative, d_x));

        self.advance_input_clock();
    }
}

impl<'a, A, C> TimingErrorDetector<'a, A, C, WithLookAhead, NoDerivativeType> where
    A: TimingErrorDetectorAlgorithmNeedsLookahead<NoDerivativeType, LookAhead = WithLookAhead>
        + TimingErrorDetectorAlgorithmNoDerivatives<WithLookAhead, Derivative = NoDerivativeType>,
    C: Constellation,
 {
    /// Looks ahead at the sample `x`: at a symbol boundary the error is
    /// computed as if it had come in, and the histories are left as they are.
    /// Elsewhere nothing happens.
    pub fn input_lookahead(&mut self, x: Complex)
        requires
            old(self)@.wf(),
            old(self)@.ready_to_peek::<A, WithLookAhead>(x),
        ensures
            old(self)@.input_clock != 0 ==> final(self)@ == old(self)@,
            old(self)@.input_clock == 0 ==> exists|point: Complex| #[trigger]
                slices_to(old(self).constellation(), x, point) && old(self)@.peeks_to::<
                    A,
                    WithLookAhead,
                >(x, point, final(self)@),
            final(self)@.wf(),
            final(self).constellation() == old(self).constellation(),
    {
        if self.d_input_clock != 0 {
            return ;
        }
        let point = self.peek_in(x);

        self.d_prev_error = self.d_error;
        self.d_error = self.compute_error_cf();

        self.peek_out();
        assert(self.d_input@ =~= old(self)@.input);
        assert(self.d_decision@ =~= old(self)@.decision);
    }

    /// Takes in the sample `x`. The error is left to the look ahead. With a
    /// constellation the histories must not be empty.
    pub fn input(&mut self, x: Complex)
        requires
            old(self)@.wf(),
            old(self)@.sliced ==> old(self)@.error_depth >= 1,
        ensures
            exists|point: Complex| #[trigger]
                slices_to(old(self).constellation(), x, point) && final(self)@ == old(
                    self,
                )@.shifted(x, point, None),
            final(self)@.wf(),
            final(self).constellation() == old(self).constellation(),
    {
        let point = self.shift_in(x);
        self.advance_input_clock();
    }
}

impl<'a, A, C, D> TimingErrorDetector<'a, A, C, WithoutLookAhead, D> where
    D: DerivativeType,
    A: TimingErrorDetectorAlgorithmNoLookahead<D, LookAhead = WithoutLookAhead>,
    C: Constellation,
 {
    /// A detector that does not look ahead has nothing to do here.
    pub fn input_lookahead(&mut self, _x: Complex, _d_x: Option<Complex>)
        ensures
            final(self)@ == old(self)@,
            final(self).constellation() == old(self).constellation(),
    {
    }
}

impl<'a, A, C> TimingErrorDetector<'a, A, C, WithoutLookAhead, NeedsDerivativeType> where
    A: TimingErrorDetectorAlgorithmNoLookahead<NeedsDerivativeType, LookAhead = WithoutLookAhead>
        + TimingErrorDetectorAlgorithmNeedsDerivatives<
        WithoutLookAhead,
        Derivative = NeedsDerivativeType,
    >,
    C: Constellation,
 {
    /// Takes in the sample `x` with derivative `d_x`. Where it completes a
    /// symbol, the error is computed anew. With a constellation the histories
    /// must not be empty.
    pub fn input(&mut self, x: Complex, d_x: Complex)
        requires
            old(self)@.wf(),
            old(self)@.sliced ==> old(self)@.error_depth >= 1,
            old(self)@.ready_with_derivative_for::<A, WithoutLookAhead>(x, d_x),
        ensures
            exists|point: Complex| #[trigger]
                slices_to(old(self).constellation(), x, point) && old(self)@.shifted(
                    x,
                    point,
                    Some(d_x),
                ).settles_with_derivative_to::<A, WithoutLookAhead>(final(self)@),
            final(self)@.wf(),
            final(self).constellation() == old(self).constellation(),
    {
        let point = self.shift_in(x);

        self.d_input_derivative.push_front(d_x);
        self.d_input_derivative.pop_back();
        assert(self.d_input_derivative@ =~= shifted_in(old(self)@.input_derivative, d_x));

        self.advance_input_clock();
        let ghost mid = self@;
        assert(mid == old(self)@.shifted(x, point, Some(d_x)));
        if self.d_input_clock == 0 {
            self.d_prev_error = self.d_error;
            self.d_error = self.compute_error_cf();
            assert(self@ == mid.with_error(self@.error));
        }
        assert(mid.settles_with_derivative_to::<A, WithoutLookAhead>(self@));
    }
}

impl<'a, A, C> TimingErrorDetector<'a, A, C, WithoutLookAhead, NoDerivativeType> where
    A: TimingErrorDetectorAlgorithmNoLookahead<NoDerivativeType, LookAhead = WithoutLookAhead>
        + TimingErrorDetectorAlgorithmNoDerivatives<
        WithoutLookAhead,
        Derivative = NoDerivativeType,
    >,
    C: Constellation,
 {
    /// Takes in the sample `x`. Where it completes a symbol, the error is
    /// computed anew. With a constellation the histories must not be empty.
    pub fn input(&mut self, x: Complex)
        requires
            old(self)@.wf(),
            old(self)@.sliced ==> old(self)@.error_depth >= 1,
            old(self)@.ready_for::<A, WithoutLookAhead>(x),
        ensures
            exists|point: Complex| #[trigger]
                slices_to(old(self).constellation(), x, point) && old(self)@.shifted(
                    x,
                    point,
                    None,
                ).settles_to::<A, WithoutLookAhead>(final(self)@),
            final(self)@.wf(),
            final(self).constellation() == old(self).constellation(),
    {
        let point = self.shift_in(x);
        self.advance_input_clock();
        let ghost mid = self@;
        assert(mid == old(self)@.shifted(x, point, None));
        if self.d_input_clock == 0 {
            self.d_prev_error = self.d_error;
            self.d_error = self.compute_error_cf();
            assert(self@ == mid.with_error(self@.error));
        }
        assert(mid.settles_to::<A, WithoutLookAhead>(self@));
    }
}

} // verus!
