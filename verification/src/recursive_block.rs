//! A block whose output depends on each input item and on a value that an
//! earlier step left behind, a fixed number of steps back.

use crate::work::WorkReport;
use std::marker::PhantomData;
use vstd::prelude::*;

verus! {

/// The smallest of three lengths.
pub open spec fn least(a: nat, b: nat, c: nat) -> nat {
    if a <= b && a <= c {
        a
    } else if b <= c {
        b
    } else {
        c
    }
}

/// The place in a buffer of `n` values after `m` steps that began at `i`.
pub open spec fn next_place(i: nat, m: nat, n: nat) -> nat {
    if m > 0 {
        ((i + m - 1) % (n - 1)) as nat
    } else {
        i
    }
}

/// Applies `f` to each input item together with the value at the current
/// place of a buffer of `N` values. `f` returns the output item and the value
/// to leave behind.
#[verifier::reject_recursive_types(A)]
#[verifier::reject_recursive_types(B)]
#[verifier::reject_recursive_types(F)]
pub struct RecursiveBlock<A, B, F, const N: usize> where F: Fn(&A, &B) -> (B, B) {
    f: F,
    _input_item: PhantomData<A>,
    _output_item: PhantomData<B>,
    buffer: [B; N],
    current_i: usize,
}

impl<A, B, F, const N: usize> RecursiveBlock<A, B, F, N> where F: Fn(&A, &B) -> (B, B) {
    /// The function that each step applies.
    pub closed spec fn function(&self) -> F {
        self.f
    }

    /// The values left behind by earlier steps.
    pub closed spec fn values(&self) -> Seq<B> {
        self.buffer@
    }

    /// Where among the values the next step reads and writes.
    pub closed spec fn place(&self) -> nat {
        self.current_i as nat
    }

    /// The buffer has `N` values and the place is within it.
    pub open spec fn wf(&self) -> bool {
        &&& self.values().len() == N
        &&& self.place() <= N
    }

    /// A block that applies `f`, with every buffered value at its default.
    pub fn new(f: F) -> (block: Self) where B: Default + Copy
        ensures
            block.wf(),
            block.function() == f,
            block.place() == 0,
            exists|d: B| #[trigger]
                call_ensures(B::default, (), d) && block.values() == Seq::new(N as nat, |k: int| d),
    {
        let d = B::default();
        let buffer: [B; N] = [d;N];
        assert(buffer@ =~= Seq::new(N as nat, |k: int| d));
        RecursiveBlock {
            f,
            _input_item: PhantomData,
            _output_item: PhantomData,
            buffer,
            current_i: 0,
        }
    }

    /// Handles one batch: as many items as the input holds, the output has
    /// room for, and the buffer has places left from the current one. Item
    /// `k` is given to the function with the value at place `current_i + k`;
    /// what comes back is the output item `k` and the new value at that
    /// place.
    pub fn work(&mut self, input: &[A], output: &mut [B], input_finished: bool) -> (report:
        WorkReport)
        requires
            old(self).wf(),
            N == 1 ==> input@.len() == 0 || old(output)@.len() == 0,
            forall|a: &A, b: &B| old(self).function().requires((a, b)),
        ensures
            final(self).wf(),
            final(self).function() == old(self).function(),
            report.consumed == least(
                input@.len(),
                old(output)@.len(),
                (N - old(self).place()) as nat,
            ),
            report.produced == report.consumed,
            report.finished == (input_finished && report.consumed == input@.len()),
            final(output)@.len() == old(output)@.len(),
            forall|k: int|
                0 <= k < report.consumed ==> old(self).function().ensures(
                    (&input@[k], &old(self).values()[old(self).place() + k]),
                    (
                        #[trigger] final(output)@[k],
                        final(self).values()[old(self).place() + k],
                    ),
                ),
            forall|k: int|
                report.consumed <= k < old(output)@.len() ==> final(output)@[k] == old(output)@[k],
            forall|j: int|
                0 <= j < N && !(old(self).place() <= j < old(self).place()
                    + report.consumed) ==> final(self).values()[j] == old(self).values()[j],
            final(self).place() == next_place(
                old(self).place(),
                report.consumed as nat,
                N as nat,
            ),
    {
        let available = if input.len() < output.len() {
            input.len()
        } else {
            output.len()
        };
        let remaining = N - self.current_i;
        let m = if available < remaining {
            available
        } else {
            remaining
        };
        if m > 0 {
            let start = self.current_i;
            let mut k: usize = 0;
            while k < m
                invariant
                    k <= m,
                    m <= input@.len(),
                    m <= output@.len(),
                    start + m <= N,
                    start == old(self).place(),
                    self.current_i == start,
                    self.values().len() == N,
                    self.function() == old(self).function(),
                    output@.len() == old(output)@.len(),
                    forall|a: &A, b: &B| self.function().requires((a, b)),
                    forall|i: int|
                        0 <= i < k ==> self.function().ensures(
                            (&input@[i], &old(self).values()[start + i]),
                            (#[trigger] output@[i], self.values()[start + i]),
                        ),
                    forall|i: int| k <= i < output@.len() ==> output@[i] == old(output)@[i],
                    forall|j: int|
                        0 <= j < N && !(start <= j < start + k) ==> self.values()[j] == old(self).values()[j],
                decreases m - k,
            {
                let (y_output, x_prev) = (self.f)(&input[k], &self.buffer[start + k]);
                output[k] = y_output;
                self.buffer[start + k] = x_prev;
                k += 1;
            }
            self.current_i = (self.current_i + m - 1) % (N - 1);
        }
        WorkReport { consumed: m, produced: m, finished: input_finished && m == input.len() }
    }
}

} // verus!
