//! Search for a fixed pattern in a stream, then pass on a fixed number of the
//! items that follow it.

use crate::work::WorkReport;
use std::collections::VecDeque;
use std::marker::PhantomData;
use vstd::prelude::*;

verus! {

/// What the block is currently doing, as a mathematical value.
pub enum Phase {
    /// Copying items to the output; the number says how many are still owed.
    Dumping(nat),
    /// Looking for the pattern. Entry `j` is set when the last `j + 1` items
    /// seen were the first `j + 1` items of the pattern.
    Searching(Seq<bool>),
}

/// The abstract state of a [`PatternSearch`].
pub struct PatternSearchView<A> {
    /// How many items are passed on after each match.
    pub values_after: nat,
    /// The items searched for.
    pub pattern: Seq<A>,
    /// What the block is doing.
    pub phase: Phase,
}

enum State {
    /// Items still owed to the output.
    Dumping(usize),
    /// The active states of the search, one for each item of the pattern.
    Searching(VecDeque<bool>),
}

/// Searches a stream for a pattern and passes on the items that follow each
/// match. The search follows every candidate at once, so a pattern that
/// starts inside a failed attempt is not missed.
pub struct PatternSearch<A> {
    _item_type: PhantomData<A>,
    values_after: usize,
    pattern_values: Vec<A>,
    current_state: State,
}

/// The state with no partial match, for a pattern of `n` items.
pub open spec fn no_match(n: nat) -> Seq<bool> {
    Seq::new(n, |j: int| false)
}

/// The active states after one more item `x`.
pub open spec fn advance<A>(active: Seq<bool>, pattern: Seq<A>, x: A) -> Seq<bool> {
    Seq::new(pattern.len(), |j: int| pattern[j] == x && (j == 0 || active[j - 1]))
}

/// The active states after all of `items`, taken in order.
pub open spec fn run<A>(active: Seq<bool>, pattern: Seq<A>, items: Seq<A>) -> Seq<bool>
    decreases items.len(),
{
    if items.len() == 0 {
        active
    } else {
        advance(run(active, pattern, items.drop_last()), pattern, items.last())
    }
}

/// The pattern has just been seen in full.
pub open spec fn complete(active: Seq<bool>) -> bool {
    active.len() > 0 && active.last()
}

/// `m` is where a search over `items` stops: after the first item that
/// completes the pattern, or at the end when none does.
pub open spec fn search_stops_at<A>(active: Seq<bool>, pattern: Seq<A>, items: Seq<A>, m: int) -> bool {
    &&& 0 <= m <= items.len()
    &&& forall|k: int| 1 <= k < m ==> !complete(#[trigger] run(active, pattern, items.take(k)))
    &&& m < items.len() ==> m >= 1 && complete(run(active, pattern, items.take(m)))
}

/// The pattern was found within the first `m` of `items`.
pub open spec fn found_at<A>(active: Seq<bool>, pattern: Seq<A>, items: Seq<A>, m: int) -> bool {
    m >= 1 && complete(run(active, pattern, items.take(m)))
}

/// How many items a dump of `owed` items moves, given the two buffer sizes.
pub open spec fn dump_count(owed: nat, input_len: nat, output_len: nat) -> nat {
    if owed <= input_len && owed <= output_len {
        owed
    } else if input_len <= output_len {
        input_len
    } else {
        output_len
    }
}

impl<A> View for PatternSearch<A> {
    type V = PatternSearchView<A>;

    closed spec fn view(&self) -> PatternSearchView<A> {
        PatternSearchView {
            values_after: self.values_after as nat,
            pattern: self.pattern_values@,
            phase: match self.current_state {
                State::Dumping(n) => Phase::Dumping(n as nat),
                State::Searching(s) => Phase::Searching(s@),
            },
        }
    }
}

impl<A> PatternSearchView<A> {
    /// While searching there is one state for each item of the pattern.
    pub open spec fn wf(self) -> bool {
        self.phase matches Phase::Searching(s) ==> s.len() == self.pattern.len()
    }
}

impl<A> PatternSearch<A> {
    /// A queue of `capacity` states, none of them active.
    pub fn empty_active_states(capacity: usize) -> (active_states: VecDeque<bool>)
        ensures
            active_states@ == no_match(capacity as nat),
    {
        let mut active_states: VecDeque<bool> = VecDeque::with_capacity(capacity);
        let mut k: usize = 0;
        while k < capacity
            invariant
                k <= capacity,
                active_states@ == no_match(k as nat),
            decreases capacity - k,
        {
            active_states.push_back(false);
            k += 1;
            assert(active_states@ =~= no_match(k as nat));
        }
        active_states
    }

    /// A block that searches for `pattern_values` and, each time it has seen
    /// them, passes on the `values_after` items that follow.
    pub fn build(values_after: usize, pattern_values: Vec<A>) -> (block: Self)
        ensures
            block@.wf(),
            block@ == (PatternSearchView {
                values_after: values_after as nat,
                pattern: pattern_values@,
                phase: Phase::Searching(no_match(pattern_values@.len())),
            }),
    {
        let active_states = Self::empty_active_states(pattern_values.len());
        PatternSearch {
            _item_type: PhantomData,
            values_after,
            pattern_values,
            current_state: State::Searching(active_states),
        }
    }
}

/// One more item extends a run by one step.
pub proof fn lemma_run_take_next<A>(active: Seq<bool>, pattern: Seq<A>, items: Seq<A>, k: int)
    requires
        0 <= k < items.len(),
    ensures
        run(active, pattern, items.take(k + 1)) == advance(
            run(active, pattern, items.take(k)),
            pattern,
            items[k],
        ),
{
    assert(items.take(k + 1).drop_last() =~= items.take(k));
}

/// `items` ends with `tail`.
pub open spec fn ends_with<A>(items: Seq<A>, tail: Seq<A>) -> bool {
    tail.len() <= items.len() && items.skip(items.len() - tail.len()) =~= tail
}

/// The items seen end with the first `j + 1` items of the pattern.
pub open spec fn partly_seen<A>(pattern: Seq<A>, seen: Seq<A>, j: int) -> bool {
    ends_with(seen, pattern.take(j + 1))
}

/// The states say, for each length, whether the items seen so far end with
/// the pattern's first items of that length.
pub open spec fn tracks<A>(active: Seq<bool>, pattern: Seq<A>, seen: Seq<A>) -> bool {
    &&& active.len() == pattern.len()
    &&& forall|j: int|
        0 <= j < pattern.len() ==> active[j] == #[trigger] partly_seen(pattern, seen, j)
}

/// States that track the items seen still do after one more item.
pub proof fn lemma_advance_tracks<A>(active: Seq<bool>, pattern: Seq<A>, seen: Seq<A>, x: A)
    requires
        tracks(active, pattern, seen),
    ensures
        tracks(advance(active, pattern, x), pattern, seen.push(x)),
{
    let next = advance(active, pattern, x);
    let more = seen.push(x);
    assert forall|j: int| 0 <= j < pattern.len() implies next[j] == #[trigger] partly_seen(
        pattern,
        more,
        j,
    ) by {
        let head = pattern.take(j + 1);
        if j == 0 {
            if pattern[0] == x {
                assert(more.skip(more.len() - 1) =~= head);
            } else {
                if ends_with(more, head) {
                    assert(more.skip(more.len() - 1)[0] == head[0]);
                }
            }
        } else {
            let shorter = pattern.take(j);
            assert(active[j - 1] == partly_seen(pattern, seen, j - 1));
            if next[j] {
                assert(more.skip(more.len() - (j + 1)) =~= seen.skip(seen.len() - j).push(x));
                assert(head =~= shorter.push(x));
            } else if ends_with(more, head) {
                let tail = more.skip(more.len() - (j + 1));
                assert(tail[j] == head[j]);
                assert(seen.skip(seen.len() - j) =~= tail.take(j));
                assert(shorter =~= head.take(j));
            }
        }
    }
}

/// States that track the items seen still do after any run of items.
pub proof fn lemma_run_tracks<A>(active: Seq<bool>, pattern: Seq<A>, seen: Seq<A>, items: Seq<A>)
    requires
        tracks(active, pattern, seen),
    ensures
        tracks(run(active, pattern, items), pattern, seen + items),
    decreases items.len(),
{
    if items.len() == 0 {
        assert(seen + items =~= seen);
    } else {
        lemma_run_tracks(active, pattern, seen, items.drop_last());
        lemma_advance_tracks(
            run(active, pattern, items.drop_last()),
            pattern,
            seen + items.drop_last(),
            items.last(),
        );
        assert((seen + items.drop_last()).push(items.last()) =~= seen + items);
    }
}

/// A search that starts with no partial match has seen the whole pattern
/// exactly when the items taken since then end with it.
pub proof fn lemma_complete_iff_pattern_seen<A>(pattern: Seq<A>, items: Seq<A>)
    requires
        pattern.len() > 0,
    ensures
        complete(run(no_match(pattern.len()), pattern, items)) == ends_with(items, pattern),
{
    let start = no_match(pattern.len());
    assert(tracks(start, pattern, Seq::<A>::empty()));
    lemma_run_tracks(start, pattern, Seq::<A>::empty(), items);
    assert(Seq::<A>::empty() + items =~= items);
    assert(pattern.take(pattern.len() as int) =~= pattern);
    assert(complete(run(start, pattern, items)) == partly_seen(pattern, items, pattern.len() - 1));
}

impl PatternSearch<u8> {
    fn step(active: &VecDeque<bool>, pattern: &Vec<u8>, x: u8) -> (next: VecDeque<bool>)
        requires
            active@.len() == pattern@.len(),
        ensures
            next@ == advance(active@, pattern@, x),
    {
        let n = pattern.len();
        let mut next: VecDeque<bool> = VecDeque::with_capacity(n);
        let mut j: usize = 0;
        while j < n
            invariant
                j <= n,
                n == pattern@.len(),
                active@.len() == n,
                next@.len() == j,
                forall|i: int| 0 <= i < j ==> next@[i] == advance(active@, pattern@, x)[i],
            decreases n - j,
        {
            let previous = if j == 0 {
                true
            } else {
                active[j - 1]
            };
            next.push_back(pattern[j] == x && previous);
            j += 1;
        }
        assert(next@ =~= advance(active@, pattern@, x));
        next
    }

    /// Handles one batch of items.
    ///
    /// While searching, items are taken up to and including the one that
    /// completes the pattern, and nothing is written. While dumping, items are
    /// copied to the output until the owed number is reached or a buffer runs
    /// out, and then the search starts afresh.
    pub fn work(&mut self, input: &[u8], output: &mut [u8], input_finished: bool) -> (report:
        WorkReport)
        requires
            old(self)@.wf(),
            old(self)@.phase is Searching && input@.len() > 0 ==> old(self)@.pattern.len() > 0,
        ensures
            final(self)@.wf(),
            final(self)@.values_after == old(self)@.values_after,
            final(self)@.pattern == old(self)@.pattern,
            report.finished == (input_finished && report.consumed == input@.len()),
            match old(self)@.phase {
                Phase::Dumping(owed) => {
                    let n = dump_count(owed, input@.len(), old(output)@.len());
                    &&& report.consumed == n
                    &&& report.produced == n
                    &&& final(output)@ == input@.take(n as int) + old(output)@.skip(n as int)
                    &&& final(self)@.phase == if n == owed {
                        Phase::Searching(no_match(old(self)@.pattern.len()))
                    } else {
                        Phase::Dumping((owed - n) as nat)
                    }
                },
                Phase::Searching(active) => {
                    let m = report.consumed as int;
                    &&& search_stops_at(active, old(self)@.pattern, input@, m)
                    &&& report.produced == 0
                    &&& final(output)@ == old(output)@
                    &&& final(self)@.phase == if found_at(active, old(self)@.pattern, input@, m) {
                        Phase::Dumping(old(self)@.values_after)
                    } else {
                        Phase::Searching(run(active, old(self)@.pattern, input@))
                    }
                },
            },
    {
        let mut m: usize = 0;
        let mut produced: usize = 0;
        let next_state = match &self.current_state {
            State::Dumping(nb) => {
                let nb = *nb;
                let mut counter: usize = 0;
                while counter < nb && counter < input.len() && counter < output.len()
                    invariant
                        counter <= nb,
                        counter <= input@.len(),
                        counter <= output@.len(),
                        output@.len() == old(output)@.len(),
                        output@ == input@.take(counter as int) + old(output)@.skip(counter as int),
                    decreases nb - counter,
                {
                    output[counter] = input[counter];
                    counter += 1;
                    assert(output@ =~= input@.take(counter as int) + old(output)@.skip(
                        counter as int,
                    ));
                }
                m = counter;
                produced = counter;
                if counter == nb {
                    State::Searching(Self::empty_active_states(self.pattern_values.len()))
                } else {
                    State::Dumping(nb - counter)
                }
            },
            State::Searching(potential_idx) => {
                let ghost start = potential_idx@;
                let ghost pattern = self.pattern_values@;
                let mut potential_idx: VecDeque<bool> = potential_idx.clone();
                let mut found = false;
                assert(input@.take(0) =~= Seq::<u8>::empty());
                while m < input.len() && !found
                    invariant
                        m <= input@.len(),
                        pattern == self.pattern_values@,
                        start.len() == pattern.len(),
                        input@.len() > 0 ==> pattern.len() > 0,
                        potential_idx@ == run(start, pattern, input@.take(m as int)),
                        potential_idx@.len() == pattern.len(),
                        found ==> m >= 1 && complete(potential_idx@),
                        forall|k: int|
                            1 <= k < m ==> !complete(#[trigger] run(start, pattern, input@.take(k))),
                        !found && m >= 1 ==> !complete(potential_idx@),
                    decreases input@.len() - m + if found { 0int } else { 1int },
                {
                    proof {
                        lemma_run_take_next(start, pattern, input@, m as int);
                    }
                    potential_idx = Self::step(&potential_idx, &self.pattern_values, input[m]);
                    m += 1;
                    let is_last_state_active = potential_idx[potential_idx.len() - 1];
                    if is_last_state_active {
                        found = true;
                    }
                }
                assert(input@.take(input@.len() as int) =~= input@);
                if found {
                    State::Dumping(self.values_after)
                } else {
                    State::Searching(potential_idx)
                }
            },
        };
        self.current_state = next_state;
        WorkReport { consumed: m, produced, finished: input_finished && m == input.len() }
    }
}

} // verus!
