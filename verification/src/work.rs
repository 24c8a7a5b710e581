//! What a block reports to the runtime after handling one batch of items.

use vstd::prelude::*;

verus! {

/// What one call of a block's `work` did with its buffers.
#[derive(Clone, Copy, Debug)]
pub struct WorkReport {
    /// Items taken from the front of the input.
    pub consumed: usize,
    /// Items written to the front of the output.
    pub produced: usize,
    /// True when the input had ended and all of it was taken.
    pub finished: bool,
}

} // verus!
