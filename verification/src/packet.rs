//! Blocks that look for framing inside a stream of items.

pub mod pattern_search;
