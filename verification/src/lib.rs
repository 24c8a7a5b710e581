//! Building blocks for software-defined-radio flowgraphs: bit packing, pattern
//! search, recursive filters, stream headers and symbol timing recovery.
//!
//! Everything here is sequential state and arithmetic on plain values. The
//! stream runtime that moves items between blocks is not part of this crate.

pub mod byte;
pub mod math;
pub mod modulators;
pub mod packet;
pub mod recursive_block;
pub mod stream;
pub mod synchronizers;
pub mod work;
