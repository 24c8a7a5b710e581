//! Numbers as the blocks see them, and blocks that do arithmetic on them.

pub mod arithmetic;
pub mod complex;
pub mod root_mean_square;
pub mod single;
