//! What the blocks need to know about a modulation.

pub mod constellation;
