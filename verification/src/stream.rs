//! Helpers for handing a stream of samples to consumers outside the flowgraph.

pub mod riff_wav;
