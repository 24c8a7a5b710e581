//! Symbol timing recovery: a timing error detector and the loop that it drives.

pub mod clock_tracking_loop;
pub mod ted_mueller_and_muller;
pub mod timing_error_detector;
