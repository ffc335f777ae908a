//! A binary clock: the time of day shown as six columns of four circles,
//! one column for each decimal digit of the hour, the minute and the second,
//! each column spelling its digit in binary with the heaviest bit on top.
//!
//! * [`digits`] splits a clock field into its decimal digits and tells which
//!   binary places of a digit are set.
//! * [`time`] holds a sampled time of day and reads the clock.
//! * [`widget`] lays the circles of a frame out inside the canvas bounds.
//! * [`model`] is the state of the applet and its transitions.

pub mod digits;
pub mod model;
pub mod time;
pub mod widget;
