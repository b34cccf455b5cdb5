//! A fixed-point core for a small pool table: where the balls are racked, what
//! the table is made of, and how the cue tip is braked once it has struck the
//! cue ball.
//!
//! Every length is an integer number of table units. Coordinates are kept in
//! an exact form that has room for halves and for multiples of the square root
//! of three, so the triangular rack is described without rounding.

pub mod exact;
pub mod rack;
pub mod scene;
pub mod cue;
