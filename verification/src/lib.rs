//! Rolling averages of a price stream, maintained one observation at a time.
//!
//! Prices are fixed-point: an observation is a signed count of ticks, where the
//! caller chooses what one tick is worth (a cent, a pip, a millionth). All
//! arithmetic is exact integer arithmetic, and every average is rounded toward
//! negative infinity to a whole number of ticks.
//!
//! Two strategies share the [`MA`] capability:
//!
//! * [`Sim`], the simple moving average: the mean of the most recent `period`
//!   observations, kept in a window that the instance owns.
//! * [`Exp`], the exponential moving average: a blend of the newest observation
//!   and the previous average, weighted by `2 / (period + 1)`.

pub mod arith;
pub mod average;
pub mod error;
pub mod exponential;
pub mod laws;
pub mod simple;

pub use arith::{mean, sum};
pub use average::MA;
pub use error::{bootstrap_verdict, check_bootstrap, MaError};
pub use exponential::{blend, blend_of, multiplier_for, Exp, Ratio};
pub use simple::{slide, Sim};
