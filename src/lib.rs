//! Decision core of a "floating point" bit crusher.
//!
//! A sample is quantized onto a coarse grid of representable values: a binary
//! search over the grid's indices isolates either the exact grid point or the
//! two adjacent points around the sample, and a rounding policy picks between
//! them. The numeric work (evaluating grid values, comparing them with the
//! sample) is done by the caller; this crate owns every decision in between
//! and proves it correct.

pub mod policy;
pub mod quantize;
pub mod search;

pub use policy::Quantizator;
pub use quantize::{search_mantissa, Point};
pub use search::{CullResult, OutOfRangeError, Placement, Probe, SearchRange};
