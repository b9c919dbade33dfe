//! Converts byte counts into short human-readable sizes, in decimal units
//! (kB, MB, ...) or binary units (KiB, MiB, ...), or in a unit of the caller's choice.
//!
//! All arithmetic is exact integer arithmetic: a size is shown with one
//! fractional digit, which is truncated (rounded toward zero).

pub mod size;
pub mod text;
pub mod units;

pub use size::{ConversionError, Size};
pub use units::Units;
