//! The size of the terminal that a process's standard streams are attached to.
//!
//! The value types [`Width`], [`Height`] and [`PixelSize`] tag raw 16-bit
//! counts with their meaning; [`order`] compares them and [`decimal`] shows
//! them as text. The [`unix`] module probes the standard streams of a
//! POSIX-like system, the [`windows`] module turns what a console reported
//! into a size, and [`unsupported`] is the answer on every other platform.

pub mod decimal;
pub mod order;
pub mod size;
pub mod unix;
pub mod unsupported;
pub mod windows;

pub use size::{FullSize, Height, PixelSize, Size, Width};
