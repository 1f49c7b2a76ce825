//! Escape-time rendering of the Mandelbrot set.
//!
//! Real numbers are carried as the bit patterns of IEEE-754 binary64 values
//! (`u64`), so that the iteration and rasterization logic is fully verified;
//! the floating-point operations themselves are performed by the software
//! implementation in `rustc_apfloat` behind trusted wrappers.

pub mod ieee64;
pub mod escape;
pub mod frame;

pub use ieee64::{POS_ZERO, TWO, FOUR};
pub use escape::{evaluate, evaluate_spec};
pub use frame::{render, render_spec, RenderError};
