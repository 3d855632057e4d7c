//! Numerical core of a deep-zoom Mandelbrot renderer: the integer-valued
//! decisions that drive the reference orbit, the series approximation, the
//! incremental per-pixel iteration, the dispatch scheduler, colouring and
//! super-sampling, together with the configuration they are checked against.

pub mod config;
pub mod layout;
pub mod number;
pub mod orbit;
pub mod palette;
pub mod pixel;
pub mod precision;
pub mod scheduler;
pub mod xef;
