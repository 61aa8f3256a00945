//! A rippling pond: a discrete wave simulation on a terminal-sized grid.
//!
//! The library holds the grid, its stencils and the application's decisions;
//! the wave arithmetic itself is supplied by the caller as a step function.
pub mod stencil;
pub mod pond;
pub mod app;
