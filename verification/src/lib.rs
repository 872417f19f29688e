//! Core logic of a scrolling power-spectrum ("waterfall") display.
//!
//! The history of spectrum rows is kept in a small fixed set of fixed-size
//! tiles; index arithmetic (modular wraparound, ping-pong row injection,
//! tile selection) maintains an effectively unbounded scrollback without
//! ever reallocating or copying. This crate verifies that arithmetic, the
//! scroll/view-head bookkeeping, the control of the block-averaging
//! acquisition loop, and the pure device-tuning computations. The GPU
//! passes and the device I/O themselves live outside the library and are
//! driven by the plans these functions return.

pub mod plot;
pub mod source;
pub mod tuning;
