//! Composable building blocks for a frame-stepped 2D scene: drawable objects
//! with visibility and depth, position-animated ("movable") objects driven by
//! tick-parameterized position functions, per-tick effect chains, off-screen
//! render-target stacking, edge-triggered input listeners, a bounded debug
//! text overlay, and tile-batch source-rectangle arithmetic.
//!
//! All state is held in plain values and every operation is specified and
//! verified; the embedding application owns the host windowing, rendering,
//! input-polling and audio calls, and feeds their results in as values.

pub mod clock;
pub mod debug;
pub mod device;
pub mod graphics;
pub mod numeric;
