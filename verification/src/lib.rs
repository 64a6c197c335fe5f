//! A terminal "digital rain" simulation core.
//!
//! Vertical columns of glyphs recolour and retype themselves once per tick,
//! producing a bright leading edge that fades towards black as it travels.
//! The modules here hold the verified state machine: the fixed glyph
//! alphabet, the colour model and its fade rule, the per-cell glyph, the
//! per-column tick algorithm, and the canvas geometry.  Terminal rendering
//! is left to an unverified host that calls `tick` and reads the state.

pub mod alphabet;
pub mod canvas;
pub mod color;
pub mod column;
pub mod glyph;
mod rng;
