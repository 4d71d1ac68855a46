//! Mapped-window abstraction of a tiling compositor shell.
//!
//! A mapped window is either a single application window or a tabbed stack of
//! windows behind one uniform handle. The handle keeps protocol-visible window
//! state (activated / maximized / fullscreen / tiled / resizing), per-seat
//! pointer tracking, decoration-aware geometry, size-constraint aggregation
//! and renderer-agnostic draw-primitive composition consistent across the two
//! shapes.

pub mod cursor;
pub mod geometry;
pub mod laws;
pub mod mapped;
pub mod render;
pub mod stack;
pub mod toplevel;
pub mod window;
