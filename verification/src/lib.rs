//! A small vertical-bounce animation library.
//!
//! The scene is a fixed-order collection of independent rectangles that
//! slide up and down inside a window, reversing direction when they touch
//! the top or bottom edge. Each rectangle starts moving only after its own
//! activation delay has elapsed, which staggers the motion into a wave.
//!
//! The library holds the animation state and its update rules; drawing the
//! rectangles and polling real input devices are left to the caller.

pub mod entity;
pub mod scene;
