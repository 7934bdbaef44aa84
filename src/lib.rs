//! The state logic of a small textured-quad demo: keyboard-driven offsets
//! integrated once per fixed tick, the loop's Running/Exiting decisions, a
//! sawtooth animation value, the quad's geometry and the preparation of its
//! texture. Every quantity is a fixed-point integer with `UNIT` steps per
//! whole unit of clip space; the windowing side converts at its edge.

pub mod driver;
pub mod motion;
pub mod sawtooth;
pub mod texture;
pub mod geometry;
