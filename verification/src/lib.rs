//! Background grid geometry for a node-graph canvas, in fixed-point arithmetic.
//!
//! A [`Viewport`] maps between screen space and graph space under pan and zoom.
//! A [`BackgroundPattern`] lists, for a viewport, the lattice lines that can be
//! seen through it, as screen-space segments ready to be stroked.
//!
//! Every coordinate is an `i64` that counts steps of `1 / UNIT`. Results are
//! rounded towards minus infinity and saturate at the ends of the 64-bit
//! range, so every operation is total on well-formed values.

pub mod fixed;
pub mod geometry;
pub mod lattice;
pub mod pattern;
pub mod viewport;

pub use crate::fixed::UNIT;
pub use crate::geometry::{Angle, Pos2, Rect, Vec2};
pub use crate::pattern::{BackgroundPattern, Grid, LineSegment};
pub use crate::viewport::Viewport;
