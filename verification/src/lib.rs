//! The rendering core of a 2D engine, on a software graphics context.
//!
//! A [`graphics::Canvas`] is an off-screen surface with two roles: it can be
//! drawn into, through a [`graphics::Target`], and it can be drawn from, as a
//! textured quad composited onto another target. Every operation on the
//! graphics context is specified over a mathematical model of its memory, so
//! that what a target shows after a sequence of draw calls can be stated and
//! proved.
pub mod error;
pub mod graphics;
pub mod load;
pub mod text;

pub use error::{AllocationFailure, Error};
