//! Colors, surfaces and drawing.
pub mod canvas;
pub mod color;
pub mod gpu;
pub mod quad;
pub mod target;
pub mod transformation;

pub use canvas::Canvas;
pub use color::Color;
pub use gpu::Gpu;
pub use quad::{IntoQuad, Point, Quad, Rectangle, Size, Sprite, Unit};
pub use target::Target;
pub use transformation::{Projection, Transformation};
