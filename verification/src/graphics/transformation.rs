//! How drawing space is laid onto the memory of a target.
use vstd::prelude::*;

verus! {

/// A reflection of normalized device space: every coordinate keeps its
/// magnitude, and changes its sign along each mirrored axis.
#[derive(Debug, Clone, Copy, PartialEq, Eq, Structural)]
pub struct Transformation {
    pub mirrors_x: bool,
    pub mirrors_y: bool,
}

impl Transformation {
    /// The transformation that leaves every point where it is.
    pub fn identity() -> (transformation: Transformation)
        ensures
            transformation == Transformation::spec_identity(),
    {
        Transformation { mirrors_x: false, mirrors_y: false }
    }

    pub open spec fn spec_identity() -> Transformation {
        Transformation { mirrors_x: false, mirrors_y: false }
    }

    /// The reflection that exchanges up and down.
    pub fn vertical_flip() -> (transformation: Transformation)
        ensures
            transformation == Transformation::spec_vertical_flip(),
    {
        Transformation { mirrors_x: false, mirrors_y: true }
    }

    pub open spec fn spec_vertical_flip() -> Transformation {
        Transformation { mirrors_x: false, mirrors_y: true }
    }

    /// This transformation followed by `next`.
    pub open spec fn spec_followed_by(self, next: Transformation) -> Transformation {
        Transformation {
            mirrors_x: self.mirrors_x != next.mirrors_x,
            mirrors_y: self.mirrors_y != next.mirrors_y,
        }
    }

    /// Composes two transformations: the result applies this one first and
    /// `next` to what it gives.
    #[verifier::when_used_as_spec(spec_followed_by)]
    pub fn followed_by(self, next: Transformation) -> (composed: Transformation)
        ensures
            composed == self.spec_followed_by(next),
    {
        Transformation {
            mirrors_x: self.mirrors_x != next.mirrors_x,
            mirrors_y: self.mirrors_y != next.mirrors_y,
        }
    }
}

/// The way from the drawing space of a target to its memory.
///
/// Drawing space is `width` by `height` pixels, with the origin at the top
/// left corner and `y` pointing down. The orthographic projection takes it to
/// normalized device space, which has its origin in the centre and `y`
/// pointing up, and `transformation` is applied there. The memory of a target
/// holds its rows in the order in which a texture is sampled, the first row
/// first, and normalized device space is laid onto it with its lower edge on
/// the first row. So what is drawn at the top of drawing space lands on the
/// last row of memory, unless the transformation exchanges up and down.
#[derive(Debug, Clone, Copy, PartialEq, Eq, Structural)]
pub struct Projection {
    pub width: u16,
    pub height: u16,
    pub transformation: Transformation,
}

impl Projection {
    pub open spec fn spec_orthographic(width: u16, height: u16) -> Projection {
        Projection { width, height, transformation: Transformation::spec_identity() }
    }

    /// The orthographic projection of a drawing space of `width` by `height`
    /// pixels.
    #[verifier::when_used_as_spec(spec_orthographic)]
    pub fn orthographic(width: u16, height: u16) -> (projection: Projection)
        ensures
            projection == Projection::spec_orthographic(width, height),
    {
        Projection { width, height, transformation: Transformation::identity() }
    }

    pub open spec fn spec_followed_by(self, next: Transformation) -> Projection {
        Projection {
            width: self.width,
            height: self.height,
            transformation: self.transformation.followed_by(next),
        }
    }

    /// This projection followed by `next`.
    #[verifier::when_used_as_spec(spec_followed_by)]
    pub fn followed_by(self, next: Transformation) -> (composed: Projection)
        ensures
            composed == self.spec_followed_by(next),
    {
        Projection {
            width: self.width,
            height: self.height,
            transformation: self.transformation.followed_by(next),
        }
    }

    pub open spec fn spec_mirrors_columns(self) -> bool {
        self.transformation.mirrors_x
    }

    /// Whether the columns of memory run against the `x` axis of drawing
    /// space.
    #[verifier::when_used_as_spec(spec_mirrors_columns)]
    pub fn mirrors_columns(self) -> (mirrors: bool)
        ensures
            mirrors == self.spec_mirrors_columns(),
    {
        self.transformation.mirrors_x
    }

    pub open spec fn spec_mirrors_rows(self) -> bool {
        !self.transformation.mirrors_y
    }

    /// Whether the rows of memory run against the `y` axis of drawing space.
    #[verifier::when_used_as_spec(spec_mirrors_rows)]
    pub fn mirrors_rows(self) -> (mirrors: bool)
        ensures
            mirrors == self.spec_mirrors_rows(),
    {
        !self.transformation.mirrors_y
    }
}

} // verus!
