//! The geometry of what is drawn.
use vstd::prelude::*;

verus! {

/// A position in the drawing space of a target, in pixels. The origin is the
/// top left corner and `y` points down.
#[derive(Debug, Clone, Copy, PartialEq, Eq, Structural)]
pub struct Point {
    pub x: i32,
    pub y: i32,
}

/// A region of a resource, counted in units from its first texel.
#[derive(Debug, Clone, Copy, PartialEq, Eq, Structural)]
pub struct Rectangle {
    pub x: u16,
    pub y: u16,
    pub width: u16,
    pub height: u16,
}

/// An extent in drawing space, in pixels.
#[derive(Debug, Clone, Copy, PartialEq, Eq, Structural)]
pub struct Size {
    pub width: u32,
    pub height: u32,
}

/// The length that one unit of a [`Rectangle`] stands for, as a share of the
/// whole extent of a resource along one axis: one unit is `1 / parts` of it.
///
/// With as many parts as the resource has texels along the axis, a unit is a
/// texel. A unit of zero parts measures nothing: a quad with such a unit is
/// never drawn.
#[derive(Debug, Clone, Copy, PartialEq, Eq, Structural)]
pub struct Unit {
    pub parts: u16,
}

impl Unit {
    /// The unit that divides the extent of a resource in `parts`.
    pub fn one_in(parts: u16) -> (unit: Unit)
        ensures
            unit == (Unit { parts }),
    {
        Unit { parts }
    }
}

/// A textured rectangle: the region of a resource that `source` measures in
/// `x_unit` and `y_unit`, stretched over `size` pixels of drawing space with
/// its top left corner at `position`.
#[derive(Debug, Clone, Copy, PartialEq, Eq, Structural)]
pub struct Quad {
    pub source: Rectangle,
    pub x_unit: Unit,
    pub y_unit: Unit,
    pub position: Point,
    pub size: Size,
}

/// Geometry that can be turned into a [`Quad`], given the units in which a
/// resource is measured.
pub trait IntoQuad: Sized {
    /// The quad that this geometry stands for.
    spec fn quad(self, x_unit: Unit, y_unit: Unit) -> Quad;

    fn into_quad(self, x_unit: Unit, y_unit: Unit) -> (quad: Quad)
        ensures
            quad == self.quad(x_unit, y_unit),
    ;
}

/// A quad carries its own units and keeps them.
impl IntoQuad for Quad {
    open spec fn quad(self, x_unit: Unit, y_unit: Unit) -> Quad {
        self
    }

    fn into_quad(self, x_unit: Unit, y_unit: Unit) -> (quad: Quad) {
        self
    }
}

/// A region of a resource shown at `position`, each unit of it `scale_x`
/// pixels wide and `scale_y` pixels high.
#[derive(Debug, Clone, Copy, PartialEq, Eq, Structural)]
pub struct Sprite {
    pub source: Rectangle,
    pub position: Point,
    pub scale_x: u16,
    pub scale_y: u16,
}

impl IntoQuad for Sprite {
    open spec fn quad(self, x_unit: Unit, y_unit: Unit) -> Quad {
        Quad {
            source: self.source,
            x_unit,
            y_unit,
            position: self.position,
            size: Size {
                width: (self.source.width * self.scale_x) as u32,
                height: (self.source.height * self.scale_y) as u32,
            },
        }
    }

    fn into_quad(self, x_unit: Unit, y_unit: Unit) -> (quad: Quad) {
        assert(self.source.width * self.scale_x <= 0xffff * 0xffff) by (nonlinear_arith)
            requires
                self.source.width <= 0xffff,
                self.scale_x <= 0xffff,
        ;
        assert(self.source.height * self.scale_y <= 0xffff * 0xffff) by (nonlinear_arith)
            requires
                self.source.height <= 0xffff,
                self.scale_y <= 0xffff,
        ;
        Quad {
            source: self.source,
            x_unit,
            y_unit,
            position: self.position,
            size: Size {
                width: self.source.width as u32 * self.scale_x as u32,
                height: self.source.height as u32 * self.scale_y as u32,
            },
        }
    }
}

} // verus!
