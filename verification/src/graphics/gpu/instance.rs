//! What a draw call is told about each quad.
use crate::graphics::quad::{Point, Quad, Rectangle, Size, Unit};
use vstd::prelude::*;
use vstd::std_specs::convert::FromSpecImpl;

verus! {

/// One quad of a draw call: the region of the texture that `source` measures
/// in `x_unit` and `y_unit`, stretched over `scale` pixels of drawing space
/// from `translation`.
#[derive(Debug, Clone, Copy, PartialEq, Eq, Structural)]
pub struct Instance {
    pub source: Rectangle,
    pub x_unit: Unit,
    pub y_unit: Unit,
    pub translation: Point,
    pub scale: Size,
}

impl From<Quad> for Instance {
    fn from(quad: Quad) -> (instance: Instance) {
        Instance {
            source: quad.source,
            x_unit: quad.x_unit,
            y_unit: quad.y_unit,
            translation: quad.position,
            scale: quad.size,
        }
    }
}

impl FromSpecImpl<Quad> for Instance {
    open spec fn obeys_from_spec() -> bool {
        true
    }

    open spec fn from_spec(quad: Quad) -> Instance {
        Instance {
            source: quad.source,
            x_unit: quad.x_unit,
            y_unit: quad.y_unit,
            translation: quad.position,
            scale: quad.size,
        }
    }
}

} // verus!
