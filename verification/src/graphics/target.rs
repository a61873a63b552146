//! Where drawing goes.
use crate::graphics::color::Color;
use crate::graphics::gpu::{Gpu, Instance, TargetView, Texture};
use crate::graphics::transformation::{Projection, Transformation};
use vstd::prelude::*;

verus! {

/// A surface to draw on, for one pass of drawing.
///
/// A target holds the graphics context for as long as it lives: nothing else
/// can use the context meanwhile. Every operation of a target changes the
/// surface that `view` names, and no other. What the context holds when the
/// target is gone is what the last operation left.
pub struct Target<'a> {
    pub gpu: &'a mut Gpu,
    pub view: TargetView,
    pub projection: Projection,
}

impl<'a> Target<'a> {
    /// A target that draws on `view` through the orthographic projection of
    /// a drawing space of `width` by `height` pixels, followed by
    /// `transformation`.
    pub fn with_transformation(
        gpu: &'a mut Gpu,
        view: TargetView,
        width: u16,
        height: u16,
        transformation: Transformation,
    ) -> (target: Target<'a>)
        ensures
            *target.gpu == *old(gpu),
            *final(target.gpu) == *final(gpu),
            target.view == view,
            target.projection == Projection::orthographic(width, height).followed_by(
                transformation,
            ),
    {
        Target {
            gpu,
            view,
            projection: Projection::orthographic(width, height).followed_by(transformation),
        }
    }

    /// Sets every texel of the target to `color`.
    pub fn clear(&mut self, color: Color)
        requires
            old(self).gpu.wf(),
        ensures
            final(self).gpu.wf(),
            final(self).gpu@ == old(self).gpu@.clear(old(self).view@, color),
            final(self).view == old(self).view,
            final(self).projection == old(self).projection,
            *final(final(self).gpu) == *final(old(self).gpu),
    {
        self.gpu.clear(&self.view, color);
    }

    /// Draws `instances`, textured with `texture`, in one draw call. The
    /// instances are drawn in their order: each is composited over what those
    /// before it left.
    pub fn draw_texture_quads(&mut self, texture: &Texture, instances: &[Instance])
        requires
            old(self).gpu.wf(),
        ensures
            final(self).gpu.wf(),
            final(self).gpu@ == old(self).gpu@.submit(
                texture@,
                old(self).view@,
                instances@,
                old(self).projection,
            ),
            final(self).view == old(self).view,
            final(self).projection == old(self).projection,
            *final(final(self).gpu) == *final(old(self).gpu),
    {
        self.gpu.submit_instanced_quads(texture, &self.view, instances, &self.projection);
    }
}

} // verus!
