//! The graphics context.
pub mod image;
pub mod instance;
pub mod raster;
pub mod state;
mod surface;
pub mod texture;

pub use image::Image;
pub use instance::Instance;
pub use state::{footprint, GpuState};
pub use texture::{Drawable, Handle, TargetView, Texture};

use crate::error::{AllocationFailure, Error};
use crate::graphics::color::Color;
use crate::graphics::transformation::Projection;
use raster::paint_all;
use surface::Surface;
use vstd::prelude::*;

verus! {

/// What a graphics context can hold.
#[derive(Debug, Clone, Copy, PartialEq, Eq, Structural)]
pub struct Limits {
    /// The longest side of a surface, in texels.
    pub max_dimension: u16,
    /// The texels that all surfaces may take together.
    pub max_texels: usize,
}

/// A software graphics context: it owns the memory of every surface, and all
/// allocation and drawing goes through it. It keeps every surface for as long
/// as it lives.
pub struct Gpu {
    limits: Limits,
    surfaces: Vec<Surface>,
    texels_in_use: usize,
    draw_calls: u64,
}

impl View for Gpu {
    type V = GpuState;

    closed spec fn view(&self) -> GpuState {
        GpuState {
            limits: self.limits,
            images: self.surfaces@.map_values(|surface: Surface| surface@),
            draw_calls: self.draw_calls,
        }
    }
}

impl Gpu {
    /// The context keeps count of the texels that its surfaces take.
    pub closed spec fn accounted(&self) -> bool {
        self.texels_in_use == footprint(self@.images)
    }

    /// The context is in a state that its operations leave it in.
    pub open spec fn wf(&self) -> bool {
        &&& self@.wf()
        &&& self.accounted()
    }

    /// A context with `limits` and no surface.
    pub fn new(limits: Limits) -> (gpu: Gpu)
        ensures
            gpu.wf(),
            gpu@ == (GpuState { limits, images: Seq::empty(), draw_calls: 0 }),
    {
        let gpu = Gpu { limits, surfaces: Vec::new(), texels_in_use: 0, draw_calls: 0 };
        assert(gpu@.images =~= Seq::empty());
        gpu
    }

    /// The limits that this context was made with.
    pub fn limits(&self) -> (limits: Limits)
        ensures
            limits == self@.limits,
    {
        self.limits
    }

    /// The number of surfaces that this context has allocated.
    pub fn surface_count(&self) -> (count: usize)
        ensures
            count == self@.images.len(),
    {
        self.surfaces.len()
    }

    /// The texels that the surfaces of this context take together.
    pub fn texels_in_use(&self) -> (texels: usize)
        requires
            self.wf(),
        ensures
            texels == footprint(self@.images),
    {
        self.texels_in_use
    }

    /// The number of draw calls that this context has carried out. The count
    /// stops at the largest number it can hold.
    pub fn draw_calls(&self) -> (count: u64)
        ensures
            count == self@.draw_calls,
    {
        self.draw_calls
    }

    /// Allocates a surface of `width` by `height` texels that can be sampled
    /// and drawn on. Nothing is drawn on it yet: every texel is transparent.
    ///
    /// Fails if a side is zero or longer than the limits allow, or if the
    /// surface does not fit in the memory that is left. The context is then
    /// as it was.
    pub fn create_drawable_texture(&mut self, width: u16, height: u16) -> (created: Result<
        Drawable,
        Error,
    >)
        requires
            old(self).wf(),
        ensures
            final(self).wf(),
            match old(self)@.allocation_failure(width, height) {
                Some(failure) => {
                    &&& created == Err::<Drawable, Error>(Error::AllocationError(failure))
                    &&& final(self)@ == old(self)@
                },
                None => {
                    &&& created matches Ok(drawable)
                    &&& drawable@ == old(self)@.next_handle(width, height)
                    &&& final(self)@ == old(self)@.allocate(width, height)
                },
            },
    {
        if width == 0 || height == 0 || width > self.limits.max_dimension || height
            > self.limits.max_dimension {
            return Err(Error::AllocationError(AllocationFailure::UnsupportedSize));
        }
        assert(width * height <= 0xffff * 0xffff) by (nonlinear_arith)
            requires
                width <= 0xffff,
                height <= 0xffff,
        ;
        let texels: usize = width as usize * height as usize;
        if texels > self.limits.max_texels - self.texels_in_use {
            return Err(Error::AllocationError(AllocationFailure::OutOfMemory));
        }
        let id: usize = self.surfaces.len();
        let surface = Surface::filled(width, height, Color::transparent());
        proof {
            self@.lemma_allocate_wf(width, height);
            assert(self.surfaces@.push(surface).map_values(|surface: Surface| surface@)
                =~= self@.images.push(surface@));
        }
        self.surfaces.push(surface);
        self.texels_in_use = self.texels_in_use + texels;
        Ok(Drawable::new(id, width, height))
    }

    /// Whether the `id`-th surface of this context is `width` by `height`
    /// texels.
    fn holds(&self, id: usize, width: u16, height: u16) -> (held: bool)
        ensures
            held == self@.holds(Handle { id: id as nat, width, height }),
    {
        id < self.surfaces.len() && self.surfaces[id].width == width && self.surfaces[id].height
            == height
    }

    /// Sets every texel of `target` to `color`.
    pub fn clear(&mut self, target: &TargetView, color: Color)
        requires
            old(self).wf(),
        ensures
            final(self).wf(),
            final(self)@ == old(self)@.clear(target@, color),
    {
        if self.holds(target.id(), target.width(), target.height()) {
            let target_id: usize = target.id();
            let surface = Surface::filled(target.width(), target.height(), color);
            proof {
                self@.lemma_clear_wf(target@, color);
                assert(self.surfaces@.update(target_id as int, surface).map_values(
                    |surface: Surface| surface@,
                ) =~= self@.images.update(target_id as int, surface@));
            }
            self.surfaces.set(target_id, surface);
        }
    }

    /// Draws `instances`, textured with `texture`, on `target` in one draw
    /// call, each instance over those before it.
    ///
    /// A surface is never sampled while it is drawn on: a draw call whose
    /// texture and target are the same surface is dropped, and so is one
    /// with a handle that names no surface of this context.
    pub fn submit_instanced_quads(
        &mut self,
        texture: &Texture,
        target: &TargetView,
        instances: &[Instance],
        projection: &Projection,
    )
        requires
            old(self).wf(),
        ensures
            final(self).wf(),
            final(self)@ == old(self)@.submit(texture@, target@, instances@, *projection),
    {
        if !self.holds(texture.id(), texture.width(), texture.height()) || !self.holds(
            target.id(),
            target.width(),
            target.height(),
        ) || texture.id() == target.id() {
            return ;
        }
        let texture_id: usize = texture.id();
        let target_id: usize = target.id();
        let ghost before = self@;
        let ghost held = self.surfaces@;
        let mut surface = Surface::empty();
        self.surfaces.set_and_swap(target_id, &mut surface);
        let mut drawn: usize = 0;
        while drawn < instances.len()
            invariant
                drawn <= instances.len(),
                before.holds(texture@),
                before.image(target@).wf(),
                texture_id < self.surfaces.len(),
                self.surfaces[texture_id as int]@ == before.image(texture@),
                self.surfaces[texture_id as int].wf(),
                surface.wf(),
                surface@ == paint_all(
                    before.image(target@),
                    before.image(texture@),
                    instances@.take(drawn as int),
                    *projection,
                ),
            decreases instances.len() - drawn,
        {
            surface.paint(&self.surfaces[texture_id], &instances[drawn], projection);
            proof {
                assert(instances@.take(drawn + 1).drop_last() =~= instances@.take(drawn as int));
            }
            drawn = drawn + 1;
        }
        proof {
            assert(instances@.take(drawn as int) =~= instances@);
            before.lemma_submit_wf(texture@, target@, instances@, *projection);
        }
        let ghost painted = surface;
        self.surfaces.set(target_id, surface);
        if self.draw_calls < u64::MAX {
            self.draw_calls = self.draw_calls + 1;
        }
        proof {
            assert(self.surfaces@ =~= held.update(target_id as int, painted));
            assert(self@.images =~= before.images.update(target_id as int, painted@));
        }
    }

    /// Reads the texel in `column` of `row` of `texture`: `None` if the
    /// texture has no such place, or is no surface of this context.
    pub fn texel(&self, texture: &Texture, column: u16, row: u16) -> (color: Option<Color>)
        requires
            self.wf(),
        ensures
            color == self@.texel(texture@, column as int, row as int),
    {
        if self.holds(texture.id(), texture.width(), texture.height()) && column < texture.width()
            && row < texture.height() {
            Some(self.surfaces[texture.id()].texel(column, row))
        } else {
            None
        }
    }
}

} // verus!
