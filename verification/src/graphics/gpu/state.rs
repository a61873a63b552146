//! What a graphics context holds, and what its operations make of it.
use crate::error::AllocationFailure;
use crate::graphics::color::Color;
use crate::graphics::gpu::image::{lemma_area, Image};
use crate::graphics::gpu::instance::Instance;
use crate::graphics::gpu::raster::{
    lemma_paint_all_keeps_extent, lemma_paint_one_at, lemma_source_texel_in_texture, oriented,
    paint_all, source_texel, Axis,
};
use crate::graphics::gpu::texture::Handle;
use crate::graphics::gpu::Limits;
use crate::graphics::transformation::{Projection, Transformation};
use vstd::prelude::*;

verus! {

/// The texels that `images` take together.
pub open spec fn footprint(images: Seq<Image>) -> nat
    decreases images.len(),
{
    if images.len() == 0 {
        0
    } else {
        footprint(images.drop_last()) + images.last().texels.len()
    }
}

/// A graphics context, as far as drawing can tell: its limits, the contents
/// of the surfaces it has allocated, in the order of their allocation, and
/// the number of draw calls it has carried out.
pub struct GpuState {
    pub limits: Limits,
    pub images: Seq<Image>,
    pub draw_calls: u64,
}

impl GpuState {
    /// Every surface has a texel for each of its places and sides within the
    /// limits, and the surfaces fit in memory together.
    pub open spec fn wf(self) -> bool {
        &&& forall|id: int|
            0 <= id < self.images.len() ==> {
                &&& (#[trigger] self.images[id]).wf()
                &&& 0 < self.images[id].width <= self.limits.max_dimension
                &&& 0 < self.images[id].height <= self.limits.max_dimension
            }
        &&& footprint(self.images) <= self.limits.max_texels
    }

    /// Whether `handle` names a surface of this context.
    pub open spec fn holds(self, handle: Handle) -> bool {
        &&& handle.id < self.images.len()
        &&& self.images[handle.id as int].width == handle.width
        &&& self.images[handle.id as int].height == handle.height
    }

    /// The contents of the surface that `handle` names.
    pub open spec fn image(self, handle: Handle) -> Image {
        self.images[handle.id as int]
    }

    /// Why this context cannot allocate a surface of `width` by `height`
    /// texels, if it cannot.
    pub open spec fn allocation_failure(self, width: u16, height: u16) -> Option<
        AllocationFailure,
    > {
        if width == 0 || height == 0 || width > self.limits.max_dimension || height
            > self.limits.max_dimension {
            Some(AllocationFailure::UnsupportedSize)
        } else if footprint(self.images) + width * height > self.limits.max_texels {
            Some(AllocationFailure::OutOfMemory)
        } else {
            None
        }
    }

    /// The handle that the next surface gets, if it is `width` by `height`
    /// texels.
    pub open spec fn next_handle(self, width: u16, height: u16) -> Handle {
        Handle { id: self.images.len(), width, height }
    }

    /// This context with one more surface, on which nothing is drawn yet.
    pub open spec fn allocate(self, width: u16, height: u16) -> GpuState {
        GpuState {
            images: self.images.push(Image::filled(width, height, Color::spec_transparent())),
            ..self
        }
    }

    /// This context once `target` is cleared to `color`. A handle that names
    /// none of its surfaces clears nothing.
    pub open spec fn clear(self, target: Handle, color: Color) -> GpuState {
        if self.holds(target) {
            GpuState {
                images: self.images.update(
                    target.id as int,
                    Image::filled(target.width, target.height, color),
                ),
                ..self
            }
        } else {
            self
        }
    }

    /// Whether this context carries out a draw call that samples `texture`
    /// and draws on `target`: both are surfaces of it, and not the same one.
    pub open spec fn accepts(self, texture: Handle, target: Handle) -> bool {
        &&& self.holds(texture)
        &&& self.holds(target)
        &&& texture.id != target.id
    }

    /// This context once `instances`, textured with `texture`, are drawn on
    /// `target` in one draw call. A draw call that the context does not
    /// accept is dropped, and changes nothing.
    pub open spec fn submit(
        self,
        texture: Handle,
        target: Handle,
        instances: Seq<Instance>,
        projection: Projection,
    ) -> GpuState {
        if self.accepts(texture, target) {
            GpuState {
                images: self.images.update(
                    target.id as int,
                    paint_all(self.image(target), self.image(texture), instances, projection),
                ),
                draw_calls: if self.draw_calls < u64::MAX {
                    (self.draw_calls + 1) as u64
                } else {
                    self.draw_calls
                },
                ..self
            }
        } else {
            self
        }
    }

    /// The texel in `column` of `row` of `texture`, if there is one.
    pub open spec fn texel(self, texture: Handle, column: int, row: int) -> Option<Color> {
        if self.holds(texture) && self.image(texture).contains(column, row) {
            Some(self.image(texture).at(column, row))
        } else {
            None
        }
    }
}

/// A surface more takes its texels more.
pub proof fn lemma_footprint_push(images: Seq<Image>, image: Image)
    ensures
        footprint(images.push(image)) == footprint(images) + image.texels.len(),
{
    assert(images.push(image).drop_last() =~= images);
}

/// Drawing on a surface changes no footprint.
pub proof fn lemma_footprint_update(images: Seq<Image>, id: int, image: Image)
    requires
        0 <= id < images.len(),
        image.texels.len() == images[id].texels.len(),
    ensures
        footprint(images.update(id, image)) == footprint(images),
    decreases images.len(),
{
    if id == images.len() - 1 {
        assert(images.update(id, image).drop_last() =~= images.drop_last());
    } else {
        lemma_footprint_update(images.drop_last(), id, image);
        assert(images.update(id, image).drop_last() =~= images.drop_last().update(id, image));
    }
}

impl GpuState {
    /// Allocation gives a surface that no handle named before, holds on to
    /// every surface that was there, and leaves those as they were.
    pub proof fn lemma_allocate(self, width: u16, height: u16, existing: Handle)
        requires
            self.holds(existing),
        ensures
            self.next_handle(width, height).id != existing.id,
            !self.holds(self.next_handle(width, height)),
            self.allocate(width, height).holds(self.next_handle(width, height)),
            self.allocate(width, height).holds(existing),
            self.allocate(width, height).image(existing) == self.image(existing),
            self.allocate(width, height).image(self.next_handle(width, height)) == Image::filled(
                width,
                height,
                Color::spec_transparent(),
            ),
    {
    }

    /// Allocation within the limits keeps a context well-formed, and takes
    /// the texels of the new surface.
    pub proof fn lemma_allocate_wf(self, width: u16, height: u16)
        requires
            self.wf(),
            self.allocation_failure(width, height) is None,
        ensures
            self.allocate(width, height).wf(),
            footprint(self.allocate(width, height).images) == footprint(self.images) + width
                * height,
    {
        let image = Image::filled(width, height, Color::spec_transparent());
        lemma_footprint_push(self.images, image);
        lemma_area(width as int, height as int);
    }

    /// Clearing fills the target, and leaves every other surface as it was.
    pub proof fn lemma_clear(self, target: Handle, color: Color, other: Handle)
        requires
            self.holds(target),
            self.holds(other),
        ensures
            self.clear(target, color).holds(target),
            self.clear(target, color).holds(other),
            self.clear(target, color).image(target) == Image::filled(
                target.width,
                target.height,
                color,
            ),
            other.id != target.id ==> self.clear(target, color).image(other) == self.image(other),
    {
    }

    /// Clearing keeps a context well-formed, and takes no texels.
    pub proof fn lemma_clear_wf(self, target: Handle, color: Color)
        requires
            self.wf(),
        ensures
            self.clear(target, color).wf(),
            footprint(self.clear(target, color).images) == footprint(self.images),
    {
        if self.holds(target) {
            let image = Image::filled(target.width, target.height, color);
            lemma_area(target.width as int, target.height as int);
            lemma_footprint_update(self.images, target.id as int, image);
        }
    }

    /// A draw call changes the target as drawing its instances does, and
    /// leaves every other surface as it was.
    pub proof fn lemma_submit(
        self,
        texture: Handle,
        target: Handle,
        instances: Seq<Instance>,
        projection: Projection,
        other: Handle,
    )
        requires
            self.wf(),
            self.accepts(texture, target),
            self.holds(other),
        ensures
            self.submit(texture, target, instances, projection).holds(target),
            self.submit(texture, target, instances, projection).holds(other),
            self.submit(texture, target, instances, projection).image(target) == paint_all(
                self.image(target),
                self.image(texture),
                instances,
                projection,
            ),
            other.id != target.id ==> self.submit(texture, target, instances, projection).image(
                other,
            ) == self.image(other),
    {
        lemma_paint_all_keeps_extent(
            self.image(target),
            self.image(texture),
            instances,
            projection,
        );
    }

    /// A texture of one color colors what shows it: every place of the target
    /// that shows the instance gets the color, composited over what was
    /// there, and every other place stays as it was.
    pub proof fn lemma_submit_one_color(
        self,
        texture: Handle,
        target: Handle,
        color: Color,
        instance: Instance,
        projection: Projection,
        column: int,
        row: int,
    )
        requires
            self.wf(),
            self.accepts(texture, target),
            self.image(texture) == Image::filled(texture.width, texture.height, color),
            self.image(target).contains(column, row),
        ensures
            ({
                let drawn = self.submit(texture, target, seq![instance], projection);
                let below = self.image(target).at(column, row);
                let shown = source_texel(
                    Axis::across(instance, projection, target.width, texture.width),
                    Axis::down(instance, projection, target.height, texture.height),
                    column,
                    row,
                ) is Some;
                &&& shown ==> drawn.texel(target, column, row) == Some(color.over(below))
                &&& shown && color.is_opaque() ==> drawn.texel(target, column, row) == Some(color)
                &&& !shown ==> drawn.texel(target, column, row) == Some(below)
            }),
    {
        self.lemma_submit(texture, target, seq![instance], projection, target);
        lemma_paint_one_at(
            self.image(target),
            self.image(texture),
            instance,
            projection,
            column,
            row,
        );
        lemma_source_texel_in_texture(
            Axis::across(instance, projection, target.width, texture.width),
            Axis::down(instance, projection, target.height, texture.height),
            self.image(texture),
            column,
            row,
        );
        lemma_area(texture.width as int, texture.height as int);
        if color.is_opaque() {
            color.lemma_opaque_covers(self.image(target).at(column, row));
        }
    }

    /// A region of a texture that is drawn texel for texel is reproduced, up
    /// to the reflection of the projection: where the drawing space has the
    /// extent of the target, the units of the instance are the texels of the
    /// texture, and its region is shown over as many pixels as it has texels,
    /// the texel `i` columns and `j` rows into the region is composited on the
    /// place of the target that the pixel `i` columns and `j` rows from
    /// `instance.translation` is projected on.
    pub proof fn lemma_submit_texel_for_texel(
        self,
        texture: Handle,
        target: Handle,
        instance: Instance,
        transformation: Transformation,
        i: int,
        j: int,
    )
        requires
            self.wf(),
            self.accepts(texture, target),
            instance.x_unit.parts == texture.width,
            instance.y_unit.parts == texture.height,
            instance.scale.width == instance.source.width,
            instance.scale.height == instance.source.height,
            0 <= i < instance.source.width,
            0 <= j < instance.source.height,
            instance.source.x + i < texture.width,
            instance.source.y + j < texture.height,
            self.image(target).contains(instance.translation.x + i, instance.translation.y + j),
        ensures
            ({
                let projection = Projection::orthographic(
                    target.width,
                    target.height,
                ).followed_by(transformation);
                let drawn = self.submit(texture, target, seq![instance], projection);
                let column = oriented(
                    instance.translation.x + i,
                    target.width as int,
                    projection.mirrors_columns(),
                );
                let row = oriented(
                    instance.translation.y + j,
                    target.height as int,
                    projection.mirrors_rows(),
                );
                &&& self.image(target).contains(column, row)
                &&& drawn.texel(target, column, row) == Some(
                    self.image(texture).at(instance.source.x + i, instance.source.y + j).over(
                        self.image(target).at(column, row),
                    ),
                )
            }),
    {
        let projection = Projection::orthographic(target.width, target.height).followed_by(
            transformation,
        );
        let column = oriented(
            instance.translation.x + i,
            target.width as int,
            projection.mirrors_columns(),
        );
        let row = oriented(
            instance.translation.y + j,
            target.height as int,
            projection.mirrors_rows(),
        );
        self.lemma_submit(texture, target, seq![instance], projection, target);
        lemma_paint_one_at(
            self.image(target),
            self.image(texture),
            instance,
            projection,
            column,
            row,
        );
        Axis::across(
            instance,
            projection,
            target.width,
            texture.width,
        ).lemma_sample_texel_for_texel(column, i);
        Axis::down(
            instance,
            projection,
            target.height,
            texture.height,
        ).lemma_sample_texel_for_texel(row, j);
    }

    /// A draw call keeps a context well-formed, and takes no texels.
    pub proof fn lemma_submit_wf(
        self,
        texture: Handle,
        target: Handle,
        instances: Seq<Instance>,
        projection: Projection,
    )
        requires
            self.wf(),
        ensures
            self.submit(texture, target, instances, projection).wf(),
            footprint(self.submit(texture, target, instances, projection).images) == footprint(
                self.images,
            ),
    {
        if self.accepts(texture, target) {
            let painted = paint_all(
                self.image(target),
                self.image(texture),
                instances,
                projection,
            );
            lemma_paint_all_keeps_extent(
                self.image(target),
                self.image(texture),
                instances,
                projection,
            );
            lemma_footprint_update(self.images, target.id as int, painted);
        }
    }
}

} // verus!
