//! Off-screen surfaces.
use crate::error::Error;
use crate::graphics::color::Color;
use crate::graphics::gpu::texture::Drawable;
use crate::graphics::gpu::image::lemma_place_in_memory;
use crate::graphics::gpu::raster::{source_texel, Axis};
use crate::graphics::gpu::{footprint, Gpu, GpuState, Handle, Instance};
use crate::graphics::quad::{IntoQuad, Unit};
use crate::graphics::target::Target;
use crate::graphics::transformation::{Projection, Transformation};
use crate::load::Task;
use crate::text::{append_decimal, decimal};
use vstd::prelude::*;
use vstd::string::StringExecFns;
use vstd::std_specs::convert::FromSpec;

verus! {

/// An off-screen rendering target.
///
/// It can be used both as a [`Target`], to draw on it, and as a resource, to
/// draw it on another target.
pub struct Canvas {
    drawable: Drawable,
}

impl View for Canvas {
    type V = Handle;

    /// The surface of the canvas.
    closed spec fn view(&self) -> Handle {
        self.drawable@
    }
}

impl Clone for Canvas {
    /// Copies the handle, not the surface: the copy is the same canvas, and
    /// what is drawn on one of the two shows on the other.
    fn clone(&self) -> (copy: Canvas)
        ensures
            copy@ == self@,
    {
        Canvas { drawable: self.drawable.clone() }
    }
}

impl Canvas {
    /// What creating a canvas of `width` by `height` pixels does to a
    /// context and gives: the canvas on a new surface of that size, or the
    /// failure of the context, which is then as it was before.
    pub open spec fn creates(
        before: GpuState,
        width: u16,
        height: u16,
        created: Result<Canvas, Error>,
        after: GpuState,
    ) -> bool {
        match before.allocation_failure(width, height) {
            Some(failure) => {
                &&& created == Err::<Canvas, Error>(Error::AllocationError(failure))
                &&& after == before
            },
            None => {
                &&& created matches Ok(canvas)
                &&& canvas@ == before.next_handle(width, height)
                &&& after == before.allocate(width, height)
            },
        }
    }

    /// Creates a new canvas with the given size.
    pub fn new(gpu: &mut Gpu, width: u16, height: u16) -> (created: Result<Canvas, Error>)
        requires
            old(gpu).wf(),
        ensures
            final(gpu).wf(),
            Canvas::creates(old(gpu)@, width, height, created, final(gpu)@),
    {
        match gpu.create_drawable_texture(width, height) {
            Ok(drawable) => Ok(Canvas { drawable }),
            Err(error) => Err(error),
        }
    }

    /// Creates a task that produces a new canvas with the given size.
    ///
    /// Nothing is allocated until the task is run.
    pub fn load(width: u16, height: u16) -> (task: Task<
        Canvas,
        impl FnOnce(&mut Gpu) -> Result<Canvas, Error>,
    >)
        ensures
            forall|context: &mut Gpu|
                context.wf() ==> #[trigger] call_requires(task.function, (context,)),
            forall|context: &mut Gpu, created: Result<Canvas, Error>|
                #[trigger] call_ensures(task.function, (context,), created) ==> {
                    &&& final(context).wf()
                    &&& Canvas::creates(context@, width, height, created, final(context)@)
                },
    {
        let create = move |gpu: &mut Gpu| -> (created: Result<Canvas, Error>)
            requires
                old(gpu).wf(),
            ensures
                final(gpu).wf(),
                Canvas::creates(old(gpu)@, width, height, created, final(gpu)@),
            {
                Canvas::new(gpu, width, height)
            };
        let task = Task::using_gpu(create);
        task
    }

    /// The width of the canvas.
    pub fn width(&self) -> (width: u16)
        ensures
            width == self@.width,
    {
        self.drawable.texture().width()
    }

    /// The height of the canvas.
    pub fn height(&self) -> (height: u16)
        ensures
            height == self@.height,
    {
        self.drawable.texture().height()
    }

    /// The projection through which a canvas of `width` by `height` pixels is
    /// drawn on.
    pub open spec fn projection(width: u16, height: u16) -> Projection {
        Projection::orthographic(width, height).followed_by(Transformation::spec_vertical_flip())
    }

    /// Views the canvas as a target.
    ///
    /// The target draws on the surface of the canvas, in a drawing space of
    /// the size of the canvas that is laid on the surface the way up in which
    /// the surface is sampled.
    pub fn as_target<'a>(&mut self, gpu: &'a mut Gpu) -> (target: Target<'a>)
        ensures
            *final(self) == *old(self),
            *target.gpu == *old(gpu),
            *final(target.gpu) == *final(gpu),
            target.view@ == old(self)@,
            target.projection == Canvas::projection(old(self)@.width, old(self)@.height),
    {
        let texture = self.drawable.texture();
        Target::with_transformation(
            gpu,
            *self.drawable.target(),
            texture.width(),
            texture.height(),
            Drawable::render_transformation(),
        )
    }

    /// Renders the canvas on the given target: one draw call, of the one
    /// instance that `quad` stands for, textured with the canvas. The canvas
    /// stays as it is.
    pub fn draw<T: IntoQuad>(&self, quad: T, target: &mut Target, x_unit: Unit, y_unit: Unit)
        requires
            old(target).gpu.wf(),
        ensures
            final(target).gpu.wf(),
            final(target).gpu@ == old(target).gpu@.submit(
                self@,
                old(target).view@,
                seq![Instance::from_spec(quad.quad(x_unit, y_unit))],
                old(target).projection,
            ),
            final(target).view == old(target).view,
            final(target).projection == old(target).projection,
            *final(final(target).gpu) == *final(old(target).gpu),
    {
        let instances = [Instance::from(quad.into_quad(x_unit, y_unit))];
        assert(instances@ =~= seq![Instance::from_spec(quad.quad(x_unit, y_unit))]);
        target.draw_texture_quads(self.drawable.texture(), instances.as_slice());
    }

    /// What a canvas of `width` by `height` pixels is described as.
    pub open spec fn debug_text(width: nat, height: nat) -> Seq<char> {
        "Canvas { width: "@ + decimal(width) + ", height: "@ + decimal(height) + " }"@
    }

    /// Describes the canvas for debugging, by its width and its height. The
    /// surface behind it is not named.
    pub fn debug_string(&self) -> (text: String)
        ensures
            text@ == Canvas::debug_text(self@.width as nat, self@.height as nat),
    {
        let mut text = String::new();
        text.append("Canvas { width: ");
        append_decimal(&mut text, self.width());
        text.append(", height: ");
        append_decimal(&mut text, self.height());
        text.append(" }");
        assert(text@ =~= Canvas::debug_text(self@.width as nat, self@.height as nat));
        text
    }

    /// Reads the color that the canvas shows in `column` of `row`: `None` if
    /// it has no such place, or is no canvas of `gpu`.
    pub fn texel(&self, gpu: &Gpu, column: u16, row: u16) -> (color: Option<Color>)
        requires
            gpu.wf(),
        ensures
            color == gpu@.texel(self@, column as int, row as int),
    {
        gpu.texel(self.drawable.texture(), column, row)
    }

    /// Within the limits of the context, creation succeeds, and the canvas has
    /// the width and the height that were asked for.
    pub proof fn lemma_creation_within_limits(
        before: GpuState,
        width: u16,
        height: u16,
        created: Result<Canvas, Error>,
        after: GpuState,
    )
        requires
            Canvas::creates(before, width, height, created, after),
            0 < width <= before.limits.max_dimension,
            0 < height <= before.limits.max_dimension,
            footprint(before.images) + width * height <= before.limits.max_texels,
        ensures
            created matches Ok(canvas) && canvas@.width == width && canvas@.height == height,
    {
    }

    /// Beyond the limits of the context, creation fails with an allocation
    /// error, and leaves the context as it was: nothing is allocated.
    pub proof fn lemma_creation_beyond_limits(
        before: GpuState,
        width: u16,
        height: u16,
        created: Result<Canvas, Error>,
        after: GpuState,
    )
        requires
            Canvas::creates(before, width, height, created, after),
            width > before.limits.max_dimension || height > before.limits.max_dimension
                || footprint(before.images) + width * height > before.limits.max_texels,
        ensures
            created matches Err(Error::AllocationError(_)),
            after == before,
    {
    }

    /// A canvas that is cleared to a color and then drawn on another target
    /// brings that color there: every place of the target that shows the
    /// canvas gets the color, composited over what was there, and every
    /// other place stays as it was. Which way up the canvas is drawn makes no
    /// difference to this.
    pub proof fn lemma_cleared_canvas_draws_its_color(
        canvas: Canvas,
        gpu: GpuState,
        color: Color,
        target: Handle,
        projection: Projection,
        instance: Instance,
        column: int,
        row: int,
    )
        requires
            gpu.wf(),
            gpu.accepts(canvas@, target),
            gpu.image(target).contains(column, row),
        ensures
            ({
                let cleared = gpu.clear(canvas@, color);
                let drawn = cleared.submit(canvas@, target, seq![instance], projection);
                let below = gpu.image(target).at(column, row);
                let shown = source_texel(
                    Axis::across(instance, projection, target.width, canvas@.width),
                    Axis::down(instance, projection, target.height, canvas@.height),
                    column,
                    row,
                ) is Some;
                &&& shown ==> drawn.texel(target, column, row) == Some(color.over(below))
                &&& shown && color.is_opaque() ==> drawn.texel(target, column, row) == Some(color)
                &&& !shown ==> drawn.texel(target, column, row) == Some(below)
            }),
    {
        gpu.lemma_clear(canvas@, color, target);
        gpu.lemma_clear_wf(canvas@, color);
        gpu.clear(canvas@, color).lemma_submit_one_color(
            canvas@,
            target,
            color,
            instance,
            projection,
            column,
            row,
        );
    }

    /// What is drawn on a canvas is sampled from it the way up it was drawn:
    /// where a region of a texture is drawn on the canvas texel for texel,
    /// with its first texel at `instance.translation`, the texel `i` columns
    /// and `j` rows into the region shows on the canvas `i` columns and `j`
    /// rows from there.
    pub proof fn lemma_canvas_is_drawn_on_upright(
        canvas: Canvas,
        gpu: GpuState,
        texture: Handle,
        instance: Instance,
        i: int,
        j: int,
    )
        requires
            gpu.wf(),
            gpu.accepts(texture, canvas@),
            instance.x_unit.parts == texture.width,
            instance.y_unit.parts == texture.height,
            instance.scale.width == instance.source.width,
            instance.scale.height == instance.source.height,
            0 <= i < instance.source.width,
            0 <= j < instance.source.height,
            instance.source.x + i < texture.width,
            instance.source.y + j < texture.height,
            gpu.image(canvas@).contains(instance.translation.x + i, instance.translation.y + j),
        ensures
            ({
                let drawn = gpu.submit(
                    texture,
                    canvas@,
                    seq![instance],
                    Canvas::projection(canvas@.width, canvas@.height),
                );
                let column = instance.translation.x + i;
                let row = instance.translation.y + j;
                drawn.texel(canvas@, column, row) == Some(
                    gpu.image(texture).at(instance.source.x + i, instance.source.y + j).over(
                        gpu.image(canvas@).at(column, row),
                    ),
                )
            }),
    {
        gpu.lemma_submit_texel_for_texel(
            texture,
            canvas@,
            instance,
            Transformation::spec_vertical_flip(),
            i,
            j,
        );
    }

    /// Canvases on different surfaces do not touch each other: whatever is
    /// cleared or drawn on one, the other shows what it showed.
    pub proof fn lemma_canvases_are_isolated(
        first: Canvas,
        second: Canvas,
        gpu: GpuState,
        color: Color,
        texture: Handle,
        instances: Seq<Instance>,
        projection: Projection,
        column: int,
        row: int,
    )
        requires
            gpu.wf(),
            gpu.holds(first@),
            gpu.holds(second@),
            first@.id != second@.id,
        ensures
            gpu.clear(first@, color).texel(second@, column, row) == gpu.texel(
                second@,
                column,
                row,
            ),
            gpu.submit(texture, first@, instances, projection).texel(second@, column, row)
                == gpu.texel(second@, column, row),
    {
        gpu.lemma_clear(first@, color, second@);
        if gpu.accepts(texture, first@) {
            gpu.lemma_submit(texture, first@, instances, projection, second@);
        }
    }

    /// Canvases that are created one after the other are on different
    /// surfaces, and creating the second leaves the first as it is.
    pub proof fn lemma_created_canvases_are_distinct(
        first: Canvas,
        second: Canvas,
        before: GpuState,
        width: u16,
        height: u16,
        after: GpuState,
    )
        requires
            before.holds(first@),
            Canvas::creates(before, width, height, Ok(second), after),
        ensures
            first@.id != second@.id,
            after.holds(first@),
            after.holds(second@),
            after.image(first@) == before.image(first@),
    {
        before.lemma_allocate(width, height, first@);
    }

    /// A copy of a canvas shares its surface: what is drawn through the copy
    /// is what the canvas shows.
    pub proof fn lemma_copy_shares_surface(
        canvas: Canvas,
        copy: Canvas,
        gpu: GpuState,
        color: Color,
        column: int,
        row: int,
    )
        requires
            copy@ == canvas@,
            gpu.wf(),
            gpu.holds(canvas@),
            gpu.image(canvas@).contains(column, row),
        ensures
            gpu.clear(copy@, color).texel(canvas@, column, row) == Some(color),
    {
        gpu.lemma_clear(copy@, color, canvas@);
        lemma_place_in_memory(column, row, canvas@.width as int, canvas@.height as int);
    }
}

} // verus!
