//! Which texel of a texture each texel of a target shows.
//!
//! A texel of the target shows an instance if its centre lies in the
//! instance, and then shows the texel of the texture that the centre falls
//! on: the nearest one, and past the edge of the texture the one on the edge.
//! Both are decided one axis at a time, and in whole numbers: along an axis
//! of `stored` texels and of a drawing space `drawn` pixels long, the centre
//! of the `k`-th texel in the direction of drawing space is
//! `(2 * k + 1) * drawn / (2 * stored)` pixels from the origin.
use crate::graphics::color::Color;
use crate::graphics::gpu::image::{lemma_place, lemma_place_in_memory, Image};
use crate::graphics::gpu::instance::Instance;
use crate::graphics::transformation::Projection;
use vstd::prelude::*;

verus! {

/// The place `index` of `extent`, counted from the other end if `mirrored`.
pub open spec fn oriented(index: int, extent: int, mirrored: bool) -> int {
    if mirrored {
        extent - 1 - index
    } else {
        index
    }
}

/// One axis of a draw: how the texels of a target along the axis show the
/// texels of a texture.
#[derive(Debug, Clone, Copy, PartialEq, Eq, Structural)]
pub struct Axis {
    /// Where the instance starts, in pixels of drawing space.
    pub start: i32,
    /// The pixels of drawing space that the instance is shown over.
    pub length: u32,
    /// The length of drawing space, in pixels.
    pub drawn: u16,
    /// The texels of the target.
    pub stored: u16,
    /// Whether the texels of the target run against the axis of drawing
    /// space.
    pub mirrored: bool,
    /// The unit at which the shown region of the texture starts.
    pub first: u16,
    /// The units of the shown region.
    pub span: u16,
    /// The parts of the texture that a unit is one of.
    pub parts: u16,
    /// The texels of the texture.
    pub texels: u16,
}

impl Axis {
    pub open spec fn spec_across(
        instance: Instance,
        projection: Projection,
        stored: u16,
        texels: u16,
    ) -> Axis {
        Axis {
            start: instance.translation.x,
            length: instance.scale.width,
            drawn: projection.width,
            stored,
            mirrored: projection.mirrors_columns(),
            first: instance.source.x,
            span: instance.source.width,
            parts: instance.x_unit.parts,
            texels,
        }
    }

    /// The horizontal axis of drawing `instance` on a target `stored` texels
    /// wide, textured with a texture `texels` texels wide.
    #[verifier::when_used_as_spec(spec_across)]
    pub fn across(
        instance: Instance,
        projection: Projection,
        stored: u16,
        texels: u16,
    ) -> (axis: Axis)
        ensures
            axis == Axis::spec_across(instance, projection, stored, texels),
    {
        Axis {
            start: instance.translation.x,
            length: instance.scale.width,
            drawn: projection.width,
            stored,
            mirrored: projection.mirrors_columns(),
            first: instance.source.x,
            span: instance.source.width,
            parts: instance.x_unit.parts,
            texels,
        }
    }

    pub open spec fn spec_down(
        instance: Instance,
        projection: Projection,
        stored: u16,
        texels: u16,
    ) -> Axis {
        Axis {
            start: instance.translation.y,
            length: instance.scale.height,
            drawn: projection.height,
            stored,
            mirrored: projection.mirrors_rows(),
            first: instance.source.y,
            span: instance.source.height,
            parts: instance.y_unit.parts,
            texels,
        }
    }

    /// The vertical axis of drawing `instance` on a target `stored` texels
    /// high, textured with a texture `texels` texels high.
    #[verifier::when_used_as_spec(spec_down)]
    pub fn down(
        instance: Instance,
        projection: Projection,
        stored: u16,
        texels: u16,
    ) -> (axis: Axis)
        ensures
            axis == Axis::spec_down(instance, projection, stored, texels),
    {
        Axis {
            start: instance.translation.y,
            length: instance.scale.height,
            drawn: projection.height,
            stored,
            mirrored: projection.mirrors_rows(),
            first: instance.source.y,
            span: instance.source.height,
            parts: instance.y_unit.parts,
            texels,
        }
    }

    /// The place of the texel at `index` of the target, counted in the
    /// direction of drawing space.
    pub open spec fn place(self, index: int) -> int {
        oriented(index, self.stored as int, self.mirrored)
    }

    /// The distance of the centre of the texel at `index` of the target from
    /// the origin of drawing space, in pixels, times `2 * stored`.
    pub open spec fn centre(self, index: int) -> int {
        (2 * self.place(index) + 1) * self.drawn
    }

    /// Whether the texel at `index` of the target has its centre in the
    /// instance.
    pub open spec fn covers(self, index: int) -> bool {
        &&& 0 <= index < self.stored
        &&& self.drawn > 0
        &&& 2 * self.stored * self.start <= self.centre(index) < 2 * self.stored * (self.start
            + self.length)
    }

    /// The texel of the texture that the centre of the texel at `index` of
    /// the target falls on.
    pub open spec fn texel(self, index: int) -> int {
        let offset = self.centre(index) - 2 * self.stored * self.start;
        let whole = 2 * self.stored * self.length;
        let nearest = (self.texels * (self.first * whole + offset * self.span)) / (self.parts
            * whole);
        if nearest < self.texels {
            nearest
        } else {
            self.texels - 1
        }
    }

    /// The texel of the texture that the texel at `index` of the target
    /// shows, if it shows any.
    pub open spec fn sample(self, index: int) -> Option<int> {
        if self.parts > 0 && self.texels > 0 && self.covers(index) {
            Some(self.texel(index))
        } else {
            None
        }
    }

    /// A sampled texel is a texel of the texture.
    pub proof fn lemma_sample_in_texture(self, index: int)
        ensures
            self.sample(index) matches Some(texel) ==> 0 <= texel < self.texels,
    {
        if self.parts > 0 && self.texels > 0 && self.covers(index) {
            let stored = self.stored as int;
            let start = self.start as int;
            let length = self.length as int;
            let offset = self.centre(index) - 2 * stored * start;
            let whole = 2 * stored * length;
            assert(2 * stored * (start + length) == 2 * stored * start + 2 * stored * length)
                by (nonlinear_arith);
            let first = self.first as int;
            let span = self.span as int;
            assert(first * whole >= 0) by (nonlinear_arith)
                requires
                    first >= 0,
                    whole >= 0,
            ;
            assert(offset * span >= 0) by (nonlinear_arith)
                requires
                    offset >= 0,
                    span >= 0,
            ;
            let inner = first * whole + offset * span;
            let texels = self.texels as int;
            let parts = self.parts as int;
            assert(texels * inner >= 0) by (nonlinear_arith)
                requires
                    texels >= 0,
                    inner >= 0,
            ;
            assert(parts * whole > 0) by (nonlinear_arith)
                requires
                    parts > 0,
                    whole > 0,
            ;
            vstd::arithmetic::div_mod::lemma_div_pos_is_pos(texels * inner, parts * whole);
        }
    }

    /// A region that is shown texel for texel is shown as it is: where the
    /// drawing space is as long as the target, the units are the texels of
    /// the texture, and the region is shown over as many pixels as it has
    /// units, the texel of the target that lies `steps` pixels from the start
    /// of the instance shows the texel `steps` places into the region.
    pub proof fn lemma_sample_texel_for_texel(self, index: int, steps: int)
        requires
            self.drawn == self.stored,
            self.parts == self.texels,
            self.length == self.span,
            0 <= index < self.stored,
            self.place(index) == self.start + steps,
            0 <= steps < self.span,
            self.first + steps < self.texels,
        ensures
            self.sample(index) == Some(self.first + steps),
    {
        let extent = self.stored as int;
        let start = self.start as int;
        let length = self.length as int;
        let first = self.first as int;
        let texels = self.texels as int;
        let k = self.place(index);
        let offset = self.centre(index) - 2 * extent * start;
        let whole = 2 * extent * length;
        let place = first + steps;
        let area = extent * length;
        let half = texels * area;
        let odd = 2 * steps + 1;
        assert(2 * extent * start <= (2 * k + 1) * extent < 2 * extent * (start + length))
            by (nonlinear_arith)
            requires
                0 < extent,
                start <= k < start + length,
        {
        }
        assert(whole == 2 * area) by (nonlinear_arith)
            requires
                whole == 2 * extent * length,
                area == extent * length,
        {
        }
        assert(offset == odd * extent) by (nonlinear_arith)
            requires
                offset == (2 * k + 1) * extent - 2 * extent * start,
                odd == 2 * (k - start) + 1,
        {
        }
        assert(offset * length == odd * area) by (nonlinear_arith)
            requires
                offset == odd * extent,
                area == extent * length,
        {
        }
        assert(first * whole + offset * length == (2 * place + 1) * area) by (nonlinear_arith)
            requires
                whole == 2 * area,
                offset * length == odd * area,
                odd == 2 * steps + 1,
                place == first + steps,
        {
        }
        assert(texels * ((2 * place + 1) * area) == place * (2 * half) + half)
            by (nonlinear_arith)
            requires
                half == texels * area,
        {
        }
        assert(texels * whole == 2 * half) by (nonlinear_arith)
            requires
                whole == 2 * area,
                half == texels * area,
        {
        }
        assert(area > 0) by (nonlinear_arith)
            requires
                area == extent * length,
                extent > 0,
                length > 0,
        {
        }
        assert(half > 0) by (nonlinear_arith)
            requires
                half == texels * area,
                texels > 0,
                area > 0,
        {
        }
        vstd::arithmetic::div_mod::lemma_fundamental_div_mod_converse(
            texels * (first * whole + offset * length),
            texels * whole,
            place,
            half,
        );
    }

    /// Finds the texel of the texture that the texel at `index` of the target
    /// shows.
    pub fn sample_at(&self, index: u16) -> (texel: Option<u16>)
        ensures
            texel matches Some(t) ==> self.sample(index as int) == Some(t as int),
            texel is None ==> self.sample(index as int) is None,
    {
        if self.parts == 0 || self.texels == 0 || self.drawn == 0 || index >= self.stored {
            return None;
        }
        let k: u16 = if self.mirrored {
            self.stored - 1 - index
        } else {
            index
        };
        proof {
            lemma_product_bounds(2 * k + 1, self.drawn as int, 0x1_ffff, 0xffff);
            lemma_product_bounds(2 * self.stored, self.start as int, 0x1_fffe, 0x8000_0000);
            lemma_product_bounds(2 * self.stored, self.length as int, 0x1_fffe, 0xffff_ffff);
            assert(2 * self.stored * (self.start + self.length) == 2 * self.stored * self.start + 2
                * self.stored * self.length) by (nonlinear_arith);
        }
        let centre: i128 = (2 * (k as i128) + 1) * (self.drawn as i128);
        let low: i128 = 2 * (self.stored as i128) * (self.start as i128);
        let whole: i128 = 2 * (self.stored as i128) * (self.length as i128);
        if centre < low || centre >= low + whole {
            return None;
        }
        let offset: i128 = centre - low;
        proof {
            let most: int = 0x1_fffe * 0xffff_ffffint;
            lemma_product_bounds(self.first as int, whole as int, 0xffff, most);
            lemma_product_bounds(self.span as int, offset as int, 0xffff, most);
            assert(offset * self.span == self.span * offset) by (nonlinear_arith);
            lemma_product_bounds(
                self.texels as int,
                self.first * whole + offset * self.span,
                0xffff,
                2 * (0xffff * most),
            );
            lemma_product_bounds(self.parts as int, whole as int, 0xffff, most);
            assert(self.parts * whole > 0) by (nonlinear_arith)
                requires
                    self.parts > 0,
                    whole > 0,
            ;
            self.lemma_sample_in_texture(index as int);
        }
        let inner: i128 = (self.first as i128) * whole + offset * (self.span as i128);
        let nearest: i128 = ((self.texels as i128) * inner) / ((self.parts as i128) * whole);
        if nearest < self.texels as i128 {
            Some(nearest as u16)
        } else {
            Some(self.texels - 1)
        }
    }
}

proof fn lemma_product_bounds(a: int, b: int, most_a: int, most_b: int)
    by (nonlinear_arith)
    requires
        0 <= a <= most_a,
        -most_b <= b <= most_b,
    ensures
        -(most_a * most_b) <= a * b <= most_a * most_b,
        b >= 0 ==> a * b >= 0,
{
}

/// The texel of a texture that the texel in `column` of `row` of a target
/// shows, `across` and `down` being the axes of the draw: its column and its
/// row, if the target shows the instance there.
pub open spec fn source_texel(across: Axis, down: Axis, column: int, row: int) -> Option<
    (int, int),
> {
    match (across.sample(column), down.sample(row)) {
        (Some(u), Some(v)) => Some((u, v)),
        _ => None,
    }
}

/// The color of the texel in `column` of `row` of a target once an instance
/// is drawn: what it shows of the texture over `below`, the color it had.
pub open spec fn shade(
    below: Color,
    texture: Image,
    across: Axis,
    down: Axis,
    column: int,
    row: int,
) -> Color {
    match source_texel(across, down, column, row) {
        Some((u, v)) => texture.at(u, v).over(below),
        None => below,
    }
}

/// The contents of a target once `instance` is drawn on it.
pub open spec fn paint(
    target: Image,
    texture: Image,
    instance: Instance,
    projection: Projection,
) -> Image {
    Image {
        width: target.width,
        height: target.height,
        texels: Seq::new(
            target.texels.len(),
            |i: int|
                shade(
                    target.texels[i],
                    texture,
                    Axis::across(instance, projection, target.width, texture.width),
                    Axis::down(instance, projection, target.height, texture.height),
                    i % (target.width as int),
                    i / (target.width as int),
                ),
        ),
    }
}

/// The contents of a target once `instances` are drawn on it, each over
/// those before it.
pub open spec fn paint_all(
    target: Image,
    texture: Image,
    instances: Seq<Instance>,
    projection: Projection,
) -> Image
    decreases instances.len(),
{
    if instances.len() == 0 {
        target
    } else {
        paint(
            paint_all(target, texture, instances.drop_last(), projection),
            texture,
            instances.last(),
            projection,
        )
    }
}

/// Drawing changes no extent, and leaves one texel for each place.
pub proof fn lemma_paint_all_keeps_extent(
    target: Image,
    texture: Image,
    instances: Seq<Instance>,
    projection: Projection,
)
    requires
        target.wf(),
    ensures
        paint_all(target, texture, instances, projection).wf(),
        paint_all(target, texture, instances, projection).width == target.width,
        paint_all(target, texture, instances, projection).height == target.height,
    decreases instances.len(),
{
    if instances.len() > 0 {
        lemma_paint_all_keeps_extent(target, texture, instances.drop_last(), projection);
    }
}

/// What drawing one instance does to one place of a target.
pub proof fn lemma_paint_at(
    target: Image,
    texture: Image,
    instance: Instance,
    projection: Projection,
    column: int,
    row: int,
)
    requires
        target.wf(),
        target.contains(column, row),
    ensures
        paint(target, texture, instance, projection).at(column, row) == shade(
            target.at(column, row),
            texture,
            Axis::across(instance, projection, target.width, texture.width),
            Axis::down(instance, projection, target.height, texture.height),
            column,
            row,
        ),
{
    lemma_place(column, row, target.width as int);
    lemma_place_in_memory(column, row, target.width as int, target.height as int);
}

/// What a draw call of one instance does to one place of a target.
pub proof fn lemma_paint_one_at(
    target: Image,
    texture: Image,
    instance: Instance,
    projection: Projection,
    column: int,
    row: int,
)
    requires
        target.wf(),
        target.contains(column, row),
    ensures
        paint_all(target, texture, seq![instance], projection).at(column, row) == shade(
            target.at(column, row),
            texture,
            Axis::across(instance, projection, target.width, texture.width),
            Axis::down(instance, projection, target.height, texture.height),
            column,
            row,
        ),
{
    let instances = seq![instance];
    assert(instances.drop_last().len() == 0);
    assert(instances.last() == instance);
    assert(paint_all(target, texture, instances.drop_last(), projection) == target);
    assert(paint_all(target, texture, instances, projection) == paint(
        paint_all(target, texture, instances.drop_last(), projection),
        texture,
        instances.last(),
        projection,
    ));
    lemma_paint_at(target, texture, instance, projection, column, row);
}

/// A texel that a target shows is a texel of the texture.
pub proof fn lemma_source_texel_in_texture(
    across: Axis,
    down: Axis,
    texture: Image,
    column: int,
    row: int,
)
    requires
        texture.wf(),
        across.texels == texture.width,
        down.texels == texture.height,
    ensures
        source_texel(across, down, column, row) matches Some((u, v)) ==> texture.contains(u, v)
            && 0 <= v * texture.width + u < texture.texels.len(),
{
    across.lemma_sample_in_texture(column);
    down.lemma_sample_in_texture(row);
    if let Some((u, v)) = source_texel(across, down, column, row) {
        lemma_place_in_memory(u, v, texture.width as int, texture.height as int);
    }
}

} // verus!
