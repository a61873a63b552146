//! The memory of one surface.
use crate::graphics::color::Color;
use crate::graphics::gpu::image::{
    lemma_area, lemma_place, lemma_place_in_memory, lemma_row_bounds, Image,
};
use crate::graphics::gpu::instance::Instance;
use crate::graphics::gpu::raster::{paint, shade, Axis};
use crate::graphics::transformation::Projection;
use vstd::prelude::*;

verus! {

/// A block of texels, row after row.
pub struct Surface {
    pub width: u16,
    pub height: u16,
    pub texels: Vec<Color>,
}

impl View for Surface {
    type V = Image;

    open spec fn view(&self) -> Image {
        Image { width: self.width, height: self.height, texels: self.texels@ }
    }
}

impl Surface {
    pub open spec fn wf(&self) -> bool {
        self@.wf()
    }

    /// A surface without texels.
    pub fn empty() -> (surface: Surface)
        ensures
            surface.wf(),
            surface.width == 0,
            surface.height == 0,
    {
        Surface { width: 0, height: 0, texels: Vec::new() }
    }

    /// A surface that shows `color` everywhere.
    pub fn filled(width: u16, height: u16, color: Color) -> (surface: Surface)
        ensures
            surface.wf(),
            surface@ == Image::filled(width, height, color),
    {
        proof {
            lemma_area(width as int, height as int);
        }
        assert(width * height <= 0xffff * 0xffff) by (nonlinear_arith)
            requires
                width <= 0xffff,
                height <= 0xffff,
        ;
        let count: usize = width as usize * height as usize;
        let mut texels: Vec<Color> = Vec::new();
        while texels.len() < count
            invariant
                texels.len() <= count,
                forall|i: int| 0 <= i < texels.len() ==> texels@[i] == color,
            decreases count - texels.len(),
        {
            texels.push(color);
        }
        let surface = Surface { width, height, texels };
        assert(surface@.texels =~= Image::filled(width, height, color).texels);
        surface
    }

    /// Reads the texel in `column` of `row`.
    pub fn texel(&self, column: u16, row: u16) -> (color: Color)
        requires
            self.wf(),
            self@.contains(column as int, row as int),
        ensures
            color == self@.at(column as int, row as int),
    {
        proof {
            lemma_place_in_memory(column as int, row as int, self.width as int, self.height as int);
            lemma_row_bounds(row as int, self.width as int, self.height as int);
            assert(row * self.width + self.width <= self.texels.len());
        }
        self.texels[row as usize * self.width as usize + column as usize]
    }

    /// Draws `instance`, textured with `texture`, on this surface.
    pub fn paint(&mut self, texture: &Surface, instance: &Instance, projection: &Projection)
        requires
            old(self).wf(),
            texture.wf(),
        ensures
            final(self).wf(),
            final(self)@ == paint(old(self)@, texture@, *instance, *projection),
    {
        let ghost before = self@;
        let ghost width = self.width as int;
        let across = Axis::across(*instance, *projection, self.width, texture.width);
        let down = Axis::down(*instance, *projection, self.height, texture.height);
        let mut row: u16 = 0;
        while row < self.height
            invariant
                self.width == before.width,
                self.height == before.height,
                self.texels.len() == before.texels.len(),
                before.wf(),
                before.width == width,
                texture.wf(),
                across.texels == texture.width,
                down.texels == texture.height,
                row <= self.height,
                forall|i: int|
                    0 <= i < row * width ==> self.texels@[i] == shade(
                        before.texels[i],
                        texture@,
                        across,
                        down,
                        i % width,
                        i / width,
                    ),
                forall|i: int|
                    row * width <= i < before.texels.len() ==> self.texels@[i] == before.texels[i],
            decreases self.height - row,
        {
            proof {
                lemma_row_bounds(row as int, width, self.height as int);
            }
            match down.sample_at(row) {
                None => {
                    assert forall|i: int| row * width <= i < (row + 1) * width implies shade(
                        before.texels[i],
                        texture@,
                        across,
                        down,
                        i % width,
                        i / width,
                    ) == before.texels[i] by {
                        lemma_place(i - row * width, row as int, width);
                    }
                },
                Some(v) => {
                    proof {
                        down.lemma_sample_in_texture(row as int);
                    }
                    self.paint_row(texture, &across, row, v, Ghost(before), Ghost(down));
                },
            }
            row = row + 1;
        }
        proof {
            lemma_area(width, self.height as int);
            assert(self@.texels =~= paint(before, texture@, *instance, *projection).texels);
        }
    }

    /// Draws the part of an instance that falls on `row`, where the target
    /// shows row `v` of `texture`.
    fn paint_row(
        &mut self,
        texture: &Surface,
        across: &Axis,
        row: u16,
        v: u16,
        Ghost(before): Ghost<Image>,
        Ghost(down): Ghost<Axis>,
    )
        requires
            old(self).wf(),
            texture.wf(),
            before.wf(),
            before.width == old(self).width,
            before.height == old(self).height,
            across.texels == texture.width,
            row < old(self).height,
            v < texture.height,
            down.sample(row as int) == Some(v as int),
            forall|i: int|
                row * old(self).width <= i < before.texels.len() ==> old(self).texels@[i]
                    == before.texels[i],
        ensures
            final(self).width == old(self).width,
            final(self).height == old(self).height,
            final(self).texels.len() == old(self).texels.len(),
            forall|i: int|
                0 <= i < row * old(self).width ==> final(self).texels@[i] == old(self).texels@[i],
            forall|i: int|
                row * old(self).width <= i < (row + 1) * old(self).width ==> final(self).texels@[i]
                    == shade(
                    before.texels[i],
                    texture@,
                    *across,
                    down,
                    i % (old(self).width as int),
                    i / (old(self).width as int),
                ),
            forall|i: int|
                (row + 1) * old(self).width <= i < before.texels.len() ==> final(self).texels@[i]
                    == before.texels[i],
    {
        let ghost entry = self.texels@;
        let ghost width = self.width as int;
        let ghost height = self.height;
        proof {
            lemma_row_bounds(row as int, width, self.height as int);
            lemma_row_bounds(v as int, texture.width as int, texture.height as int);
            assert(row * width + width <= self.texels.len());
            assert(v * texture.width + texture.width <= texture.texels.len());
        }
        let base: usize = row as usize * self.width as usize;
        let texture_base: usize = v as usize * texture.width as usize;
        let mut column: u16 = 0;
        while column < self.width
            invariant
                self.width == width,
                self.height == height,
                self.texels.len() == entry.len(),
                entry.len() == before.texels.len(),
                before.width == width,
                texture.wf(),
                across.texels == texture.width,
                base == row * width,
                texture_base == v * texture.width,
                base + width <= before.texels.len(),
                texture_base + texture.width <= texture.texels.len(),
                (row + 1) * width == base + width,
                column <= width,
                down.sample(row as int) == Some(v as int),
                forall|i: int| 0 <= i < base ==> self.texels@[i] == entry[i],
                forall|i: int|
                    base <= i < base + column ==> self.texels@[i] == shade(
                        before.texels[i],
                        texture@,
                        *across,
                        down,
                        i % width,
                        i / width,
                    ),
                forall|i: int|
                    base + column <= i < before.texels.len() ==> self.texels@[i]
                        == before.texels[i],
            decreases width - column,
        {
            let index: usize = base + column as usize;
            proof {
                lemma_place(column as int, row as int, width);
            }
            match across.sample_at(column) {
                None => {},
                Some(u) => {
                    proof {
                        across.lemma_sample_in_texture(column as int);
                    }
                    let above = texture.texels[texture_base + u as usize];
                    let below = self.texels[index];
                    self.texels.set(index, above.over(below));
                },
            }
            column = column + 1;
        }
    }
}

} // verus!
