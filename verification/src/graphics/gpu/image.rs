//! What a surface holds.
use crate::graphics::color::Color;
use vstd::prelude::*;

verus! {

/// The contents of a surface: `width` by `height` texels, row after row,
/// each row from its first column.
pub struct Image {
    pub width: u16,
    pub height: u16,
    pub texels: Seq<Color>,
}

impl Image {
    /// There is one texel for each place.
    pub open spec fn wf(self) -> bool {
        self.texels.len() == self.width * self.height
    }

    /// The texel in `column` of `row`.
    pub open spec fn at(self, column: int, row: int) -> Color {
        self.texels[row * self.width + column]
    }

    /// Whether `column` of `row` is a place of this image.
    pub open spec fn contains(self, column: int, row: int) -> bool {
        0 <= column < self.width && 0 <= row < self.height
    }

    /// The image that shows `color` everywhere.
    pub open spec fn filled(width: u16, height: u16, color: Color) -> Image {
        Image { width, height, texels: Seq::new((width * height) as nat, |i: int| color) }
    }
}

/// An image with no negative extent has no negative number of places.
pub proof fn lemma_area(width: int, height: int)
    by (nonlinear_arith)
    requires
        0 <= width,
        0 <= height,
    ensures
        0 <= width * height,
        width * height == height * width,
{
}

/// Rows do not overlap: the places of row `row` follow those of the rows
/// before it, and come before those of the rows after it.
pub proof fn lemma_row_bounds(row: int, width: int, height: int)
    by (nonlinear_arith)
    requires
        0 <= row < height,
        0 <= width,
    ensures
        0 <= row * width,
        (row + 1) * width == row * width + width,
        (row + 1) * width <= height * width,
        width * height == height * width,
        0 <= width * height,
{
}

/// The place of a texel in memory gives its row and its column back.
pub proof fn lemma_place(column: int, row: int, width: int)
    requires
        0 <= column < width,
    ensures
        (row * width + column) / width == row,
        (row * width + column) % width == column,
{
    vstd::arithmetic::div_mod::lemma_fundamental_div_mod_converse(
        row * width + column,
        width,
        row,
        column,
    );
}

/// Every place of an image is a place in its memory.
pub proof fn lemma_place_in_memory(column: int, row: int, width: int, height: int)
    requires
        0 <= column < width,
        0 <= row < height,
    ensures
        0 <= row * width + column < width * height,
{
    lemma_row_bounds(row, width, height);
}

} // verus!
