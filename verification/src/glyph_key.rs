//! The key of a rendering request.

use crate::database::same_id;
use crate::memo::MemoKey;
use vstd::prelude::*;

verus! {

/// A quarter of a pixel: the fraction of a pen position that a glyph is
/// rendered at.
#[derive(Clone, Copy, Debug, PartialEq, Eq, Hash, Structural)]
pub enum SubpixelBin {
    Zero,
    One,
    Two,
    Three,
}

impl SubpixelBin {
    /// The offset in quarters of a pixel.
    pub open spec fn quarters_model(self) -> int {
        match self {
            SubpixelBin::Zero => 0,
            SubpixelBin::One => 1,
            SubpixelBin::Two => 2,
            SubpixelBin::Three => 3,
        }
    }

    /// The bin of a position that is counted in quarters of a pixel: what the
    /// position lies above the whole pixel at or below it.
    pub open spec fn of(quarters: int) -> SubpixelBin {
        if quarters % 4 == 0 {
            SubpixelBin::Zero
        } else if quarters % 4 == 1 {
            SubpixelBin::One
        } else if quarters % 4 == 2 {
            SubpixelBin::Two
        } else {
            SubpixelBin::Three
        }
    }

    /// Splits a position that is counted in quarters of a pixel into the whole
    /// pixel at or below it and the bin above that pixel.
    pub fn split(quarters: i32) -> (r: (i32, SubpixelBin))
        ensures
            r.0 * 4 + r.1.quarters_model() == quarters,
            r.0 == quarters as int / 4,
            r.1 == SubpixelBin::of(quarters as int),
    {
        let (pixel, rest): (i32, i32) = if quarters >= 0 {
            (quarters / 4, quarters % 4)
        } else {
            let below: i32 = -(quarters + 1);
            (-(below / 4) - 1, 3 - below % 4)
        };
        let bin = if rest == 0 {
            SubpixelBin::Zero
        } else if rest == 1 {
            SubpixelBin::One
        } else if rest == 2 {
            SubpixelBin::Two
        } else {
            SubpixelBin::Three
        };
        (pixel, bin)
    }

    /// The offset in quarters of a pixel.
    pub fn quarters(self) -> (q: u8)
        ensures
            q == self.quarters_model(),
    {
        match self {
            SubpixelBin::Zero => 0,
            SubpixelBin::One => 1,
            SubpixelBin::Two => 2,
            SubpixelBin::Three => 3,
        }
    }
}

/// The key of a rendering request: a glyph of a face, at a size and at a
/// sub-pixel offset.
/// Two requests with equal keys are the same request.
#[derive(Clone, Copy, Debug, PartialEq, Eq, Hash)]
pub struct GlyphKey {
    pub font_id: fontdb::ID,
    /// The index of the glyph within the face (not a character code).
    pub glyph_id: u16,
    /// The size in pixels per em.
    pub font_size: i32,
    pub x_bin: SubpixelBin,
    pub y_bin: SubpixelBin,
}

/// The key of the glyph `glyph_id` of the face `font_id` at `font_size`, at a
/// pen position that is counted in quarters of a pixel.
pub open spec fn glyph_key_at(
    font_id: fontdb::ID,
    glyph_id: u16,
    font_size: i32,
    x: int,
    y: int,
) -> GlyphKey {
    GlyphKey { font_id, glyph_id, font_size, x_bin: SubpixelBin::of(x), y_bin: SubpixelBin::of(y) }
}

impl GlyphKey {
    /// The key of a glyph at a pen position, which is counted in quarters of a
    /// pixel, together with the whole pixel that the glyph is drawn at.
    pub fn new(font_id: fontdb::ID, glyph_id: u16, font_size: i32, x: i32, y: i32) -> (r: (
        GlyphKey,
        i32,
        i32,
    ))
        ensures
            r.0 == glyph_key_at(font_id, glyph_id, font_size, x as int, y as int),
            r.1 == x as int / 4,
            r.2 == y as int / 4,
    {
        let (x, x_bin) = SubpixelBin::split(x);
        let (y, y_bin) = SubpixelBin::split(y);
        (GlyphKey { font_id, glyph_id, font_size, x_bin, y_bin }, x, y)
    }
}

/// Two pen positions of one glyph of one face at one size give the same key
/// exactly when they fall into the same bins: when they lie the same number of
/// quarters above a whole pixel, across and down.
pub proof fn law_same_bins_same_key(
    font_id: fontdb::ID,
    glyph_id: u16,
    font_size: i32,
    x: int,
    y: int,
    other_x: int,
    other_y: int,
)
    ensures
        glyph_key_at(font_id, glyph_id, font_size, x, y) == glyph_key_at(
            font_id,
            glyph_id,
            font_size,
            other_x,
            other_y,
        ) <==> x % 4 == other_x % 4 && y % 4 == other_y % 4,
{
}

impl MemoKey for GlyphKey {
    type Model = GlyphKey;

    open spec fn model(&self) -> GlyphKey {
        *self
    }

    fn same(&self, other: &Self) -> (r: bool) {
        same_id(self.font_id, other.font_id) && self.glyph_id == other.glyph_id && self.font_size
            == other.font_size && self.x_bin == other.x_bin && self.y_bin == other.y_bin
    }
}

} // verus!
