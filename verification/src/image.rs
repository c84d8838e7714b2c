//! Rendered glyph images and their pixels.

use vstd::prelude::*;

verus! {

/// `peniko::Color`, a color of four 8-bit components: opaque.
#[verifier::external_type_specification]
#[verifier::external_body]
pub struct ExColor(peniko::Color);

/// The color with the given red, green, blue and alpha components.
pub uninterp spec fn rgba8(r: u8, g: u8, b: u8, a: u8) -> peniko::Color;

/// `peniko::Color::rgba8`: the color made of the four components.
#[verifier::external_body]
fn color_rgba8(r: u8, g: u8, b: u8, a: u8) -> (c: peniko::Color)
    ensures
        c == rgba8(r, g, b, a),
{
    peniko::Color::rgba8(r, g, b, a)
}

/// What the bytes of an image mean.
#[derive(Clone, Copy, Debug, PartialEq, Eq, Structural)]
pub enum Content {
    /// One byte of coverage for each pixel.
    Mask,
    /// Four bytes of coverage for each pixel, one for each sub-pixel channel.
    SubpixelMask,
    /// Four bytes for each pixel: red, green, blue, alpha.
    Color,
}

impl Content {
    /// The number of bytes for each pixel.
    pub open spec fn channels(self) -> int {
        match self {
            Content::Mask => 1,
            Content::SubpixelMask => 4,
            Content::Color => 4,
        }
    }
}

/// Where an image lies relative to the glyph's origin, and its size in pixels.
/// `top` counts upwards from the origin.
#[derive(Clone, Copy, Debug, PartialEq, Eq, Structural)]
pub struct Placement {
    pub left: i32,
    pub top: i32,
    pub width: u32,
    pub height: u32,
}

/// The coordinates of every pixel of an image with this placement fit `i32`,
/// and `data_len` bytes hold every pixel of it.
pub open spec fn image_fits(content: Content, placement: Placement, data_len: int) -> bool {
    &&& placement.width <= i32::MAX
    &&& placement.height <= i32::MAX
    &&& placement.left + placement.width <= i32::MAX + 1
    &&& -placement.top <= i32::MAX
    &&& -placement.top + placement.height <= i32::MAX + 1
    &&& content.channels() * placement.width * placement.height <= data_len
}

/// A rendered glyph: rows of pixels from the top, each row from the left.
pub struct Image {
    content: Content,
    placement: Placement,
    data: Vec<u8>,
}

/// One pixel for the caller to draw, in the caller's coordinates: `y` grows
/// downwards from the glyph's origin.
#[derive(Clone, Copy, Debug, PartialEq, Eq)]
pub struct Pixel {
    pub x: i32,
    pub y: i32,
    pub color: peniko::Color,
}

/// The foreground color of a mask: black, fully opaque.
pub open spec fn foreground() -> peniko::Color {
    rgba8(0, 0, 0, 255)
}

/// The pixel with the number `k` of an image, counted along the rows from the
/// top left. A pixel of a mask has the foreground color; a pixel of a color
/// image has the color that its four bytes give.
pub open spec fn pixel_at(content: Content, placement: Placement, data: Seq<u8>, k: int) -> Pixel {
    Pixel {
        x: (placement.left + k % (placement.width as int)) as i32,
        y: (-placement.top + k / (placement.width as int)) as i32,
        color: match content {
            Content::Color => rgba8(data[4 * k], data[4 * k + 1], data[4 * k + 2], data[4 * k + 3]),
            _ => foreground(),
        },
    }
}

/// The pixels that enumerating an image gives, in order: every pixel of a mask
/// or of a color image, and none of a sub-pixel mask.
pub open spec fn pixels_of(content: Content, placement: Placement, data: Seq<u8>) -> Seq<Pixel> {
    match content {
        Content::SubpixelMask => Seq::empty(),
        _ => Seq::new(
            (placement.width * placement.height) as nat,
            |k: int| pixel_at(content, placement, data, k),
        ),
    }
}

/// The pixel number of a column in a row determines both.
proof fn lemma_row_column(width: int, row: int, column: int)
    requires
        0 <= column < width,
        0 <= row,
    ensures
        (row * width + column) % width == column,
        (row * width + column) / width == row,
{
    vstd::arithmetic::div_mod::lemma_fundamental_div_mod_converse(
        row * width + column,
        width,
        row,
        column,
    );
}

/// The pixels of the rows before `row` and of the columns before `column` in it
/// are fewer than all pixels.
proof fn lemma_pixel_number(width: int, height: int, row: int, column: int)
    requires
        0 <= column < width,
        0 <= row < height,
    ensures
        0 <= row * width + column < width * height,
        (row + 1) * width == row * width + width,
{
    assert(row * width + column < (row + 1) * width) by (nonlinear_arith)
        requires
            0 <= column < width,
            0 <= row,
    ;
    assert((row + 1) * width <= height * width) by (nonlinear_arith)
        requires
            0 <= row < height,
            0 < width,
    ;
    assert(0 <= row * width) by (nonlinear_arith)
        requires
            0 <= row,
            0 < width,
    ;
    assert(height * width == width * height) by (nonlinear_arith);
    assert((row + 1) * width == row * width + width) by (nonlinear_arith);
}

impl Image {
    #[verifier::type_invariant]
    spec fn fits(&self) -> bool {
        image_fits(self.content, self.placement, self.data@.len() as int)
    }

    /// What the bytes mean.
    pub closed spec fn content_model(&self) -> Content {
        self.content
    }

    /// Where the image lies, and its size.
    pub closed spec fn placement_model(&self) -> Placement {
        self.placement
    }

    /// The bytes, row by row.
    pub closed spec fn bytes(&self) -> Seq<u8> {
        self.data@
    }

    /// The pixels that enumerating this image gives.
    pub open spec fn pixels_model(&self) -> Seq<Pixel> {
        pixels_of(self.content_model(), self.placement_model(), self.bytes())
    }

    /// The image with this content, placement and data, where the data holds
    /// every pixel and every pixel's coordinates fit `i32`; `None` otherwise.
    pub fn new(content: Content, placement: Placement, data: Vec<u8>) -> (r: Option<Image>)
        ensures
            r is Some <==> image_fits(content, placement, data@.len() as int),
            r is Some ==> r.unwrap().content_model() == content && r.unwrap().placement_model()
                == placement && r.unwrap().bytes() == data@,
    {
        let max: i64 = 0x7fff_ffff;
        if placement.width as i64 > max || placement.height as i64 > max {
            return None;
        }
        if placement.left as i64 + placement.width as i64 > max + 1 {
            return None;
        }
        if -(placement.top as i64) > max || -(placement.top as i64) + placement.height as i64 > max
            + 1 {
            return None;
        }
        let channels: u128 = match content {
            Content::Mask => 1,
            Content::SubpixelMask => 4,
            Content::Color => 4,
        };
        let width = placement.width as u128;
        let height = placement.height as u128;
        assert(channels * width * height <= 4 * 0x7fff_ffff * 0x7fff_ffff) by (nonlinear_arith)
            requires
                0 <= channels <= 4,
                0 <= width <= 0x7fff_ffff,
                0 <= height <= 0x7fff_ffff,
        ;
        assert(0 <= channels * width <= 4 * 0x7fff_ffff) by (nonlinear_arith)
            requires
                0 <= channels <= 4,
                0 <= width <= 0x7fff_ffff,
        ;
        if channels * width * height > data.len() as u128 {
            return None;
        }
        Some(Image { content, placement, data })
    }

    pub fn content(&self) -> (r: Content)
        ensures
            r == self.content_model(),
    {
        self.content
    }

    pub fn placement(&self) -> (r: Placement)
        ensures
            r == self.placement_model(),
    {
        self.placement
    }

    pub fn data(&self) -> (r: &Vec<u8>)
        ensures
            r@ == self.bytes(),
    {
        &self.data
    }

    /// Enumerates the pixels of this image, row by row from the top left.
    ///
    /// Each pixel lies at the image's placement plus its column and row, with
    /// the vertical placement negated. A mask gives every pixel in the fixed
    /// foreground color, fully opaque; `base` is not blended in. A color image
    /// gives every pixel in the color of its four bytes. A sub-pixel mask gives
    /// no pixels.
    pub fn pixels(&self, base: peniko::Color) -> (r: Vec<Pixel>)
        ensures
            r@ == self.pixels_model(),
    {
        proof {
            use_type_invariant(self);
        }
        let mut out: Vec<Pixel> = Vec::new();
        let left = self.placement.left;
        let top = -self.placement.top;
        let width = self.placement.width;
        let height = self.placement.height;
        match self.content {
            Content::SubpixelMask => {},
            Content::Mask => {
                let mut row: u32 = 0;
                while row < height
                    invariant
                        row <= height,
                        image_fits(self.content, self.placement, self.data@.len() as int),
                        self.content == Content::Mask,
                        left == self.placement.left,
                        top == -self.placement.top,
                        width == self.placement.width,
                        height == self.placement.height,
                        out@.len() == row * width,
                        forall|k: int|
                            0 <= k < out@.len() ==> out@[k] == pixel_at(
                                self.content,
                                self.placement,
                                self.data@,
                                k,
                            ),
                    decreases height - row,
                {
                    let mut column: u32 = 0;
                    while column < width
                        invariant
                            column <= width,
                            row < height,
                            image_fits(self.content, self.placement, self.data@.len() as int),
                            self.content == Content::Mask,
                            left == self.placement.left,
                            top == -self.placement.top,
                            width == self.placement.width,
                            height == self.placement.height,
                            out@.len() == row * width + column,
                            forall|k: int|
                                0 <= k < out@.len() ==> out@[k] == pixel_at(
                                    self.content,
                                    self.placement,
                                    self.data@,
                                    k,
                                ),
                        decreases width - column,
                    {
                        proof {
                            lemma_row_column(width as int, row as int, column as int);
                            lemma_pixel_number(
                                width as int,
                                height as int,
                                row as int,
                                column as int,
                            );
                        }
                        out.push(
                            Pixel {
                                x: left + column as i32,
                                y: top + row as i32,
                                color: color_rgba8(0, 0, 0, 255),
                            },
                        );
                        column += 1;
                    }
                    proof {
                        assert((row + 1) * width == row * width + width) by (nonlinear_arith);
                    }
                    row += 1;
                }
                proof {
                    assert(height * width == width * height) by (nonlinear_arith);
                }
            },
            Content::Color => {
                let mut row: u32 = 0;
                let mut i: usize = 0;
                while row < height
                    invariant
                        row <= height,
                        image_fits(self.content, self.placement, self.data@.len() as int),
                        self.content == Content::Color,
                        left == self.placement.left,
                        top == -self.placement.top,
                        width == self.placement.width,
                        height == self.placement.height,
                        out@.len() == row * width,
                        i == 4 * out@.len(),
                        forall|k: int|
                            0 <= k < out@.len() ==> out@[k] == pixel_at(
                                self.content,
                                self.placement,
                                self.data@,
                                k,
                            ),
                    decreases height - row,
                {
                    let mut column: u32 = 0;
                    while column < width
                        invariant
                            column <= width,
                            row < height,
                            image_fits(self.content, self.placement, self.data@.len() as int),
                            self.content == Content::Color,
                            left == self.placement.left,
                            top == -self.placement.top,
                            width == self.placement.width,
                            height == self.placement.height,
                            out@.len() == row * width + column,
                            i == 4 * out@.len(),
                            forall|k: int|
                                0 <= k < out@.len() ==> out@[k] == pixel_at(
                                    self.content,
                                    self.placement,
                                    self.data@,
                                    k,
                                ),
                        decreases width - column,
                    {
                        proof {
                            lemma_row_column(width as int, row as int, column as int);
                            lemma_pixel_number(
                                width as int,
                                height as int,
                                row as int,
                                column as int,
                            );
                            assert(4 * (width * height) == 4 * width * height)
                                by (nonlinear_arith);
                            assert(i + 4 <= self.data.len());
                        }
                        out.push(
                            Pixel {
                                x: left + column as i32,
                                y: top + row as i32,
                                color: color_rgba8(
                                    self.data[i],
                                    self.data[i + 1],
                                    self.data[i + 2],
                                    self.data[i + 3],
                                ),
                            },
                        );
                        i += 4;
                        column += 1;
                    }
                    proof {
                        assert((row + 1) * width == row * width + width) by (nonlinear_arith);
                    }
                    row += 1;
                }
                proof {
                    assert(height * width == width * height) by (nonlinear_arith);
                }
            },
        }
        assert(out@ =~= self.pixels_model());
        out
    }
}

} // verus!
