//! Memoized font resolution and glyph rasterization.
//!
//! Two caches stand around two engines that are not part of this library. The
//! font system ([`FontSystem`]) stands around a font database: it answers
//! which face matches a request and hands out the font object of a face, and
//! remembers every answer, also the answer that there is none. The glyph cache
//! ([`SwashCache`]) stands around a rasterizer: it remembers the image and the
//! outline of every rendering request.
//!
//! What is remembered is never replaced: the first answer to a question is the
//! answer to it from then on. The tables that hold the answers are in [`memo`].
//!
//! The database is called from within the library, and what is relied on of it
//! is written down in [`database`]. The rasterizer works in floating point and
//! is not called from here: the glyph cache hands out a job where an image or
//! an outline is missing, and takes the result back. Reading font files is
//! left to the caller as well, who hands over their contents.

pub mod attrs;
pub mod database;
pub mod font;
pub mod glyph_key;
pub mod image;
pub mod memo;
pub mod raster;
pub mod system;

pub use attrs::{Attrs, FamilyOwned, FontAttrs};
pub use font::Font;
pub use glyph_key::{GlyphKey, SubpixelBin};
pub use image::{Content, Image, Pixel, Placement};
pub use raster::{
    swash_image, swash_outline_commands, OutlineJob, OutlineSource, PixelFormat, Platform,
    RenderJob, RenderPolicy, RenderSource, Step, SwashCache,
};
pub use system::{
    load_font_data, load_font_file, load_fonts_dir, locale_or_default, FontSystem,
};
