//! The font object: the bytes of a face, ready for the rasterizer.

use crate::database::Face;
use std::sync::Arc;
use vstd::prelude::*;

verus! {

/// `swash::CacheKey`, the key under which the rasterizer caches what it
/// derives from a font: opaque.
#[verifier::external_type_specification]
#[verifier::external_body]
pub struct ExFontKey(swash::CacheKey);

/// The offset of the table directory of the font with the given index within
/// font data, as the rasterizer's font reader finds it; `None` where the data
/// is no font file or it holds no font with that index.
pub uninterp spec fn font_table_offset(data: Seq<u8>, index: u32) -> Option<u32>;

/// The place of the offset of the font with this index in the header of a
/// collection can be computed in `usize`.
pub open spec fn index_fits(index: u32) -> bool {
    12 + 4 * index <= usize::MAX
}

/// `swash::FontRef::from_index`, reduced to the offset and the key of the
/// reference it returns. Whether it returns one, and with which offset, is
/// decided by the bytes and the index alone. The key is drawn from a counter of
/// the process, so nothing is claimed of it.
///
/// The reader computes the place of the font's offset in `usize` without a
/// test, so an index for which that overflows is left out.
#[verifier::external_body]
fn font_ref_parts(data: &Vec<u8>, index: u32) -> (r: Option<(u32, swash::CacheKey)>)
    requires
        index_fits(index),
    ensures
        match r {
            Some(parts) => font_table_offset(data@, index) == Some(parts.0),
            None => font_table_offset(data@, index) is None,
        },
{
    swash::FontRef::from_index(data, index as usize).map(|font| (font.offset, font.key))
}

/// `Arc::clone`: one more handle to the same font.
#[verifier::external_body]
pub(crate) fn share(font: &Arc<Font>) -> (r: Arc<Font>)
    ensures
        r == *font,
{
    Arc::clone(font)
}

/// A face's font data together with what the rasterizer needs to read it.
pub struct Font {
    id: fontdb::ID,
    data: Vec<u8>,
    index: u32,
    offset: u32,
    key: swash::CacheKey,
}

impl Font {
    /// The face that this font was made for.
    pub closed spec fn face_id(&self) -> fontdb::ID {
        self.id
    }

    /// The bytes of the font file.
    pub closed spec fn bytes(&self) -> Seq<u8> {
        self.data@
    }

    /// The index of the face within the font file.
    pub closed spec fn face_index(&self) -> u32 {
        self.index
    }

    /// The offset of the face's table directory within the font file.
    pub closed spec fn table_offset(&self) -> u32 {
        self.offset
    }

    /// The key under which the rasterizer caches what it derives from this font.
    pub closed spec fn raster_key(&self) -> swash::CacheKey {
        self.key
    }

    /// This font is the face `id` read from `data` at `index`.
    pub open spec fn reads(&self, id: fontdb::ID, data: Seq<u8>, index: u32) -> bool {
        &&& self.face_id() == id
        &&& self.bytes() == data
        &&& self.face_index() == index
        &&& font_table_offset(data, index) == Some(self.table_offset())
    }

    /// The rasterizer's font reader finds the font with this index in `data`.
    pub open spec fn readable(data: Seq<u8>, index: u32) -> bool {
        index_fits(index) && font_table_offset(data, index) is Some
    }

    /// The font made of its parts, as they are.
    pub fn from_parts(id: fontdb::ID, data: Vec<u8>, index: u32, offset: u32, key: swash::CacheKey) -> (r:
        Font)
        ensures
            r.face_id() == id,
            r.bytes() == data@,
            r.face_index() == index,
            r.table_offset() == offset,
            r.raster_key() == key,
    {
        Font { id, data, index, offset, key }
    }

    /// The font object for `face`, whose font file holds `data`.
    ///
    /// There is one exactly when the rasterizer's font reader finds the face in
    /// the data.
    pub fn new(face: &Face, data: Vec<u8>) -> (r: Option<Font>)
        ensures
            r is Some <==> Font::readable(data@, face.index),
            r is Some ==> r.unwrap().reads(face.id, data@, face.index),
    {
        if face.index as usize > (usize::MAX - 12) / 4 {
            return None;
        }
        match font_ref_parts(&data, face.index) {
            Some(parts) => Some(Font::from_parts(face.id, data, face.index, parts.0, parts.1)),
            None => None,
        }
    }

    pub fn id(&self) -> (r: fontdb::ID)
        ensures
            r == self.face_id(),
    {
        self.id
    }

    pub fn data(&self) -> (r: &Vec<u8>)
        ensures
            r@ == self.bytes(),
    {
        &self.data
    }

    pub fn index(&self) -> (r: u32)
        ensures
            r == self.face_index(),
    {
        self.index
    }

    pub fn offset(&self) -> (r: u32)
        ensures
            r == self.table_offset(),
    {
        self.offset
    }

    pub fn key(&self) -> (r: swash::CacheKey)
        ensures
            r == self.raster_key(),
    {
        self.key
    }
}

} // verus!
