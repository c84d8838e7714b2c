//! The glyph rasterization cache: the image and the outline of each rendering
//! request, each computed once and remembered.
//!
//! Rasterizing is the work of an engine outside this library. The cache
//! decides what is to be rasterized and how, hands that out as a job, and
//! remembers what the engine made of it.

use crate::font::Font;
use crate::glyph_key::{GlyphKey, SubpixelBin};
use crate::image::{Image, Pixel};
use crate::memo::{memo_after, memo_answer, Memo};
use crate::database::has_face;
use crate::system::{font_looked_up, FontSystem};
use std::sync::Arc;
use vstd::prelude::*;

verus! {

/// `swash::zeno::Command`, one command of a path: opaque.
#[verifier::external_type_specification]
#[verifier::external_body]
pub struct ExCommand(swash::zeno::Command);

/// The platforms whose text differs in weight.
#[derive(Clone, Copy, Debug, PartialEq, Eq, Structural)]
pub enum Platform {
    MacOs,
    Other,
}

/// How every glyph is rendered on a platform.
#[derive(Clone, Copy, Debug, PartialEq, Eq, Structural)]
pub struct RenderPolicy {
    /// Whether outlines are hinted.
    pub hint: bool,
    /// By how much outlines are emboldened, in tenths of a pixel.
    pub embolden_tenths: u8,
}

impl RenderPolicy {
    /// The policy of a platform: on macOS no hinting and outlines made bolder
    /// by two tenths, elsewhere hinting and outlines as they are.
    pub open spec fn of(platform: Platform) -> RenderPolicy {
        match platform {
            Platform::MacOs => RenderPolicy { hint: false, embolden_tenths: 2 },
            Platform::Other => RenderPolicy { hint: true, embolden_tenths: 0 },
        }
    }

    /// The policy of a platform.
    pub fn for_platform(platform: Platform) -> (r: RenderPolicy)
        ensures
            r == RenderPolicy::of(platform),
    {
        match platform {
            Platform::MacOs => RenderPolicy { hint: false, embolden_tenths: 2 },
            Platform::Other => RenderPolicy { hint: true, embolden_tenths: 0 },
        }
    }
}

/// Where a glyph's image can come from.
#[derive(Clone, Copy, Debug, PartialEq, Eq, Structural)]
pub enum RenderSource {
    /// A color outline, drawn with the palette of this index.
    ColorOutline(u16),
    /// The color bitmap strike that fits the size best.
    ColorBitmapBestFit,
    /// The scalable outline.
    Outline,
}

/// The format of the rendered pixels.
#[derive(Clone, Copy, Debug, PartialEq, Eq, Structural)]
pub enum PixelFormat {
    /// One byte of coverage for each pixel.
    Alpha,
}

/// A glyph image for the engine to render.
pub struct RenderJob {
    pub font: Arc<Font>,
    pub glyph_id: u16,
    /// The size in pixels per em.
    pub font_size: i32,
    pub hint: bool,
    /// The sources to try, in this order.
    pub sources: (RenderSource, RenderSource, RenderSource),
    pub format: PixelFormat,
    /// The horizontal offset of the rendering.
    pub x_bin: SubpixelBin,
    /// The vertical offset of the rendering.
    pub y_bin: SubpixelBin,
    pub embolden_tenths: u8,
}

/// The outlines of a glyph.
#[derive(Clone, Copy, Debug, PartialEq, Eq, Structural)]
pub enum OutlineSource {
    /// The scalable outline.
    Standard,
    /// The color outline.
    Color,
}

/// A glyph outline for the engine to scale.
pub struct OutlineJob {
    pub font: Arc<Font>,
    pub glyph_id: u16,
    /// The size in pixels per em.
    pub font_size: i32,
    pub source: OutlineSource,
}

/// The outcome of asking the cache: what was asked for, or work for the
/// engine, whose result is then handed to the cache.
pub enum Step<T, J> {
    Ready(T),
    Work(J),
}

impl<T, J> Step<T, J> {
    /// The work that is handed out, if any is.
    pub open spec fn work(self) -> Option<J> {
        match self {
            Step::Ready(_) => None,
            Step::Work(job) => Some(job),
        }
    }
}

/// The job that renders the request `key` from `font` under `policy`: the
/// sources are a color outline with the first palette, then the best-fitting
/// color bitmap, then the scalable outline.
pub open spec fn render_job(font: Arc<Font>, policy: RenderPolicy, key: GlyphKey) -> RenderJob {
    RenderJob {
        font,
        glyph_id: key.glyph_id,
        font_size: key.font_size,
        hint: policy.hint,
        sources: (
            RenderSource::ColorOutline(0),
            RenderSource::ColorBitmapBestFit,
            RenderSource::Outline,
        ),
        format: PixelFormat::Alpha,
        x_bin: key.x_bin,
        y_bin: key.y_bin,
        embolden_tenths: policy.embolden_tenths,
    }
}

/// The job for the request `key`, where its face has a font object.
pub open spec fn planned(font: Option<Arc<Font>>, policy: RenderPolicy, key: GlyphKey) -> Option<
    RenderJob,
> {
    match font {
        Some(font) => Some(render_job(font, policy, key)),
        None => None,
    }
}

/// The job that scales an outline of the request `key` from `font`.
pub open spec fn outline_job(font: Arc<Font>, key: GlyphKey, source: OutlineSource) -> OutlineJob {
    OutlineJob { font, glyph_id: key.glyph_id, font_size: key.font_size, source }
}

/// The job that scales the standard outline of the request `key`, where its
/// face has a font object.
pub open spec fn planned_outline(font: Option<Arc<Font>>, key: GlyphKey) -> Option<OutlineJob> {
    match font {
        Some(font) => Some(outline_job(font, key, OutlineSource::Standard)),
        None => None,
    }
}

/// The pixels of an image that may be missing: none where it is.
pub open spec fn pixels_of_entry(image: Option<Image>) -> Seq<Pixel> {
    match image {
        Some(image) => image.pixels_model(),
        None => Seq::empty(),
    }
}

/// The commands of an outline that may be missing.
pub open spec fn commands_of(outline: Option<Vec<swash::zeno::Command>>) -> Option<
    Seq<swash::zeno::Command>,
> {
    match outline {
        Some(commands) => Some(commands@),
        None => None,
    }
}

/// The commands of a borrowed outline that may be missing.
pub open spec fn commands_seen(outline: Option<&[swash::zeno::Command]>) -> Option<
    Seq<swash::zeno::Command>,
> {
    match outline {
        Some(commands) => Some(commands@),
        None => None,
    }
}

/// Plans the rendering of the request `cache_key`: looks up the font object of
/// its face and, where there is one, gives the job that renders the glyph
/// under `policy`. Where the face has no font object there is nothing to
/// render, and the result is `None`.
pub fn swash_image(font_system: &mut FontSystem, policy: &RenderPolicy, cache_key: GlyphKey) -> (r:
    Option<RenderJob>)
    ensures
        font_looked_up(
            *old(font_system),
            *final(font_system),
            cache_key.font_id,
            final(font_system).fonts()[cache_key.font_id],
        ),
        r == planned(final(font_system).fonts()[cache_key.font_id], *policy, cache_key),
{
    match font_system.get_font(cache_key.font_id) {
        Some(font) => Some(
            RenderJob {
                font,
                glyph_id: cache_key.glyph_id,
                font_size: cache_key.font_size,
                hint: policy.hint,
                sources: (
                    RenderSource::ColorOutline(0),
                    RenderSource::ColorBitmapBestFit,
                    RenderSource::Outline,
                ),
                format: PixelFormat::Alpha,
                x_bin: cache_key.x_bin,
                y_bin: cache_key.y_bin,
                embolden_tenths: policy.embolden_tenths,
            },
        ),
        None => None,
    }
}

/// Plans the scaling of the standard outline of the request `cache_key`, in
/// the way of [`swash_image`].
pub fn swash_outline_commands(font_system: &mut FontSystem, cache_key: GlyphKey) -> (r: Option<
    OutlineJob,
>)
    ensures
        font_looked_up(
            *old(font_system),
            *final(font_system),
            cache_key.font_id,
            final(font_system).fonts()[cache_key.font_id],
        ),
        r == planned_outline(final(font_system).fonts()[cache_key.font_id], cache_key),
{
    match font_system.get_font(cache_key.font_id) {
        Some(font) => Some(
            OutlineJob {
                font,
                glyph_id: cache_key.glyph_id,
                font_size: cache_key.font_size,
                source: OutlineSource::Standard,
            },
        ),
        None => None,
    }
}

/// The cache of rendered glyphs.
pub struct SwashCache {
    /// How glyphs are rendered.
    pub policy: RenderPolicy,
    /// The images remembered; `None` for a request that has no image.
    pub image_cache: Memo<GlyphKey, Option<Image>>,
    /// The outlines remembered; `None` for a request that has no outline.
    pub outline_command_cache: Memo<GlyphKey, Option<Vec<swash::zeno::Command>>>,
}

/// What asking a cache for the image of `key` does, where `work` is the job
/// that is handed out, if one is.
///
/// Where an outcome is remembered for `key`, nothing changes and no work is
/// handed out. Where none is, the font object of the face is looked up; where
/// the face has none, `None` is remembered for `key`; where it has one, the
/// job that renders the glyph is handed out and the cache stays as it is.
pub open spec fn image_asked(
    before: SwashCache,
    after: SwashCache,
    fonts_before: FontSystem,
    fonts_after: FontSystem,
    key: GlyphKey,
    work: Option<RenderJob>,
) -> bool {
    &&& after.policy == before.policy
    &&& after.outline_command_cache@ == before.outline_command_cache@
    &&& if before.image_cache@.contains_key(key) {
        &&& after.image_cache@ == before.image_cache@
        &&& fonts_after == fonts_before
        &&& work is None
    } else {
        &&& font_looked_up(
            fonts_before,
            fonts_after,
            key.font_id,
            fonts_after.fonts()[key.font_id],
        )
        &&& work == planned(fonts_after.fonts()[key.font_id], before.policy, key)
        &&& after.image_cache@ == if work is None {
            before.image_cache@.insert(key, None)
        } else {
            before.image_cache@
        }
    }
}

/// What asking a cache for the outline of `key` does, in the way of
/// [`image_asked`]; the job that is handed out scales the standard outline.
pub open spec fn outline_asked(
    before: SwashCache,
    after: SwashCache,
    fonts_before: FontSystem,
    fonts_after: FontSystem,
    key: GlyphKey,
    work: Option<OutlineJob>,
) -> bool {
    &&& after.policy == before.policy
    &&& after.image_cache@ == before.image_cache@
    &&& if before.outline_command_cache@.contains_key(key) {
        &&& after.outline_command_cache@ == before.outline_command_cache@
        &&& fonts_after == fonts_before
        &&& work is None
    } else {
        &&& font_looked_up(
            fonts_before,
            fonts_after,
            key.font_id,
            fonts_after.fonts()[key.font_id],
        )
        &&& work == planned_outline(fonts_after.fonts()[key.font_id], key)
        &&& after.outline_command_cache@ == if work is None {
            before.outline_command_cache@.insert(key, None)
        } else {
            before.outline_command_cache@
        }
    }
}

/// What is to be done once the engine has scaled `job` and found `outline`:
/// the color outline is tried where the standard outline is missing, and
/// nothing more where an outline was found or the color outline was tried.
pub open spec fn outline_retry(job: OutlineJob, outline: Option<Vec<swash::zeno::Command>>) -> Option<
    OutlineJob,
> {
    if outline is None && job.source == OutlineSource::Standard {
        Some(
            OutlineJob {
                font: job.font,
                glyph_id: job.glyph_id,
                font_size: job.font_size,
                source: OutlineSource::Color,
            },
        )
    } else {
        None
    }
}

/// A request for a face that the database does not hold has no image, and is
/// answered once: the first time `None` is remembered for it and no work is
/// handed out, and the second time nothing changes, in the cache or in the
/// font system, so that the face is not looked up again.
///
/// This is stated of a font system that remembers no font object for the
/// face, and of a cache that remembers nothing for the request.
pub proof fn law_missing_face_has_no_image(
    cache: SwashCache,
    once: SwashCache,
    twice: SwashCache,
    fonts: FontSystem,
    fonts_once: FontSystem,
    fonts_twice: FontSystem,
    key: GlyphKey,
    first: Option<RenderJob>,
    second: Option<RenderJob>,
)
    requires
        !has_face(fonts.database(), key.font_id),
        fonts.fonts().contains_key(key.font_id) ==> fonts.fonts()[key.font_id] is None,
        !cache.image_cache@.contains_key(key),
        image_asked(cache, once, fonts, fonts_once, key, first),
        image_asked(once, twice, fonts_once, fonts_twice, key, second),
    ensures
        first is None,
        once.image_cache@.contains_key(key) && once.image_cache@[key] is None,
        second is None,
        twice.image_cache@ == once.image_cache@,
        fonts_twice == fonts_once,
{
}

/// Requests for one glyph of one face at one size share an entry exactly when
/// their sub-pixel offsets fall into the same bins.
///
/// With the same bins the keys are equal, and what is rendered second is not
/// stored: the entry of the first stands for both. With a different bin the
/// keys differ, and each request has an entry of its own.
pub proof fn law_bins_share_or_part_entries(
    images: Map<GlyphKey, Option<Image>>,
    one: GlyphKey,
    other: GlyphKey,
    first: Option<Image>,
    second: Option<Image>,
)
    requires
        one.font_id == other.font_id,
        one.glyph_id == other.glyph_id,
        one.font_size == other.font_size,
        !images.contains_key(one),
        !images.contains_key(other),
    ensures
        (one.x_bin == other.x_bin && one.y_bin == other.y_bin) <==> one == other,
        one == other ==> memo_after(memo_after(images, one, first), other, second)
            == images.insert(one, first),
        one != other ==> memo_after(memo_after(images, one, first), other, second)
            == images.insert(one, first).insert(other, second),
        one != other ==> memo_after(memo_after(images, one, first), other, second)[one] == first,
{
}

impl SwashCache {
    /// A cache for `platform` with nothing remembered.
    pub fn new(platform: Platform) -> (r: Self)
        ensures
            r.policy == RenderPolicy::of(platform),
            r.image_cache@ == Map::<GlyphKey, Option<Image>>::empty(),
            r.outline_command_cache@ == Map::<
                GlyphKey,
                Option<Vec<swash::zeno::Command>>,
            >::empty(),
    {
        SwashCache {
            policy: RenderPolicy::for_platform(platform),
            image_cache: Memo::new(),
            outline_command_cache: Memo::new(),
        }
    }

    /// Plans the rendering of `cache_key` without regard to what is
    /// remembered, and remembers nothing: the job that renders the glyph, or
    /// `None` where the face has no font object.
    pub fn get_image_uncached(&self, font_system: &mut FontSystem, cache_key: GlyphKey) -> (r:
        Option<RenderJob>)
        ensures
            font_looked_up(
                *old(font_system),
                *final(font_system),
                cache_key.font_id,
                final(font_system).fonts()[cache_key.font_id],
            ),
            r == planned(final(font_system).fonts()[cache_key.font_id], self.policy, cache_key),
    {
        swash_image(font_system, &self.policy, cache_key)
    }

    /// The image of `cache_key`, or the job that renders it.
    ///
    /// Where an outcome is remembered for the request, it is ready. Where none
    /// is and the face has no font object, `None` is remembered and ready.
    /// Otherwise the job is handed out; its result goes to [`Self::cache_image`].
    pub fn get_image(&mut self, font_system: &mut FontSystem, cache_key: GlyphKey) -> (step: Step<
        &Option<Image>,
        RenderJob,
    >)
        ensures
            image_asked(
                *old(self),
                *final(self),
                *old(font_system),
                *final(font_system),
                cache_key,
                step.work(),
            ),
            step matches Step::Ready(image) ==> final(self).image_cache@.contains_key(cache_key)
                && *image == final(self).image_cache@[cache_key],
    {
        if !self.image_cache.contains(&cache_key) {
            match swash_image(font_system, &self.policy, cache_key) {
                Some(job) => {
                    return Step::Work(job);
                },
                None => {},
            }
        }
        Step::Ready(self.image_cache.insert_if_absent(cache_key, None))
    }

    /// Remembers `image` as the outcome of rendering `cache_key`, unless an
    /// outcome is remembered for it already, and returns the one that is
    /// remembered.
    pub fn cache_image(&mut self, cache_key: GlyphKey, image: Option<Image>) -> (r: &Option<Image>)
        ensures
            *r == memo_answer(old(self).image_cache@, cache_key, image),
            final(self).image_cache@ == memo_after(old(self).image_cache@, cache_key, image),
            final(self).outline_command_cache@ == old(self).outline_command_cache@,
            final(self).policy == old(self).policy,
    {
        self.image_cache.insert_if_absent(cache_key, image)
    }

    /// The commands of the outline of `cache_key`, or the job that scales its
    /// standard outline.
    ///
    /// Where an outcome is remembered for the request, it is ready. Where none
    /// is and the face has no font object, `None` is remembered and ready.
    /// Otherwise the job is handed out; its result goes to
    /// [`Self::outline_scaled`].
    pub fn get_outline_commands(&mut self, font_system: &mut FontSystem, cache_key: GlyphKey) -> (step:
        Step<Option<&[swash::zeno::Command]>, OutlineJob>)
        ensures
            outline_asked(
                *old(self),
                *final(self),
                *old(font_system),
                *final(font_system),
                cache_key,
                step.work(),
            ),
            step matches Step::Ready(outline) ==> final(self).outline_command_cache@.contains_key(
                cache_key,
            ) && commands_seen(outline) == commands_of(
                final(self).outline_command_cache@[cache_key],
            ),
    {
        if !self.outline_command_cache.contains(&cache_key) {
            match swash_outline_commands(font_system, cache_key) {
                Some(job) => {
                    return Step::Work(job);
                },
                None => {},
            }
        }
        match self.outline_command_cache.insert_if_absent(cache_key, None) {
            Some(commands) => Step::Ready(Some(commands.as_slice())),
            None => Step::Ready(None),
        }
    }

    /// Takes what the engine made of `job`, which was handed out for
    /// `cache_key`.
    ///
    /// Where the standard outline is missing, the job that scales the color
    /// outline is handed out and nothing is remembered yet. Otherwise
    /// `outline` is remembered for the request, unless an outcome is
    /// remembered for it already, and what is remembered is ready: the
    /// standard outline where there is one, else the color outline, else
    /// `None`.
    pub fn outline_scaled(
        &mut self,
        cache_key: GlyphKey,
        job: OutlineJob,
        outline: Option<Vec<swash::zeno::Command>>,
    ) -> (step: Step<Option<&[swash::zeno::Command]>, OutlineJob>)
        ensures
            step.work() == outline_retry(job, outline),
            final(self).outline_command_cache@ == if outline_retry(job, outline) is Some {
                old(self).outline_command_cache@
            } else {
                memo_after(old(self).outline_command_cache@, cache_key, outline)
            },
            step matches Step::Ready(found) ==> commands_seen(found) == commands_of(
                memo_answer(old(self).outline_command_cache@, cache_key, outline),
            ),
            final(self).image_cache@ == old(self).image_cache@,
            final(self).policy == old(self).policy,
    {
        if outline.is_none() && job.source == OutlineSource::Standard {
            return Step::Work(
                OutlineJob {
                    font: job.font,
                    glyph_id: job.glyph_id,
                    font_size: job.font_size,
                    source: OutlineSource::Color,
                },
            );
        }
        match self.outline_command_cache.insert_if_absent(cache_key, outline) {
            Some(commands) => Step::Ready(Some(commands.as_slice())),
            None => Step::Ready(None),
        }
    }

    /// The pixels of the image of `cache_key`, in the order in which they are
    /// to be drawn, or the job that renders the image.
    ///
    /// The image is asked for as [`Self::get_image`] does. Where it is ready,
    /// its pixels are enumerated as [`Image::pixels`] does; a request without
    /// an image has no pixels.
    pub fn with_pixels(
        &mut self,
        font_system: &mut FontSystem,
        cache_key: GlyphKey,
        base: peniko::Color,
    ) -> (step: Step<Vec<Pixel>, RenderJob>)
        ensures
            image_asked(
                *old(self),
                *final(self),
                *old(font_system),
                *final(font_system),
                cache_key,
                step.work(),
            ),
            step matches Step::Ready(pixels) ==> final(self).image_cache@.contains_key(cache_key)
                && pixels@ == pixels_of_entry(final(self).image_cache@[cache_key]),
    {
        match self.get_image(font_system, cache_key) {
            Step::Ready(image) => match image {
                Some(image) => Step::Ready(image.pixels(base)),
                None => Step::Ready(Vec::new()),
            },
            Step::Work(job) => Step::Work(job),
        }
    }
}

} // verus!
