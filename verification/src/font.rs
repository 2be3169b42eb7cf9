//! Fonts: what a request resolves to, and the cache of loaded font handles.

use vstd::prelude::*;
use crate::keyed::{CacheKey, KeyedList};
use crate::layout::{
    is_text_size, measure_ok, text_size, LineMeasure, Size, MAX_TEXT_LEN,
};
use crate::text::{Glyph, LineRange};
use crate::text_input::{offset_from, text_offset_for_x_position};
use crate::units::UNITS_PER_PIXEL;

verus! {

/// The size, in pixels, of a font whose request names none.
pub const DEFAULT_FONT_SIZE: i32 = 12;

/// The weight of a font whose request names none: normal.
pub const DEFAULT_FONT_WEIGHT: i32 = 400;

/// A request for a font. The size is in units.
#[derive(Debug)]
pub struct FontRequest {
    pub family: String,
    pub weight: Option<i32>,
    pub pixel_size: Option<i64>,
}

/// What a font handle is cached under: size plays no part.
#[derive(Debug)]
pub struct FontCacheKey {
    pub family: String,
    pub weight: i32,
}

impl CacheKey for FontCacheKey {
    type Id = (Seq<char>, i32);

    open spec fn id(&self) -> (Seq<char>, i32) {
        (self.family@, self.weight)
    }

    fn same_key(&self, other: &Self) -> (same: bool) {
        self.weight == other.weight && self.family == other.family
    }
}

/// A font ready for use: the handle of the requested family first, then
/// those of the fallbacks in their order, and the size, in units, at which
/// it is painted.
#[derive(Debug)]
pub struct GLFont<F> {
    pub fonts: Vec<F>,
    pub pixel_size: i64,
}

/// The weight that a request resolves to.
pub open spec fn resolved_weight(weight: Option<i32>) -> i32 {
    match weight {
        Some(w) => w,
        None => DEFAULT_FONT_WEIGHT,
    }
}

/// The size, in units, that a request resolves to under a scale factor:
/// its own, or the default size times the factor. A factor of
/// `UNITS_PER_PIXEL` is a scale of one.
pub open spec fn resolved_pixel_size(pixel_size: Option<i64>, scale_factor: i32) -> int {
    match pixel_size {
        Some(size) => size as int,
        None => DEFAULT_FONT_SIZE * scale_factor,
    }
}

/// The weight that is used for a request: the one it names, or the default.
pub fn resolve_weight(weight: Option<i32>) -> (resolved: i32)
    ensures
        resolved == resolved_weight(weight),
{
    match weight {
        Some(w) => w,
        None => DEFAULT_FONT_WEIGHT,
    }
}

/// The size that is used for a request: the one it names, or the default
/// size scaled.
pub fn resolve_pixel_size(pixel_size: Option<i64>, scale_factor: i32) -> (resolved: i64)
    ensures
        resolved == resolved_pixel_size(pixel_size, scale_factor),
        pixel_size is None && scale_factor == 2 * UNITS_PER_PIXEL ==> resolved == 24
            * UNITS_PER_PIXEL,
{
    match pixel_size {
        Some(size) => size,
        None => 12 * (scale_factor as i64),
    }
}

/// Whether `font` is what loading the family at the weight gives: what the
/// fonts of the application hold for it, or, where they hold nothing, what
/// the system has.
pub open spec fn is_loaded<F, A: Fn(&String, i32) -> Option<F>, S: Fn(&String, i32) -> F>(
    family: String,
    weight: i32,
    font: F,
    app_font: A,
    system_font: S,
) -> bool {
    exists|registered: Option<F>|
        {
            &&& #[trigger] call_ensures(app_font, (&family, weight), registered)
            &&& match registered {
                Some(found) => font == found,
                None => call_ensures(system_font, (&family, weight), font),
            }
        }
}

/// Whether both loaders can be asked for every family and weight.
pub open spec fn loaders_ok<F, A: Fn(&String, i32) -> Option<F>, S: Fn(&String, i32) -> F>(
    app_font: A,
    system_font: S,
) -> bool {
    &&& forall|family: &String, weight: i32| call_requires(app_font, (family, weight))
    &&& forall|family: &String, weight: i32| call_requires(system_font, (family, weight))
}

/// The cache of loaded fonts: one handle for each family and weight.
pub struct FontCache<F> {
    pub(crate) fonts: KeyedList<FontCacheKey, F>,
}

impl<F: Copy> FontCache<F> {
    /// No family and weight is cached twice.
    pub closed spec fn well_formed(&self) -> bool {
        self.fonts.well_formed()
    }

    /// The cache as a map from family and weight to handle.
    pub closed spec fn map(&self) -> Map<(Seq<char>, i32), F> {
        self.fonts.map()
    }

    /// The number of handles that are cached.
    pub fn len(&self) -> (count: usize)
        requires
            self.well_formed(),
        ensures
            self.map().dom().finite(),
            count == self.map().dom().len(),
    {
        self.fonts.len()
    }

    /// An empty cache.
    pub fn new() -> (cache: Self)
        ensures
            cache.well_formed(),
            cache.map() == Map::<(Seq<char>, i32), F>::empty(),
    {
        FontCache { fonts: KeyedList::new() }
    }

    /// The handle of the family at the weight. A handle that is cached is
    /// returned as it is, and no loader is asked. Else the font is loaded,
    /// from the fonts of the application before those of the system, and
    /// cached.
    pub fn load_single_font<A: Fn(&String, i32) -> Option<F>, S: Fn(&String, i32) -> F>(
        &mut self,
        family: &String,
        weight: i32,
        app_font: &A,
        system_font: &S,
    ) -> (font: F)
        requires
            old(self).well_formed(),
            loaders_ok(*app_font, *system_font),
        ensures
            final(self).well_formed(),
            old(self).map().contains_key((family@, weight)) ==> font == old(self).map()[(
                family@,
                weight,
            )] && final(self).map() == old(self).map(),
            !old(self).map().contains_key((family@, weight)) ==> is_loaded(
                *family,
                weight,
                font,
                *app_font,
                *system_font,
            ) && final(self).map() == old(self).map().insert((family@, weight), font),
            final(self).map().contains_key((family@, weight)),
            final(self).map()[(family@, weight)] == font,
    {
        let key = FontCacheKey { family: family.clone(), weight };
        match self.fonts.get(&key) {
            Some(cached) => *cached,
            None => {
                let font = match app_font(family, weight) {
                    Some(found) => found,
                    None => system_font(family, weight),
                };
                self.fonts.insert(key, font);
                font
            },
        }
    }
}

/// The request with its weight and size resolved.
pub open spec fn resolved_request(request: FontRequest, scale_factor: i32) -> FontRequest {
    FontRequest {
        family: request.family,
        weight: Some(resolved_weight(request.weight)),
        pixel_size: Some(resolved_pixel_size(request.pixel_size, scale_factor) as i64),
    }
}

/// The keys of the fonts that make up a font, in their order: that of the
/// request, then those of its fallbacks.
pub open spec fn font_key(request: FontRequest, fallbacks: Seq<FontRequest>, i: int) -> (
    Seq<char>,
    i32,
) {
    if i == 0 {
        (request.family@, resolved_weight(request.weight))
    } else {
        (fallbacks[i - 1].family@, resolved_weight(fallbacks[i - 1].weight))
    }
}

/// Whether `font` is what loading gives for the key.
pub open spec fn is_loaded_for<F, A: Fn(&String, i32) -> Option<F>, S: Fn(&String, i32) -> F>(
    key: (Seq<char>, i32),
    font: F,
    app_font: A,
    system_font: S,
) -> bool {
    exists|family: String| family@ == key.0 && #[trigger] is_loaded(
        family,
        key.1,
        font,
        app_font,
        system_font,
    )
}

/// What was loaded for a family is what was loaded for its key.
pub proof fn lemma_loaded_for<F, A: Fn(&String, i32) -> Option<F>, S: Fn(&String, i32) -> F>(
    family: String,
    weight: i32,
    font: F,
    app_font: A,
    system_font: S,
)
    requires
        is_loaded(family, weight, font, app_font, system_font),
    ensures
        is_loaded_for((family@, weight), font, app_font, system_font),
{
    let key = (family@, weight);
    assert(family@ == key.0 && is_loaded(family, key.1, font, app_font, system_font));
}

/// Whether a cache that held `before` holds `after` once the fonts for
/// `count` keys were asked of it and came out as `fonts`. Each handle is the
/// one that the cache now holds for its key. What was cached before is
/// cached still, unchanged. What is new was loaded, and for one of the keys.
pub open spec fn is_font_chain<F, A: Fn(&String, i32) -> Option<F>, S: Fn(&String, i32) -> F>(
    before: Map<(Seq<char>, i32), F>,
    after: Map<(Seq<char>, i32), F>,
    request: FontRequest,
    fallbacks: Seq<FontRequest>,
    fonts: Seq<F>,
    count: int,
    app_font: A,
    system_font: S,
) -> bool {
    &&& fonts.len() == count
    &&& forall|i: int|
        0 <= i < count ==> after.contains_key(#[trigger] font_key(request, fallbacks, i))
            && after[font_key(request, fallbacks, i)] == fonts[i]
    &&& forall|k: (Seq<char>, i32)| #[trigger]
        before.contains_key(k) ==> after.contains_key(k) && after[k] == before[k]
    &&& forall|k: (Seq<char>, i32)|
        #![trigger after.contains_key(k)]
        after.contains_key(k) && !before.contains_key(k) ==> {
            &&& is_loaded_for(k, after[k], app_font, system_font)
            &&& exists|i: int| 0 <= i < count && #[trigger] font_key(request, fallbacks, i) == k
        }
}

impl<F: Copy> FontCache<F> {
    /// The font for a request. A size that the request leaves open is the
    /// default size times the scale factor, a weight that it leaves open the
    /// default weight. `fallbacks_for` says, for the resolved request, which
    /// fonts stand in for glyphs that the family lacks; the handle of each,
    /// as that of the family itself, comes from the cache or is loaded into it.
    pub fn font<
        A: Fn(&String, i32) -> Option<F>,
        S: Fn(&String, i32) -> F,
        B: FnOnce(&FontRequest) -> Vec<FontRequest>,
    >(
        &mut self,
        request: FontRequest,
        scale_factor: i32,
        fallbacks_for: B,
        app_font: &A,
        system_font: &S,
    ) -> (font: GLFont<F>)
        requires
            old(self).well_formed(),
            loaders_ok(*app_font, *system_font),
            forall|resolved: &FontRequest| call_requires(fallbacks_for, (resolved,)),
        ensures
            final(self).well_formed(),
            font.pixel_size == resolved_pixel_size(request.pixel_size, scale_factor),
            exists|fallbacks: Vec<FontRequest>|
                {
                    &&& #[trigger] call_ensures(
                        fallbacks_for,
                        (&resolved_request(request, scale_factor),),
                        fallbacks,
                    )
                    &&& is_font_chain(
                        old(self).map(),
                        final(self).map(),
                        request,
                        fallbacks@,
                        font.fonts@,
                        fallbacks@.len() as int + 1,
                        *app_font,
                        *system_font,
                    )
                },
    {
        let pixel_size: i64 = resolve_pixel_size(request.pixel_size, scale_factor);
        let weight: i32 = resolve_weight(request.weight);
        let resolved = FontRequest {
            family: request.family,
            weight: Some(weight),
            pixel_size: Some(pixel_size),
        };
        let mut fonts: Vec<F> = Vec::new();
        let primary = self.load_single_font(&resolved.family, weight, app_font, system_font);
        fonts.push(primary);
        let fallbacks = fallbacks_for(&resolved);
        proof {
            assert(font_key(request, fallbacks@, 0) == (resolved.family@, weight));
            if !old(self).map().contains_key((resolved.family@, weight)) {
                lemma_loaded_for(resolved.family, weight, primary, *app_font, *system_font);
                assert(is_loaded_for(
                    (resolved.family@, weight),
                    primary,
                    *app_font,
                    *system_font,
                ));
            }
            assert(is_font_chain(
                old(self).map(),
                self.map(),
                request,
                fallbacks@,
                fonts@,
                1,
                *app_font,
                *system_font,
            ));
        }
        let mut i: usize = 0;
        while i < fallbacks.len()
            invariant
                i <= fallbacks@.len(),
                self.well_formed(),
                loaders_ok(*app_font, *system_font),
                is_font_chain(
                    old(self).map(),
                    self.map(),
                    request,
                    fallbacks@,
                    fonts@,
                    i + 1,
                    *app_font,
                    *system_font,
                ),
            decreases fallbacks@.len() - i,
        {
            let fallback_weight: i32 = resolve_weight(fallbacks[i].weight);
            let ghost map_before = self.map();
            let ghost fonts_before = fonts@;
            let ghost key = (fallbacks@[i as int].family@, fallback_weight);
            let font = self.load_single_font(
                &fallbacks[i].family,
                fallback_weight,
                app_font,
                system_font,
            );
            fonts.push(font);
            proof {
                assert(font_key(request, fallbacks@, i + 1) == key);
                assert forall|j: int| 0 <= j < i + 2 implies self.map().contains_key(
                    #[trigger] font_key(request, fallbacks@, j),
                ) && self.map()[font_key(request, fallbacks@, j)] == fonts@[j] by {
                    if j < i + 1 {
                        assert(map_before.contains_key(font_key(request, fallbacks@, j)));
                        assert(fonts@[j] == fonts_before[j]);
                    }
                }
                assert forall|k: (Seq<char>, i32)|
                    #![trigger self.map().contains_key(k)]
                    self.map().contains_key(k) && !old(self).map().contains_key(k) implies {
                    &&& is_loaded_for(k, self.map()[k], *app_font, *system_font)
                    &&& exists|j: int|
                        0 <= j < i + 2 && #[trigger] font_key(request, fallbacks@, j) == k
                } by {
                    if map_before.contains_key(k) {
                        let j = choose|j: int|
                            0 <= j < i + 1 && #[trigger] font_key(request, fallbacks@, j) == k;
                        assert(font_key(request, fallbacks@, j) == k);
                    } else {
                        assert(k == key);
                        lemma_loaded_for(
                            fallbacks@[i as int].family,
                            fallback_weight,
                            font,
                            *app_font,
                            *system_font,
                        );
                        assert(is_loaded_for(key, font, *app_font, *system_font));
                    }
                }
            }
            i += 1;
        }
        GLFont { fonts, pixel_size }
    }
}

/// Asking twice gives the same handle: a handle that was loaded or found
/// for a family and weight is the one that every later request for that
/// family and weight gets, whatever size it asks for.
pub proof fn lemma_font_handles_are_reused<
    F,
    A: Fn(&String, i32) -> Option<F>,
    S: Fn(&String, i32) -> F,
>(
    first: Map<(Seq<char>, i32), F>,
    second: Map<(Seq<char>, i32), F>,
    third: Map<(Seq<char>, i32), F>,
    request: FontRequest,
    other_size: FontRequest,
    fallbacks: Seq<FontRequest>,
    other_fallbacks: Seq<FontRequest>,
    fonts: Seq<F>,
    other_fonts: Seq<F>,
    app_font: A,
    system_font: S,
)
    requires
        request.family@ == other_size.family@,
        request.weight == other_size.weight,
        is_font_chain(
            first,
            second,
            request,
            fallbacks,
            fonts,
            fallbacks.len() as int + 1,
            app_font,
            system_font,
        ),
        is_font_chain(
            second,
            third,
            other_size,
            other_fallbacks,
            other_fonts,
            other_fallbacks.len() as int + 1,
            app_font,
            system_font,
        ),
    ensures
        fonts[0] == other_fonts[0],
{
    let key = font_key(request, fallbacks, 0);
    assert(font_key(other_size, other_fallbacks, 0) == key);
    assert(second.contains_key(key));
}

/// The measuring of text for one font request under one scale factor.
#[derive(Debug)]
pub struct GLFontMetrics {
    pub request: FontRequest,
    pub scale_factor: i32,
}

impl GLFontMetrics {
    /// The font that is measured: that of the request under the scale factor.
    pub fn font<
        F: Copy,
        A: Fn(&String, i32) -> Option<F>,
        S: Fn(&String, i32) -> F,
        B: FnOnce(&FontRequest) -> Vec<FontRequest>,
    >(
        &self,
        cache: &mut FontCache<F>,
        fallbacks_for: B,
        app_font: &A,
        system_font: &S,
    ) -> (font: GLFont<F>)
        requires
            old(cache).well_formed(),
            loaders_ok(*app_font, *system_font),
            forall|resolved: &FontRequest| call_requires(fallbacks_for, (resolved,)),
        ensures
            final(cache).well_formed(),
            font.pixel_size == resolved_pixel_size(self.request.pixel_size, self.scale_factor),
            exists|fallbacks: Vec<FontRequest>|
                {
                    &&& #[trigger] call_ensures(
                        fallbacks_for,
                        (&resolved_request(self.request, self.scale_factor),),
                        fallbacks,
                    )
                    &&& is_font_chain(
                        old(cache).map(),
                        final(cache).map(),
                        self.request,
                        fallbacks@,
                        font.fonts@,
                        fallbacks@.len() as int + 1,
                        *app_font,
                        *system_font,
                    )
                },
    {
        let request = FontRequest {
            family: self.request.family.clone(),
            weight: self.request.weight,
            pixel_size: self.request.pixel_size,
        };
        cache.font(request, self.scale_factor, fallbacks_for, app_font, system_font)
    }

    /// The size of a text that is not wrapped: its lines are those that its
    /// line feeds mark.
    pub fn text_size<M: Fn(LineRange) -> LineMeasure>(
        &self,
        text: &[u8],
        line_height: i32,
        measure: &M,
    ) -> (size: Size)
        requires
            text@.len() <= MAX_TEXT_LEN,
            measure_ok(*measure, text@.len() as int),
        ensures
            is_text_size(size, text@, None, line_height as int, never_breaks, *measure),
    {
        text_size(text, None, line_height, &never_breaks, measure)
    }

    /// The byte offset in a text of `text_len` bytes, measured as `glyphs`,
    /// at which a click at `x` puts the cursor.
    pub fn text_offset_for_x_position(&self, glyphs: &[Glyph], text_len: usize, x: i32) -> (offset:
        usize)
        ensures
            offset == offset_from(glyphs@, text_len, x as int, 0),
    {
        text_offset_for_x_position(glyphs, text_len, x)
    }
}

/// The break query that stands in where a text is not wrapped. It is never asked.
pub fn never_breaks(max_width: i32, start: usize) -> (fitting: usize)
    ensures
        fitting == 0,
{
    0
}

} // verus!
