//! The text object: it shows the first page of Typst code written in the
//! host, set on a page of the given width and height. Rendered pages are
//! kept by object in an LRU cache of four entries.
use lru::LruCache;
use std::num::NonZeroUsize;
use vstd::prelude::*;

use crate::error::PluginError;
use crate::image::RenderedImage;
use crate::lru_cache::{
    lemma_insert, lemma_promote, lru_has, lru_insert, lru_lookup, lru_promote, lru_valid,
};

verus! {

/// How many rendered pages are kept.
pub const TEXT_CACHE_CAPACITY: usize = 4;

/// The text object's plugin.
pub struct TypstTextPlugin {}

/// The unit in which the width and height of a text object's page are given.
#[derive(Clone, Copy, Debug, PartialEq, Eq)]
pub enum PageSizeUnit {
    Mm,
    Cm,
    In,
    Pt,
    /// Pixels: the page is sized in points, the given size divided by the scale.
    Px,
}

/// A rendered page, with what it was rendered for.
pub struct TextRenderCacheValue {
    /// Bit pattern of the scale (pixels per point) it was rendered at.
    pub ppt_bits: u64,
    /// The whole source: page header and the object's text.
    pub text: String,
    pub image: RenderedImage,
}

/// Name of the entries of a text render cache: object and rendered page, most recently used first.
pub uninterp spec fn text_render_cache_entries(cache: LruCache<i64, TextRenderCacheValue>) -> Seq<
    (i64, TextRenderCacheValue),
>;

/// Name of the capacity that a text render cache was made with.
pub uninterp spec fn text_render_cache_cap(cache: LruCache<i64, TextRenderCacheValue>) -> nat;

/// `LruCache::new`: an empty cache that holds at most `cap` entries.
#[verifier::external_body]
fn text_render_cache_new(cap: usize) -> (c: LruCache<i64, TextRenderCacheValue>)
    requires
        cap > 0,
    ensures
        text_render_cache_entries(c) == Seq::<(i64, TextRenderCacheValue)>::empty(),
        text_render_cache_cap(c) == cap,
{
    LruCache::new(NonZeroUsize::new(cap).unwrap())
}

/// `LruCache::get`: the value under `k`, if any, whose entry moves to the front.
#[verifier::external_body]
fn text_render_cache_get<'a>(c: &'a mut LruCache<i64, TextRenderCacheValue>, k: i64) -> (r: Option<
    &'a TextRenderCacheValue,
>)
    ensures
        text_render_cache_entries(*final(c)) == lru_promote(text_render_cache_entries(*old(c)), k),
        text_render_cache_cap(*final(c)) == text_render_cache_cap(*old(c)),
        match r {
            Some(v) => lru_lookup(text_render_cache_entries(*old(c)), k) == Some(*v),
            None => !lru_has(text_render_cache_entries(*old(c)), k),
        },
{
    c.get(&k)
}

/// `LruCache::peek`: the value under `k`, if any; the order stays.
#[verifier::external_body]
fn text_render_cache_peek<'a>(c: &'a LruCache<i64, TextRenderCacheValue>, k: i64) -> (r: Option<
    &'a TextRenderCacheValue,
>)
    ensures
        match r {
            Some(v) => lru_lookup(text_render_cache_entries(*c), k) == Some(*v),
            None => !lru_has(text_render_cache_entries(*c), k),
        },
{
    c.peek(&k)
}

/// `LruCache::put`: stores `v` under `k` (see `lru_insert`).
#[verifier::external_body]
fn text_render_cache_put(c: &mut LruCache<i64, TextRenderCacheValue>, k: i64, v: TextRenderCacheValue)
    ensures
        text_render_cache_entries(*final(c)) == lru_insert(
            text_render_cache_entries(*old(c)),
            text_render_cache_cap(*old(c)),
            k,
            v,
        ),
        text_render_cache_cap(*final(c)) == text_render_cache_cap(*old(c)),
{
    c.put(k, v);
}

/// `LruCache::clear`: no entry is left; the capacity stays.
#[verifier::external_body]
fn text_render_cache_clear(c: &mut LruCache<i64, TextRenderCacheValue>)
    ensures
        text_render_cache_entries(*final(c)) == Seq::<(i64, TextRenderCacheValue)>::empty(),
        text_render_cache_cap(*final(c)) == text_render_cache_cap(*old(c)),
{
    c.clear()
}

/// The unit written in the page header for `unit`.
pub open spec fn unit_suffix_of(unit: PageSizeUnit) -> Seq<char> {
    match unit {
        PageSizeUnit::Mm => "mm"@,
        PageSizeUnit::Cm => "cm"@,
        PageSizeUnit::In => "in"@,
        PageSizeUnit::Pt => "pt"@,
        PageSizeUnit::Px => "pt"@,
    }
}

/// The page header for a page `width` by `height` (as written) in `unit`.
pub open spec fn page_header_of(unit: PageSizeUnit, width: Seq<char>, height: Seq<char>) -> Seq<
    char,
> {
    "#set page(width: "@ + width + unit_suffix_of(unit) + ", height: "@ + height + unit_suffix_of(
        unit,
    ) + ")"@
}

/// A text render cache holds at most as many entries as it was made for,
/// under distinct keys.
pub open spec fn text_cache_wf(cache: LruCache<i64, TextRenderCacheValue>) -> bool {
    lru_valid(text_render_cache_entries(cache), text_render_cache_cap(cache))
}

/// A rendered page was made for this scale and source.
pub open spec fn text_rendered_for(value: TextRenderCacheValue, ppt_bits: u64, text: Seq<char>) -> bool {
    value.ppt_bits == ppt_bits && value.text@ == text
}

/// Whether object `effect_id` can show its kept page for this scale and source.
pub open spec fn text_render_reusable(
    entries: Seq<(i64, TextRenderCacheValue)>,
    effect_id: i64,
    ppt_bits: u64,
    text: Seq<char>,
) -> bool {
    lru_lookup(entries, effect_id) matches Some(value) && text_rendered_for(value, ppt_bits, text)
}

impl TypstTextPlugin {
    /// The unit written in the page header: pixels are written as points.
    pub fn unit_suffix(unit: PageSizeUnit) -> (s: &'static str)
        ensures
            s@ == unit_suffix_of(unit),
    {
        match unit {
            PageSizeUnit::Mm => "mm",
            PageSizeUnit::Cm => "cm",
            PageSizeUnit::In => "in",
            PageSizeUnit::Pt => "pt",
            PageSizeUnit::Px => "pt",
        }
    }

    /// Whether the width and height are divided by the scale before they are
    /// written: so for pixels, where the page keeps its size in pixels and its
    /// content grows with the scale.
    pub fn divides_by_scale(unit: PageSizeUnit) -> (b: bool)
        ensures
            b <==> unit == PageSizeUnit::Px,
    {
        match unit {
            PageSizeUnit::Px => true,
            _ => false,
        }
    }

    /// The page header `#set page(width: ..., height: ...)` for a page whose
    /// width and height are written as `width` and `height` in `unit`.
    pub fn page_header(unit: PageSizeUnit, width: &str, height: &str) -> (h: String)
        ensures
            h@ == page_header_of(unit, width@, height@),
            h@ == "#set page(width: "@ + width@ + unit_suffix_of(unit) + ", height: "@ + height@
                + unit_suffix_of(unit) + ")"@,
    {
        let suffix = Self::unit_suffix(unit);
        let mut h = String::from_str("#set page(width: ");
        h.append(width);
        h.append(suffix);
        h.append(", height: ");
        h.append(height);
        h.append(suffix);
        h.append(")");
        h
    }

    /// The source that is compiled: the page header, a line break, then the
    /// object's text.
    pub fn source_text(header: &str, text: &str) -> (s: String)
        ensures
            s@ == header@ + "\n"@ + text@,
    {
        let mut s = String::from_str(header);
        s.append("\n");
        s.append(text);
        s
    }

    /// The index of the page shown: the first one; a document without pages
    /// is refused.
    pub fn first_page_index(page_count: usize) -> (r: Result<usize, PluginError>)
        ensures
            page_count == 0 ==> r == Err::<usize, PluginError>(PluginError::NoPages),
            page_count > 0 ==> r == Ok::<usize, PluginError>(0),
    {
        if page_count == 0 {
            Err(PluginError::NoPages)
        } else {
            Ok(0)
        }
    }

    /// An empty render cache.
    pub fn new_render_cache() -> (c: LruCache<i64, TextRenderCacheValue>)
        ensures
            text_cache_wf(c),
            text_render_cache_cap(c) == TEXT_CACHE_CAPACITY,
            text_render_cache_entries(c).len() == 0,
    {
        text_render_cache_new(TEXT_CACHE_CAPACITY)
    }

    /// Empties the render cache.
    pub fn clear_render_cache(cache: &mut LruCache<i64, TextRenderCacheValue>)
        requires
            text_cache_wf(*old(cache)),
        ensures
            text_cache_wf(*final(cache)),
            text_render_cache_cap(*final(cache)) == text_render_cache_cap(*old(cache)),
            text_render_cache_entries(*final(cache)).len() == 0,
    {
        text_render_cache_clear(cache);
    }

    /// Whether object `effect_id` shows its kept page again: only where it
    /// was rendered at this scale from this very source. The object's entry
    /// becomes the most recently used one.
    pub fn plan_render(
        cache: &mut LruCache<i64, TextRenderCacheValue>,
        effect_id: i64,
        ppt_bits: u64,
        text: &String,
    ) -> (reuse: bool)
        requires
            text_cache_wf(*old(cache)),
        ensures
            text_cache_wf(*final(cache)),
            text_render_cache_cap(*final(cache)) == text_render_cache_cap(*old(cache)),
            text_render_cache_entries(*final(cache)) == lru_promote(
                text_render_cache_entries(*old(cache)),
                effect_id,
            ),
            reuse == text_render_reusable(
                text_render_cache_entries(*old(cache)),
                effect_id,
                ppt_bits,
                text@,
            ),
            reuse <==> (lru_lookup(text_render_cache_entries(*old(cache)), effect_id) matches Some(
                kept,
            ) && kept.ppt_bits == ppt_bits && kept.text@ == text@),
    {
        proof {
            lemma_promote(text_render_cache_entries(*cache), text_render_cache_cap(*cache), effect_id);
        }
        match text_render_cache_get(cache, effect_id) {
            Some(value) => value.ppt_bits == ppt_bits && value.text == *text,
            None => false,
        }
    }

    /// Keeps `image`, rendered at this scale from `text`, as what object
    /// `effect_id` shows.
    pub fn store_render(
        cache: &mut LruCache<i64, TextRenderCacheValue>,
        effect_id: i64,
        ppt_bits: u64,
        text: String,
        image: RenderedImage,
    )
        requires
            text_cache_wf(*old(cache)),
        ensures
            text_cache_wf(*final(cache)),
            text_render_cache_cap(*final(cache)) == text_render_cache_cap(*old(cache)),
            text_render_cache_entries(*final(cache)) == lru_insert(
                text_render_cache_entries(*old(cache)),
                text_render_cache_cap(*old(cache)),
                effect_id,
                TextRenderCacheValue { ppt_bits, text, image },
            ),
    {
        let value = TextRenderCacheValue { ppt_bits, text, image };
        proof {
            lemma_insert(text_render_cache_entries(*cache), text_render_cache_cap(*cache), effect_id, value);
        }
        text_render_cache_put(cache, effect_id, value);
    }

    /// The page kept for object `effect_id`, if any; the order stays.
    pub fn rendered_image(cache: &LruCache<i64, TextRenderCacheValue>, effect_id: i64) -> (r: Option<
        &RenderedImage,
    >)
        ensures
            match lru_lookup(text_render_cache_entries(*cache), effect_id) {
                Some(value) => r == Some(&value.image),
                None => r is None,
            },
    {
        match text_render_cache_peek(cache, effect_id) {
            Some(value) => Some(&value.image),
            None => None,
        }
    }
}

/// A page stored for a scale and source is shown again for the same scale
/// and source.
pub proof fn lemma_stored_text_render_is_reused(
    entries: Seq<(i64, TextRenderCacheValue)>,
    cap: nat,
    effect_id: i64,
    ppt_bits: u64,
    text: String,
    image: RenderedImage,
)
    requires
        lru_valid(entries, cap),
    ensures
        text_render_reusable(
            lru_insert(
                entries,
                cap,
                effect_id,
                TextRenderCacheValue { ppt_bits, text, image },
            ),
            effect_id,
            ppt_bits,
            text@,
        ),
{
    lemma_insert(
        entries,
        cap,
        effect_id,
        TextRenderCacheValue { ppt_bits, text, image },
    );
}

/// After the cache was cleared, every text object renders its page again.
pub proof fn lemma_cleared_text_cache_renders_again(effect_id: i64, ppt_bits: u64, text: Seq<char>)
    ensures
        !text_render_reusable(Seq::empty(), effect_id, ppt_bits, text),
{
}

/// The render cache after one frame of text object `effect_id`: the lookup
/// that decides, then, unless the kept page is reused, the page rendered
/// for this scale and source stored.
pub open spec fn text_rendered_after_frame(
    entries: Seq<(i64, TextRenderCacheValue)>,
    cap: nat,
    effect_id: i64,
    ppt_bits: u64,
    text: String,
    image: RenderedImage,
) -> Seq<(i64, TextRenderCacheValue)> {
    let promoted = lru_promote(entries, effect_id);
    if text_render_reusable(entries, effect_id, ppt_bits, text@) {
        promoted
    } else {
        lru_insert(
            promoted,
            cap,
            effect_id,
            TextRenderCacheValue { ppt_bits, text, image },
        )
    }
}

/// After a frame, the text object's entry is the most recently used one
/// and what it shows was rendered at its current scale from its current
/// source; the cache stays valid.
pub proof fn lemma_text_frame_shows_current_source(
    entries: Seq<(i64, TextRenderCacheValue)>,
    cap: nat,
    effect_id: i64,
    ppt_bits: u64,
    text: String,
    image: RenderedImage,
)
    requires
        lru_valid(entries, cap),
    ensures
        lru_valid(
            text_rendered_after_frame(entries, cap, effect_id, ppt_bits, text, image),
            cap,
        ),
        text_rendered_after_frame(entries, cap, effect_id, ppt_bits, text, image)[0].0 == effect_id,
        text_render_reusable(
            text_rendered_after_frame(entries, cap, effect_id, ppt_bits, text, image),
            effect_id,
            ppt_bits,
            text@,
        ),
{
    let promoted = lru_promote(entries, effect_id);
    lemma_promote(entries, cap, effect_id);
    lemma_insert(
        promoted,
        cap,
        effect_id,
        TextRenderCacheValue { ppt_bits, text, image },
    );
    assert(lru_lookup(promoted, effect_id) == lru_lookup(entries, effect_id));
}

/// A kept page is reused exactly where it was rendered at the same scale
/// from the very same source text.
pub proof fn lemma_text_reuse_means_same_scale_and_source(
    entries: Seq<(i64, TextRenderCacheValue)>,
    effect_id: i64,
    ppt_bits: u64,
    text: Seq<char>,
)
    ensures
        text_render_reusable(entries, effect_id, ppt_bits, text) <==> (lru_lookup(
            entries,
            effect_id,
        ) matches Some(kept) && kept.ppt_bits == ppt_bits && kept.text@ == text),
{
}

/// After a page was stored for one scale and source, the same object with
/// another scale or another source (even one of the same length) renders
/// again.
pub proof fn lemma_changed_source_renders_again(
    entries: Seq<(i64, TextRenderCacheValue)>,
    cap: nat,
    effect_id: i64,
    kept_ppt_bits: u64,
    kept_text: String,
    image: RenderedImage,
    ppt_bits: u64,
    text: Seq<char>,
)
    requires
        lru_valid(entries, cap),
        kept_ppt_bits != ppt_bits || kept_text@ != text,
    ensures
        !text_render_reusable(
            lru_insert(
                entries,
                cap,
                effect_id,
                TextRenderCacheValue { ppt_bits: kept_ppt_bits, text: kept_text, image },
            ),
            effect_id,
            ppt_bits,
            text,
        ),
{
    lemma_insert(
        entries,
        cap,
        effect_id,
        TextRenderCacheValue { ppt_bits: kept_ppt_bits, text: kept_text, image },
    );
}

/// Where the height stands in a header: after `#set page(width: `, the
/// width, its unit and `, height: `.
pub open spec fn height_offset(unit: PageSizeUnit, width: Seq<char>) -> int {
    ("#set page(width: "@.len() + width.len() + unit_suffix_of(unit).len() + ", height: "@.len()) as int
}

/// The header starts with `#set page(width: ` and the width as written,
/// holds the height as written after the width's unit and `, height: `,
/// and ends with the unit and `)`: neither size is cut or changed.
pub proof fn lemma_header_holds_sizes_as_written(
    unit: PageSizeUnit,
    width: Seq<char>,
    height: Seq<char>,
)
    ensures
        page_header_of(unit, width, height).len() == height_offset(unit, width) + height.len()
            + unit_suffix_of(unit).len() + 1,
        page_header_of(unit, width, height).subrange(
            "#set page(width: "@.len() as int,
            ("#set page(width: "@.len() + width.len()) as int,
        ) == width,
        page_header_of(unit, width, height).subrange(
            height_offset(unit, width),
            height_offset(unit, width) + height.len(),
        ) == height,
{
    reveal_strlit(")");
    let a = "#set page(width: "@;
    let b = ", height: "@;
    let u = unit_suffix_of(unit);
    let c = ")"@;
    let h = page_header_of(unit, width, height);
    assert(h == a + width + u + b + height + u + c);
    assert(h.subrange(a.len() as int, (a.len() + width.len()) as int) =~= width);
    assert(h.subrange(height_offset(unit, width), height_offset(unit, width) + height.len())
        =~= height);
}

/// Headers with the same width and unit are equal exactly where their
/// heights are, and with the same height and unit exactly where their
/// widths are.
pub proof fn lemma_header_determines_size(
    unit: PageSizeUnit,
    width: Seq<char>,
    height1: Seq<char>,
    height2: Seq<char>,
)
    ensures
        page_header_of(unit, width, height1) == page_header_of(unit, width, height2) <==> height1
            == height2,
        page_header_of(unit, height1, width) == page_header_of(unit, height2, width) <==> height1
            == height2,
{
    lemma_header_holds_sizes_as_written(unit, width, height1);
    lemma_header_holds_sizes_as_written(unit, width, height2);
    lemma_header_holds_sizes_as_written(unit, height1, width);
    lemma_header_holds_sizes_as_written(unit, height2, width);
    if page_header_of(unit, width, height1) == page_header_of(unit, width, height2) {
        assert(height1.len() == height2.len());
    }
    if page_header_of(unit, height1, width) == page_header_of(unit, height2, width) {
        assert(height1.len() == height2.len());
        assert(height_offset(unit, height1) == height_offset(unit, height2));
    }
}

/// Each unit is written by its own name, except pixels, which are written
/// as points.
pub proof fn lemma_unit_suffixes()
    ensures
        unit_suffix_of(PageSizeUnit::Mm) == "mm"@,
        unit_suffix_of(PageSizeUnit::Cm) == "cm"@,
        unit_suffix_of(PageSizeUnit::In) == "in"@,
        unit_suffix_of(PageSizeUnit::Pt) == "pt"@,
        unit_suffix_of(PageSizeUnit::Px) == "pt"@,
{
}

} // verus!
