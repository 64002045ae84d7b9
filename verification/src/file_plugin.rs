//! The file object: it shows one page of a `.typ` file. Compiled documents
//! are kept by path, rendered pages by object, each in an LRU cache of four
//! entries.
use lru::LruCache;
use std::num::NonZeroUsize;
use typst_layout::Page;
use vstd::prelude::*;

use crate::error::PluginError;
use crate::image::RenderedImage;
use crate::lru_cache::{
    lemma_insert, lemma_promote, lemma_values_all, lru_has, lru_insert, lru_lookup, lru_promote,
    lru_valid, lru_values_all,
};
use crate::paths::{path_components, path_key, same_path, texts_of};

verus! {

#[verifier::external_type_specification]
#[verifier::external_body]
pub struct ExPage(Page);

/// How many compiled documents, and how many rendered pages, are kept.
pub const FILE_CACHE_CAPACITY: usize = 4;

/// The file object's plugin.
pub struct TypstFilePlugin {}

/// A rendered page, with what it was rendered for.
pub struct FileRenderCacheValue {
    /// Bit pattern of the scale (pixels per point) it was rendered at.
    pub ppt_bits: u64,
    /// The page number that was asked for (from 1).
    pub page: usize,
    /// The `.typ` file.
    pub path: String,
    pub image: RenderedImage,
}

/// What a file object asks to be shown.
pub struct FileRenderRequest {
    /// Bit pattern of the scale (pixels per point).
    pub ppt_bits: u64,
    /// The page number (from 1).
    pub page: usize,
    /// The `.typ` file.
    pub path: String,
}

/// What the file object does next for a frame.
#[derive(Clone, Copy, Debug, PartialEq, Eq)]
pub enum RenderPlan {
    /// The cached page was rendered for the same request: show it.
    Reuse,
    /// Render the page (see `FilePluginCache::page_index`) and store it.
    Render,
}

/// The caches of the file object.
pub struct FilePluginCache {
    /// Keyed by the path's components, so that paths equal to std are one key.
    pub compile: LruCache<Vec<String>, Vec<Page>>,
    pub render: LruCache<i64, FileRenderCacheValue>,
}

/// Name of the entries of a compile cache: path components and pages, most recently used first.
pub uninterp spec fn compile_cache_entries(cache: LruCache<Vec<String>, Vec<Page>>) -> Seq<
    (Seq<Seq<char>>, Seq<Page>),
>;

/// Name of the capacity that a compile cache was made with.
pub uninterp spec fn compile_cache_cap(cache: LruCache<Vec<String>, Vec<Page>>) -> nat;

/// Name of the entries of a render cache: object and rendered page, most recently used first.
pub uninterp spec fn file_render_cache_entries(cache: LruCache<i64, FileRenderCacheValue>) -> Seq<
    (i64, FileRenderCacheValue),
>;

/// Name of the capacity that a render cache was made with.
pub uninterp spec fn file_render_cache_cap(cache: LruCache<i64, FileRenderCacheValue>) -> nat;

/// `LruCache::new`: an empty cache that holds at most `cap` entries.
#[verifier::external_body]
fn compile_cache_new(cap: usize) -> (c: LruCache<Vec<String>, Vec<Page>>)
    requires
        cap > 0,
    ensures
        compile_cache_entries(c) == Seq::<(Seq<Seq<char>>, Seq<Page>)>::empty(),
        compile_cache_cap(c) == cap,
{
    LruCache::new(NonZeroUsize::new(cap).unwrap())
}

/// `LruCache::get`: the value under `k`, if any, whose entry moves to the front.
#[verifier::external_body]
fn compile_cache_get<'a>(c: &'a mut LruCache<Vec<String>, Vec<Page>>, k: &Vec<String>) -> (r: Option<
    &'a Vec<Page>,
>)
    ensures
        compile_cache_entries(*final(c)) == lru_promote(compile_cache_entries(*old(c)), texts_of(k@)),
        compile_cache_cap(*final(c)) == compile_cache_cap(*old(c)),
        match r {
            Some(v) => lru_lookup(compile_cache_entries(*old(c)), texts_of(k@)) == Some(v@),
            None => !lru_has(compile_cache_entries(*old(c)), texts_of(k@)),
        },
{
    c.get(k)
}

/// `LruCache::peek`: the value under `k`, if any; the order stays.
#[verifier::external_body]
fn compile_cache_peek<'a>(c: &'a LruCache<Vec<String>, Vec<Page>>, k: &Vec<String>) -> (r: Option<
    &'a Vec<Page>,
>)
    ensures
        match r {
            Some(v) => lru_lookup(compile_cache_entries(*c), texts_of(k@)) == Some(v@),
            None => !lru_has(compile_cache_entries(*c), texts_of(k@)),
        },
{
    c.peek(k)
}

/// `LruCache::put`: stores `v` under `k` (see `lru_insert`).
#[verifier::external_body]
fn compile_cache_put(c: &mut LruCache<Vec<String>, Vec<Page>>, k: Vec<String>, v: Vec<Page>)
    ensures
        compile_cache_entries(*final(c)) == lru_insert(
            compile_cache_entries(*old(c)),
            compile_cache_cap(*old(c)),
            texts_of(k@),
            v@,
        ),
        compile_cache_cap(*final(c)) == compile_cache_cap(*old(c)),
{
    c.put(k, v);
}

/// `LruCache::clear`: no entry is left; the capacity stays.
#[verifier::external_body]
fn compile_cache_clear(c: &mut LruCache<Vec<String>, Vec<Page>>)
    ensures
        compile_cache_entries(*final(c)) == Seq::<(Seq<Seq<char>>, Seq<Page>)>::empty(),
        compile_cache_cap(*final(c)) == compile_cache_cap(*old(c)),
{
    c.clear()
}

/// `LruCache::new`: an empty cache that holds at most `cap` entries.
#[verifier::external_body]
fn file_render_cache_new(cap: usize) -> (c: LruCache<i64, FileRenderCacheValue>)
    requires
        cap > 0,
    ensures
        file_render_cache_entries(c) == Seq::<(i64, FileRenderCacheValue)>::empty(),
        file_render_cache_cap(c) == cap,
{
    LruCache::new(NonZeroUsize::new(cap).unwrap())
}

/// `LruCache::get`: the value under `k`, if any, whose entry moves to the front.
#[verifier::external_body]
fn file_render_cache_get<'a>(c: &'a mut LruCache<i64, FileRenderCacheValue>, k: i64) -> (r: Option<
    &'a FileRenderCacheValue,
>)
    ensures
        file_render_cache_entries(*final(c)) == lru_promote(file_render_cache_entries(*old(c)), k),
        file_render_cache_cap(*final(c)) == file_render_cache_cap(*old(c)),
        match r {
            Some(v) => lru_lookup(file_render_cache_entries(*old(c)), k) == Some(*v),
            None => !lru_has(file_render_cache_entries(*old(c)), k),
        },
{
    c.get(&k)
}

/// `LruCache::peek`: the value under `k`, if any; the order stays.
#[verifier::external_body]
fn file_render_cache_peek<'a>(c: &'a LruCache<i64, FileRenderCacheValue>, k: i64) -> (r: Option<
    &'a FileRenderCacheValue,
>)
    ensures
        match r {
            Some(v) => lru_lookup(file_render_cache_entries(*c), k) == Some(*v),
            None => !lru_has(file_render_cache_entries(*c), k),
        },
{
    c.peek(&k)
}

/// `LruCache::put`: stores `v` under `k` (see `lru_insert`).
#[verifier::external_body]
fn file_render_cache_put(c: &mut LruCache<i64, FileRenderCacheValue>, k: i64, v: FileRenderCacheValue)
    ensures
        file_render_cache_entries(*final(c)) == lru_insert(
            file_render_cache_entries(*old(c)),
            file_render_cache_cap(*old(c)),
            k,
            v,
        ),
        file_render_cache_cap(*final(c)) == file_render_cache_cap(*old(c)),
{
    c.put(k, v);
}

/// `LruCache::clear`: no entry is left; the capacity stays.
#[verifier::external_body]
fn file_render_cache_clear(c: &mut LruCache<i64, FileRenderCacheValue>)
    ensures
        file_render_cache_entries(*final(c)) == Seq::<(i64, FileRenderCacheValue)>::empty(),
        file_render_cache_cap(*final(c)) == file_render_cache_cap(*old(c)),
{
    c.clear()
}

/// The index (from 0) of the page shown for page number `page` of a
/// document of `count` pages: the page itself, or the last one where the
/// document is shorter.
pub open spec fn page_index_for(page: nat, count: nat) -> int {
    if page <= count {
        page - 1
    } else {
        count - 1
    }
}

/// The index (from 0) of the page shown for page number `page` (from 1) of
/// a document of `count` pages: where `page` is beyond the last page, the last
/// page is shown.
pub fn selected_page_index(page: usize, count: usize) -> (idx: usize)
    requires
        page >= 1,
        count >= 1,
    ensures
        idx == page_index_for(page as nat, count as nat),
        idx < count,
{
    if page - 1 < count - 1 {
        page - 1
    } else {
        count - 1
    }
}

/// A rendered page was made for `request`.
pub open spec fn rendered_for(value: FileRenderCacheValue, request: FileRenderRequest) -> bool {
    &&& value.ppt_bits == request.ppt_bits
    &&& value.page == request.page
    &&& path_components(value.path@) == path_components(request.path@)
}

/// What the file object does for `request` of object `effect_id`, given the
/// render cache's entries: reuse the kept page only where it was rendered for
/// this very request.
pub open spec fn file_render_plan(
    entries: Seq<(i64, FileRenderCacheValue)>,
    effect_id: i64,
    request: FileRenderRequest,
) -> RenderPlan {
    match lru_lookup(entries, effect_id) {
        Some(value) => if rendered_for(value, request) {
            RenderPlan::Reuse
        } else {
            RenderPlan::Render
        },
        None => RenderPlan::Render,
    }
}

/// A kept document has at least one page.
pub open spec fn has_pages(pages: Seq<Page>) -> bool {
    pages.len() > 0
}

impl TypstFilePlugin {
    /// The file that a file object shows: an unset or empty setting is
    /// refused.
    pub fn file_setting(file: Option<String>) -> (r: Result<String, PluginError>)
        ensures
            match file {
                Some(p) => if p@.len() == 0 {
                    r == Err::<String, PluginError>(PluginError::FileNotSet)
                } else {
                    r matches Ok(q) && q@ == p@
                },
                None => r == Err::<String, PluginError>(PluginError::FileNotSet),
            },
    {
        match file {
            Some(p) => {
                if p.as_str().is_empty() {
                    Err(PluginError::FileNotSet)
                } else {
                    Ok(p)
                }
            },
            None => Err(PluginError::FileNotSet),
        }
    }
}

impl FilePluginCache {
    /// Each cache holds at most as many entries as it was made for, under
    /// distinct keys, and every kept document has pages.
    pub open spec fn wf(&self) -> bool {
        &&& lru_valid(compile_cache_entries(self.compile), self.compile_cap())
        &&& lru_valid(file_render_cache_entries(self.render), self.render_cap())
        &&& lru_values_all(compile_cache_entries(self.compile), |pages: Seq<Page>| has_pages(pages))
    }

    /// The capacity of the compile cache.
    pub open spec fn compile_cap(&self) -> nat {
        compile_cache_cap(self.compile)
    }

    /// The capacity of the render cache.
    pub open spec fn render_cap(&self) -> nat {
        file_render_cache_cap(self.render)
    }

    /// The compiled documents, by path components, most recently used first.
    pub open spec fn compiled(&self) -> Seq<(Seq<Seq<char>>, Seq<Page>)> {
        compile_cache_entries(self.compile)
    }

    /// The rendered pages, by object, most recently used first.
    pub open spec fn rendered(&self) -> Seq<(i64, FileRenderCacheValue)> {
        file_render_cache_entries(self.render)
    }

    /// Two empty caches.
    pub fn new() -> (c: Self)
        ensures
            c.wf(),
            c.compile_cap() == FILE_CACHE_CAPACITY,
            c.render_cap() == FILE_CACHE_CAPACITY,
            c.compiled().len() == 0,
            c.rendered().len() == 0,
    {
        FilePluginCache {
            compile: compile_cache_new(FILE_CACHE_CAPACITY),
            render: file_render_cache_new(FILE_CACHE_CAPACITY),
        }
    }

    /// Empties both caches.
    pub fn clear(&mut self)
        requires
            old(self).wf(),
        ensures
            final(self).wf(),
            final(self).compile_cap() == old(self).compile_cap(),
            final(self).render_cap() == old(self).render_cap(),
            final(self).compiled().len() == 0,
            final(self).rendered().len() == 0,
    {
        compile_cache_clear(&mut self.compile);
        file_render_cache_clear(&mut self.render);
    }

    /// Looks up the compiled document of `path` (or of a path equal to it),
    /// which becomes the most recently used one; gives its page count, which
    /// is at least one.
    pub fn lookup_pages(&mut self, path: &String) -> (count: Option<usize>)
        requires
            old(self).wf(),
        ensures
            final(self).wf(),
            final(self).compile_cap() == old(self).compile_cap(),
            final(self).render_cap() == old(self).render_cap(),
            final(self).compiled() == lru_promote(old(self).compiled(), path_components(path@)),
            final(self).rendered() == old(self).rendered(),
            match lru_lookup(old(self).compiled(), path_components(path@)) {
                Some(pages) => count == Some(pages.len() as usize),
                None => count is None,
            },
            count matches Some(c) ==> c >= 1,
    {
        let key = path_key(path.as_str());
        proof {
            let key_text = path_components(path@);
            lemma_promote(self.compiled(), self.compile_cap(), key_text);
            lemma_values_all(
                self.compiled(),
                self.compile_cap(),
                key_text,
                Seq::empty(),
                |pages: Seq<Page>| has_pages(pages),
            );
            if lru_has(self.compiled(), key_text) {
                let i = choose|i: int| 0 <= i < self.compiled().len() && (#[trigger] self.compiled()[i]).0 == key_text;
                assert(has_pages(self.compiled()[i].1));
            }
        }
        match compile_cache_get(&mut self.compile, &key) {
            Some(pages) => Some(pages.len()),
            None => None,
        }
    }

    /// Keeps the document compiled from `path`; a document without pages is
    /// refused and nothing is kept.
    pub fn store_pages(&mut self, path: String, pages: Vec<Page>) -> (r: Result<usize, PluginError>)
        requires
            old(self).wf(),
        ensures
            final(self).wf(),
            final(self).compile_cap() == old(self).compile_cap(),
            final(self).render_cap() == old(self).render_cap(),
            final(self).rendered() == old(self).rendered(),
            pages@.len() == 0 ==> r == Err::<usize, PluginError>(PluginError::NoPages)
                && final(self).compiled() == old(self).compiled(),
            pages@.len() > 0 ==> r == Ok::<usize, PluginError>(pages@.len() as usize)
                && final(self).compiled() == lru_insert(
                old(self).compiled(),
                old(self).compile_cap(),
                path_components(path@),
                pages@,
            ),
    {
        let count = pages.len();
        if count == 0 {
            return Err(PluginError::NoPages);
        }
        let key = path_key(path.as_str());
        proof {
            lemma_insert(self.compiled(), self.compile_cap(), path_components(path@), pages@);
            lemma_values_all(
                self.compiled(),
                self.compile_cap(),
                path_components(path@),
                pages@,
                |pages: Seq<Page>| has_pages(pages),
            );
        }
        compile_cache_put(&mut self.compile, key, pages);
        Ok(count)
    }

    /// The compiled document of `path` (or of a path equal to it), if kept;
    /// the order stays.
    pub fn pages(&self, path: &String) -> (r: Option<&Vec<Page>>)
        ensures
            match r {
                Some(pages) => lru_lookup(self.compiled(), path_components(path@)) == Some(pages@),
                None => !lru_has(self.compiled(), path_components(path@)),
            },
    {
        let key = path_key(path.as_str());
        compile_cache_peek(&self.compile, &key)
    }

    /// The index of the page that `request` shows, where the document of
    /// its path is kept: the page asked for, or the last one where the
    /// document is shorter.
    pub fn page_index(&self, request: &FileRenderRequest) -> (r: Option<usize>)
        requires
            self.wf(),
            request.page >= 1,
        ensures
            match lru_lookup(self.compiled(), path_components(request.path@)) {
                Some(pages) => r == Some(page_index_for(request.page as nat, pages.len()) as usize),
                None => r is None,
            },
    {
        let key = path_key(request.path.as_str());
        proof {
            let key_text = path_components(request.path@);
            if lru_has(self.compiled(), key_text) {
                let i = choose|i: int| 0 <= i < self.compiled().len() && (#[trigger] self.compiled()[i]).0 == key_text;
                assert(has_pages(self.compiled()[i].1));
            }
        }
        match compile_cache_peek(&self.compile, &key) {
            Some(pages) => Some(selected_page_index(request.page, pages.len())),
            None => None,
        }
    }

    /// Decides whether object `effect_id` shows its kept page again for
    /// `request`; the object's entry becomes the most recently used one.
    pub fn plan_render(&mut self, effect_id: i64, request: &FileRenderRequest) -> (plan: RenderPlan)
        requires
            old(self).wf(),
        ensures
            final(self).wf(),
            final(self).compile_cap() == old(self).compile_cap(),
            final(self).render_cap() == old(self).render_cap(),
            final(self).compiled() == old(self).compiled(),
            final(self).rendered() == lru_promote(old(self).rendered(), effect_id),
            plan == file_render_plan(old(self).rendered(), effect_id, *request),
            plan == RenderPlan::Reuse <==> (lru_lookup(old(self).rendered(), effect_id) matches Some(
                kept,
            ) && kept.ppt_bits == request.ppt_bits && kept.page == request.page && path_components(
                kept.path@,
            ) == path_components(request.path@)),
    {
        proof {
            lemma_promote(self.rendered(), self.render_cap(), effect_id);
        }
        let fresh = match file_render_cache_get(&mut self.render, effect_id) {
            Some(value) => value.ppt_bits == request.ppt_bits && value.page == request.page
                && same_path(value.path.as_str(), request.path.as_str()),
            None => false,
        };
        if fresh {
            RenderPlan::Reuse
        } else {
            RenderPlan::Render
        }
    }

    /// Keeps `image`, rendered for `request`, as what object `effect_id` shows.
    pub fn store_render(&mut self, effect_id: i64, request: FileRenderRequest, image: RenderedImage)
        requires
            old(self).wf(),
        ensures
            final(self).wf(),
            final(self).compile_cap() == old(self).compile_cap(),
            final(self).render_cap() == old(self).render_cap(),
            final(self).compiled() == old(self).compiled(),
            final(self).rendered() == lru_insert(
                old(self).rendered(),
                old(self).render_cap(),
                effect_id,
                FileRenderCacheValue {
                    ppt_bits: request.ppt_bits,
                    page: request.page,
                    path: request.path,
                    image,
                },
            ),
    {
        let value = FileRenderCacheValue {
            ppt_bits: request.ppt_bits,
            page: request.page,
            path: request.path,
            image,
        };
        proof {
            lemma_insert(self.rendered(), self.render_cap(), effect_id, value);
        }
        file_render_cache_put(&mut self.render, effect_id, value);
    }

    /// The page kept for object `effect_id`, if any; the order stays.
    pub fn rendered_image(&self, effect_id: i64) -> (r: Option<&RenderedImage>)
        ensures
            match lru_lookup(self.rendered(), effect_id) {
                Some(value) => r == Some(&value.image),
                None => r is None,
            },
    {
        match file_render_cache_peek(&self.render, effect_id) {
            Some(value) => Some(&value.image),
            None => None,
        }
    }
}

/// A page stored for a request is shown again for the same request: the
/// next decision for that object is to reuse it.
pub proof fn lemma_stored_render_is_reused(
    entries: Seq<(i64, FileRenderCacheValue)>,
    cap: nat,
    effect_id: i64,
    request: FileRenderRequest,
    image: RenderedImage,
)
    requires
        lru_valid(entries, cap),
    ensures
        file_render_plan(
            lru_insert(
                entries,
                cap,
                effect_id,
                FileRenderCacheValue {
                    ppt_bits: request.ppt_bits,
                    page: request.page,
                    path: request.path,
                    image,
                },
            ),
            effect_id,
            request,
        ) == RenderPlan::Reuse,
{
    let value = FileRenderCacheValue {
        ppt_bits: request.ppt_bits,
        page: request.page,
        path: request.path,
        image,
    };
    lemma_insert(entries, cap, effect_id, value);
}

/// A kept page is reused only where it was rendered for the very request;
/// any other request renders the selected page again.
pub proof fn lemma_reuse_only_when_rendered_for_request(
    entries: Seq<(i64, FileRenderCacheValue)>,
    effect_id: i64,
    request: FileRenderRequest,
)
    ensures
        file_render_plan(entries, effect_id, request) == RenderPlan::Reuse
            <==> (lru_lookup(entries, effect_id) matches Some(value) && rendered_for(
            value,
            request,
        )),
{
}

/// The page shown is the one asked for where the document has it, and the
/// last page otherwise.
pub proof fn lemma_page_shown(page: nat, count: nat)
    requires
        page >= 1,
        count >= 1,
    ensures
        0 <= page_index_for(page, count) < count,
        page <= count ==> page_index_for(page, count) == page - 1,
        page > count ==> page_index_for(page, count) == count - 1,
{
}

/// After the caches were cleared, every object renders its page again.
pub proof fn lemma_cleared_cache_renders_again(effect_id: i64, request: FileRenderRequest)
    ensures
        file_render_plan(Seq::empty(), effect_id, request) == RenderPlan::Render,
{
}

/// A document kept for a path is found again under that path, and under
/// every path equal to it, whatever else the cache held.
pub proof fn lemma_stored_pages_are_found(
    entries: Seq<(Seq<Seq<char>>, Seq<Page>)>,
    cap: nat,
    path: Seq<char>,
    same: Seq<char>,
    pages: Seq<Page>,
)
    requires
        lru_valid(entries, cap),
        path_components(same) == path_components(path),
    ensures
        lru_lookup(
            lru_insert(entries, cap, path_components(path), pages),
            path_components(same),
        ) == Some(pages),
{
    lemma_insert(entries, cap, path_components(path), pages);
}

/// The render cache after one frame of object `effect_id`: the lookup
/// that decides, then, unless the kept page is reused, the page rendered
/// for the request stored.
pub open spec fn rendered_after_frame(
    entries: Seq<(i64, FileRenderCacheValue)>,
    cap: nat,
    effect_id: i64,
    request: FileRenderRequest,
    image: RenderedImage,
) -> Seq<(i64, FileRenderCacheValue)> {
    let promoted = lru_promote(entries, effect_id);
    match file_render_plan(entries, effect_id, request) {
        RenderPlan::Reuse => promoted,
        RenderPlan::Render => lru_insert(
            promoted,
            cap,
            effect_id,
            FileRenderCacheValue {
                ppt_bits: request.ppt_bits,
                page: request.page,
                path: request.path,
                image,
            },
        ),
    }
}

/// After a frame, the object's entry is the most recently used one and
/// what it shows was rendered for the object's current request; the cache
/// stays valid.
pub proof fn lemma_frame_shows_current_request(
    entries: Seq<(i64, FileRenderCacheValue)>,
    cap: nat,
    effect_id: i64,
    request: FileRenderRequest,
    image: RenderedImage,
)
    requires
        lru_valid(entries, cap),
    ensures
        lru_valid(
            rendered_after_frame(entries, cap, effect_id, request, image),
            cap,
        ),
        rendered_after_frame(entries, cap, effect_id, request, image)[0].0 == effect_id,
        lru_lookup(rendered_after_frame(entries, cap, effect_id, request, image), effect_id) matches Some(value)
            && rendered_for(value, request),
{
    let promoted = lru_promote(entries, effect_id);
    lemma_promote(entries, cap, effect_id);
    let value = FileRenderCacheValue {
        ppt_bits: request.ppt_bits,
        page: request.page,
        path: request.path,
        image,
    };
    lemma_insert(promoted, cap, effect_id, value);
    assert(lru_lookup(promoted, effect_id) == lru_lookup(entries, effect_id));
}

/// A kept page is reused exactly where it was rendered at the same scale,
/// for the same page number, from the same file (a path equal to the one
/// asked for); a change of any of the three renders the page again.
pub proof fn lemma_reuse_means_same_scale_page_and_file(
    entries: Seq<(i64, FileRenderCacheValue)>,
    effect_id: i64,
    request: FileRenderRequest,
)
    ensures
        file_render_plan(entries, effect_id, request) == RenderPlan::Reuse <==> (lru_lookup(
            entries,
            effect_id,
        ) matches Some(kept) && kept.ppt_bits == request.ppt_bits && kept.page == request.page
            && path_components(kept.path@) == path_components(request.path@)),
{
}

/// After a page was stored for one request, a request of the same object
/// that differs in scale, page number or file (its path is not equal to the
/// kept one) renders again.
pub proof fn lemma_changed_request_renders_again(
    entries: Seq<(i64, FileRenderCacheValue)>,
    cap: nat,
    effect_id: i64,
    kept: FileRenderRequest,
    image: RenderedImage,
    request: FileRenderRequest,
)
    requires
        lru_valid(entries, cap),
        kept.ppt_bits != request.ppt_bits || kept.page != request.page || path_components(
            kept.path@,
        ) != path_components(request.path@),
    ensures
        file_render_plan(
            lru_insert(
                entries,
                cap,
                effect_id,
                FileRenderCacheValue {
                    ppt_bits: kept.ppt_bits,
                    page: kept.page,
                    path: kept.path,
                    image,
                },
            ),
            effect_id,
            request,
        ) == RenderPlan::Render,
{
    lemma_insert(
        entries,
        cap,
        effect_id,
        FileRenderCacheValue { ppt_bits: kept.ppt_bits, page: kept.page, path: kept.path, image },
    );
}

} // verus!
