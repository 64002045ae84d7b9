use aviutl2_typst::error::PluginError;
use aviutl2_typst::file_plugin::{
    selected_page_index, FilePluginCache, FileRenderRequest, RenderPlan, TypstFilePlugin,
};
use aviutl2_typst::image::{RenderedImage, RgbaPixel};
use typst::foundations::{Content, Smart};
use typst::layout::{Abs, Frame, Sides, Size};
use typst_layout::Page;

fn page() -> Page {
    Page {
        frame: Frame::soft(Size::zero()),
        bleed: Sides::splat(Abs::zero()),
        fill: Smart::Auto,
        numbering: None,
        supplement: Content::empty(),
        number: 1,
    }
}

fn pages(n: usize) -> Vec<Page> {
    (0..n).map(|_| page()).collect()
}

fn image(width: u32) -> RenderedImage {
    RenderedImage {
        width,
        height: 1,
        data: vec![RgbaPixel { r: 1, g: 2, b: 3, a: 255 }; width as usize],
    }
}

fn request(ppt: f64, page: usize, path: &str) -> FileRenderRequest {
    FileRenderRequest { ppt_bits: ppt.to_bits(), page, path: path.to_string() }
}

#[test]
fn page_within_document_is_shown() {
    assert_eq!(selected_page_index(1, 3), 0);
    assert_eq!(selected_page_index(2, 3), 1);
    assert_eq!(selected_page_index(3, 3), 2);
}

#[test]
fn page_beyond_document_shows_last_page() {
    assert_eq!(selected_page_index(4, 3), 2);
    assert_eq!(selected_page_index(100, 3), 2);
    assert_eq!(selected_page_index(100, 1), 0);
}

#[test]
fn unset_file_is_refused() {
    assert_eq!(TypstFilePlugin::file_setting(None), Err(PluginError::FileNotSet));
    assert_eq!(TypstFilePlugin::file_setting(Some(String::new())), Err(PluginError::FileNotSet));
    assert_eq!(
        TypstFilePlugin::file_setting(Some("doc.typ".to_string())),
        Ok("doc.typ".to_string())
    );
    assert_eq!(PluginError::FileNotSet.message(), "Typst file is not set");
}

#[test]
fn document_without_pages_is_not_kept() {
    let mut cache = FilePluginCache::new();
    let path = "a.typ".to_string();
    assert_eq!(cache.store_pages(path.clone(), Vec::new()), Err(PluginError::NoPages));
    assert_eq!(cache.lookup_pages(&path), None);
    assert!(cache.pages(&path).is_none());
    assert_eq!(PluginError::NoPages.message(), "Compiled Typst document has no pages");
}

#[test]
fn kept_document_is_found_again() {
    let mut cache = FilePluginCache::new();
    let path = "a.typ".to_string();
    assert_eq!(cache.lookup_pages(&path), None);
    assert_eq!(cache.store_pages(path.clone(), pages(3)), Ok(3));
    assert_eq!(cache.lookup_pages(&path), Some(3));
    assert_eq!(cache.pages(&path).map(|p| p.len()), Some(3));
    assert_eq!(cache.store_pages(path.clone(), pages(2)), Ok(2));
    assert_eq!(cache.lookup_pages(&path), Some(2));
}

#[test]
fn fifth_document_evicts_least_recently_used() {
    let mut cache = FilePluginCache::new();
    for i in 1..=4 {
        assert_eq!(cache.store_pages(format!("{i}.typ"), pages(i)), Ok(i));
    }
    // "1.typ" is used again, so "2.typ" is now the least recently used.
    assert_eq!(cache.lookup_pages(&"1.typ".to_string()), Some(1));
    assert_eq!(cache.store_pages("5.typ".to_string(), pages(5)), Ok(5));
    assert_eq!(cache.lookup_pages(&"2.typ".to_string()), None);
    assert_eq!(cache.lookup_pages(&"1.typ".to_string()), Some(1));
    assert_eq!(cache.lookup_pages(&"3.typ".to_string()), Some(3));
    assert_eq!(cache.lookup_pages(&"4.typ".to_string()), Some(4));
    assert_eq!(cache.lookup_pages(&"5.typ".to_string()), Some(5));
}

#[test]
fn new_object_renders_requested_page() {
    let mut cache = FilePluginCache::new();
    let req = request(1.5, 2, "a.typ");
    assert_eq!(cache.plan_render(7, &req), RenderPlan::Render);
    assert!(cache.rendered_image(7).is_none());
    assert_eq!(cache.page_index(&req), None);
    assert_eq!(cache.store_pages("a.typ".to_string(), pages(3)), Ok(3));
    assert_eq!(cache.page_index(&req), Some(1));
    assert_eq!(cache.page_index(&request(1.5, 9, "a.typ")), Some(2));
    assert_eq!(cache.page_index(&request(1.5, 1, "a//a.typ")), None);
    assert_eq!(cache.page_index(&request(1.5, 1, "./a.typ")), None);
}

#[test]
fn equal_paths_share_one_document() {
    let mut cache = FilePluginCache::new();
    assert_eq!(cache.store_pages("docs/a.typ".to_string(), pages(2)), Ok(2));
    assert_eq!(cache.lookup_pages(&"docs//a.typ".to_string()), Some(2));
    assert_eq!(cache.lookup_pages(&"docs/./a.typ".to_string()), Some(2));
    assert_eq!(cache.lookup_pages(&"docs/b.typ".to_string()), None);
    assert_eq!(cache.store_pages("docs//a.typ".to_string(), pages(3)), Ok(3));
    assert_eq!(cache.lookup_pages(&"docs/a.typ".to_string()), Some(3));
}

#[test]
fn equal_paths_reuse_rendered_page() {
    let mut cache = FilePluginCache::new();
    cache.store_render(7, request(1.0, 1, "docs/a.typ"), image(10));
    assert_eq!(cache.plan_render(7, &request(1.0, 1, "docs//a.typ")), RenderPlan::Reuse);
    assert_eq!(cache.plan_render(7, &request(1.0, 1, "docs/a.typ/")), RenderPlan::Reuse);
    assert_eq!(cache.plan_render(7, &request(1.0, 1, "docs/../a.typ")), RenderPlan::Render);
}

#[test]
fn stored_render_is_reused_for_same_request() {
    let mut cache = FilePluginCache::new();
    cache.store_render(7, request(1.5, 2, "a.typ"), image(10));
    assert_eq!(cache.plan_render(7, &request(1.5, 2, "a.typ")), RenderPlan::Reuse);
    assert_eq!(cache.rendered_image(7).map(|i| i.width), Some(10));
}

#[test]
fn changed_request_renders_again() {
    let mut cache = FilePluginCache::new();
    cache.store_render(7, request(1.5, 2, "a.typ"), image(10));
    assert_eq!(
        cache.plan_render(7, &request(2.0, 2, "a.typ")),
        RenderPlan::Render
    );
    assert_eq!(
        cache.plan_render(7, &request(1.5, 3, "a.typ")),
        RenderPlan::Render
    );
    assert_eq!(
        cache.plan_render(7, &request(1.5, 2, "b.typ")),
        RenderPlan::Render
    );
    assert_eq!(cache.plan_render(8, &request(1.5, 2, "a.typ")), RenderPlan::Render);
    cache.store_render(7, request(2.0, 1, "a.typ"), image(20));
    assert_eq!(cache.plan_render(7, &request(2.0, 1, "a.typ")), RenderPlan::Reuse);
    assert_eq!(cache.rendered_image(7).map(|i| i.width), Some(20));
}

#[test]
fn fifth_object_evicts_least_recently_used_render() {
    let mut cache = FilePluginCache::new();
    for id in 1..=4i64 {
        cache.store_render(id, request(1.0, 1, "a.typ"), image(id as u32));
    }
    assert_eq!(cache.plan_render(1, &request(1.0, 1, "a.typ")), RenderPlan::Reuse);
    cache.store_render(5, request(1.0, 1, "a.typ"), image(5));
    assert!(cache.rendered_image(2).is_none());
    for id in [1i64, 3, 4, 5] {
        assert_eq!(cache.rendered_image(id).map(|i| i.width), Some(id as u32));
    }
}

#[test]
fn cleared_cache_renders_again() {
    let mut cache = FilePluginCache::new();
    let path = "a.typ".to_string();
    assert_eq!(cache.store_pages(path.clone(), pages(1)), Ok(1));
    cache.store_render(7, request(1.0, 1, "a.typ"), image(3));
    cache.clear();
    assert_eq!(cache.lookup_pages(&path), None);
    assert!(cache.rendered_image(7).is_none());
    assert_eq!(cache.plan_render(7, &request(1.0, 1, "a.typ")), RenderPlan::Render);
}

#[test]
fn cache_of_other_capacity_works_the_same() {
    let mut cache = FilePluginCache {
        compile: lru::LruCache::new(std::num::NonZeroUsize::new(1).unwrap()),
        render: lru::LruCache::new(std::num::NonZeroUsize::new(2).unwrap()),
    };
    assert_eq!(cache.store_pages("a.typ".to_string(), pages(1)), Ok(1));
    assert_eq!(cache.store_pages("b.typ".to_string(), pages(2)), Ok(2));
    assert_eq!(cache.lookup_pages(&"a.typ".to_string()), None);
    for id in 1..=3i64 {
        cache.store_render(id, request(1.0, 1, "b.typ"), image(id as u32));
    }
    assert!(cache.rendered_image(1).is_none());
    assert_eq!(cache.rendered_image(3).map(|i| i.width), Some(3));
    cache.clear();
    assert_eq!(cache.lookup_pages(&"b.typ".to_string()), None);
    assert!(cache.rendered_image(3).is_none());
}
