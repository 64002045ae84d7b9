use aviutl2_typst::error::PluginError;
use aviutl2_typst::image::{RenderedImage, RgbaPixel};
use aviutl2_typst::text_plugin::{PageSizeUnit, TypstTextPlugin};

fn image(width: u32) -> RenderedImage {
    RenderedImage { width, height: 1, data: vec![RgbaPixel { r: 0, g: 0, b: 0, a: 0 }; width as usize] }
}

#[test]
fn header_per_unit() {
    assert_eq!(
        TypstTextPlugin::page_header(PageSizeUnit::Mm, "100", "50"),
        "#set page(width: 100mm, height: 50mm)"
    );
    assert_eq!(
        TypstTextPlugin::page_header(PageSizeUnit::Cm, "10.5", "2"),
        "#set page(width: 10.5cm, height: 2cm)"
    );
    assert_eq!(TypstTextPlugin::page_header(PageSizeUnit::In, "1", "2"), "#set page(width: 1in, height: 2in)");
    assert_eq!(TypstTextPlugin::page_header(PageSizeUnit::Pt, "1", "2"), "#set page(width: 1pt, height: 2pt)");
    assert_eq!(TypstTextPlugin::page_header(PageSizeUnit::Px, "50", "25"), "#set page(width: 50pt, height: 25pt)");
}

#[test]
fn only_pixels_are_divided_by_scale() {
    assert!(TypstTextPlugin::divides_by_scale(PageSizeUnit::Px));
    for unit in [PageSizeUnit::Mm, PageSizeUnit::Cm, PageSizeUnit::In, PageSizeUnit::Pt] {
        assert!(!TypstTextPlugin::divides_by_scale(unit));
    }
    assert_eq!(TypstTextPlugin::unit_suffix(PageSizeUnit::Px), "pt");
}

#[test]
fn source_is_header_then_text() {
    let header = TypstTextPlugin::page_header(PageSizeUnit::Px, "100", "100");
    assert_eq!(
        TypstTextPlugin::source_text(&header, "Hello = world"),
        "#set page(width: 100pt, height: 100pt)\nHello = world"
    );
    assert_eq!(TypstTextPlugin::source_text("h", ""), "h\n");
}

#[test]
fn first_page_or_no_pages() {
    assert_eq!(TypstTextPlugin::first_page_index(3), Ok(0));
    assert_eq!(TypstTextPlugin::first_page_index(0), Err(PluginError::NoPages));
}

#[test]
fn text_render_reused_only_for_same_scale_and_source() {
    let mut cache = TypstTextPlugin::new_render_cache();
    let text = "#set page(width: 1pt, height: 1pt)\nA".to_string();
    let ppt = 1.0f64.to_bits();
    assert!(!TypstTextPlugin::plan_render(&mut cache, 3, ppt, &text));
    TypstTextPlugin::store_render(&mut cache, 3, ppt, text.clone(), image(4));
    assert!(TypstTextPlugin::plan_render(&mut cache, 3, ppt, &text));
    assert_eq!(TypstTextPlugin::rendered_image(&cache, 3).map(|i| i.width), Some(4));
    assert!(!TypstTextPlugin::plan_render(&mut cache, 3, 2.0f64.to_bits(), &text));
    assert!(!TypstTextPlugin::plan_render(&mut cache, 3, ppt, &"other".to_string()));
    assert!(!TypstTextPlugin::plan_render(&mut cache, 4, ppt, &text));
}

#[test]
fn fifth_text_object_evicts_least_recently_used() {
    let mut cache = TypstTextPlugin::new_render_cache();
    let text = "t".to_string();
    for id in 1..=4i64 {
        TypstTextPlugin::store_render(&mut cache, id, 0, text.clone(), image(id as u32));
    }
    assert!(TypstTextPlugin::plan_render(&mut cache, 1, 0, &text));
    TypstTextPlugin::store_render(&mut cache, 5, 0, text.clone(), image(5));
    assert!(TypstTextPlugin::rendered_image(&cache, 2).is_none());
    assert_eq!(TypstTextPlugin::rendered_image(&cache, 1).map(|i| i.width), Some(1));
}

#[test]
fn cleared_text_cache_renders_again() {
    let mut cache = TypstTextPlugin::new_render_cache();
    let text = "t".to_string();
    TypstTextPlugin::store_render(&mut cache, 1, 0, text.clone(), image(1));
    TypstTextPlugin::clear_render_cache(&mut cache);
    assert!(TypstTextPlugin::rendered_image(&cache, 1).is_none());
    assert!(!TypstTextPlugin::plan_render(&mut cache, 1, 0, &text));
}
