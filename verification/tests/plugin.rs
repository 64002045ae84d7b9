use aviutl2_typst::error::PluginError;
use aviutl2_typst::file_plugin::{FilePluginCache, TypstFilePlugin};
use aviutl2_typst::image::RenderedImage;
use aviutl2_typst::plugin::{require_dll_dir, clear_caches, drop_object_for, dropped_file_object, plugin_info};
use aviutl2_typst::text_plugin::TypstTextPlugin;

#[test]
fn plugin_infos() {
    let info = plugin_info("0.1.0");
    assert_eq!(info.name, "Typst for AviUtl2");
    assert_eq!(info.label, None);
    assert_eq!(info.information, "Typst for AviUtl2 v0.1.0 by karoterra");
    let info = TypstTextPlugin::info("0.1.0");
    assert_eq!(info.name, "Typstテキスト");
    assert_eq!(info.label, Some("Typst".to_string()));
    assert_eq!(info.information, "Typst Text object v0.1.0 by karoterra");
    let info = TypstFilePlugin::info("2.0");
    assert_eq!(info.name, "Typstファイル");
    assert_eq!(info.label, Some("Typst".to_string()));
    assert_eq!(info.information, "Typst File object v2.0 by karoterra");
}

#[test]
fn dropped_file_becomes_file_object() {
    let o = dropped_file_object("/docs/slide.typ");
    assert_eq!(o.name, "slide.typ");
    assert_eq!(o.effect_name, "Typstファイル");
    assert_eq!(o.file, "/docs/slide.typ");
    let o = drop_object_for("/", None);
    assert_eq!(o.name, "Typstファイル");
    assert_eq!(o.file, "/");
}

#[test]
fn plugin_needs_dll_dir() {
    assert_eq!(require_dll_dir(&Some("/p".to_string())), Ok(()));
    assert_eq!(require_dll_dir(&None), Err(PluginError::DllDirUnknown));
    assert_eq!(PluginError::DllDirUnknown.message(), "Failed to determine DLL directory.");
    assert_eq!(PluginError::CompileFailed.message(), "Failed to compile Typst document");
}

#[test]
fn clearing_forgets_everything() {
    let mut text_cache = TypstTextPlugin::new_render_cache();
    let mut file_cache = FilePluginCache::new();
    let img = || RenderedImage { width: 1, height: 1, data: Vec::new() };
    TypstTextPlugin::store_render(&mut text_cache, 1, 0, "t".to_string(), img());
    file_cache.store_render(
        1,
        aviutl2_typst::file_plugin::FileRenderRequest { ppt_bits: 0, page: 1, path: "a".to_string() },
        img(),
    );
    clear_caches(&mut text_cache, &mut file_cache);
    assert!(TypstTextPlugin::rendered_image(&text_cache, 1).is_none());
    assert!(file_cache.rendered_image(1).is_none());
}
