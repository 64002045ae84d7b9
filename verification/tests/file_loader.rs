use aviutl2_typst::error::PluginError;
use aviutl2_typst::file_loader::{LoadSource, RootSource, TypstFileLoader, VirtualRootKind};
use aviutl2_typst::paths::project_dir_of;

#[test]
fn unsaved_text_object_cannot_read_project_files() {
    let loader = TypstFileLoader::from_text("= Hi", project_dir_of(None));
    assert_eq!(loader.root(VirtualRootKind::Project), Err(PluginError::RootNotSet));
    assert_eq!(
        PluginError::RootNotSet.message(),
        "Root directory is not set. Please save project."
    );
    assert_eq!(loader.load_source(false, VirtualRootKind::Project), Err(PluginError::RootNotSet));
    assert_eq!(loader.load_source(true, VirtualRootKind::Project), Ok(LoadSource::MainText));
    assert_eq!(loader.root(VirtualRootKind::Package), Ok(RootSource::Packages));
}

#[test]
fn saved_text_object_reads_project_directory() {
    let loader = TypstFileLoader::from_text("= Hi", project_dir_of(Some("/p/movie.aup2".to_string())));
    assert_eq!(loader.main_text, "= Hi");
    assert_eq!(loader.project(), Some(&"/p".to_string()));
    assert_eq!(loader.root(VirtualRootKind::Project), Ok(RootSource::Directory("/p".to_string())));
    assert_eq!(
        loader.load_source(false, VirtualRootKind::Project),
        Ok(LoadSource::Root(RootSource::Directory("/p".to_string())))
    );
    assert_eq!(
        loader.load_source(false, VirtualRootKind::Package),
        Ok(LoadSource::Root(RootSource::Packages))
    );
}

#[test]
fn file_object_reads_from_file_directory() {
    let loader = TypstFileLoader::from_file("/docs/intro/main.typ").unwrap();
    assert_eq!(loader.main_text, "");
    assert_eq!(loader.project, Some("/docs/intro".to_string()));
    assert_eq!(loader.root(VirtualRootKind::Project), Ok(RootSource::Directory("/docs/intro".to_string())));
}

#[test]
fn path_without_parent_is_refused() {
    let err = TypstFileLoader::from_file("").err().unwrap();
    assert_eq!(err, PluginError::NoParentDir(String::new()));
    assert_eq!(err.message(), "Failed to resolve parent dir: \"\"");
    let err = TypstFileLoader::from_parent_dir("/", None).err().unwrap();
    assert_eq!(err.message(), "Failed to resolve parent dir: \"/\"");
    let err = TypstFileLoader::from_parent_dir("it's", None).err().unwrap();
    assert_eq!(err.message(), "Failed to resolve parent dir: \"it's\"");
}
