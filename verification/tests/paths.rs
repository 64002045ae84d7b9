use aviutl2_typst::paths::{
    dll_dir_of, file_name_of, get_aviutl2_font_dir, get_package_cache_dir, get_package_dir,
    parent_of, path_key, project_dir_of, same_path,
};

#[test]
fn package_dirs_beside_dll() {
    assert_eq!(get_package_dir(Some("/opt/aviutl2/Plugin".to_string())), Some("/opt/aviutl2/Plugin/package".to_string()));
    assert_eq!(
        get_package_cache_dir(Some("/opt/aviutl2/Plugin".to_string())),
        Some("/opt/aviutl2/Plugin/package_cache".to_string())
    );
    assert_eq!(get_package_dir(None), None);
    assert_eq!(get_package_cache_dir(None), None);
}

#[test]
fn font_dir_in_app_data() {
    assert_eq!(get_aviutl2_font_dir("/data/aviutl2"), "/data/aviutl2/Font");
}

#[test]
fn dll_dir_is_parent_of_dll() {
    assert_eq!(dll_dir_of(Some("/opt/aviutl2/Plugin/typst.aux2".to_string())), Some("/opt/aviutl2/Plugin".to_string()));
    assert_eq!(dll_dir_of(None), None);
    assert_eq!(dll_dir_of(Some("/".to_string())), None);
}

#[test]
fn unsaved_project_has_no_directory() {
    assert_eq!(project_dir_of(None), None);
    assert_eq!(project_dir_of(Some(String::new())), None);
}

#[test]
fn saved_project_directory_holds_project_file() {
    assert_eq!(project_dir_of(Some("/home/u/movie/a.aup2".to_string())), Some("/home/u/movie".to_string()));
    assert_eq!(project_dir_of(Some("a.aup2".to_string())), Some(String::new()));
}

#[test]
fn parent_and_file_name() {
    assert_eq!(parent_of(""), None);
    assert_eq!(parent_of("/a/b.typ"), Some("/a".to_string()));
    assert_eq!(file_name_of("/a/b.typ"), Some("b.typ".to_string()));
    assert_eq!(file_name_of("/a/.."), None);
}

#[test]
fn paths_compare_by_components() {
    assert!(same_path("a/b.typ", "a//b.typ"));
    assert!(same_path("a/b.typ", "a/./b.typ"));
    assert!(same_path("a/b", "a/b/"));
    assert!(!same_path("a/b.typ", "a/c.typ"));
    assert!(!same_path("a/b.typ", "/a/b.typ"));
    assert!(!same_path("a/../b", "b"));
    assert_eq!(path_key("/a//b").len(), 3);
}
