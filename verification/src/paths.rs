//! Where the plugin looks for things: the package directories beside the
//! plugin's DLL, the host's font directory, and the project directory that
//! relative paths in a text object start from.
use std::path::{Component, Path};
use vstd::prelude::*;

verus! {

/// Name of what std's `Path::join` makes of `base` and `name`.
pub uninterp spec fn joined_path(base: Seq<char>, name: Seq<char>) -> Seq<char>;

/// Name of what std's `Path::parent` gives for `path`: the path without its
/// final component, if there is one.
pub uninterp spec fn parent_path(path: Seq<char>) -> Option<Seq<char>>;

/// Name of what std's `Path::file_name` gives for `path`: its final
/// component, if there is one.
pub uninterp spec fn path_file_name(path: Seq<char>) -> Option<Seq<char>>;

/// Name of the components of `path`, as std's `Path::components` yields
/// them, each written as its `Debug` text (a prefix as its parsed kind);
/// two paths are equal to std exactly where these are.
pub uninterp spec fn path_components(path: Seq<char>) -> Seq<Seq<char>>;

/// `Path::components`, each component converted to its `Debug` text (a
/// prefix by its parsed kind); the result is the name `path_components` of
/// `path`, which is all this states.
#[verifier::external_body]
fn components_of(path: &str) -> (r: Vec<String>)
    ensures
        r@.map_values(|c: String| c@) == path_components(path@),
{
    Path::new(path).components().map(|c| match c {
        Component::Prefix(p) => format!("{:?}", p.kind()),
        other => format!("{:?}", other),
    }).collect()
}

/// The texts of a sequence of strings.
pub open spec fn texts_of(v: Seq<String>) -> Seq<Seq<char>> {
    v.map_values(|c: String| c@)
}

/// The key by which `path` is told apart from other paths: its components.
pub fn path_key(path: &str) -> (k: Vec<String>)
    ensures
        texts_of(k@) == path_components(path@),
{
    components_of(path)
}

/// Whether two paths are the same path: whether they have the same
/// components (so `a//b` and `a/b` are the same).
pub fn same_path(a: &str, b: &str) -> (r: bool)
    ensures
        r == (path_components(a@) == path_components(b@)),
{
    let x = components_of(a);
    let y = components_of(b);
    if x.len() != y.len() {
        assert(texts_of(x@).len() != texts_of(y@).len());
        return false;
    }
    let n = x.len();
    for i in 0..n
        invariant
            n == x@.len(),
            n == y@.len(),
            texts_of(x@) == path_components(a@),
            texts_of(y@) == path_components(b@),
            forall|j: int| 0 <= j < i ==> (#[trigger] x@[j])@ == y@[j]@,
    {
        if x[i] != y[i] {
            assert(texts_of(x@)[i as int] != texts_of(y@)[i as int]);
            return false;
        }
    }
    assert(texts_of(x@) =~= texts_of(y@));
    true
}

/// `Path::join`: `name` adjoined to `base`; the result is the name
/// `joined_path` of the two, which is all this states.
#[verifier::external_body]
fn path_join(base: &str, name: &str) -> (r: String)
    ensures
        r@ == joined_path(base@, name@),
{
    Path::new(base).join(name).to_string_lossy().into_owned()
}

/// `Path::parent`: the result is the name `parent_path` of `path`; as std
/// documents, the empty path has no parent.
#[verifier::external_body]
fn path_parent(path: &str) -> (r: Option<String>)
    ensures
        match r {
            Some(p) => parent_path(path@) == Some(p@),
            None => parent_path(path@) is None,
        },
        path@.len() == 0 ==> r is None,
{
    match Path::new(path).parent() {
        Some(p) => Some(p.to_string_lossy().into_owned()),
        None => None,
    }
}

/// `Path::file_name`: the result is the name `path_file_name` of `path`,
/// which is all this states.
#[verifier::external_body]
fn path_final_component(path: &str) -> (r: Option<String>)
    ensures
        match r {
            Some(p) => path_file_name(path@) == Some(p@),
            None => path_file_name(path@) is None,
        },
{
    match Path::new(path).file_name() {
        Some(p) => Some(p.to_string_lossy().into_owned()),
        None => None,
    }
}

/// The parent of `path`, as a caller sees it.
pub fn parent_of(path: &str) -> (r: Option<String>)
    ensures
        match r {
            Some(p) => parent_path(path@) == Some(p@),
            None => parent_path(path@) is None,
        },
        path@.len() == 0 ==> r is None,
{
    path_parent(path)
}

/// The final component of `path`, as a caller sees it.
pub fn file_name_of(path: &str) -> (r: Option<String>)
    ensures
        match r {
            Some(p) => path_file_name(path@) == Some(p@),
            None => path_file_name(path@) is None,
        },
{
    path_final_component(path)
}

/// The directory beside the DLL that holds packages installed by hand.
pub open spec fn package_dir_of(dll_dir: Seq<char>) -> Seq<char> {
    joined_path(dll_dir, "package"@)
}

/// The directory beside the DLL that holds downloaded packages.
pub open spec fn package_cache_dir_of(dll_dir: Seq<char>) -> Seq<char> {
    joined_path(dll_dir, "package_cache"@)
}

/// The directory of the DLL at `dll_path`, if it has one.
pub fn dll_dir_of(dll_path: Option<String>) -> (r: Option<String>)
    ensures
        match dll_path {
            Some(p) => match r {
                Some(d) => parent_path(p@) == Some(d@),
                None => parent_path(p@) is None,
            },
            None => r is None,
        },
{
    match dll_path {
        Some(p) => path_parent(p.as_str()),
        None => None,
    }
}

/// The directory of packages installed by hand: `package` in the DLL's
/// directory, where that is known.
pub fn get_package_dir(dll_dir: Option<String>) -> (r: Option<String>)
    ensures
        match dll_dir {
            Some(d) => r matches Some(p) && p@ == package_dir_of(d@),
            None => r is None,
        },
{
    match dll_dir {
        Some(d) => Some(path_join(d.as_str(), "package")),
        None => None,
    }
}

/// The directory of downloaded packages: `package_cache` in the DLL's
/// directory, where that is known.
pub fn get_package_cache_dir(dll_dir: Option<String>) -> (r: Option<String>)
    ensures
        match dll_dir {
            Some(d) => r matches Some(p) && p@ == package_cache_dir_of(d@),
            None => r is None,
        },
{
    match dll_dir {
        Some(d) => Some(path_join(d.as_str(), "package_cache")),
        None => None,
    }
}

/// The host's font directory: `Font` in its data directory.
pub fn get_aviutl2_font_dir(app_data_dir: &str) -> (r: String)
    ensures
        r@ == joined_path(app_data_dir@, "Font"@),
{
    path_join(app_data_dir, "Font")
}

/// The text of an optional path.
pub open spec fn opt_view(path: Option<String>) -> Option<Seq<char>> {
    match path {
        Some(p) => Some(p@),
        None => None,
    }
}

/// A project file path that stands for a project that was never saved.
pub open spec fn unsaved_project(project_path: Option<Seq<char>>) -> bool {
    match project_path {
        Some(p) => p.len() == 0,
        None => true,
    }
}

/// The project directory for the project file at `project_path`.
pub open spec fn project_dir_spec(project_path: Option<Seq<char>>) -> Option<Seq<char>> {
    if unsaved_project(project_path) {
        None
    } else {
        parent_path(project_path->0)
    }
}

/// The directory that relative paths in a text object start from: the one
/// that holds the project file; none while the project was never saved
/// (no path, or an empty one).
pub fn project_dir_of(project_path: Option<String>) -> (r: Option<String>)
    ensures
        match project_dir_spec(opt_view(project_path)) {
            Some(d) => r matches Some(q) && q@ == d,
            None => r is None,
        },
{
    match project_path {
        Some(p) => {
            if p.as_str().is_empty() {
                None
            } else {
                path_parent(p.as_str())
            }
        },
        None => None,
    }
}

} // verus!
