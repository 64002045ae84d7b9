//! Where a compilation reads its files from: the text of a text object
//! itself, files of the project directory, or packages.
use vstd::prelude::*;

use crate::error::PluginError;
use crate::paths::{parent_of, parent_path, project_dir_spec, unsaved_project};

verus! {

/// Which root a file of a compilation lies under.
#[derive(Clone, Copy, Debug, PartialEq, Eq)]
pub enum VirtualRootKind {
    /// The project: the directory of the project file (text object) or of the
    /// `.typ` file (file object).
    Project,
    /// A package, obtained from the package directories or downloaded.
    Package,
}

/// Where the files under a root are read from.
#[derive(Debug, PartialEq, Eq)]
pub enum RootSource {
    /// This directory.
    Directory(String),
    /// The package store.
    Packages,
}

/// Where one file is read from.
#[derive(Debug, PartialEq, Eq)]
pub enum LoadSource {
    /// The text of the text object, which stands as the main file.
    MainText,
    /// A file under this root.
    Root(RootSource),
}

/// What a compilation reads: the text standing as the main file (empty
/// for a file object) and the project directory, if known.
pub struct TypstFileLoader {
    pub main_text: String,
    pub project: Option<String>,
}

/// Where the project's files are read from, for a loader whose project
/// directory is `project`.
pub open spec fn project_root_of(project: Option<Seq<char>>) -> Result<Seq<char>, PluginError> {
    match project {
        Some(dir) => Ok(dir),
        None => Err(PluginError::RootNotSet),
    }
}

impl TypstFileLoader {
    /// The project directory's text, if known.
    pub open spec fn project_view(&self) -> Option<Seq<char>> {
        match self.project {
            Some(d) => Some(d@),
            None => None,
        }
    }

    /// A loader for the text of a text object, with the project directory `root`.
    pub fn from_text(text: &str, root: Option<String>) -> (l: Self)
        ensures
            l.main_text@ == text@,
            l.project == root,
    {
        TypstFileLoader { main_text: String::from_str(text), project: root }
    }

    /// A loader for the `.typ` file at `path`, whose directory `parent`
    /// (the result of `Path::parent` on it) becomes the project directory;
    /// a path without one is refused.
    pub fn from_parent_dir(path: &str, parent: Option<String>) -> (r: Result<Self, PluginError>)
        ensures
            match parent {
                Some(dir) => r matches Ok(l) && l.main_text@.len() == 0 && l.project == Some(dir),
                None => r matches Err(PluginError::NoParentDir(p)) && p@ == path@,
            },
    {
        match parent {
            Some(dir) => Ok(TypstFileLoader { main_text: String::new(), project: Some(dir) }),
            None => Err(PluginError::NoParentDir(String::from_str(path))),
        }
    }

    /// A loader for the `.typ` file at `path`: relative paths in it start
    /// from its directory.
    pub fn from_file(path: &str) -> (r: Result<Self, PluginError>)
        ensures
            match parent_path(path@) {
                Some(dir) => r matches Ok(l) && l.main_text@.len() == 0 && l.project_view() == Some(
                    dir,
                ),
                None => r matches Err(PluginError::NoParentDir(p)) && p@ == path@,
            },
    {
        let parent = parent_of(path);
        Self::from_parent_dir(path, parent)
    }

    /// The project directory, if known.
    pub fn project(&self) -> (r: Option<&String>)
        ensures
            match self.project {
                Some(dir) => r == Some(&dir),
                None => r is None,
            },
    {
        match &self.project {
            Some(dir) => Some(dir),
            None => None,
        }
    }

    /// Where the files under `root` are read from: the project directory,
    /// which must be known, or the package store.
    pub fn root(&self, root: VirtualRootKind) -> (r: Result<RootSource, PluginError>)
        ensures
            root == VirtualRootKind::Package ==> r == Ok::<RootSource, PluginError>(
                RootSource::Packages,
            ),
            root == VirtualRootKind::Project ==> match project_root_of(self.project_view()) {
                Ok(dir) => r matches Ok(RootSource::Directory(d)) && d@ == dir,
                Err(e) => r == Err::<RootSource, PluginError>(e),
            },
    {
        match root {
            VirtualRootKind::Project => match &self.project {
                Some(dir) => Ok(RootSource::Directory(dir.clone())),
                None => Err(PluginError::RootNotSet),
            },
            VirtualRootKind::Package => Ok(RootSource::Packages),
        }
    }

    /// Where a file is read from: the main text where the file is the text
    /// object's main file, otherwise under its root.
    pub fn load_source(&self, is_main_text: bool, root: VirtualRootKind) -> (r: Result<
        LoadSource,
        PluginError,
    >)
        ensures
            is_main_text ==> r == Ok::<LoadSource, PluginError>(LoadSource::MainText),
            !is_main_text && root == VirtualRootKind::Package ==> r == Ok::<LoadSource, PluginError>(
                LoadSource::Root(RootSource::Packages),
            ),
            !is_main_text && root == VirtualRootKind::Project ==> match project_root_of(
                self.project_view(),
            ) {
                Ok(dir) => r matches Ok(LoadSource::Root(RootSource::Directory(d))) && d@ == dir,
                Err(e) => r == Err::<LoadSource, PluginError>(e),
            },
    {
        if is_main_text {
            Ok(LoadSource::MainText)
        } else {
            match self.root(root) {
                Ok(s) => Ok(LoadSource::Root(s)),
                Err(e) => Err(e),
            }
        }
    }
}

/// A text object of a project that was never saved cannot read the
/// project's files: the compilation fails with `RootNotSet`.
pub proof fn lemma_unsaved_project_has_no_files(project_path: Option<Seq<char>>)
    requires
        unsaved_project(project_path),
    ensures
        project_root_of(project_dir_spec(project_path)) == Err::<Seq<char>, PluginError>(
            PluginError::RootNotSet,
        ),
{
}

/// A text object of a saved project reads the project's files from the
/// directory that holds the project file.
pub proof fn lemma_saved_project_reads_its_directory(project_path: Seq<char>, dir: Seq<char>)
    requires
        project_path.len() > 0,
        parent_path(project_path) == Some(dir),
    ensures
        project_root_of(project_dir_spec(Some(project_path))) == Ok::<Seq<char>, PluginError>(dir),
{
}

} // verus!
