//! The errors that the plugin reports, with their messages.
use vstd::prelude::*;

verus! {

/// Name of what std's `Debug` formatting makes of a path: its text quoted
/// and escaped.
pub uninterp spec fn path_debug_text(path: Seq<char>) -> Seq<char>;

/// Formats `path` as a `Path` with std's `Debug` (`format!("{:?}", ..)`);
/// the result is the name `path_debug_text` of the text, which is all this
/// states.
#[verifier::external_body]
fn path_debug_string(path: &str) -> (r: String)
    ensures
        r@ == path_debug_text(path@),
{
    format!("{:?}", std::path::Path::new(path))
}

/// What can go wrong while the plugin prepares a page.
#[derive(Debug, PartialEq, Eq)]
pub enum PluginError {
    /// A file object has no `.typ` file set.
    FileNotSet,
    /// The compiled document has no page to show.
    NoPages,
    /// A file of the project was asked for while no project directory is known
    /// (the project was never saved).
    RootNotSet,
    /// The given path has no parent directory.
    NoParentDir(String),
    /// The directory of the plugin's DLL is not known.
    DllDirUnknown,
    /// Typst reported errors while compiling the document.
    CompileFailed,
}

impl PluginError {
    /// The message reported for the error.
    pub open spec fn spec_message(&self) -> Seq<char> {
        match self {
            PluginError::FileNotSet => "Typst file is not set"@,
            PluginError::NoPages => "Compiled Typst document has no pages"@,
            PluginError::RootNotSet => "Root directory is not set. Please save project."@,
            PluginError::NoParentDir(path) => "Failed to resolve parent dir: "@ + path_debug_text(path@),
            PluginError::DllDirUnknown => "Failed to determine DLL directory."@,
            PluginError::CompileFailed => "Failed to compile Typst document"@,
        }
    }

    /// The message reported for the error.
    pub fn message(&self) -> (m: String)
        ensures
            m@ == self.spec_message(),
    {
        match self {
            PluginError::FileNotSet => String::from_str("Typst file is not set"),
            PluginError::NoPages => String::from_str("Compiled Typst document has no pages"),
            PluginError::RootNotSet => String::from_str(
                "Root directory is not set. Please save project.",
            ),
            PluginError::NoParentDir(path) => {
                let head = String::from_str("Failed to resolve parent dir: ");
                let quoted = path_debug_string(path.as_str());
                head.concat(quoted.as_str())
            },
            PluginError::DllDirUnknown => String::from_str("Failed to determine DLL directory."),
            PluginError::CompileFailed => String::from_str("Failed to compile Typst document"),
        }
    }
}

} // verus!
