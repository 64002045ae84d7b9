//! Decision logic of the Typst plugin for AviUtl2: the render caches of the
//! text and file objects, the page that a file object shows, the page header
//! of a text object, where files and packages are looked up, and the texts
//! that the plugin reports.
pub mod diagnostics;
pub mod error;
pub mod file_loader;
pub mod file_plugin;
pub mod image;
pub mod lru_cache;
pub mod paths;
pub mod plugin;
pub mod text_plugin;
