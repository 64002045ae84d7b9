//! What the plugin tells the host about itself, what it does with a `.typ`
//! file dropped on the timeline, and how it forgets what it rendered.
use lru::LruCache;
use vstd::prelude::*;

use crate::error::PluginError;
use crate::file_plugin::{FilePluginCache, TypstFilePlugin};
use crate::paths::{file_name_of, path_file_name};
use crate::text_plugin::{
    text_cache_wf, text_render_cache_cap, text_render_cache_entries, TextRenderCacheValue, TypstTextPlugin,
};

verus! {

/// The plugin's name.
pub const PLUGIN_NAME: &'static str = "Typst for AviUtl2";

/// The object name given to a dropped file without a final component.
pub const FILE_OBJECT_NAME: &'static str = "Typstファイル";

/// What a plugin tells the host about itself.
pub struct PluginInfo {
    pub name: String,
    pub label: Option<String>,
    pub information: String,
}

/// The object made for a `.typ` file dropped on the timeline: a file object
/// showing that file.
pub struct DropObject {
    /// The object's name.
    pub name: String,
    /// The name of its effect.
    pub effect_name: String,
    /// The file it shows.
    pub file: String,
}

/// The plugin starts only where the directory of its DLL is known.
pub fn require_dll_dir(dll_dir: &Option<String>) -> (r: Result<(), PluginError>)
    ensures
        dll_dir is Some ==> r == Ok::<(), PluginError>(()),
        dll_dir is None ==> r == Err::<(), PluginError>(PluginError::DllDirUnknown),
{
    match dll_dir {
        Some(_) => Ok(()),
        None => Err(PluginError::DllDirUnknown),
    }
}

/// `name v<version> by karoterra`.
pub open spec fn information_of(name: Seq<char>, version: Seq<char>) -> Seq<char> {
    name + " v"@ + version + " by karoterra"@
}

fn information(name: &str, version: &str) -> (s: String)
    ensures
        s@ == information_of(name@, version@),
{
    let mut s = String::from_str(name);
    s.append(" v");
    s.append(version);
    s.append(" by karoterra");
    s
}

/// What the plugin as a whole tells the host.
pub fn plugin_info(version: &str) -> (info: PluginInfo)
    ensures
        info.name@ == PLUGIN_NAME@,
        info.label is None,
        info.information@ == information_of(PLUGIN_NAME@, version@),
{
    PluginInfo {
        name: String::from_str(PLUGIN_NAME),
        label: None,
        information: information(PLUGIN_NAME, version),
    }
}

impl TypstTextPlugin {
    /// What the text object's plugin tells the host.
    pub fn info(version: &str) -> (info: PluginInfo)
        ensures
            info.name@ == "Typstテキスト"@,
            info.label matches Some(l) && l@ == "Typst"@,
            info.information@ == information_of("Typst Text object"@, version@),
    {
        PluginInfo {
            name: String::from_str("Typstテキスト"),
            label: Some(String::from_str("Typst")),
            information: information("Typst Text object", version),
        }
    }
}

impl TypstFilePlugin {
    /// What the file object's plugin tells the host.
    pub fn info(version: &str) -> (info: PluginInfo)
        ensures
            info.name@ == "Typstファイル"@,
            info.label matches Some(l) && l@ == "Typst"@,
            info.information@ == information_of("Typst File object"@, version@),
    {
        PluginInfo {
            name: String::from_str("Typstファイル"),
            label: Some(String::from_str("Typst")),
            information: information("Typst File object", version),
        }
    }
}

/// The object for the file at `path`, whose final component (the result of
/// `Path::file_name` on it) is `file_name`: named after the file, or
/// `Typstファイル` where the path has no final component.
pub fn drop_object_for(path: &str, file_name: Option<String>) -> (o: DropObject)
    ensures
        match file_name {
            Some(n) => o.name@ == n@,
            None => o.name@ == FILE_OBJECT_NAME@,
        },
        o.effect_name@ == FILE_OBJECT_NAME@,
        o.file@ == path@,
{
    let name = match file_name {
        Some(n) => n,
        None => String::from_str(FILE_OBJECT_NAME),
    };
    DropObject {
        name,
        effect_name: String::from_str(FILE_OBJECT_NAME),
        file: String::from_str(path),
    }
}

/// The object made for the `.typ` file at `path` dropped on the timeline.
pub fn dropped_file_object(path: &str) -> (o: DropObject)
    ensures
        match path_file_name(path@) {
            Some(n) => o.name@ == n,
            None => o.name@ == FILE_OBJECT_NAME@,
        },
        o.effect_name@ == FILE_OBJECT_NAME@,
        o.file@ == path@,
{
    let file_name = file_name_of(path);
    drop_object_for(path, file_name)
}

/// Forgets every rendered page and compiled document, as the host asks
/// when it clears its caches.
pub fn clear_caches(
    text_cache: &mut LruCache<i64, TextRenderCacheValue>,
    file_cache: &mut FilePluginCache,
)
    requires
        text_cache_wf(*old(text_cache)),
        old(file_cache).wf(),
    ensures
        text_cache_wf(*final(text_cache)),
        final(file_cache).wf(),
        text_render_cache_cap(*final(text_cache)) == text_render_cache_cap(*old(text_cache)),
        final(file_cache).compile_cap() == old(file_cache).compile_cap(),
        final(file_cache).render_cap() == old(file_cache).render_cap(),
        text_render_cache_entries(*final(text_cache)).len() == 0,
        final(file_cache).compiled().len() == 0,
        final(file_cache).rendered().len() == 0,
{
    TypstTextPlugin::clear_render_cache(text_cache);
    file_cache.clear();
}

} // verus!
