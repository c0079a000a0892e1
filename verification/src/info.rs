//! Plugin metadata and the artifacts that carry it.
//!
//! An artifact's text opens with a two-line header — the plugin's name on
//! the first line and its version on the second — followed by the payload
//! the backend executes.  Extraction of that header is the validation a
//! backend performs when it persists an artifact.

use vstd::prelude::*;
use vstd::string::StrSliceExecFns;
use vstd::string::StringExecFns;
use crate::kinds::PluginKind;
use crate::text::{find_newline, first_newline_from, lemma_find_newline_found};

verus! {

/// The mathematical content of plugin metadata.
pub struct PluginInfoView {
    /// The plugin's name.
    pub name: Seq<char>,
    /// The plugin's version.
    pub version: Seq<char>,
}

/// Metadata attached to a resolved plugin: its name and version.
#[derive(Debug, Clone, PartialEq, Eq)]
pub struct PluginInfo {
    /// The plugin's name.
    pub name: String,
    /// The plugin's version.
    pub version: String,
}

impl View for PluginInfo {
    type V = PluginInfoView;

    open spec fn view(&self) -> PluginInfoView {
        PluginInfoView { name: self.name@, version: self.version@ }
    }
}

impl PluginInfo {
    /// A copy whose fields carry the same text.
    pub fn duplicate(&self) -> (r: PluginInfo)
        ensures
            r@ == self@,
    {
        PluginInfo { name: self.name.clone(), version: self.version.clone() }
    }
}

/// The metadata an artifact's header carries: its first line is the name,
/// its second line the version, and both are nonempty.  `None` when the
/// text has no such header.
pub open spec fn spec_extract_info(s: Seq<char>) -> Option<PluginInfoView> {
    let i = find_newline(s, 0);
    if i < 1 {
        None
    } else {
        let j = find_newline(s, i + 1);
        if j < i + 2 {
            None
        } else {
            Some(PluginInfoView { name: s.subrange(0, i), version: s.subrange(i + 1, j) })
        }
    }
}

/// Reads the plugin metadata out of an artifact's header.
pub fn extract_plugin_info(file_text: &str) -> (r: Option<PluginInfo>)
    ensures
        match r {
            Some(info) => spec_extract_info(file_text@) == Some(info@),
            None => spec_extract_info(file_text@) is None,
        },
{
    let n = file_text.unicode_len();
    let i = match first_newline_from(file_text, 0) {
        None => {
            return None;
        }
        Some(i) => i,
    };
    proof {
        lemma_find_newline_found(file_text@, 0);
    }
    if i < 1 {
        return None;
    }
    let j = match first_newline_from(file_text, i + 1) {
        None => {
            return None;
        }
        Some(j) => j,
    };
    proof {
        lemma_find_newline_found(file_text@, i + 1);
    }
    if j < i + 2 {
        return None;
    }
    let name = String::from_str(file_text.substring_char(0, i));
    let version = String::from_str(file_text.substring_char(i + 1, j));
    Some(PluginInfo { name, version })
}

/// A materialized cache entry: where the artifact lives on disk and the
/// metadata it was persisted with.
#[derive(Debug, Clone)]
pub struct CacheItem {
    /// The artifact's path in the file store.
    pub file_path: String,
    /// The metadata extracted when the artifact was persisted.
    pub info: PluginInfo,
}

/// The mathematical content of a cache entry.
pub struct CacheItemView {
    /// The artifact's path.
    pub file_path: Seq<char>,
    /// The attached metadata.
    pub info: PluginInfoView,
}

impl View for CacheItem {
    type V = CacheItemView;

    open spec fn view(&self) -> CacheItemView {
        CacheItemView { file_path: self.file_path@, info: self.info@ }
    }
}

impl CacheItem {
    /// A copy whose fields carry the same text.
    pub fn duplicate(&self) -> (r: CacheItem)
        ensures
            r@ == self@,
    {
        CacheItem { file_path: self.file_path.clone(), info: self.info.duplicate() }
    }
}

/// What persisting a fresh artifact produces: its path and its metadata.
#[derive(Debug)]
pub struct SetupPluginResult {
    /// The path the artifact was written to.
    pub file_path: String,
    /// The metadata extracted from the artifact.
    pub plugin_info: PluginInfo,
}

/// The path a backend stores an artifact of the given kind and metadata
/// under: `<cache_dir>/<name>-<version>` with the kind's extension.
pub open spec fn spec_plugin_file_path(
    cache_dir: Seq<char>,
    info: PluginInfoView,
    kind: PluginKind,
) -> Seq<char> {
    cache_dir + "/"@ + info.name + "-"@ + info.version + (match kind {
        PluginKind::Wasm => ".wasm"@,
        PluginKind::Process => ".exe"@,
    })
}

/// Builds the storage path for an artifact of the given kind and metadata.
pub fn build_plugin_file_path(cache_dir: &String, info: &PluginInfo, kind: PluginKind) -> (r:
    String)
    ensures
        r@ == spec_plugin_file_path(cache_dir@, info@, kind),
{
    let mut path = cache_dir.clone();
    path.append("/");
    path.append(info.name.as_str());
    path.append("-");
    path.append(info.version.as_str());
    match kind {
        PluginKind::Wasm => path.append(".wasm"),
        PluginKind::Process => path.append(".exe"),
    }
    path
}

} // verus!
