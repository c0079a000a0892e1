//! Source references and their execution kind.
//!
//! A source reference names where a plugin comes from — a local file path
//! or a remote URL — and its execution kind is derived from that locator
//! alone: a sandboxed-module artifact ends in `.wasm`, a native-executable
//! descriptor ends in `.json`, and anything else is unresolvable.

use vstd::prelude::*;
use crate::text::{ends_with, str_ends_with};

verus! {

/// The execution kind of a resolvable plugin artifact.
#[derive(Clone, Copy, Debug, PartialEq, Eq, Structural)]
pub enum PluginKind {
    /// Runs as an in-process sandboxed module.
    Wasm,
    /// Runs as a separate native process.
    Process,
}

/// Where a plugin artifact comes from.
#[derive(Clone, Debug)]
pub enum PathSource {
    /// A URL to fetch the artifact from.
    Remote { url: String },
    /// A path on the local disk.
    Local { path: String },
}

/// The execution kind derived from a locator's text.
pub open spec fn kind_of_locator(locator: Seq<char>) -> Option<PluginKind> {
    if ends_with(locator, ".wasm"@) {
        Some(PluginKind::Wasm)
    } else if ends_with(locator, ".json"@) {
        Some(PluginKind::Process)
    } else {
        None
    }
}

impl PathSource {
    /// The locator text: the URL or the local path.
    pub open spec fn spec_locator(self) -> Seq<char> {
        match self {
            PathSource::Remote { url } => url@,
            PathSource::Local { path } => path@,
        }
    }

    /// The execution kind this source resolves to, when it resolves at all.
    pub open spec fn spec_kind(self) -> Option<PluginKind> {
        kind_of_locator(self.spec_locator())
    }

    /// The locator as a string, for messages and cache keys.
    pub fn display(&self) -> (r: &String)
        ensures
            r@ == self.spec_locator(),
    {
        match self {
            PathSource::Remote { url } => url,
            PathSource::Local { path } => path,
        }
    }

    /// Classifies this source by its locator text alone.
    pub fn plugin_kind(&self) -> (r: Option<PluginKind>)
        ensures
            r == self.spec_kind(),
    {
        let locator = self.display();
        if str_ends_with(locator.as_str(), ".wasm") {
            Some(PluginKind::Wasm)
        } else if str_ends_with(locator.as_str(), ".json") {
            Some(PluginKind::Process)
        } else {
            None
        }
    }
}

/// A reference to a plugin source, the key under which its resolution is
/// cached.
#[derive(Clone, Debug)]
pub struct PluginSourceReference {
    /// Where the artifact comes from.
    pub path_source: PathSource,
}

impl PluginSourceReference {
    /// The locator text of the underlying source.
    pub open spec fn spec_locator(self) -> Seq<char> {
        self.path_source.spec_locator()
    }

    /// The execution kind of the underlying source.
    pub open spec fn spec_kind(self) -> Option<PluginKind> {
        self.path_source.spec_kind()
    }

    /// The locator as a string, for messages and cache keys.
    pub fn display(&self) -> (r: &String)
        ensures
            r@ == self.spec_locator(),
    {
        self.path_source.display()
    }

    /// Classifies the reference by its locator text alone.
    pub fn plugin_kind(&self) -> (r: Option<PluginKind>)
        ensures
            r == self.spec_kind(),
    {
        self.path_source.plugin_kind()
    }
}

/// Classification is a pure function of the locator: any two
/// classifications of references with one locator text agree.
pub proof fn lemma_kind_is_pure(a: PluginSourceReference, b: PluginSourceReference)
    requires
        a.spec_locator() == b.spec_locator(),
    ensures
        a.spec_kind() == b.spec_kind(),
{
}

} // verus!
