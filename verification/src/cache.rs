//! The plugin cache: a store of materialized cache entries keyed by the
//! reference's locator, populated from upstream sources.
//!
//! Population — the fetch-and-persist step — is the out-of-scope
//! collaborator's work; the cache here carries its observable behaviour:
//! which sources it can draw on, whether populating a source actually
//! leaves the artifact on disk (a soft invariant the orchestrator must
//! verify, never trust), and a script of injected lookup failures so that
//! the retry protocol can be exercised on every failure sequence.

use vstd::prelude::*;
use crate::environment::Environment;
use crate::errors::PluginError;
use crate::info::{
    build_plugin_file_path,
    extract_plugin_info,
    spec_extract_info,
    spec_plugin_file_path,
    CacheItem,
};
use crate::kinds::PluginSourceReference;
use crate::table::Table;

verus! {

/// A counter one step later, held at its ceiling.
pub open spec fn bumped(c: u64) -> u64 {
    if c < u64::MAX {
        (c + 1) as u64
    } else {
        c
    }
}

/// What the upstream fetch would deliver for one locator.
pub struct SourceArtifact {
    /// The artifact's text.
    pub file_text: String,
    /// Whether populating actually leaves the artifact in the file store.
    /// A population that does not materialize models a persist step that
    /// records the entry and then fails to leave the file behind.
    pub materializes: bool,
}

/// The cache of resolved plugin artifacts.
pub struct PluginCache {
    /// The store: locator text to materialized cache entry.
    pub items: Table<CacheItem>,
    /// What upstream holds for each locator.
    pub sources: Table<SourceArtifact>,
    /// Scripted outcomes of the next lookups: `true` fails the call.
    pub faults: Vec<bool>,
    /// How many lookups have been asked of this cache.
    pub lookup_count: u64,
    /// How many entries have been forgotten.
    pub forget_count: u64,
}

impl PluginCache {
    /// Both tables are well formed.
    pub open spec fn wf(self) -> bool {
        self.items.wf() && self.sources.wf()
    }

    /// The cache holds an entry for the locator `k`.
    pub open spec fn spec_has_item(self, k: Seq<char>) -> bool {
        self.items.spec_has(k)
    }

    /// The entry stored for `k`; meaningful only when `spec_has_item(k)`.
    pub open spec fn spec_item(self, k: Seq<char>) -> CacheItem {
        self.items.spec_at(k)
    }

    /// Upstream can deliver an artifact for `k`.
    pub open spec fn spec_has_source(self, k: Seq<char>) -> bool {
        self.sources.spec_has(k)
    }

    /// What upstream delivers for `k`; meaningful only when
    /// `spec_has_source(k)`.
    pub open spec fn spec_source(self, k: Seq<char>) -> SourceArtifact {
        self.sources.spec_at(k)
    }

    /// The scripted fault flag `i` calls ahead; an exhausted script never
    /// fails.
    pub open spec fn spec_fault_at(self, i: int) -> bool {
        0 <= i < self.faults@.len() && self.faults@[i]
    }

    /// The fault script once one call has consumed its first entry.
    pub open spec fn spec_faults_tail(self) -> Seq<bool> {
        if self.faults@.len() > 0 {
            self.faults@.subrange(1, self.faults@.len() as int)
        } else {
            self.faults@
        }
    }

    /// An empty cache with no sources and no scripted faults.
    pub fn new() -> (r: PluginCache)
        ensures
            r.wf(),
            forall|k: Seq<char>| !r.spec_has_item(k),
            forall|k: Seq<char>| !r.spec_has_source(k),
            r.faults@.len() == 0,
            r.lookup_count == 0,
            r.forget_count == 0,
    {
        PluginCache {
            items: Table::new(),
            sources: Table::new(),
            faults: Vec::new(),
            lookup_count: 0,
            forget_count: 0,
        }
    }

    /// Registers what upstream delivers for `locator`.
    pub fn add_source(&mut self, locator: &String, file_text: String, materializes: bool)
        requires
            old(self).wf(),
        ensures
            final(self).wf(),
            final(self).spec_has_source(locator@),
            final(self).spec_source(locator@).file_text@ == file_text@,
            final(self).spec_source(locator@).materializes == materializes,
            forall|k: Seq<char>|
                k != locator@ ==> (final(self).spec_has_source(k) <==> old(self).spec_has_source(
                    k,
                )),
            forall|k: Seq<char>|
                k != locator@ && old(self).spec_has_source(k) ==> final(self).spec_source(k)
                    == old(self).spec_source(k),
            final(self).items == old(self).items,
            final(self).faults == old(self).faults,
            final(self).lookup_count == old(self).lookup_count,
            final(self).forget_count == old(self).forget_count,
    {
        self.sources.put(locator, SourceArtifact { file_text, materializes });
    }

    /// Appends one scripted outcome for a coming lookup.
    pub fn inject_fault(&mut self, fails: bool)
        ensures
            final(self).faults@ == old(self).faults@.push(fails),
            final(self).items == old(self).items,
            final(self).sources == old(self).sources,
            final(self).lookup_count == old(self).lookup_count,
            final(self).forget_count == old(self).forget_count,
    {
        self.faults.push(fails);
    }

    /// Invalidates the entry for the reference, so that the next lookup
    /// populates from scratch.  Invalidation itself always succeeds.
    pub fn forget(&mut self, plugin_reference: &PluginSourceReference) -> (r: Result<
        (),
        PluginError,
    >)
        requires
            old(self).wf(),
        ensures
            r is Ok,
            final(self).wf(),
            !final(self).spec_has_item(plugin_reference.spec_locator()),
            forall|k: Seq<char>|
                k != plugin_reference.spec_locator() ==> (final(self).spec_has_item(k)
                    <==> old(self).spec_has_item(k)),
            forall|k: Seq<char>|
                k != plugin_reference.spec_locator() && old(self).spec_has_item(k)
                    ==> final(self).spec_item(k) == old(self).spec_item(k),
            final(self).sources == old(self).sources,
            final(self).faults == old(self).faults,
            final(self).lookup_count == old(self).lookup_count,
            final(self).forget_count == bumped(old(self).forget_count),
    {
        self.items.take_out(plugin_reference.display());
        if self.forget_count < u64::MAX {
            self.forget_count = self.forget_count + 1;
        }
        Ok(())
    }

    /// Returns the cache entry for the reference, populating it from the
    /// upstream source when it is absent.  The whole observable outcome is
    /// described by [`spec_lookup_post`].
    pub fn get_plugin_cache_item(
        &mut self,
        environment: &mut Environment,
        plugin_reference: &PluginSourceReference,
    ) -> (r: Result<CacheItem, PluginError>)
        requires
            old(self).wf(),
            old(environment).wf(),
        ensures
            spec_lookup_post(
                *old(self),
                *old(environment),
                *final(self),
                *final(environment),
                *plugin_reference,
                r,
            ),
    {
        if self.lookup_count < u64::MAX {
            self.lookup_count = self.lookup_count + 1;
        }
        let mut fault = false;
        if self.faults.len() > 0 {
            fault = self.faults.remove(0);
            proof {
                assert(self.faults@ =~= old(self).spec_faults_tail());
            }
        }
        let key = plugin_reference.display();
        if fault {
            return Err(PluginError::CacheLookup { locator: key.clone() });
        }
        let cached = self.items.get(key);
        match cached {
            Some(item) => {
                return Ok(item.duplicate());
            }
            None => {}
        }
        let kind = match plugin_reference.plugin_kind() {
            None => {
                return Err(PluginError::UnresolvableKind { locator: key.clone() });
            }
            Some(k) => k,
        };
        let file_text: String;
        let materializes: bool;
        match self.sources.get(key) {
            None => {
                return Err(PluginError::CacheLookup { locator: key.clone() });
            }
            Some(src) => {
                file_text = src.file_text.clone();
                materializes = src.materializes;
            }
        }
        let info = match extract_plugin_info(file_text.as_str()) {
            None => {
                return Err(PluginError::InvalidArtifact { origin: key.clone() });
            }
            Some(i) => i,
        };
        let path = build_plugin_file_path(&environment.cache_dir, &info, kind);
        if materializes {
            environment.write_file(&path, file_text.clone());
        }
        let item = CacheItem { file_path: path, info };
        self.items.put(key, item.duplicate());
        Ok(item)
    }
}

/// The observable outcome of one `get_plugin_cache_item` call: the lookup
/// consumes one scripted fault flag, counts itself, and either fails as
/// scripted, returns the stored entry unchanged, or populates the entry
/// from the upstream source — writing the artifact only when that source
/// materializes.
pub open spec fn spec_lookup_post(
    pre: PluginCache,
    pre_env: Environment,
    post: PluginCache,
    post_env: Environment,
    reference: PluginSourceReference,
    r: Result<CacheItem, PluginError>,
) -> bool {
    let key = reference.spec_locator();
    &&& post.wf()
    &&& post_env.wf()
    &&& post.lookup_count == bumped(pre.lookup_count)
    &&& post.forget_count == pre.forget_count
    &&& post.faults@ == pre.spec_faults_tail()
    &&& post.sources == pre.sources
    &&& post_env.same_config(pre_env)
    &&& post_env.cache_dir == pre_env.cache_dir
    &&& if pre.spec_fault_at(0) {
        &&& r matches Err(PluginError::CacheLookup { locator }) && locator@ == key
        &&& post.items == pre.items
        &&& post_env == pre_env
    } else if pre.spec_has_item(key) {
        &&& r matches Ok(item) && item@ == pre.spec_item(key)@
        &&& post.items == pre.items
        &&& post_env == pre_env
    } else {
        match reference.spec_kind() {
            None => {
                &&& r matches Err(PluginError::UnresolvableKind { locator }) && locator@ == key
                &&& post.items == pre.items
                &&& post_env == pre_env
            }
            Some(kind) => {
                if !pre.spec_has_source(key) {
                    &&& r matches Err(PluginError::CacheLookup { locator }) && locator@ == key
                    &&& post.items == pre.items
                    &&& post_env == pre_env
                } else {
                    let src = pre.spec_source(key);
                    match spec_extract_info(src.file_text@) {
                        None => {
                            &&& r matches Err(PluginError::InvalidArtifact { origin })
                                && origin@ == key
                            &&& post.items == pre.items
                            &&& post_env == pre_env
                        }
                        Some(info) => {
                            let path = spec_plugin_file_path(pre_env.cache_dir@, info, kind);
                            &&& r matches Ok(item) && item.file_path@ == path && item.info@
                                == info
                            &&& post.spec_has_item(key)
                            &&& post.spec_item(key).file_path@ == path
                            &&& post.spec_item(key).info@ == info
                            &&& forall|k: Seq<char>|
                                k != key ==> (post.spec_has_item(k) <==> pre.spec_has_item(k))
                            &&& forall|k: Seq<char>|
                                k != key && pre.spec_has_item(k) ==> post.spec_item(k)
                                    == pre.spec_item(k)
                            &&& if src.materializes {
                                &&& post_env.spec_has_file(path)
                                &&& post_env.spec_file_text(path) == src.file_text@
                                &&& forall|p: Seq<char>|
                                    p != path ==> (post_env.spec_has_file(p)
                                        <==> pre_env.spec_has_file(p))
                                &&& forall|p: Seq<char>|
                                    p != path && pre_env.spec_has_file(p)
                                        ==> post_env.spec_file_text(p) == pre_env.spec_file_text(
                                        p,
                                    )
                            } else {
                                post_env == pre_env
                            }
                        }
                    }
                }
            }
        }
    }
}

} // verus!
