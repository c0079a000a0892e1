//! The resolution orchestrator: from a source reference to a runnable
//! plugin instance, by way of the cache, with each class of staleness
//! invalidated and retried exactly once.

use vstd::prelude::*;
use crate::cache::{bumped, PluginCache};
use crate::environment::Environment;
use crate::errors::PluginError;
use crate::info::{
    build_plugin_file_path,
    extract_plugin_info,
    spec_extract_info,
    spec_plugin_file_path,
    PluginInfo,
    PluginInfoView,
    SetupPluginResult,
};
use crate::kinds::{PathSource, PluginKind, PluginSourceReference};

verus! {

/// A shared handle to the registry a constructed plugin is bound to.  The
/// orchestrator never reads it; it only passes it through.
#[derive(Clone, Copy, Debug, PartialEq, Eq, Structural)]
pub struct PluginsCollection {
    /// The registry's identity.
    pub id: u64,
}

/// A plugin that runs as an in-process sandboxed module.
#[derive(Debug)]
pub struct WasmPlugin {
    /// The module text the sandbox loads.
    pub module_text: String,
    /// The plugin's metadata.
    pub info: PluginInfo,
    /// The registry this plugin is bound to.
    pub collection: PluginsCollection,
}

impl WasmPlugin {
    /// Constructs the sandboxed instance from in-memory module text.
    /// Construction validates the module: text without a metadata header
    /// is rejected.
    pub fn new(file_text: &String, info: PluginInfo, plugins_collection: PluginsCollection) -> (r:
        Result<WasmPlugin, PluginError>)
        ensures
            spec_extract_info(file_text@) is Some ==> (r matches Ok(w) && w.module_text@
                == file_text@ && w.info == info && w.collection == plugins_collection),
            spec_extract_info(file_text@) is None ==> (r matches Err(
                PluginError::InvalidArtifact { origin },
            ) && origin@ == info.name@),
    {
        match extract_plugin_info(file_text.as_str()) {
            None => Err(PluginError::InvalidArtifact { origin: info.name.clone() }),
            Some(_) => Ok(
                WasmPlugin {
                    module_text: file_text.clone(),
                    info,
                    collection: plugins_collection,
                },
            ),
        }
    }
}

/// A plugin that runs as a separate native process.
#[derive(Debug)]
pub struct ProcessPlugin {
    /// The executable the process backend invokes.
    pub executable_path: String,
    /// The plugin's metadata.
    pub info: PluginInfo,
    /// The registry this plugin is bound to.
    pub collection: PluginsCollection,
}

impl ProcessPlugin {
    /// Constructs the native instance bound to an executable path.
    pub fn new(
        executable_path: String,
        info: PluginInfo,
        plugins_collection: PluginsCollection,
    ) -> (r: ProcessPlugin)
        ensures
            r.executable_path == executable_path,
            r.info == info,
            r.collection == plugins_collection,
    {
        ProcessPlugin { executable_path, info, collection: plugins_collection }
    }
}

/// A runnable plugin instance: exactly one backend variant, fixed for the
/// instance's lifetime.
#[derive(Debug)]
pub enum Plugin {
    /// Runs in the in-process sandbox.
    Wasm(WasmPlugin),
    /// Runs as a separate native process.
    Process(ProcessPlugin),
}

impl Plugin {
    /// The execution kind of this instance's backend.
    pub open spec fn spec_kind(self) -> PluginKind {
        match self {
            Plugin::Wasm(_) => PluginKind::Wasm,
            Plugin::Process(_) => PluginKind::Process,
        }
    }

    /// The registry this instance is bound to.
    pub open spec fn spec_collection(self) -> PluginsCollection {
        match self {
            Plugin::Wasm(w) => w.collection,
            Plugin::Process(p) => p.collection,
        }
    }

    /// The metadata attached to this instance.
    pub open spec fn spec_info(self) -> PluginInfoView {
        match self {
            Plugin::Wasm(w) => w.info@,
            Plugin::Process(p) => p.info@,
        }
    }

    /// The instance's metadata.
    pub fn info(&self) -> (r: &PluginInfo)
        ensures
            r@ == self.spec_info(),
    {
        match self {
            Plugin::Wasm(w) => &w.info,
            Plugin::Process(p) => &p.info,
        }
    }

    /// The execution kind of this instance's backend.
    pub fn kind(&self) -> (r: PluginKind)
        ensures
            r == self.spec_kind(),
    {
        match self {
            Plugin::Wasm(_) => PluginKind::Wasm,
            Plugin::Process(_) => PluginKind::Process,
        }
    }
}

/// The executable path a native plugin is bound to: under test
/// substitution, the configured safe path; otherwise the artifact's own.
pub open spec fn spec_effective_executable_path(env: Environment, path: Seq<char>) -> Seq<
    char,
> {
    if env.test_mode {
        env.safe_executable_path@
    } else {
        path
    }
}

/// Resolves the executable path a native plugin is invoked at, honouring
/// the test-environment substitution.
pub fn get_test_safe_executable_path(file_path: String, environment: &Environment) -> (r: String)
    ensures
        r@ == spec_effective_executable_path(*environment, file_path@),
{
    if environment.test_mode {
        environment.safe_executable_path.clone()
    } else {
        file_path
    }
}

/// Persists a freshly obtained artifact for the reference's backend:
/// validates the metadata header, writes the artifact into the cache
/// directory, and reports the path and metadata.
pub fn setup_plugin(
    url_or_file_path: &PathSource,
    file_bytes: &String,
    environment: &mut Environment,
) -> (r: Result<SetupPluginResult, PluginError>)
    requires
        old(environment).wf(),
    ensures
        final(environment).wf(),
        final(environment).same_config(*old(environment)),
        match url_or_file_path.spec_kind() {
            None => {
                &&& r matches Err(PluginError::UnresolvableKind { locator }) && locator@
                    == url_or_file_path.spec_locator()
                &&& *final(environment) == *old(environment)
            },
            Some(kind) => {
                match spec_extract_info(file_bytes@) {
                    None => {
                        &&& r matches Err(PluginError::InvalidArtifact { origin }) && origin@
                            == url_or_file_path.spec_locator()
                        &&& *final(environment) == *old(environment)
                    },
                    Some(info) => {
                        let path = spec_plugin_file_path(old(environment).cache_dir@, info, kind);
                        &&& r matches Ok(res) && res.file_path@ == path && res.plugin_info@
                            == info
                        &&& final(environment).spec_has_file(path)
                        &&& final(environment).spec_file_text(path) == file_bytes@
                        &&& forall|p: Seq<char>|
                            p != path ==> (final(environment).spec_has_file(p)
                                <==> old(environment).spec_has_file(p))
                        &&& forall|p: Seq<char>|
                            p != path && old(environment).spec_has_file(p)
                                ==> final(environment).spec_file_text(p)
                                == old(environment).spec_file_text(p)
                    },
                }
            },
        },
{
    let kind = match url_or_file_path.plugin_kind() {
        None => {
            return Err(
                PluginError::UnresolvableKind { locator: url_or_file_path.display().clone() },
            );
        }
        Some(k) => k,
    };
    let info = match extract_plugin_info(file_bytes.as_str()) {
        None => {
            return Err(
                PluginError::InvalidArtifact { origin: url_or_file_path.display().clone() },
            );
        }
        Some(i) => i,
    };
    let path = build_plugin_file_path(&environment.cache_dir, &info, kind);
    environment.write_file(&path, file_bytes.clone());
    Ok(SetupPluginResult { file_path: path, plugin_info: info })
}

/// The path the reference's backend expects its artifact at: a pure
/// projection from the reference's kind and the stored metadata.
pub fn get_file_path_from_plugin_info(
    url_or_file_path: &PathSource,
    plugin_info: &PluginInfo,
    environment: &Environment,
) -> (r: Result<String, PluginError>)
    ensures
        match url_or_file_path.spec_kind() {
            None => r matches Err(PluginError::UnresolvableKind { locator }) && locator@
                == url_or_file_path.spec_locator(),
            Some(kind) => r matches Ok(path) && path@ == spec_plugin_file_path(
                environment.cache_dir@,
                plugin_info@,
                kind,
            ),
        },
{
    match url_or_file_path.plugin_kind() {
        None => Err(PluginError::UnresolvableKind { locator: url_or_file_path.display().clone() }),
        Some(kind) => Ok(build_plugin_file_path(&environment.cache_dir, plugin_info, kind)),
    }
}

/// What one cleanup call does: for an unresolvable reference it fails and
/// changes nothing; otherwise it succeeds and the backend's artifact for
/// the metadata is gone, everything else untouched.  Deleting an
/// already-absent artifact changes nothing at all.
pub open spec fn spec_cleanup_post(
    source: PathSource,
    info: PluginInfoView,
    pre: Environment,
    post: Environment,
    r: Result<(), PluginError>,
) -> bool {
    &&& post.wf()
    &&& post.same_config(pre)
    &&& match source.spec_kind() {
        None => {
            &&& r matches Err(PluginError::UnresolvableKind { locator }) && locator@
                == source.spec_locator()
            &&& post == pre
        },
        Some(kind) => {
            let path = spec_plugin_file_path(pre.cache_dir@, info, kind);
            &&& r is Ok
            &&& !post.spec_has_file(path)
            &&& forall|p: Seq<char>|
                p != path ==> (post.spec_has_file(p) <==> pre.spec_has_file(p))
            &&& forall|p: Seq<char>|
                p != path && pre.spec_has_file(p) ==> post.spec_file_text(p)
                    == pre.spec_file_text(p)
            &&& !pre.spec_has_file(path) ==> post == pre
        },
    }
}

/// Deletes the backend's on-disk artifact for the given metadata.
/// Idempotent: deleting an already-absent artifact is not an error.
pub fn cleanup_plugin(
    url_or_file_path: &PathSource,
    plugin_info: &PluginInfo,
    environment: &mut Environment,
) -> (r: Result<(), PluginError>)
    requires
        old(environment).wf(),
    ensures
        spec_cleanup_post(
            *url_or_file_path,
            plugin_info@,
            *old(environment),
            *final(environment),
            r,
        ),
{
    let kind = match url_or_file_path.plugin_kind() {
        None => {
            return Err(
                PluginError::UnresolvableKind { locator: url_or_file_path.display().clone() },
            );
        }
        Some(k) => k,
    };
    let path = build_plugin_file_path(&environment.cache_dir, plugin_info, kind);
    environment.delete_file(&path);
    Ok(())
}

/// The reference resolves, yet the next two lookups are scripted to fail.
pub open spec fn spec_lookup_fails_twice(
    cache: PluginCache,
    reference: PluginSourceReference,
) -> bool {
    &&& reference.spec_kind() is Some
    &&& cache.spec_fault_at(0)
    &&& cache.spec_fault_at(1)
}

/// A sandboxed reference whose cache entry and artifact are both in
/// place, the artifact's text still carrying a valid header.
pub open spec fn spec_wasm_warm_hit(
    cache: PluginCache,
    env: Environment,
    reference: PluginSourceReference,
) -> bool {
    let key = reference.spec_locator();
    &&& reference.spec_kind() == Some(PluginKind::Wasm)
    &&& !cache.spec_fault_at(0)
    &&& cache.spec_has_item(key)
    &&& env.spec_has_file(cache.spec_item(key).file_path@)
    &&& spec_extract_info(env.spec_file_text(cache.spec_item(key).file_path@)) is Some
}

/// A sandboxed reference not yet cached, whose upstream source delivers a
/// valid artifact and leaves it on disk.
pub open spec fn spec_wasm_cold_populate(
    cache: PluginCache,
    reference: PluginSourceReference,
) -> bool {
    let key = reference.spec_locator();
    &&& reference.spec_kind() == Some(PluginKind::Wasm)
    &&& !cache.spec_fault_at(0)
    &&& !cache.spec_has_item(key)
    &&& cache.spec_has_source(key)
    &&& cache.spec_source(key).materializes
    &&& spec_extract_info(cache.spec_source(key).file_text@) is Some
}

/// A sandboxed reference whose cache entry is in place but whose artifact
/// was deleted out-of-band, while upstream can repopulate it faithfully:
/// the source delivers the artifact the entry was made from.
pub open spec fn spec_wasm_self_heal(
    cache: PluginCache,
    env: Environment,
    reference: PluginSourceReference,
) -> bool {
    let key = reference.spec_locator();
    &&& reference.spec_kind() == Some(PluginKind::Wasm)
    &&& !cache.spec_fault_at(0)
    &&& !cache.spec_fault_at(1)
    &&& cache.spec_has_item(key)
    &&& !env.spec_has_file(cache.spec_item(key).file_path@)
    &&& cache.spec_has_source(key)
    &&& cache.spec_source(key).materializes
    &&& spec_extract_info(cache.spec_source(key).file_text@) == Some(
        cache.spec_item(key).info@,
    )
}

/// A sandboxed reference whose artifact is gone and whose repopulation
/// records an entry without leaving the artifact behind: the stale read
/// fails a second time.
pub open spec fn spec_wasm_stale_twice(
    cache: PluginCache,
    env: Environment,
    reference: PluginSourceReference,
) -> bool {
    let key = reference.spec_locator();
    &&& reference.spec_kind() == Some(PluginKind::Wasm)
    &&& !cache.spec_fault_at(0)
    &&& !cache.spec_fault_at(1)
    &&& cache.spec_has_item(key)
    &&& !env.spec_has_file(cache.spec_item(key).file_path@)
    &&& cache.spec_has_source(key)
    &&& !cache.spec_source(key).materializes
    &&& (spec_extract_info(cache.spec_source(key).file_text@) matches Some(info)
        && !env.spec_has_file(
        spec_plugin_file_path(env.cache_dir@, info, PluginKind::Wasm),
    ))
}

/// A native reference whose cache entry and artifact are both in place.
pub open spec fn spec_process_warm_hit(
    cache: PluginCache,
    env: Environment,
    reference: PluginSourceReference,
) -> bool {
    let key = reference.spec_locator();
    &&& reference.spec_kind() == Some(PluginKind::Process)
    &&& !cache.spec_fault_at(0)
    &&& cache.spec_has_item(key)
    &&& env.spec_has_file(cache.spec_item(key).file_path@)
}

/// A native reference not yet cached, whose upstream source delivers a
/// valid artifact and leaves it on disk.
pub open spec fn spec_process_cold_populate(
    cache: PluginCache,
    reference: PluginSourceReference,
) -> bool {
    let key = reference.spec_locator();
    &&& reference.spec_kind() == Some(PluginKind::Process)
    &&& !cache.spec_fault_at(0)
    &&& !cache.spec_has_item(key)
    &&& cache.spec_has_source(key)
    &&& cache.spec_source(key).materializes
    &&& spec_extract_info(cache.spec_source(key).file_text@) is Some
}

/// A native reference whose cache entry is in place but whose artifact
/// was deleted out-of-band, while upstream can repopulate the entry.  The
/// freshly repopulated entry is trusted without a second existence probe,
/// so nothing here asks that the repopulation materializes.
pub open spec fn spec_process_self_heal(
    cache: PluginCache,
    env: Environment,
    reference: PluginSourceReference,
) -> bool {
    let key = reference.spec_locator();
    &&& reference.spec_kind() == Some(PluginKind::Process)
    &&& !cache.spec_fault_at(0)
    &&& !cache.spec_fault_at(1)
    &&& cache.spec_has_item(key)
    &&& !env.spec_has_file(cache.spec_item(key).file_path@)
    &&& cache.spec_has_source(key)
    &&& spec_extract_info(cache.spec_source(key).file_text@) is Some
}

/// A sandboxed reference whose first lookup is scripted to fail once,
/// while upstream can deliver a valid artifact: the failure is transient.
pub open spec fn spec_wasm_transient_fault(
    cache: PluginCache,
    reference: PluginSourceReference,
) -> bool {
    let key = reference.spec_locator();
    &&& reference.spec_kind() == Some(PluginKind::Wasm)
    &&& cache.spec_fault_at(0)
    &&& !cache.spec_fault_at(1)
    &&& cache.spec_has_source(key)
    &&& cache.spec_source(key).materializes
    &&& spec_extract_info(cache.spec_source(key).file_text@) is Some
}

/// A resolvable reference not yet cached whose upstream source delivers
/// text without a valid metadata header: population can never validate it.
pub open spec fn spec_populate_invalid_source(
    cache: PluginCache,
    reference: PluginSourceReference,
) -> bool {
    let key = reference.spec_locator();
    &&& reference.spec_kind() is Some
    &&& !cache.spec_fault_at(0)
    &&& !cache.spec_fault_at(1)
    &&& !cache.spec_has_item(key)
    &&& cache.spec_has_source(key)
    &&& spec_extract_info(cache.spec_source(key).file_text@) is None
}

/// A sandboxed reference whose cached artifact is present but corrupted:
/// its text no longer carries a metadata header, so construction fails.
pub open spec fn spec_wasm_corrupt_artifact(
    cache: PluginCache,
    env: Environment,
    reference: PluginSourceReference,
) -> bool {
    let key = reference.spec_locator();
    &&& reference.spec_kind() == Some(PluginKind::Wasm)
    &&& !cache.spec_fault_at(0)
    &&& cache.spec_has_item(key)
    &&& env.spec_has_file(cache.spec_item(key).file_path@)
    &&& spec_extract_info(env.spec_file_text(cache.spec_item(key).file_path@)) is None
}

/// Resolves a reference into a runnable plugin instance.
///
/// The call is a three-stage pipeline: a cache lookup retried once after a
/// forget, a kind-specific artifact validation retried once after a
/// forget, and the backend construction.  No failure is retried more than
/// once, an unresolvable reference fails before any cache or file-store
/// operation, and a successful resolution yields the variant of the
/// reference's kind, bound to the given collection.
pub fn create_plugin(
    plugins_collection: PluginsCollection,
    plugin_cache: &mut PluginCache,
    environment: &mut Environment,
    plugin_reference: &PluginSourceReference,
) -> (r: Result<Plugin, PluginError>)
    requires
        old(plugin_cache).wf(),
        old(environment).wf(),
    ensures
        final(plugin_cache).wf(),
        final(environment).wf(),
        final(environment).same_config(*old(environment)),
        final(plugin_cache).sources == old(plugin_cache).sources,
        // an unresolvable reference fails at once and touches nothing
        plugin_reference.spec_kind() is None ==> {
            &&& r matches Err(PluginError::UnresolvableKind { locator }) && locator@
                == plugin_reference.spec_locator()
            &&& *final(plugin_cache) == *old(plugin_cache)
            &&& *final(environment) == *old(environment)
        },
        // variant fidelity: the instance matches the reference's kind and
        // carries the collection through
        r matches Ok(p) ==> {
            &&& plugin_reference.spec_kind() == Some(p.spec_kind())
            &&& p.spec_collection() == plugins_collection
        },
        // a successful resolution leaves an entry in the cache
        r is Ok ==> final(plugin_cache).spec_has_item(plugin_reference.spec_locator()),
        // bounded retries: at most three lookups and two forgets ever
        final(plugin_cache).lookup_count == old(plugin_cache).lookup_count || final(plugin_cache).lookup_count == bumped(old(plugin_cache).lookup_count) || final(plugin_cache).lookup_count == bumped(bumped(old(plugin_cache).lookup_count)) || final(plugin_cache).lookup_count == bumped(bumped(bumped(old(plugin_cache).lookup_count))),
        final(plugin_cache).forget_count == old(plugin_cache).forget_count || final(plugin_cache).forget_count == bumped(old(plugin_cache).forget_count) || final(plugin_cache).forget_count == bumped(bumped(old(plugin_cache).forget_count)),
        // a scripted double lookup failure fails after exactly two attempts
        spec_lookup_fails_twice(*old(plugin_cache), *plugin_reference) ==> {
            &&& r matches Err(PluginError::CacheLookup { locator }) && locator@
                == plugin_reference.spec_locator()
            &&& final(plugin_cache).lookup_count == bumped(
                bumped(old(plugin_cache).lookup_count),
            )
            &&& final(plugin_cache).forget_count == bumped(old(plugin_cache).forget_count)
            &&& *final(environment) == *old(environment)
            &&& !final(plugin_cache).spec_has_item(plugin_reference.spec_locator())
        },
        // a warm sandboxed entry resolves with one lookup and no change
        spec_wasm_warm_hit(*old(plugin_cache), *old(environment), *plugin_reference) ==> {
            &&& r matches Ok(Plugin::Wasm(w)) && w.module_text@ == old(environment).spec_file_text(
                old(plugin_cache).spec_item(plugin_reference.spec_locator()).file_path@,
            ) && w.info@ == old(plugin_cache).spec_item(
                plugin_reference.spec_locator(),
            ).info@
            &&& final(plugin_cache).lookup_count == bumped(old(plugin_cache).lookup_count)
            &&& final(plugin_cache).forget_count == old(plugin_cache).forget_count
            &&& final(plugin_cache).items == old(plugin_cache).items
            &&& *final(environment) == *old(environment)
        },
        // a cold sandboxed reference populates once and resolves
        spec_wasm_cold_populate(*old(plugin_cache), *plugin_reference) ==> {
            &&& r matches Ok(Plugin::Wasm(w)) && w.module_text@ == old(plugin_cache).spec_source(plugin_reference.spec_locator()).file_text@ && Some(w.info@)
                == spec_extract_info(
                old(plugin_cache).spec_source(plugin_reference.spec_locator()).file_text@,
            )
            &&& final(plugin_cache).lookup_count == bumped(old(plugin_cache).lookup_count)
            &&& final(plugin_cache).forget_count == old(plugin_cache).forget_count
            &&& final(plugin_cache).spec_has_item(plugin_reference.spec_locator())
        },
        // self-healing: one forget-and-repopulate cycle yields the same
        // instance a fresh resolution would
        spec_wasm_self_heal(*old(plugin_cache), *old(environment), *plugin_reference) ==> {
            &&& r matches Ok(Plugin::Wasm(w)) && w.module_text@ == old(plugin_cache).spec_source(plugin_reference.spec_locator()).file_text@ && Some(w.info@)
                == spec_extract_info(
                old(plugin_cache).spec_source(plugin_reference.spec_locator()).file_text@,
            )
            &&& final(plugin_cache).lookup_count == bumped(
                bumped(old(plugin_cache).lookup_count),
            )
            &&& final(plugin_cache).forget_count == bumped(old(plugin_cache).forget_count)
        },
        // a stale artifact that repopulation does not materialize is fatal
        // after exactly one retry
        spec_wasm_stale_twice(*old(plugin_cache), *old(environment), *plugin_reference) ==> {
            &&& r matches Err(PluginError::StaleArtifact { path: p }) && (spec_extract_info(
                old(plugin_cache).spec_source(plugin_reference.spec_locator()).file_text@,
            ) matches Some(info) && p@ == spec_plugin_file_path(
                old(environment).cache_dir@,
                info,
                PluginKind::Wasm,
            ))
            &&& final(plugin_cache).lookup_count == bumped(
                bumped(old(plugin_cache).lookup_count),
            )
            &&& final(plugin_cache).forget_count == bumped(old(plugin_cache).forget_count)
        },
        // a transient scripted failure is invisible: one forget-and-retry
        // recovers and resolves from upstream
        spec_wasm_transient_fault(*old(plugin_cache), *plugin_reference) ==> {
            &&& r matches Ok(Plugin::Wasm(w)) && w.module_text@ == old(
                plugin_cache,
            ).spec_source(plugin_reference.spec_locator()).file_text@ && Some(w.info@)
                == spec_extract_info(
                old(plugin_cache).spec_source(plugin_reference.spec_locator()).file_text@,
            )
            &&& final(plugin_cache).lookup_count == bumped(
                bumped(old(plugin_cache).lookup_count),
            )
            &&& final(plugin_cache).forget_count == bumped(old(plugin_cache).forget_count)
        },
        // an upstream source that never validates is fatal after exactly
        // one retry
        spec_populate_invalid_source(*old(plugin_cache), *plugin_reference) ==> {
            &&& r matches Err(PluginError::InvalidArtifact { origin }) && origin@
                == plugin_reference.spec_locator()
            &&& final(plugin_cache).lookup_count == bumped(
                bumped(old(plugin_cache).lookup_count),
            )
            &&& final(plugin_cache).forget_count == bumped(old(plugin_cache).forget_count)
            &&& *final(environment) == *old(environment)
        },
        // a corrupted cached artifact fails construction, and the failure
        // is surfaced unchanged
        spec_wasm_corrupt_artifact(*old(plugin_cache), *old(environment), *plugin_reference)
            ==> {
            &&& r matches Err(PluginError::InvalidArtifact { origin }) && origin@ == old(
                plugin_cache,
            ).spec_item(plugin_reference.spec_locator()).info.name@
            &&& final(plugin_cache).lookup_count == bumped(old(plugin_cache).lookup_count)
            &&& final(plugin_cache).forget_count == old(plugin_cache).forget_count
            &&& final(plugin_cache).items == old(plugin_cache).items
            &&& *final(environment) == *old(environment)
        },
        // a warm native entry resolves with one lookup and no change
        spec_process_warm_hit(*old(plugin_cache), *old(environment), *plugin_reference) ==> {
            &&& r matches Ok(Plugin::Process(p)) && p.executable_path@
                == spec_effective_executable_path(
                *old(environment),
                old(plugin_cache).spec_item(plugin_reference.spec_locator()).file_path@,
            ) && p.info@ == old(plugin_cache).spec_item(plugin_reference.spec_locator()).info@
            &&& final(plugin_cache).lookup_count == bumped(old(plugin_cache).lookup_count)
            &&& final(plugin_cache).forget_count == old(plugin_cache).forget_count
            &&& final(plugin_cache).items == old(plugin_cache).items
            &&& *final(environment) == *old(environment)
        },
        // a cold native reference populates once and resolves
        spec_process_cold_populate(*old(plugin_cache), *plugin_reference) ==> {
            &&& r matches Ok(Plugin::Process(p)) && (spec_extract_info(
                old(plugin_cache).spec_source(plugin_reference.spec_locator()).file_text@,
            ) matches Some(info) && p.executable_path@ == spec_effective_executable_path(
                *old(environment),
                spec_plugin_file_path(old(environment).cache_dir@, info, PluginKind::Process),
            ) && p.info@ == info)
            &&& final(plugin_cache).lookup_count == bumped(old(plugin_cache).lookup_count)
            &&& final(plugin_cache).forget_count == old(plugin_cache).forget_count
        },
        // a missing native artifact triggers one forget-and-repopulate and
        // the fresh entry is trusted without a second probe
        spec_process_self_heal(*old(plugin_cache), *old(environment), *plugin_reference) ==> {
            &&& r matches Ok(Plugin::Process(p)) && (spec_extract_info(
                old(plugin_cache).spec_source(plugin_reference.spec_locator()).file_text@,
            ) matches Some(info) && p.executable_path@ == spec_effective_executable_path(
                *old(environment),
                spec_plugin_file_path(old(environment).cache_dir@, info, PluginKind::Process),
            ) && p.info@ == info)
            &&& final(plugin_cache).lookup_count == bumped(
                bumped(old(plugin_cache).lookup_count),
            )
            &&& final(plugin_cache).forget_count == bumped(old(plugin_cache).forget_count)
        },
{
    let kind = match plugin_reference.plugin_kind() {
        None => {
            return Err(
                PluginError::UnresolvableKind { locator: plugin_reference.display().clone() },
            );
        }
        Some(k) => k,
    };
    let first = plugin_cache.get_plugin_cache_item(environment, plugin_reference);
    let cache_item = match first {
        Ok(item) => item,
        Err(_) => {
            // forget and try again; a second lookup failure is fatal
            match plugin_cache.forget(plugin_reference) {
                Err(e) => {
                    return Err(e);
                }
                Ok(_) => {}
            }
            match plugin_cache.get_plugin_cache_item(environment, plugin_reference) {
                Ok(item) => item,
                Err(e) => {
                    return Err(e);
                }
            }
        }
    };
    match kind {
        PluginKind::Wasm => {
            let file_text = match environment.read_file(&cache_item.file_path) {
                Some(t) => t,
                None => {
                    // forget and try again; a second read failure is fatal
                    match plugin_cache.forget(plugin_reference) {
                        Err(e) => {
                            return Err(e);
                        }
                        Ok(_) => {}
                    }
                    let second = match plugin_cache.get_plugin_cache_item(
                        environment,
                        plugin_reference,
                    ) {
                        Ok(item) => item,
                        Err(e) => {
                            return Err(e);
                        }
                    };
                    match environment.read_file(&second.file_path) {
                        Some(t) => t,
                        None => {
                            return Err(PluginError::StaleArtifact { path: second.file_path });
                        }
                    }
                }
            };
            match WasmPlugin::new(&file_text, cache_item.info, plugins_collection) {
                Ok(w) => Ok(Plugin::Wasm(w)),
                Err(e) => Err(e),
            }
        }
        PluginKind::Process => {
            let cache_item = if !environment.path_exists(&cache_item.file_path) {
                // forget and try again; the fresh entry is trusted
                match plugin_cache.forget(plugin_reference) {
                    Err(e) => {
                        return Err(e);
                    }
                    Ok(_) => {}
                }
                match plugin_cache.get_plugin_cache_item(environment, plugin_reference) {
                    Ok(item) => item,
                    Err(e) => {
                        return Err(e);
                    }
                }
            } else {
                cache_item
            };
            let executable_path = get_test_safe_executable_path(cache_item.file_path, environment);
            Ok(Plugin::Process(ProcessPlugin::new(
                executable_path,
                cache_item.info,
                plugins_collection,
            )))
        }
    }
}

} // verus!
