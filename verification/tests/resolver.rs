use plugin_resolver::cache::PluginCache;
use plugin_resolver::environment::Environment;
use plugin_resolver::errors::PluginError;
use plugin_resolver::info::{build_plugin_file_path, extract_plugin_info, PluginInfo};
use plugin_resolver::kinds::{PathSource, PluginKind, PluginSourceReference};
use plugin_resolver::plugins::{
    cleanup_plugin, create_plugin, get_file_path_from_plugin_info, get_test_safe_executable_path,
    setup_plugin, Plugin, PluginsCollection,
};

fn wasm_reference(locator: &str) -> PluginSourceReference {
    PluginSourceReference { path_source: PathSource::Local { path: locator.to_string() } }
}

fn remote_reference(locator: &str) -> PluginSourceReference {
    PluginSourceReference { path_source: PathSource::Remote { url: locator.to_string() } }
}

fn test_environment() -> Environment {
    Environment::new("/cache".to_string(), false, String::new())
}

const WASM_TEXT: &str = "fmt\n1.2.0\nsandboxed module payload";
const PROCESS_TEXT: &str = "tool\n0.3.1\nnative descriptor payload";

#[test]
fn kind_classification_by_suffix() {
    let wasm = wasm_reference("plugins/fmt.wasm");
    let process = remote_reference("https://plugins.example/tool.json");
    let other = wasm_reference("plugins/fmt.tar.gz");
    assert_eq!(wasm.plugin_kind(), Some(PluginKind::Wasm));
    assert_eq!(process.plugin_kind(), Some(PluginKind::Process));
    assert_eq!(other.plugin_kind(), None);
}

#[test]
fn kind_classification_is_repeatable() {
    let reference = remote_reference("https://plugins.example/fmt.wasm");
    let first = reference.plugin_kind();
    let second = reference.plugin_kind();
    assert_eq!(first, Some(PluginKind::Wasm));
    assert_eq!(first, second);
}

#[test]
fn kind_classification_edge_cases() {
    assert_eq!(wasm_reference(".wasm").plugin_kind(), Some(PluginKind::Wasm));
    assert_eq!(wasm_reference("").plugin_kind(), None);
    assert_eq!(wasm_reference("wasm").plugin_kind(), None);
    assert_eq!(wasm_reference("tool.jsonx").plugin_kind(), None);
}

#[test]
fn extract_info_reads_header() {
    let info = extract_plugin_info(WASM_TEXT).unwrap();
    assert_eq!(info.name, "fmt");
    assert_eq!(info.version, "1.2.0");
}

#[test]
fn extract_info_rejects_missing_header() {
    assert!(extract_plugin_info("no header at all").is_none());
    assert!(extract_plugin_info("only-one-line\n").is_none());
}

#[test]
fn extract_info_rejects_empty_fields() {
    assert!(extract_plugin_info("\n1.0.0\npayload").is_none());
    assert!(extract_plugin_info("fmt\n\npayload").is_none());
}

#[test]
fn file_path_formula() {
    let info = PluginInfo { name: "fmt".to_string(), version: "1.2.0".to_string() };
    let dir = "/cache".to_string();
    assert_eq!(build_plugin_file_path(&dir, &info, PluginKind::Wasm), "/cache/fmt-1.2.0.wasm");
    assert_eq!(build_plugin_file_path(&dir, &info, PluginKind::Process), "/cache/fmt-1.2.0.exe");
}

#[test]
fn setup_plugin_persists_artifact() {
    let mut env = test_environment();
    let source = PathSource::Local { path: "fmt.wasm".to_string() };
    let result = setup_plugin(&source, &WASM_TEXT.to_string(), &mut env).unwrap();
    assert_eq!(result.file_path, "/cache/fmt-1.2.0.wasm");
    assert_eq!(result.plugin_info.name, "fmt");
    assert_eq!(result.plugin_info.version, "1.2.0");
    assert!(env.path_exists(&result.file_path));
    assert_eq!(env.read_file(&result.file_path).unwrap(), WASM_TEXT);
}

#[test]
fn setup_plugin_rejects_invalid_artifact() {
    let mut env = test_environment();
    let source = PathSource::Local { path: "fmt.wasm".to_string() };
    let err = setup_plugin(&source, &"no header".to_string(), &mut env).unwrap_err();
    assert!(matches!(err, PluginError::InvalidArtifact { .. }));
    assert_eq!(err.message(), "Invalid plugin artifact: fmt.wasm");
}

#[test]
fn setup_plugin_rejects_unresolvable_kind() {
    let mut env = test_environment();
    let source = PathSource::Remote { url: "https://plugins.example/fmt.tar".to_string() };
    let err = setup_plugin(&source, &WASM_TEXT.to_string(), &mut env).unwrap_err();
    assert_eq!(
        err.message(),
        "Could not resolve plugin type from url or file path: https://plugins.example/fmt.tar"
    );
}

#[test]
fn file_path_lookup_matches_setup() {
    let mut env = test_environment();
    let source = PathSource::Local { path: "tool.json".to_string() };
    let result = setup_plugin(&source, &PROCESS_TEXT.to_string(), &mut env).unwrap();
    let derived = get_file_path_from_plugin_info(&source, &result.plugin_info, &env).unwrap();
    assert_eq!(derived, result.file_path);
    assert_eq!(derived, "/cache/tool-0.3.1.exe");
}

#[test]
fn file_path_lookup_rejects_unresolvable_kind() {
    let env = test_environment();
    let source = PathSource::Local { path: "tool.bin".to_string() };
    let info = PluginInfo { name: "tool".to_string(), version: "0.3.1".to_string() };
    let err = get_file_path_from_plugin_info(&source, &info, &env).unwrap_err();
    assert!(matches!(err, PluginError::UnresolvableKind { .. }));
}

#[test]
fn cleanup_is_idempotent() {
    let mut env = test_environment();
    let source = PathSource::Local { path: "fmt.wasm".to_string() };
    let result = setup_plugin(&source, &WASM_TEXT.to_string(), &mut env).unwrap();
    assert!(env.path_exists(&result.file_path));
    cleanup_plugin(&source, &result.plugin_info, &mut env).unwrap();
    assert!(!env.path_exists(&result.file_path));
    // deleting the already-absent artifact must not fail
    cleanup_plugin(&source, &result.plugin_info, &mut env).unwrap();
    assert!(!env.path_exists(&result.file_path));
}

#[test]
fn cleanup_rejects_unresolvable_kind() {
    let mut env = test_environment();
    let source = PathSource::Local { path: "fmt.bin".to_string() };
    let info = PluginInfo { name: "fmt".to_string(), version: "1.2.0".to_string() };
    let err = cleanup_plugin(&source, &info, &mut env).unwrap_err();
    assert!(matches!(err, PluginError::UnresolvableKind { .. }));
}

#[test]
fn create_unresolvable_fails_without_cache_calls() {
    let mut cache = PluginCache::new();
    let mut env = test_environment();
    let reference = wasm_reference("plugins/fmt.tar");
    let collection = PluginsCollection { id: 1 };
    let err = create_plugin(collection, &mut cache, &mut env, &reference).unwrap_err();
    assert_eq!(
        err.message(),
        "Could not resolve plugin type from url or file path: plugins/fmt.tar"
    );
    assert_eq!(cache.lookup_count, 0);
    assert_eq!(cache.forget_count, 0);
}

#[test]
fn create_cold_populates_and_returns_wasm() {
    let mut cache = PluginCache::new();
    let mut env = test_environment();
    let reference = wasm_reference("fmt.wasm");
    cache.add_source(reference.display(), WASM_TEXT.to_string(), true);
    let collection = PluginsCollection { id: 7 };
    let plugin = create_plugin(collection, &mut cache, &mut env, &reference).unwrap();
    match plugin {
        Plugin::Wasm(w) => {
            assert_eq!(w.module_text, WASM_TEXT);
            assert_eq!(w.info.name, "fmt");
            assert_eq!(w.info.version, "1.2.0");
            assert_eq!(w.collection.id, 7);
        }
        Plugin::Process(_) => panic!("sandboxed reference produced a native instance"),
    }
    assert_eq!(cache.lookup_count, 1);
    assert_eq!(cache.forget_count, 0);
    assert!(env.path_exists(&"/cache/fmt-1.2.0.wasm".to_string()));
}

#[test]
fn create_warm_needs_no_populate() {
    let mut cache = PluginCache::new();
    let mut env = test_environment();
    let reference = wasm_reference("fmt.wasm");
    cache.add_source(reference.display(), WASM_TEXT.to_string(), true);
    let collection = PluginsCollection { id: 7 };
    create_plugin(collection, &mut cache, &mut env, &reference).unwrap();
    // replace the upstream source by garbage: a warm resolution must not
    // reach for it
    cache.add_source(reference.display(), "garbage".to_string(), false);
    let plugin = create_plugin(collection, &mut cache, &mut env, &reference).unwrap();
    match plugin {
        Plugin::Wasm(w) => assert_eq!(w.module_text, WASM_TEXT),
        Plugin::Process(_) => panic!("sandboxed reference produced a native instance"),
    }
    assert_eq!(cache.lookup_count, 2);
    assert_eq!(cache.forget_count, 0);
}

#[test]
fn create_wasm_self_heals_after_artifact_deleted() {
    let mut cache = PluginCache::new();
    let mut env = test_environment();
    let reference = wasm_reference("fmt.wasm");
    cache.add_source(reference.display(), WASM_TEXT.to_string(), true);
    let collection = PluginsCollection { id: 3 };
    let fresh = create_plugin(collection, &mut cache, &mut env, &reference).unwrap();
    // delete the artifact out-of-band
    env.delete_file(&"/cache/fmt-1.2.0.wasm".to_string());
    let healed = create_plugin(collection, &mut cache, &mut env, &reference).unwrap();
    match (fresh, healed) {
        (Plugin::Wasm(a), Plugin::Wasm(b)) => {
            assert_eq!(a.module_text, b.module_text);
            assert_eq!(a.info, b.info);
            assert_eq!(a.collection, b.collection);
        }
        _ => panic!("sandboxed reference produced a native instance"),
    }
    // one lookup for the first call, two for the healing call, one forget
    assert_eq!(cache.lookup_count, 3);
    assert_eq!(cache.forget_count, 1);
    assert!(env.path_exists(&"/cache/fmt-1.2.0.wasm".to_string()));
}

#[test]
fn create_process_detects_absence_and_substitutes_path() {
    let mut cache = PluginCache::new();
    let mut env = Environment::new("/cache".to_string(), true, "/bin/safe-tool".to_string());
    let reference = remote_reference("https://plugins.example/tool.json");
    cache.add_source(reference.display(), PROCESS_TEXT.to_string(), true);
    let collection = PluginsCollection { id: 9 };
    create_plugin(collection, &mut cache, &mut env, &reference).unwrap();
    // delete the cached artifact out-of-band
    env.delete_file(&"/cache/tool-0.3.1.exe".to_string());
    let plugin = create_plugin(collection, &mut cache, &mut env, &reference).unwrap();
    match plugin {
        Plugin::Process(p) => {
            assert_eq!(p.executable_path, "/bin/safe-tool");
            assert_eq!(p.info.name, "tool");
            assert_eq!(p.collection.id, 9);
        }
        Plugin::Wasm(_) => panic!("native reference produced a sandboxed instance"),
    }
    assert_eq!(cache.lookup_count, 3);
    assert_eq!(cache.forget_count, 1);
}

#[test]
fn create_process_uses_artifact_path_outside_test_mode() {
    let mut cache = PluginCache::new();
    let mut env = test_environment();
    let reference = remote_reference("https://plugins.example/tool.json");
    cache.add_source(reference.display(), PROCESS_TEXT.to_string(), true);
    let collection = PluginsCollection { id: 2 };
    let plugin = create_plugin(collection, &mut cache, &mut env, &reference).unwrap();
    match plugin {
        Plugin::Process(p) => assert_eq!(p.executable_path, "/cache/tool-0.3.1.exe"),
        Plugin::Wasm(_) => panic!("native reference produced a sandboxed instance"),
    }
}

#[test]
fn create_fails_after_exactly_two_scripted_lookup_failures() {
    let mut cache = PluginCache::new();
    let mut env = test_environment();
    let reference = wasm_reference("fmt.wasm");
    cache.add_source(reference.display(), WASM_TEXT.to_string(), true);
    cache.inject_fault(true);
    cache.inject_fault(true);
    let collection = PluginsCollection { id: 4 };
    let err = create_plugin(collection, &mut cache, &mut env, &reference).unwrap_err();
    assert!(matches!(err, PluginError::CacheLookup { .. }));
    assert_eq!(cache.lookup_count, 2);
    assert_eq!(cache.forget_count, 1);
}

#[test]
fn create_recovers_from_one_scripted_lookup_failure() {
    let mut cache = PluginCache::new();
    let mut env = test_environment();
    let reference = wasm_reference("fmt.wasm");
    cache.add_source(reference.display(), WASM_TEXT.to_string(), true);
    cache.inject_fault(true);
    let collection = PluginsCollection { id: 4 };
    let plugin = create_plugin(collection, &mut cache, &mut env, &reference).unwrap();
    assert_eq!(plugin.kind(), PluginKind::Wasm);
    assert_eq!(cache.lookup_count, 2);
    assert_eq!(cache.forget_count, 1);
}

#[test]
fn create_fails_when_repopulation_never_materializes() {
    let mut cache = PluginCache::new();
    let mut env = test_environment();
    let reference = wasm_reference("fmt.wasm");
    cache.add_source(reference.display(), WASM_TEXT.to_string(), false);
    let collection = PluginsCollection { id: 5 };
    let err = create_plugin(collection, &mut cache, &mut env, &reference).unwrap_err();
    match err {
        PluginError::StaleArtifact { path } => assert_eq!(path, "/cache/fmt-1.2.0.wasm"),
        other => panic!("expected a stale-artifact error, got: {}", other.message()),
    }
    assert_eq!(cache.lookup_count, 2);
    assert_eq!(cache.forget_count, 1);
}

#[test]
fn create_fails_when_upstream_has_no_source() {
    let mut cache = PluginCache::new();
    let mut env = test_environment();
    let reference = wasm_reference("fmt.wasm");
    let collection = PluginsCollection { id: 6 };
    let err = create_plugin(collection, &mut cache, &mut env, &reference).unwrap_err();
    assert_eq!(err.message(), "Could not get plugin from cache: fmt.wasm");
    assert_eq!(cache.lookup_count, 2);
    assert_eq!(cache.forget_count, 1);
}

#[test]
fn create_fails_on_invalid_upstream_source() {
    let mut cache = PluginCache::new();
    let mut env = test_environment();
    let reference = wasm_reference("fmt.wasm");
    cache.add_source(reference.display(), "text without a header".to_string(), true);
    let collection = PluginsCollection { id: 10 };
    let err = create_plugin(collection, &mut cache, &mut env, &reference).unwrap_err();
    assert_eq!(err.message(), "Invalid plugin artifact: fmt.wasm");
    assert_eq!(cache.lookup_count, 2);
    assert_eq!(cache.forget_count, 1);
}

#[test]
fn create_surfaces_backend_construction_error() {
    let mut cache = PluginCache::new();
    let mut env = test_environment();
    let reference = wasm_reference("fmt.wasm");
    cache.add_source(reference.display(), WASM_TEXT.to_string(), true);
    let collection = PluginsCollection { id: 8 };
    create_plugin(collection, &mut cache, &mut env, &reference).unwrap();
    // corrupt the cached artifact: the module no longer validates
    env.write_file(&"/cache/fmt-1.2.0.wasm".to_string(), "corrupt".to_string());
    let err = create_plugin(collection, &mut cache, &mut env, &reference).unwrap_err();
    assert!(matches!(err, PluginError::InvalidArtifact { .. }));
}

#[test]
fn variant_fidelity_never_mixes_backends() {
    let mut cache = PluginCache::new();
    let mut env = test_environment();
    let wasm = wasm_reference("fmt.wasm");
    let process = remote_reference("https://plugins.example/tool.json");
    cache.add_source(wasm.display(), WASM_TEXT.to_string(), true);
    cache.add_source(process.display(), PROCESS_TEXT.to_string(), true);
    let collection = PluginsCollection { id: 11 };
    let a = create_plugin(collection, &mut cache, &mut env, &wasm).unwrap();
    let b = create_plugin(collection, &mut cache, &mut env, &process).unwrap();
    assert_eq!(a.kind(), PluginKind::Wasm);
    assert!(matches!(a, Plugin::Wasm(_)));
    assert_eq!(b.kind(), PluginKind::Process);
    assert!(matches!(b, Plugin::Process(_)));
    assert_eq!(a.info().name, "fmt");
    assert_eq!(b.info().name, "tool");
}

#[test]
fn test_safe_path_substitution_is_config_driven() {
    let test_env = Environment::new("/cache".to_string(), true, "/bin/safe".to_string());
    let real_env = test_environment();
    let path = "/cache/tool-0.3.1.exe".to_string();
    assert_eq!(get_test_safe_executable_path(path.clone(), &test_env), "/bin/safe");
    assert_eq!(get_test_safe_executable_path(path.clone(), &real_env), path);
}

#[test]
fn error_messages_name_the_offender() {
    let unresolvable = PluginError::UnresolvableKind { locator: "x.tar".to_string() };
    let cache_err = PluginError::CacheLookup { locator: "x.wasm".to_string() };
    let stale = PluginError::StaleArtifact { path: "/cache/x.wasm".to_string() };
    let invalid = PluginError::InvalidArtifact { origin: "x.wasm".to_string() };
    assert_eq!(
        unresolvable.message(),
        "Could not resolve plugin type from url or file path: x.tar"
    );
    assert_eq!(cache_err.message(), "Could not get plugin from cache: x.wasm");
    assert_eq!(stale.message(), "Could not find plugin file: /cache/x.wasm");
    assert_eq!(invalid.message(), "Invalid plugin artifact: x.wasm");
}
