use tanxium::coordinator::FetchResponse;
use tanxium::coordinator::LoadError;
use tanxium::coordinator::ModuleKind;
use tanxium::coordinator::RequestedModuleKind;
use tanxium::coordinator::Step;
use tanxium::loader::TanxiumModuleLoader;

fn code_part(source: &str) -> &str {
    match source.find("//# sourceMappingURL") {
        Some(i) => &source[..i],
        None => source,
    }
}

#[test]
fn hash_is_the_md5_hex_digest() {
    let loader = TanxiumModuleLoader::new("/work".to_string());
    assert_eq!(
        loader.hash_module_specifier(""),
        "d41d8cd98f00b204e9800998ecf8427e"
    );
    assert_eq!(
        loader.hash_module_specifier("a"),
        "0cc175b9c0f1b6a831c399e269772661"
    );
    assert_ne!(
        loader.hash_module_specifier("https://a.com/x.js"),
        loader.hash_module_specifier("https://a.com/y.js")
    );
}

#[test]
fn cache_path_shape() {
    let loader = TanxiumModuleLoader::new("/work".to_string());
    let spec = "https://example.com/mod.js";
    let hash = loader.hash_module_specifier(spec);
    assert_eq!(
        loader.get_module_cache_path(spec),
        format!("/work/.module_cache/{}.js", hash)
    );
}

#[test]
fn first_load_fetches_then_second_load_hits_cache() {
    let loader = TanxiumModuleLoader::new("/work".to_string());
    let spec = "https://example.com/lib.js";
    let body = "console.log(1);";

    // first load: miss, fetch, finish with a cache write of the final source
    let lookup = match loader.begin_load(spec, &RequestedModuleKind::Unspecified) {
        Step::Cache(l) => l,
        _ => panic!("remote load must start at the cache lookup"),
    };
    let expected_path = loader.get_module_cache_path(spec);
    assert_eq!(lookup.cache_path, expected_path);
    let fetch = match loader.on_cache_checked(lookup, None) {
        Step::Fetch(f) => f,
        _ => panic!("a cache miss must go on to fetch"),
    };
    assert_eq!(fetch.url, spec);
    let response = FetchResponse {
        status: 200,
        content_type: Some("application/javascript".to_string()),
        body: body.to_string(),
    };
    let outcome = match loader.on_fetched(fetch, Some(response)) {
        Step::Finish(o) => o,
        _ => panic!("a fetch result must finish the load"),
    };
    let record = outcome.result.unwrap();
    assert!(matches!(record.kind, ModuleKind::JavaScript));
    assert_eq!(record.source, body);
    let write = outcome.cache_write.expect("a successful remote load writes the cache");
    assert_eq!(write.path, expected_path);
    assert_eq!(write.contents, body);

    // second load: the hit returns the identical source with no fetch
    let lookup2 = match loader.begin_load(spec, &RequestedModuleKind::Unspecified) {
        Step::Cache(l) => l,
        _ => panic!("remote load must start at the cache lookup"),
    };
    assert_eq!(lookup2.cache_path, expected_path);
    let outcome2 = match loader.on_cache_checked(lookup2, Some(write.contents.clone())) {
        Step::Finish(o) => o,
        _ => panic!("a cache hit must finish at once"),
    };
    assert!(outcome2.cache_write.is_none());
    let record2 = outcome2.result.unwrap();
    assert!(matches!(record2.kind, ModuleKind::JavaScript));
    assert_eq!(record2.source, body);
}

#[test]
fn remote_typescript_content_type_is_transpiled_and_cached() {
    let loader = TanxiumModuleLoader::new("/work".to_string());
    let spec = "https://example.com/mod.ts";
    let lookup = match loader.begin_load(spec, &RequestedModuleKind::Unspecified) {
        Step::Cache(l) => l,
        _ => panic!("remote load must start at the cache lookup"),
    };
    let fetch = match loader.on_cache_checked(lookup, None) {
        Step::Fetch(f) => f,
        _ => panic!("a cache miss must go on to fetch"),
    };
    let response = FetchResponse {
        status: 200,
        content_type: Some("application/typescript".to_string()),
        body: "const x: number = 1;".to_string(),
    };
    let outcome = match loader.on_fetched(fetch, Some(response)) {
        Step::Finish(o) => o,
        _ => panic!("a fetch result must finish the load"),
    };
    let record = outcome.result.unwrap();
    assert!(matches!(record.kind, ModuleKind::JavaScript));
    assert!(record.source.starts_with("const x = 1;"));
    assert!(!code_part(&record.source).contains(": number"));
    let write = outcome.cache_write.expect("the transpiled source is cached");
    assert_eq!(write.contents, record.source);
}

#[test]
fn remote_other_content_type_passes_through_untouched() {
    let loader = TanxiumModuleLoader::new("/work".to_string());
    let spec = "https://example.com/mod.ts";
    let lookup = match loader.begin_load(spec, &RequestedModuleKind::Unspecified) {
        Step::Cache(l) => l,
        _ => panic!("remote load must start at the cache lookup"),
    };
    let fetch = match loader.on_cache_checked(lookup, None) {
        Step::Fetch(f) => f,
        _ => panic!("a cache miss must go on to fetch"),
    };
    let body = "const z: number = 3;";
    let response = FetchResponse {
        status: 200,
        content_type: Some("text/javascript".to_string()),
        body: body.to_string(),
    };
    let outcome = match loader.on_fetched(fetch, Some(response)) {
        Step::Finish(o) => o,
        _ => panic!("a fetch result must finish the load"),
    };
    // the URL ends in .ts, yet only the content type decides
    assert_eq!(outcome.result.unwrap().source, body);
}

#[test]
fn case_insensitive_content_type_still_transpiles() {
    let loader = TanxiumModuleLoader::new("/work".to_string());
    let lookup = match loader.begin_load(
        "https://example.com/y.js",
        &RequestedModuleKind::Unspecified,
    ) {
        Step::Cache(l) => l,
        _ => panic!("remote load must start at the cache lookup"),
    };
    let fetch = match loader.on_cache_checked(lookup, None) {
        Step::Fetch(f) => f,
        _ => panic!("a cache miss must go on to fetch"),
    };
    let response = FetchResponse {
        status: 200,
        content_type: Some("Application/TypeScript".to_string()),
        body: "const y: number = 2;".to_string(),
    };
    let outcome = match loader.on_fetched(fetch, Some(response)) {
        Step::Finish(o) => o,
        _ => panic!("a fetch result must finish the load"),
    };
    assert!(outcome.result.unwrap().source.starts_with("const y = 2;"));
}

#[test]
fn npm_specifier_fetches_the_cdn_url() {
    let loader = TanxiumModuleLoader::new("/work".to_string());
    let lookup = match loader.begin_load("npm:lodash", &RequestedModuleKind::Unspecified) {
        Step::Cache(l) => l,
        _ => panic!("remote load must start at the cache lookup"),
    };
    let fetch = match loader.on_cache_checked(lookup, None) {
        Step::Fetch(f) => f,
        _ => panic!("a cache miss must go on to fetch"),
    };
    assert_eq!(fetch.url, "https://cdn.jsdelivr.net/npm/lodash/+esm");
}

#[test]
fn network_failure_and_bad_status_fail_the_load() {
    let loader = TanxiumModuleLoader::new("/work".to_string());
    let mk_fetch = || {
        let lookup = match loader.begin_load(
            "https://example.com/gone.js",
            &RequestedModuleKind::Unspecified,
        ) {
            Step::Cache(l) => l,
            _ => panic!("remote load must start at the cache lookup"),
        };
        match loader.on_cache_checked(lookup, None) {
            Step::Fetch(f) => f,
            _ => panic!("a cache miss must go on to fetch"),
        }
    };

    let outcome = match loader.on_fetched(mk_fetch(), None) {
        Step::Finish(o) => o,
        _ => panic!("a fetch result must finish the load"),
    };
    assert_eq!(outcome.result.unwrap_err(), LoadError::Network);

    let response = FetchResponse { status: 404, content_type: None, body: String::new() };
    let outcome = match loader.on_fetched(mk_fetch(), Some(response)) {
        Step::Finish(o) => o,
        _ => panic!("a fetch result must finish the load"),
    };
    assert_eq!(outcome.result.unwrap_err(), LoadError::RemoteStatus(404));
}

#[test]
fn remote_transpile_failure_fails_and_caches_nothing() {
    let loader = TanxiumModuleLoader::new("/work".to_string());
    let lookup = match loader.begin_load(
        "https://example.com/bad.ts",
        &RequestedModuleKind::Unspecified,
    ) {
        Step::Cache(l) => l,
        _ => panic!("remote load must start at the cache lookup"),
    };
    let fetch = match loader.on_cache_checked(lookup, None) {
        Step::Fetch(f) => f,
        _ => panic!("a cache miss must go on to fetch"),
    };
    let response = FetchResponse {
        status: 200,
        content_type: Some("application/typescript".to_string()),
        body: "const x: = ;".to_string(),
    };
    let outcome = match loader.on_fetched(fetch, Some(response)) {
        Step::Finish(o) => o,
        _ => panic!("a fetch result must finish the load"),
    };
    assert!(outcome.cache_write.is_none());
    assert_eq!(outcome.result.unwrap_err(), LoadError::Transpile);
}

#[test]
fn local_typescript_is_always_transpiled() {
    let loader = TanxiumModuleLoader::new("/work".to_string());
    let st = match loader.begin_load("file:///work/mod.ts", &RequestedModuleKind::Unspecified) {
        Step::File(st) => st,
        _ => panic!("a local load must go on to read the file"),
    };
    assert_eq!(st.path, "/work/mod.ts");
    let source = "interface Foo { a: number }\nconst x: number = 1;\nexport {};\n";
    let outcome = match loader.on_file_read(st, Some(source.to_string())) {
        Step::Finish(o) => o,
        _ => panic!("a file read must finish the load"),
    };
    let record = outcome.result.unwrap();
    assert!(matches!(record.kind, ModuleKind::JavaScript));
    let code = code_part(&record.source);
    assert!(!code.contains("interface"));
    assert!(!code.contains(": number"));
    assert!(code.contains("const x = 1;"));
}

#[test]
fn json_without_json_expectation_fails_with_type_mismatch() {
    let loader = TanxiumModuleLoader::new("/work".to_string());
    let outcome = match loader.begin_load(
        "file:///work/data.json",
        &RequestedModuleKind::Unspecified,
    ) {
        Step::Finish(o) => o,
        _ => panic!("the mismatch must fail before anything is read"),
    };
    assert_eq!(outcome.result.unwrap_err(), LoadError::TypeMismatch);
}

#[test]
fn json_with_json_expectation_loads_as_json() {
    let loader = TanxiumModuleLoader::new("/work".to_string());
    let st = match loader.begin_load("file:///work/data.json", &RequestedModuleKind::Json) {
        Step::File(st) => st,
        _ => panic!("a JSON load under a JSON expectation reads the file"),
    };
    let contents = "{\"a\": 1}";
    let outcome = match loader.on_file_read(st, Some(contents.to_string())) {
        Step::Finish(o) => o,
        _ => panic!("a file read must finish the load"),
    };
    let record = outcome.result.unwrap();
    assert!(matches!(record.kind, ModuleKind::Json));
    assert_eq!(record.source, contents);
}

#[test]
fn malformed_local_specifier_is_a_resolution_error() {
    let loader = TanxiumModuleLoader::new("/work".to_string());
    let outcome = match loader.begin_load("bare-name", &RequestedModuleKind::Unspecified) {
        Step::Finish(o) => o,
        _ => panic!("an unresolvable specifier must fail at once"),
    };
    assert_eq!(outcome.result.unwrap_err(), LoadError::Resolution);
}

#[test]
fn failed_file_read_is_an_io_error() {
    let loader = TanxiumModuleLoader::new("/work".to_string());
    let st = match loader.begin_load("file:///work/mod.js", &RequestedModuleKind::Unspecified) {
        Step::File(st) => st,
        _ => panic!("a local load must go on to read the file"),
    };
    let outcome = match loader.on_file_read(st, None) {
        Step::Finish(o) => o,
        _ => panic!("a file read must finish the load"),
    };
    assert_eq!(outcome.result.unwrap_err(), LoadError::Io);
}

#[test]
fn requested_other_kind_is_kept_for_plain_files() {
    let loader = TanxiumModuleLoader::new("/work".to_string());
    let requested = RequestedModuleKind::Other("bytes".to_string());
    let st = match loader.begin_load("file:///work/blob.bin", &requested) {
        Step::File(st) => st,
        _ => panic!("a local load must go on to read the file"),
    };
    let outcome = match loader.on_file_read(st, Some("abc".to_string())) {
        Step::Finish(o) => o,
        _ => panic!("a file read must finish the load"),
    };
    let record = outcome.result.unwrap();
    match record.kind {
        ModuleKind::Other(t) => assert_eq!(t, "bytes"),
        _ => panic!("the declared module type must be kept"),
    }
    assert_eq!(record.source, "abc");
}

#[test]
fn two_in_flight_loads_complete_independently() {
    let loader = TanxiumModuleLoader::new("/work".to_string());
    let spec_a = "https://example.com/a.js";
    let spec_b = "https://example.com/b.js";

    // interleave the two requests' steps
    let lookup_a = match loader.begin_load(spec_a, &RequestedModuleKind::Unspecified) {
        Step::Cache(l) => l,
        _ => panic!("remote load must start at the cache lookup"),
    };
    let lookup_b = match loader.begin_load(spec_b, &RequestedModuleKind::Unspecified) {
        Step::Cache(l) => l,
        _ => panic!("remote load must start at the cache lookup"),
    };
    assert_ne!(lookup_a.cache_path, lookup_b.cache_path);
    let fetch_a = match loader.on_cache_checked(lookup_a, None) {
        Step::Fetch(f) => f,
        _ => panic!("a cache miss must go on to fetch"),
    };
    let fetch_b = match loader.on_cache_checked(lookup_b, None) {
        Step::Fetch(f) => f,
        _ => panic!("a cache miss must go on to fetch"),
    };
    let resp_b = FetchResponse {
        status: 200,
        content_type: None,
        body: "export const b = 2;".to_string(),
    };
    let outcome_b = match loader.on_fetched(fetch_b, Some(resp_b)) {
        Step::Finish(o) => o,
        _ => panic!("a fetch result must finish the load"),
    };
    let resp_a = FetchResponse {
        status: 200,
        content_type: None,
        body: "export const a = 1;".to_string(),
    };
    let outcome_a = match loader.on_fetched(fetch_a, Some(resp_a)) {
        Step::Finish(o) => o,
        _ => panic!("a fetch result must finish the load"),
    };
    assert_eq!(outcome_a.result.unwrap().source, "export const a = 1;");
    assert_eq!(outcome_b.result.unwrap().source, "export const b = 2;");
}

#[test]
fn resolve_absolute_and_relative_imports() {
    let loader = TanxiumModuleLoader::new("/work".to_string());
    assert_eq!(
        loader.resolve("https://example.com/a.js", "https://example.com/main.js"),
        Ok("https://example.com/a.js".to_string())
    );
    assert_eq!(
        loader.resolve("./utils.js", "https://example.com/a/mod.ts"),
        Ok("https://example.com/a/utils.js".to_string())
    );
    assert_eq!(
        loader.resolve("../up.js", "https://example.com/a/b/mod.ts"),
        Ok("https://example.com/a/up.js".to_string())
    );
    assert_eq!(
        loader.resolve("/abs.js", "https://example.com/a/mod.ts"),
        Ok("https://example.com/abs.js".to_string())
    );
    assert_eq!(
        loader.resolve("file:///work/mod.ts", "file:///work/main.ts"),
        Ok("file:///work/mod.ts".to_string())
    );
    assert_eq!(
        loader.resolve("bare", "https://example.com/a/mod.ts"),
        Err(LoadError::Resolution)
    );
}

#[test]
fn resolve_normalizes_the_absolute_specifier() {
    let loader = TanxiumModuleLoader::new("/work".to_string());
    assert_eq!(
        loader.resolve("https://EXAMPLE.com/a.js", "https://example.com/main.js"),
        Ok("https://example.com/a.js".to_string())
    );
}

#[test]
fn local_specifier_with_query_is_still_typescript() {
    let loader = TanxiumModuleLoader::new("/work".to_string());
    let st = match loader.begin_load(
        "file:///work/mod.ts?v=1",
        &RequestedModuleKind::Unspecified,
    ) {
        Step::File(st) => st,
        _ => panic!("a local load must go on to read the file"),
    };
    assert_eq!(st.path, "/work/mod.ts");
    let outcome = match loader.on_file_read(st, Some("const q: number = 5;".to_string())) {
        Step::Finish(o) => o,
        _ => panic!("a file read must finish the load"),
    };
    assert!(outcome.result.unwrap().source.starts_with("const q = 5;"));
}

#[test]
fn source_with_byte_order_mark_transpiles_without_failing() {
    let loader = TanxiumModuleLoader::new("/work".to_string());
    let st = match loader.begin_load("file:///work/bom.ts", &RequestedModuleKind::Unspecified) {
        Step::File(st) => st,
        _ => panic!("a local load must go on to read the file"),
    };
    let source = "\u{FEFF}const b: number = 7;";
    let outcome = match loader.on_file_read(st, Some(source.to_string())) {
        Step::Finish(o) => o,
        _ => panic!("a file read must finish the load"),
    };
    assert!(outcome.result.unwrap().source.starts_with("const b = 7;"));
}
