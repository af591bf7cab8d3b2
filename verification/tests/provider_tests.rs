use flow::provider::{FoundEntry, LibCandidate, LibProvider, MetaProvider, ProviderError, ProviderKind, UrlParts};
use simpath::Simpath;

#[test]
fn get_invalid_provider() {
    let search_path = Simpath::new("TEST");
    let meta = MetaProvider::new(search_path);

    assert!(meta.get_provider("fake://bla").is_err());
}

#[test]
fn get_http_provider() {
    let search_path = Simpath::new("TEST");
    let meta = MetaProvider::new(search_path);

    assert!(meta.get_provider("http").is_ok());
}

#[test]
fn get_https_provider() {
    let search_path = Simpath::new("TEST");
    let meta = MetaProvider::new(search_path);

    assert!(meta.get_provider("https").is_ok());
}

#[test]
fn get_file_provider() {
    let search_path = Simpath::new("TEST");
    let meta = MetaProvider::new(search_path);

    assert!(meta.get_provider("file").is_ok());
}

#[test]
fn providers_by_scheme() {
    let meta = MetaProvider::new(Simpath::new("TEST"));
    assert_eq!(meta.get_provider("file"), Ok(ProviderKind::File));
    assert_eq!(meta.get_provider("http"), Ok(ProviderKind::Http));
    assert_eq!(meta.get_provider("https"), Ok(ProviderKind::Http));
    assert_eq!(meta.get_provider("lib"), Err(ProviderError::UnknownScheme("lib".to_string())));
}

#[test]
fn resolve_lib_url_in_search_path() {
    // the library `tmp` is found as the entry `/tmp` of the search path `/`
    let mut search_path = Simpath::new("FLOW_TEST_NO_SUCH_VARIABLE");
    search_path.add_directory("/");
    let meta = MetaProvider::new(search_path);
    let (url, lib_ref) = meta.resolve_lib_url("lib://tmp/control/tap").unwrap();
    assert_eq!(url, "file:///tmp/control/tap/");
    assert_eq!(lib_ref, Some("tmp/control/tap".to_string()));
}

#[test]
fn resolve_lib_url_errors() {
    let meta = MetaProvider::new(Simpath::new("FLOW_TEST_NO_SUCH_VARIABLE"));
    assert!(matches!(meta.resolve_lib_url("not a url"), Err(ProviderError::InvalidUrl(_))));
    assert!(matches!(meta.resolve_lib_url("lib:nohost"), Err(ProviderError::NoLibraryName(_))));
    assert!(matches!(
        meta.resolve_lib_url("lib://missinglib/x"),
        Err(ProviderError::LibraryNotFound(_))
    ));
}

#[test]
fn library_reference_of_module() {
    let p = LibProvider;
    assert_eq!(
        p.library_reference("lib://flowstdlib/control/tap", "tap"),
        Some("flowstdlib/control/tap".to_string())
    );
    assert_eq!(
        p.library_reference("lib://runtime/stdio/stdout.toml", "stdout"),
        Some("runtime/stdio/stdout".to_string())
    );
    assert_eq!(p.library_reference("nonsense", "x"), None);
}

#[test]
fn candidates_in_order() {
    let p = LibProvider;
    assert_eq!(p.choose_candidate(true, false, true, true, true), LibCandidate::Path);
    assert_eq!(p.choose_candidate(true, true, true, true, true), LibCandidate::DefaultFile);
    assert_eq!(p.choose_candidate(true, true, false, true, true), LibCandidate::NamedToml);
    assert_eq!(p.choose_candidate(true, true, false, false, true), LibCandidate::NotFound);
    assert_eq!(p.choose_candidate(false, false, false, false, true), LibCandidate::TomlExtension);
    assert_eq!(p.choose_candidate(false, false, true, true, false), LibCandidate::NotFound);
}

#[test]
fn trims_leading_slashes() {
    assert_eq!(flow::provider::trim_start_slashes("///a/b"), "a/b");
    assert_eq!(flow::provider::trim_start_slashes("a/"), "a/");
    assert_eq!(flow::provider::trim_start_slashes(""), "");
}

#[test]
fn resolve_found_joins_module_under_root() {
    let parts = UrlParts {
        scheme: "lib".to_string(),
        host: Some("flowstdlib".to_string()),
        path: "/control/tap".to_string(),
        text: "lib://flowstdlib/control/tap".to_string(),
    };
    let found = Some(FoundEntry::File("/proj/flowstdlib".to_string()));
    assert_eq!(
        MetaProvider::resolve_found(&parts, found),
        Ok(("file:///proj/flowstdlib/control/tap/".to_string(), Some("flowstdlib/control/tap".to_string())))
    );
    assert_eq!(
        MetaProvider::resolve_found(&parts, None),
        Err(ProviderError::LibraryNotFound("lib://flowstdlib/control/tap".to_string()))
    );
    assert_eq!(
        MetaProvider::resolve_found(&parts, Some(FoundEntry::File("relative".to_string()))),
        Err(ProviderError::InvalidPath("relative/control/tap".to_string()))
    );
}

#[test]
fn resolve_target_of_urls() {
    let mut search_path = Simpath::new("FLOW_TEST_NO_SUCH_VARIABLE");
    search_path.add_directory("/");
    let meta = MetaProvider::new(search_path);
    assert_eq!(
        meta.resolve_target("lib://tmp/control/tap"),
        Ok((ProviderKind::File, "file:///tmp/control/tap/".to_string(), Some("tmp/control/tap".to_string())))
    );
    assert_eq!(
        meta.resolve_target("http://example.com/a"),
        Ok((ProviderKind::Http, "http://example.com/a".to_string(), None))
    );
    assert_eq!(
        meta.resolve_target("ftp://example.com/a"),
        Err(ProviderError::UnknownScheme("ftp".to_string()))
    );
    assert_eq!(meta.resolve_target("not a url"), Err(ProviderError::InvalidUrl("not a url".to_string())));
}

#[test]
fn content_provider_by_scheme() {
    let meta = MetaProvider::new(Simpath::new("TEST"));
    assert_eq!(meta.content_provider("file:///tmp/x"), Ok(ProviderKind::File));
    assert_eq!(meta.content_provider("https://example.com/x"), Ok(ProviderKind::Http));
    assert_eq!(
        meta.content_provider("lib://flowstdlib/x"),
        Err(ProviderError::UnknownScheme("lib".to_string()))
    );
    assert_eq!(meta.content_provider("nonsense"), Err(ProviderError::InvalidUrl("nonsense".to_string())));
}

#[test]
fn module_paths_under_library_root() {
    let p = LibProvider;
    let paths = p.module_paths("lib://flowstdlib/control/tap", "/proj/flowstdlib", "default.toml").unwrap();
    assert_eq!(paths.url, "lib://flowstdlib/control/tap");
    assert_eq!(paths.lib_path, "/proj/flowstdlib/control/tap");
    assert_eq!(paths.default_path, "/proj/flowstdlib/control/tap/default.toml");
    assert_eq!(paths.named_toml_path, "/proj/flowstdlib/control/tap/tap.toml");
    assert_eq!(paths.toml_path, "/proj/flowstdlib/control/tap.toml");
    assert_eq!(paths.lib_ref, "flowstdlib/control/tap");
}

#[test]
fn module_paths_errors() {
    let p = LibProvider;
    assert!(matches!(p.module_paths("nonsense", "/r", "d"), Err(ProviderError::InvalidUrl(_))));
    assert!(matches!(p.module_paths("lib:nohost", "/r", "d"), Err(ProviderError::NoLibraryName(_))));
    assert!(matches!(p.module_paths("lib://flowstdlib", "/r", "d"), Err(ProviderError::NoModulePath(_))));
}

#[test]
fn resolved_url_of_each_candidate() {
    let p = LibProvider;
    let paths = p.module_paths("lib://flowstdlib/control/tap", "/proj/flowstdlib", "default.toml").unwrap();
    let lib_ref = Some("flowstdlib/control/tap".to_string());
    assert_eq!(
        p.resolved_url(&paths, LibCandidate::Path),
        Ok(("file:///proj/flowstdlib/control/tap".to_string(), lib_ref.clone()))
    );
    assert_eq!(
        p.resolved_url(&paths, LibCandidate::DefaultFile),
        Ok(("file:///proj/flowstdlib/control/tap/default.toml".to_string(), lib_ref.clone()))
    );
    assert_eq!(
        p.resolved_url(&paths, LibCandidate::NamedToml),
        Ok(("file:///proj/flowstdlib/control/tap/tap.toml".to_string(), lib_ref.clone()))
    );
    assert_eq!(
        p.resolved_url(&paths, LibCandidate::TomlExtension),
        Ok(("file:///proj/flowstdlib/control/tap.toml".to_string(), lib_ref))
    );
    assert_eq!(
        p.resolved_url(&paths, LibCandidate::NotFound),
        Err(ProviderError::ModuleNotFound("lib://flowstdlib/control/tap".to_string()))
    );
}

#[test]
fn library_name_is_host() {
    let p = LibProvider;
    assert_eq!(p.library_name("lib://flowstdlib/control/tap"), Ok("flowstdlib".to_string()));
    assert!(matches!(p.library_name("lib:nohost"), Err(ProviderError::NoLibraryName(_))));
    assert!(matches!(p.library_name("nonsense"), Err(ProviderError::InvalidUrl(_))));
}
