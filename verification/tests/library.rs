use sidex_extensions::download::{is_success_status, DownloadPhase};
use sidex_extensions::text::{
    decimal_string, join_strings, str_equal, trim_trailing_slashes,
};
use sidex_extensions::{
    install_from_vsix, metadata_cache_key, plan_install, Dependency, DownloadAction, DownloadError,
    DownloadEvent, DownloadRetry, ExtensionMetadata, ExtensionVersion, InstallError,
    MarketplaceClient, MetadataCache, VsixValidation,
};

const FIVE_MINUTES: u128 = 300_000_000_000;

fn version(v: &str, url: &str) -> ExtensionVersion {
    ExtensionVersion {
        version: v.to_string(),
        engine_version: "^1.70.0".to_string(),
        download_url: url.to_string(),
        file_size: 1024,
        sha256: Some("abc".to_string()),
        published_at: "2024-01-01T00:00:00Z".to_string(),
    }
}

fn metadata(publisher: &str, name: &str, latest: Option<&str>) -> ExtensionMetadata {
    ExtensionMetadata {
        publisher: publisher.to_string(),
        name: name.to_string(),
        display_name: "Auto Close Tag".to_string(),
        description: "Closes tags".to_string(),
        versions: vec![
            version("1.0.0", "https://cdn.example/1.0.0.vsix"),
            version("0.9.0", "https://cdn.example/0.9.0.vsix"),
            version("1.0.0", "https://cdn.example/duplicate.vsix"),
        ],
        latest_version: latest.map(|s| s.to_string()),
        downloads: 42,
        rating_bits: 4.5f32.to_bits(),
        rating_count: 7,
        tags: vec!["html".to_string()],
        categories: vec!["Other".to_string()],
        repository: None,
        license: Some("MIT".to_string()),
        dependencies: vec![Dependency {
            publisher: "ms".to_string(),
            name: "core".to_string(),
            version_requirement: None,
        }],
        cached_at: 0,
    }
}

#[test]
fn decimal_string_writes_base_ten() {
    assert_eq!(decimal_string(0), "0");
    assert_eq!(decimal_string(7), "7");
    assert_eq!(decimal_string(10), "10");
    assert_eq!(decimal_string(404), "404");
    assert_eq!(decimal_string(u64::MAX), "18446744073709551615");
}

#[test]
fn trailing_slashes_are_trimmed() {
    assert_eq!(trim_trailing_slashes("https://x.org/"), "https://x.org");
    assert_eq!(trim_trailing_slashes("a///"), "a");
    assert_eq!(trim_trailing_slashes("///"), "");
    assert_eq!(trim_trailing_slashes(""), "");
    assert_eq!(trim_trailing_slashes("a/b"), "a/b");
    assert_eq!(trim_trailing_slashes("/é/"), "/é");
}

#[test]
fn join_strings_places_separator_between() {
    assert_eq!(join_strings(&vec![], "; "), "");
    assert_eq!(join_strings(&vec!["a".to_string()], "; "), "a");
    let parts = vec!["a".to_string(), "b".to_string(), "c".to_string()];
    assert_eq!(join_strings(&parts, "; "), "a; b; c");
}

#[test]
fn string_equality() {
    assert!(str_equal("x", "x"));
    assert!(!str_equal("x", "X"));
}

#[test]
fn client_with_base_url_trims_and_keeps_key() {
    let client = MarketplaceClient::with_base_url("https://marketplace.sidex.app//", Some("k".to_string()));
    assert_eq!(client.base_url, "https://marketplace.sidex.app");
    assert_eq!(client.api_key, Some("k".to_string()));
    let client = MarketplaceClient::new();
    assert_eq!(client.api_key, None);
}

#[test]
fn requests_target_marketplace_endpoints() {
    let client = MarketplaceClient::with_base_url("https://m.example/", Some("secret".to_string()));
    let r = client.search_request("auto-close-tag", 5);
    assert_eq!(r.url, "https://m.example/v1/extensions/search");
    assert_eq!(
        r.query,
        vec![
            ("q".to_string(), "auto-close-tag".to_string()),
            ("limit".to_string(), "5".to_string())
        ]
    );
    assert_eq!(r.bearer, "secret");

    let r = client.featured_request(12);
    assert_eq!(r.url, "https://m.example/v1/extensions/featured");
    assert_eq!(r.query, vec![("limit".to_string(), "12".to_string())]);

    let r = client.trending_request(100);
    assert_eq!(r.url, "https://m.example/v1/extensions/trending");
    assert_eq!(r.query, vec![("limit".to_string(), "100".to_string())]);

    let r = client.metadata_request("formulahendry", "auto-close-tag");
    assert_eq!(r.url, "https://m.example/v1/extensions/formulahendry/auto-close-tag");
    assert!(r.query.is_empty());

    let anonymous = MarketplaceClient::new();
    assert_eq!(anonymous.search_request("x", 0).bearer, "");
}

#[test]
fn cache_key_joins_publisher_and_name() {
    assert_eq!(metadata_cache_key("formulahendry", "auto-close-tag"), "formulahendry.auto-close-tag");
}

#[test]
fn download_url_is_that_of_first_matching_version() {
    let m = metadata("p", "n", Some("1.0.0"));
    assert_eq!(m.download_url_for_version("1.0.0"), Some("https://cdn.example/1.0.0.vsix".to_string()));
    assert_eq!(m.download_url_for_version("0.9.0"), Some("https://cdn.example/0.9.0.vsix".to_string()));
    assert_eq!(m.download_url_for_version("2.0.0"), None);
    assert_eq!(m.duplicate(), m);
}

#[test]
fn metadata_cache_reads_back_writes() {
    let mut cache = MetadataCache::new();
    assert!(cache.get("p.n").is_none());
    cache.insert("p.n".to_string(), metadata("p", "n", Some("1.0.0")));
    cache.insert("q.m".to_string(), metadata("q", "m", None));
    assert_eq!(cache.get("p.n").unwrap().latest_version, Some("1.0.0".to_string()));
    cache.insert("p.n".to_string(), metadata("p", "n", Some("2.0.0")));
    assert_eq!(cache.get("p.n").unwrap().latest_version, Some("2.0.0".to_string()));
    cache.remove("p.n");
    assert!(cache.get("p.n").is_none());
    assert_eq!(cache.get("q.m").unwrap().publisher, "q");
    cache.clear();
    assert!(cache.get("q.m").is_none());
}

#[test]
fn cached_metadata_is_fresh_for_five_minutes() {
    let mut client = MarketplaceClient::new();
    let t: u128 = 1_700_000_000_000_000_000;
    assert!(client.cached_metadata("p", "n", t).is_none());
    client.store_metadata("p", "n", metadata("p", "n", Some("1.0.0")), t);
    let hit = client.cached_metadata("p", "n", t + 1).unwrap();
    assert_eq!(hit.cached_at, t);
    assert_eq!(hit.latest_version, Some("1.0.0".to_string()));
    assert!(client.cached_metadata("p", "n", t + FIVE_MINUTES - 1).is_some());
    assert!(client.cached_metadata("p", "n", t + FIVE_MINUTES).is_none());
    // A clock that went backwards counts as no time elapsed.
    assert!(client.cached_metadata("p", "n", t - 10).is_some());
    // Other extensions are not answered from this entry.
    assert!(client.cached_metadata("p", "m", t).is_none());
    client.invalidate_metadata("p", "n");
    assert!(client.cached_metadata("p", "n", t).is_none());
    client.store_metadata("p", "n", metadata("p", "n", None), t);
    client.clear_cache();
    assert!(client.cached_metadata("p", "n", t).is_none());
}

#[test]
fn install_plan_uses_requested_or_latest_version() {
    let m = metadata("formulahendry", "auto-close-tag", Some("1.0.0"));
    let plan = plan_install(&m, "formulahendry", "auto-close-tag", None).unwrap();
    assert_eq!(plan.version, "1.0.0");
    assert_eq!(plan.download_url, "https://cdn.example/1.0.0.vsix");
    assert_eq!(plan.cache_key, "formulahendry-auto-close-tag-1.0.0");

    let plan = plan_install(&m, "formulahendry", "auto-close-tag", Some("0.9.0")).unwrap();
    assert_eq!(plan.version, "0.9.0");
    assert_eq!(plan.download_url, "https://cdn.example/0.9.0.vsix");
    assert_eq!(plan.cache_key, "formulahendry-auto-close-tag-0.9.0");
}

#[test]
fn install_plan_errors() {
    let m = metadata("p", "n", None);
    let e = plan_install(&m, "p", "n", None).unwrap_err();
    assert_eq!(e, InstallError::NoVersionAvailable { publisher: "p".to_string(), name: "n".to_string() });
    assert_eq!(e.message(), "no version available for p.n");

    let e = plan_install(&m, "p", "n", Some("3.1.4")).unwrap_err();
    assert_eq!(
        e,
        InstallError::NoDownloadUrl {
            publisher: "p".to_string(),
            name: "n".to_string(),
            version: "3.1.4".to_string()
        }
    );
    assert_eq!(e.message(), "no download URL for p.n@3.1.4");
}

#[test]
fn success_statuses() {
    assert!(!is_success_status(199));
    assert!(is_success_status(200));
    assert!(is_success_status(299));
    assert!(!is_success_status(300));
    assert!(!is_success_status(404));
}

#[test]
fn download_succeeds_with_received_bytes() {
    let mut d = DownloadRetry::new();
    assert_eq!(d.step(DownloadEvent::Start), DownloadAction::Send);
    assert_eq!(d.step(DownloadEvent::Responded(200)), DownloadAction::ReadBody);
    assert_eq!(
        d.step(DownloadEvent::BodyRead(vec![1, 2, 3])),
        DownloadAction::Finished(vec![1, 2, 3])
    );
    assert_eq!(d.attempt, 1);
    assert_eq!(d.phase, DownloadPhase::Over);
}

#[test]
fn download_retries_three_times_then_fails() {
    let mut d = DownloadRetry::new();
    assert_eq!(d.step(DownloadEvent::Start), DownloadAction::Send);
    assert_eq!(d.step(DownloadEvent::SendFailed("timeout 1".to_string())), DownloadAction::Send);
    assert_eq!(d.phase, DownloadPhase::Sending);
    assert_eq!(d.step(DownloadEvent::Responded(204)), DownloadAction::ReadBody);
    assert_eq!(d.phase, DownloadPhase::Reading);
    assert_eq!(d.step(DownloadEvent::BodyFailed("reset".to_string())), DownloadAction::Send);
    let last = d.step(DownloadEvent::SendFailed("timeout 3".to_string()));
    assert_eq!(
        last,
        DownloadAction::Failed(DownloadError::ReadFailed(Some("timeout 3".to_string())))
    );
    assert_eq!(d.attempt, 3);
    if let DownloadAction::Failed(e) = last {
        assert_eq!(e.message(), "failed to read vsix bytes: timeout 3");
    }
    assert_eq!(DownloadError::ReadFailed(None).message(), "failed to read vsix bytes");
}

#[test]
fn download_failure_status_is_not_retried() {
    let mut d = DownloadRetry::new();
    assert_eq!(d.step(DownloadEvent::Start), DownloadAction::Send);
    let a = d.step(DownloadEvent::Responded(404));
    assert_eq!(a, DownloadAction::Failed(DownloadError::HttpStatus(404)));
    assert_eq!(DownloadError::HttpStatus(404).message(), "vsix download failed: HTTP 404");
    assert_eq!(d.attempt, 1);
    assert_eq!(d.phase, DownloadPhase::Over);
}

#[test]
fn vsix_install_decision() {
    let ok = VsixValidation { valid: true, errors: vec![] };
    assert_eq!(install_from_vsix(&ok), Ok(()));
    let bad = VsixValidation {
        valid: false,
        errors: vec!["missing extension/package.json".to_string(), "entry too large".to_string()],
    };
    assert_eq!(
        install_from_vsix(&bad),
        Err("VSIX validation failed: missing extension/package.json; entry too large".to_string())
    );
    let bad_empty = VsixValidation { valid: false, errors: vec![] };
    assert_eq!(install_from_vsix(&bad_empty), Err("VSIX validation failed: ".to_string()));
}
