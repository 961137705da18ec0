//! External `<script src>` bundles: same-origin extraction and the bounded
//! fetch policy, driven with simulated responses.
use dalfox::scanning::ast_integration::external::{
    ExternalScriptFetch, FetchStep, MAX_EXTERNAL_SCRIPTS, MAX_SCRIPT_BYTES, minimal_scan_args,
    url_in_scope,
};
use dalfox::scanning::ast_integration::extract_external_script_urls;

// --- extract_external_script_urls tests ---

#[test]
fn test_extract_external_script_urls_same_origin_only() {
    let html = r#"
<html><body>
<script src="/bundle.js"></script>
<script src="https://cdn.other.com/lib.js"></script>
</body></html>
"#;
    let base = url::Url::parse("https://example.com/page").unwrap();
    let urls = extract_external_script_urls(html, base.as_str());
    assert_eq!(urls.len(), 1, "cross-origin src must be filtered out");
    let first = url::Url::parse(&urls[0]).unwrap();
    assert!(first.path().contains("bundle.js"));
}

#[test]
fn test_extract_external_script_urls_dedup() {
    let html = r#"<html><body>
<script src="/a.js"></script>
<script src="/a.js"></script>
</body></html>"#;
    let base = url::Url::parse("https://example.com/").unwrap();
    let urls = extract_external_script_urls(html, base.as_str());
    assert_eq!(urls.len(), 1, "same src listed twice must be deduplicated");
}

#[test]
fn test_extract_external_script_urls_none_when_inline_only() {
    let html = r#"<html><body><script>var x = 1;</script></body></html>"#;
    let base = url::Url::parse("https://example.com/").unwrap();
    let urls = extract_external_script_urls(html, base.as_str());
    assert!(urls.is_empty(), "inline-only page must yield no URLs");
}

#[test]
fn test_extract_external_script_urls_relative_resolved() {
    let html = r#"<html><body><script src="js/app.js"></script></body></html>"#;
    let base = url::Url::parse("https://example.com/app/").unwrap();
    let urls = extract_external_script_urls(html, base.as_str());
    assert_eq!(urls.len(), 1);
    assert_eq!(urls[0].as_str(), "https://example.com/app/js/app.js");
}

#[test]
fn external_urls_keep_document_order_and_same_origin_absolute_srcs() {
    let html = r#"<script src=" /b.js "></script><script src='https://example.com/a.js'></script>
<script src="http://example.com/c.js"></script><script src="/b.js"></script>"#;
    let urls = extract_external_script_urls(html, "https://example.com/x/y");
    assert_eq!(
        urls,
        vec![
            "https://example.com/b.js".to_string(),
            "https://example.com/a.js".to_string()
        ]
    );
}

#[test]
fn external_urls_empty_for_unparsable_base() {
    let html = r#"<script src="/a.js"></script>"#;
    assert!(extract_external_script_urls(html, "not a url").is_empty());
}

#[test]
fn external_urls_never_match_an_opaque_origin() {
    let html = r#"<script src="data:text/javascript,1"></script>"#;
    assert!(extract_external_script_urls(html, "data:text/html,x").is_empty());
}

// ===== bounded fetch: count cap, size cap, include / exclude =====

fn offer_all(
    fetch: &mut ExternalScriptFetch,
    urls: &[String],
    args: &dalfox::cmd::scan::ScanArgs,
    body: &str,
) -> usize {
    let mut requests = 0;
    for u in urls {
        match fetch.next_step(u, args) {
            FetchStep::Fetch => {
                requests += 1;
                fetch.record(Some(body.to_string()));
            }
            FetchStep::Skip => {}
            FetchStep::Stop => break,
        }
    }
    requests
}

#[test]
fn test_fetch_external_scripts_count_cap() {
    let urls: Vec<String> = (0..15)
        .map(|i| format!("http://127.0.0.1:8080/script{i}.js"))
        .collect();
    let scan_args = minimal_scan_args();
    let mut fetch = ExternalScriptFetch::new(Vec::new());
    offer_all(&mut fetch, &urls, &scan_args, "var x = 1;");
    let results = fetch.into_scripts();
    assert!(
        results.len() <= MAX_EXTERNAL_SCRIPTS,
        "expected at most {MAX_EXTERNAL_SCRIPTS} scripts, got {}",
        results.len()
    );
    assert_eq!(
        results.len(),
        MAX_EXTERNAL_SCRIPTS,
        "expected exactly {MAX_EXTERNAL_SCRIPTS} scripts fetched"
    );
}

#[test]
fn test_fetch_external_scripts_size_cap() {
    let oversized = "x".repeat(MAX_SCRIPT_BYTES + 1);
    let urls = vec!["http://127.0.0.1:8080/big.js".to_string()];
    let scan_args = minimal_scan_args();
    let mut fetch = ExternalScriptFetch::new(Vec::new());
    offer_all(&mut fetch, &urls, &scan_args, &oversized);
    let results = fetch.into_scripts();
    assert!(
        results.is_empty(),
        "script body over {MAX_SCRIPT_BYTES} bytes must be skipped, got {} result(s)",
        results.len()
    );
}

#[test]
fn test_fetch_external_scripts_exclude_url() {
    let urls = vec![
        "http://127.0.0.1:8080/vendor.js".to_string(),
        "http://127.0.0.1:8080/app.js".to_string(),
    ];
    let mut scan_args = minimal_scan_args();
    scan_args.exclude_url = vec!["vendor\\.js".to_string()];
    let mut fetch = ExternalScriptFetch::new(Vec::new());
    offer_all(&mut fetch, &urls, &scan_args, "var x = 1;");
    let results = fetch.into_scripts();
    assert_eq!(results.len(), 1, "excluded script must be skipped");
    assert!(
        results[0].0.contains("app.js"),
        "only app.js should be fetched, got {:?}",
        results[0].0
    );
}

#[test]
fn test_fetch_external_scripts_include_url() {
    let urls = vec![
        "http://127.0.0.1:8080/vendor.js".to_string(),
        "http://127.0.0.1:8080/app.js".to_string(),
        "http://127.0.0.1:8080/runtime.js".to_string(),
    ];
    let mut scan_args = minimal_scan_args();
    scan_args.include_url = vec!["app\\.js".to_string()];
    let mut fetch = ExternalScriptFetch::new(Vec::new());
    offer_all(&mut fetch, &urls, &scan_args, "var x = 1;");
    let results = fetch.into_scripts();
    assert_eq!(results.len(), 1, "only the included script should be fetched");
    assert!(
        results[0].0.contains("app.js"),
        "only app.js should be fetched, got {:?}",
        results[0].0
    );
}

#[test]
fn fetch_stops_after_budget_even_when_requests_fail() {
    let scan_args = minimal_scan_args();
    let mut fetch = ExternalScriptFetch::new(Vec::new());
    let mut requests = 0;
    for i in 0..20 {
        let u = format!("https://example.com/{i}.js");
        match fetch.next_step(&u, &scan_args) {
            FetchStep::Fetch => {
                requests += 1;
                fetch.record(None);
            }
            FetchStep::Skip => panic!("fresh URL {u} must not be skipped"),
            FetchStep::Stop => {
                assert_eq!(i, MAX_EXTERNAL_SCRIPTS);
                break;
            }
        }
    }
    assert_eq!(requests, MAX_EXTERNAL_SCRIPTS);
    assert_eq!(fetch.requested(), MAX_EXTERNAL_SCRIPTS);
    assert!(fetch.into_scripts().is_empty());
}

#[test]
fn fetch_skips_urls_seen_before_and_repeated_urls() {
    let scan_args = minimal_scan_args();
    let seen = vec![
        "https://example.com/old.js".to_string(),
        "https://example.com/old.js".to_string(),
    ];
    let mut fetch = ExternalScriptFetch::new(seen);
    assert_eq!(fetch.seen(), vec!["https://example.com/old.js".to_string()]);
    assert_eq!(
        fetch.next_step("https://example.com/old.js", &scan_args),
        FetchStep::Skip
    );
    assert_eq!(
        fetch.next_step("https://example.com/new.js", &scan_args),
        FetchStep::Fetch
    );
    fetch.record(Some("let a = 1;".to_string()));
    assert_eq!(
        fetch.next_step("https://example.com/new.js", &scan_args),
        FetchStep::Skip
    );
    assert_eq!(
        fetch.seen(),
        vec![
            "https://example.com/old.js".to_string(),
            "https://example.com/new.js".to_string()
        ]
    );
    assert_eq!(fetch.requested(), 1);
    assert_eq!(
        fetch.into_scripts(),
        vec![(
            "https://example.com/new.js".to_string(),
            "let a = 1;".to_string()
        )]
    );
}

#[test]
fn fetch_keeps_body_of_exactly_the_size_limit_counted_in_bytes() {
    let scan_args = minimal_scan_args();
    let mut fetch = ExternalScriptFetch::new(Vec::new());
    assert_eq!(fetch.next_step("https://example.com/a.js", &scan_args), FetchStep::Fetch);
    fetch.record(Some("x".repeat(MAX_SCRIPT_BYTES)));
    // Two bytes per character: half the characters already fill the limit.
    assert_eq!(fetch.next_step("https://example.com/b.js", &scan_args), FetchStep::Fetch);
    fetch.record(Some("é".repeat(MAX_SCRIPT_BYTES / 2 + 1)));
    let scripts = fetch.into_scripts();
    assert_eq!(scripts.len(), 1);
    assert_eq!(scripts[0].0, "https://example.com/a.js");
}

#[test]
fn record_without_pending_request_changes_nothing() {
    let mut fetch = ExternalScriptFetch::new(Vec::new());
    fetch.record(Some("var x;".to_string()));
    assert_eq!(fetch.requested(), 0);
    assert!(fetch.into_scripts().is_empty());
}

#[test]
fn url_scope_follows_include_and_exclude_patterns() {
    let none: Vec<String> = vec![];
    let app = vec!["app\\.js$".to_string()];
    let vendor = vec!["vendor".to_string()];
    let invalid = vec!["(".to_string()];
    assert!(url_in_scope("https://e.com/app.js", &none, &none));
    assert!(url_in_scope("https://e.com/app.js", &app, &none));
    assert!(!url_in_scope("https://e.com/main.js", &app, &none));
    assert!(!url_in_scope("https://e.com/vendor/app.js", &app, &vendor));
    assert!(url_in_scope("https://e.com/app.js", &none, &invalid));
    assert!(!url_in_scope("https://e.com/app.js", &invalid, &none));
}

#[test]
fn minimal_scan_args_is_a_plain_localhost_preflight() {
    let a = minimal_scan_args();
    assert_eq!(a.targets, vec!["http://localhost".to_string()]);
    assert_eq!(a.method, "GET");
    assert_eq!(a.timeout, 5);
    assert!(a.param.is_empty() && a.headers.is_empty() && a.cookies.is_empty());
    assert!(a.data.is_none() && a.user_agent.is_none() && a.proxy.is_none());
    assert!(!a.follow_redirects && !a.skip_mining && !a.skip_discovery);
    assert!(a.include_url.is_empty() && a.exclude_url.is_empty());
    assert!(!a.analyze_external_js);
    assert_eq!(a.input_type, "url");
    assert_eq!(a.waf_bypass, "off");
}

#[test]
fn external_scripts_are_analysed_only_when_asked_and_ast_analysis_runs() {
    let mut a = minimal_scan_args();
    assert!(!a.analyzes_external_js());
    a.analyze_external_js = true;
    assert!(a.analyzes_external_js());
    a.skip_ast_analysis = true;
    assert!(!a.analyzes_external_js());
}
