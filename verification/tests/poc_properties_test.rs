//! Concrete instances of the library's general properties, and edge cases of
//! the PoC builders.
use dalfox::scanning::ast_integration::{
    build_dom_xss_manual_poc_hint, build_dom_xss_poc_url, extract_javascript_from_html,
    extract_script_element_ids, generate_dom_xss_poc, has_self_bootstrap_verification,
};
use dalfox::scanning::markers::class_marker;

#[test]
fn hash_payload_lands_in_fragment_as_bare_body() {
    let (payload, _) = generate_dom_xss_poc("location.hash", "innerHTML");
    assert_eq!(payload, "#<img src=x onerror=alert(1) class=dalfox>");
    let url = build_dom_xss_poc_url("https://example.com/p?a=1", "location.hash", &payload);
    let parsed = url::Url::parse(&url).unwrap();
    assert_eq!(
        parsed.fragment(),
        Some("%3Cimg%20src=x%20onerror=alert(1)%20class=dalfox%3E")
    );
    assert_eq!(parsed.query(), Some("a=1"));
}

#[test]
fn document_url_sources_use_the_fragment() {
    let (payload, _) = generate_dom_xss_poc("document.URL", "eval");
    assert_eq!(payload, "#alert(1)");
    let url = build_dom_xss_poc_url("https://example.com/", "document.URL", &payload);
    assert_eq!(url, "https://example.com/#alert(1)");
}

#[test]
fn search_payload_replaces_the_query() {
    let (payload, _) = generate_dom_xss_poc("location.search", "innerHTML");
    let url = build_dom_xss_poc_url("https://example.com/s?old=1#frag", "location.search", &payload);
    let parsed = url::Url::parse(&url).unwrap();
    let pairs: Vec<(String, String)> = parsed.query_pairs().into_owned().collect();
    assert_eq!(
        pairs,
        vec![("xss".to_string(), "<img src=x onerror=alert(1) class=dalfox>".to_string())]
    );
    assert_eq!(parsed.fragment(), Some("frag"));
}

#[test]
fn search_payload_drops_a_leading_question_mark() {
    let url = build_dom_xss_poc_url("https://example.com/", "location.search", "?q=1");
    assert_eq!(url, "https://example.com/?q=1");
}

#[test]
fn pathname_payload_becomes_a_new_segment() {
    let url = build_dom_xss_poc_url("https://example.com/a", "location.pathname", "x");
    assert_eq!(url::Url::parse(&url).unwrap().path(), "/a/x");
}

#[test]
fn urlsearchparams_keeps_other_parameters_in_order() {
    let url = build_dom_xss_poc_url(
        "https://example.com/r/?a=1&query=old&b=2",
        "URLSearchParams.get(query)",
        "query=<svg>",
    );
    let pairs: Vec<(String, String)> = url::Url::parse(&url)
        .unwrap()
        .query_pairs()
        .into_owned()
        .collect();
    assert_eq!(
        pairs,
        vec![
            ("a".to_string(), "1".to_string()),
            ("b".to_string(), "2".to_string()),
            ("query".to_string(), "<svg>".to_string())
        ]
    );
}

#[test]
fn nested_chain_value_yields_payload_after_lookups() {
    let (payload, _) = generate_dom_xss_poc("URLSearchParams.get(a).get(b).get(c)", "src");
    assert_eq!(payload, "c=data:text/javascript,alert(1)");
    let url = build_dom_xss_poc_url(
        "https://example.com/",
        "URLSearchParams.get(a).get(b).get(c)",
        &payload,
    );
    let pairs: Vec<(String, String)> = url::Url::parse(&url)
        .unwrap()
        .query_pairs()
        .into_owned()
        .collect();
    assert_eq!(
        pairs,
        vec![("a".to_string(), "b=c=data:text/javascript,alert(1)".to_string())]
    );
}

#[test]
fn unparsable_base_is_returned_unchanged() {
    assert_eq!(
        build_dom_xss_poc_url("not a url", "location.hash", "#x"),
        "not a url"
    );
}

#[test]
fn browser_state_without_seed_parameter_falls_back() {
    let base = "https://example.com/p?other=1";
    assert_eq!(build_dom_xss_poc_url(base, "window.name", "<b>"), base);
}

#[test]
fn unknown_source_with_seed_parameter_falls_back() {
    let base = "https://example.com/p?seed=1";
    assert_eq!(build_dom_xss_poc_url(base, "someObject.value", "<b>"), base);
}

#[test]
fn description_names_class_source_and_sink() {
    let (_, description) = generate_dom_xss_poc("window.name", "document.write");
    assert_eq!(
        description,
        "DOM-based XSS: data from window.name reaches the sink document.write"
    );
}

#[test]
fn html_payload_carries_class_marker_for_every_source() {
    for source in ["location.hash", "location.search", "URLSearchParams.get(q)", "window.name"] {
        let (payload, _) = generate_dom_xss_poc(source, "outerHTML");
        assert!(payload.contains(class_marker()), "{payload}");
        assert!(payload.ends_with("<img src=x onerror=alert(1) class=dalfox>"));
    }
}

#[test]
fn url_and_script_sinks_get_their_own_payloads() {
    assert_eq!(generate_dom_xss_poc("window.name", "import").0, "data:text/javascript,alert(1)");
    assert_eq!(generate_dom_xss_poc("window.name", "setTimeout").0, "alert(1)");
    assert_eq!(
        generate_dom_xss_poc("location.search", "eval").0,
        "xss=alert(1)"
    );
}

#[test]
fn manual_hint_absent_for_url_and_unknown_sources() {
    for source in [
        "location.search",
        "location.pathname",
        "document.URL",
        "URLSearchParams.get(q)",
        "someObject.value",
    ] {
        assert!(build_dom_xss_manual_poc_hint("https://e.com/", source, "<b>").is_none());
    }
}

#[test]
fn manual_hint_escapes_the_payload_as_a_js_string() {
    let hint = build_dom_xss_manual_poc_hint(
        "https://example.com/",
        "window.name",
        "<img src=\"x\" onerror=alert('1')>\\",
    )
    .unwrap();
    assert!(hint.contains("w.name = \"<img src=\\\"x\\\" onerror=alert('1')>\\\\\""));
    assert!(hint.contains("w.location = \"https://example.com/\";"));
}

#[test]
fn manual_hint_for_storage_without_key_uses_default_key() {
    let hint =
        build_dom_xss_manual_poc_hint("https://example.com/", "localStorage.getItem", "<b>")
            .unwrap();
    assert!(hint.contains("localStorage.setItem(\"dalfox\", \"<b>\")"));
}

#[test]
fn self_bootstrap_never_holds_for_url_sources() {
    let js = "const seed = url.searchParams.get('seed'); window.name = seed;";
    assert!(has_self_bootstrap_verification(js, "window.name"));
    assert!(!has_self_bootstrap_verification(js, "location.hash"));
    assert!(!has_self_bootstrap_verification(js, "URLSearchParams.get(seed)"));
}

#[test]
fn self_bootstrap_storage_requires_the_same_key() {
    let js = "const seed = u.searchParams.get(\"seed\"); localStorage.setItem('k1', seed);";
    assert!(has_self_bootstrap_verification(js, "localStorage.getItem(k1)"));
    assert!(!has_self_bootstrap_verification(js, "localStorage.getItem(k2)"));
}

#[test]
fn inline_scripts_skip_blank_and_external_only_bodies() {
    let html = "<SCRIPT type='module'>a()</SCRIPT><script src='/x.js'></script><script>  \n </script><script>b()";
    assert_eq!(
        extract_javascript_from_html(html),
        vec!["a()".to_string(), "b()".to_string()]
    );
}

#[test]
fn script_ids_are_distinct_and_trimmed() {
    let html = "<script id=' a '></script><script id=a></script><script ID=\"b\"></script><scripts id='c'></scripts>";
    let ids = extract_script_element_ids(html);
    assert_eq!(ids.to_vec(), vec!["a".to_string(), "b".to_string()]);
    assert!(!ids.is_empty());
    assert!(!ids.contains("c"));
}
