//! Scan options.
use crate::scanning::ast_integration::poc::owned;
use vstd::prelude::*;

verus! {

/// Every option of a scan.
///
/// `waf_min_confidence` is held in thousandths (0 to 1000) of the confidence
/// that a WAF probe must reach before its result is used.
#[derive(Debug)]
pub struct ScanArgs {
    pub detect_outdated_libs: bool,
    pub analyze_external_js: bool,
    pub input_type: String,
    pub format: String,
    pub targets: Vec<String>,
    pub param: Vec<String>,
    pub data: Option<String>,
    pub headers: Vec<String>,
    pub cookies: Vec<String>,
    pub method: String,
    pub user_agent: Option<String>,
    pub cookie_from_raw: Option<String>,
    pub include_url: Vec<String>,
    pub exclude_url: Vec<String>,
    pub ignore_param: Vec<String>,
    pub out_of_scope: Vec<String>,
    pub out_of_scope_file: Option<String>,
    pub mining_dict_word: Option<String>,
    pub skip_mining: bool,
    pub skip_mining_dict: bool,
    pub skip_mining_dom: bool,
    pub only_discovery: bool,
    pub skip_discovery: bool,
    pub skip_reflection_header: bool,
    pub skip_reflection_cookie: bool,
    pub skip_reflection_path: bool,
    pub timeout: u64,
    pub scan_timeout: u64,
    pub delay: u64,
    pub proxy: Option<String>,
    pub follow_redirects: bool,
    pub ignore_return: Vec<u16>,
    pub output: Option<String>,
    pub include_request: bool,
    pub include_response: bool,
    pub include_all: bool,
    pub no_color: bool,
    pub silence: bool,
    pub dry_run: bool,
    pub stream_findings: bool,
    pub poc_type: String,
    pub limit: Option<usize>,
    pub limit_result_type: String,
    pub only_poc: Vec<String>,
    pub workers: usize,
    pub max_concurrent_targets: usize,
    pub max_targets_per_host: usize,
    pub encoders: Vec<String>,
    pub custom_blind_xss_payload: Option<String>,
    pub blind_callback_url: Option<String>,
    pub custom_payload: Option<String>,
    pub only_custom_payload: bool,
    pub inject_marker: Option<String>,
    pub custom_alert_value: String,
    pub custom_alert_type: String,
    pub skip_xss_scanning: bool,
    pub max_payloads_per_param: usize,
    pub deep_scan: bool,
    pub sxss: bool,
    pub sxss_url: Option<String>,
    pub sxss_method: String,
    pub sxss_retries: u32,
    pub skip_ast_analysis: bool,
    pub hpp: bool,
    pub waf_bypass: String,
    pub skip_waf_probe: bool,
    pub force_waf: Option<String>,
    pub waf_evasion: bool,
    pub waf_min_confidence: u16,
    pub remote_payloads: Vec<String>,
    pub remote_wordlists: Vec<String>,
}

/// The options of a preflight request against one target; every other scan
/// option takes its default.
#[derive(Debug)]
pub struct PreflightOptions {
    pub target: String,
    pub param: Vec<String>,
    pub method: String,
    pub data: Option<String>,
    pub headers: Vec<String>,
    pub cookies: Vec<String>,
    pub user_agent: Option<String>,
    pub timeout: u64,
    pub proxy: Option<String>,
    pub follow_redirects: bool,
    pub skip_mining: bool,
    pub skip_discovery: bool,
    pub encoders: Vec<String>,
}

/// `a` scans exactly the target of `o`, with the request options of `o`.
pub open spec fn takes_preflight_options(a: ScanArgs, o: PreflightOptions) -> bool {
    &&& a.targets@ == seq![o.target]
    &&& a.param == o.param
    &&& a.method == o.method
    &&& a.data == o.data
    &&& a.headers == o.headers
    &&& a.cookies == o.cookies
    &&& a.user_agent == o.user_agent
    &&& a.timeout == o.timeout
    &&& a.proxy == o.proxy
    &&& a.follow_redirects == o.follow_redirects
    &&& a.skip_mining == o.skip_mining
    &&& a.skip_discovery == o.skip_discovery
    &&& a.encoders == o.encoders
}

/// The options that a preflight scan does not take from its caller hold
/// their defaults: no output file, no filters, no extra analyses, the
/// `url` input type, plain output and PoCs, one worker per target.
pub open spec fn preflight_defaults(a: ScanArgs) -> bool {
    &&& !a.detect_outdated_libs
    &&& !a.analyze_external_js
    &&& a.input_type@ == "url"@
    &&& a.format@ == "plain"@
    &&& a.cookie_from_raw is None
    &&& a.include_url@.len() == 0
    &&& a.exclude_url@.len() == 0
    &&& a.ignore_param@.len() == 0
    &&& a.out_of_scope@.len() == 0
    &&& a.out_of_scope_file is None
    &&& a.mining_dict_word is None
    &&& !a.skip_mining_dict
    &&& !a.skip_mining_dom
    &&& !a.only_discovery
    &&& !a.skip_reflection_header
    &&& !a.skip_reflection_cookie
    &&& !a.skip_reflection_path
    &&& a.scan_timeout == 0
    &&& a.delay == 0
    &&& a.ignore_return@.len() == 0
    &&& a.output is None
    &&& !a.include_request
    &&& !a.include_response
    &&& !a.include_all
    &&& a.no_color
    &&& a.silence
    &&& !a.dry_run
    &&& !a.stream_findings
    &&& a.poc_type@ == "plain"@
    &&& a.limit is None
    &&& a.limit_result_type@ == "all"@
    &&& a.only_poc@.len() == 0
    &&& a.workers == 1
    &&& a.max_concurrent_targets == 1
    &&& a.max_targets_per_host == 1
    &&& a.custom_blind_xss_payload is None
    &&& a.blind_callback_url is None
    &&& a.custom_payload is None
    &&& !a.only_custom_payload
    &&& a.inject_marker is None
    &&& a.custom_alert_value@ == "1"@
    &&& a.custom_alert_type@ == "none"@
    &&& !a.skip_xss_scanning
    &&& a.max_payloads_per_param == 0
    &&& !a.deep_scan
    &&& !a.sxss
    &&& a.sxss_url is None
    &&& a.sxss_method@ == "GET"@
    &&& a.sxss_retries == 1
    &&& !a.skip_ast_analysis
    &&& !a.hpp
    &&& a.waf_bypass@ == "off"@
    &&& a.skip_waf_probe
    &&& a.force_waf is None
    &&& !a.waf_evasion
    &&& a.waf_min_confidence == 0
    &&& a.remote_payloads@.len() == 0
    &&& a.remote_wordlists@.len() == 0
}

/// A scan fetches and analyses the external scripts of the pages it visits
/// when `analyze_external_js` asks for it and the JavaScript analysis is not
/// skipped altogether.
pub open spec fn analyzes_external_scripts(a: ScanArgs) -> bool {
    a.analyze_external_js && !a.skip_ast_analysis
}

impl ScanArgs {
    /// Whether this scan fetches and analyses external scripts: only then
    /// is any request made for a page's `<script src>` URLs.
    pub fn analyzes_external_js(&self) -> (r: bool)
        ensures
            r == analyzes_external_scripts(*self),
    {
        self.analyze_external_js && !self.skip_ast_analysis
    }

    /// The options of a preflight scan of `opts.target`: the request options
    /// of `opts`, defaults for everything else.
    pub fn for_preflight(opts: PreflightOptions) -> (a: ScanArgs)
        ensures
            takes_preflight_options(a, opts),
            preflight_defaults(a),
    {
        let PreflightOptions {
            target,
            param,
            method,
            data,
            headers,
            cookies,
            user_agent,
            timeout,
            proxy,
            follow_redirects,
            skip_mining,
            skip_discovery,
            encoders,
        } = opts;
        let mut targets: Vec<String> = Vec::new();
        targets.push(target);
        ScanArgs {
            detect_outdated_libs: false,
            analyze_external_js: false,
            input_type: owned("url"),
            format: owned("plain"),
            targets,
            param,
            data,
            headers,
            cookies,
            method,
            user_agent,
            cookie_from_raw: None,
            include_url: Vec::new(),
            exclude_url: Vec::new(),
            ignore_param: Vec::new(),
            out_of_scope: Vec::new(),
            out_of_scope_file: None,
            mining_dict_word: None,
            skip_mining,
            skip_mining_dict: false,
            skip_mining_dom: false,
            only_discovery: false,
            skip_discovery,
            skip_reflection_header: false,
            skip_reflection_cookie: false,
            skip_reflection_path: false,
            timeout,
            scan_timeout: 0,
            delay: 0,
            proxy,
            follow_redirects,
            ignore_return: Vec::new(),
            output: None,
            include_request: false,
            include_response: false,
            include_all: false,
            no_color: true,
            silence: true,
            dry_run: false,
            stream_findings: false,
            poc_type: owned("plain"),
            limit: None,
            limit_result_type: owned("all"),
            only_poc: Vec::new(),
            workers: 1,
            max_concurrent_targets: 1,
            max_targets_per_host: 1,
            encoders,
            custom_blind_xss_payload: None,
            blind_callback_url: None,
            custom_payload: None,
            only_custom_payload: false,
            inject_marker: None,
            custom_alert_value: owned("1"),
            custom_alert_type: owned("none"),
            skip_xss_scanning: false,
            max_payloads_per_param: 0,
            deep_scan: false,
            sxss: false,
            sxss_url: None,
            sxss_method: owned("GET"),
            sxss_retries: 1,
            skip_ast_analysis: false,
            hpp: false,
            waf_bypass: owned("off"),
            skip_waf_probe: true,
            force_waf: None,
            waf_evasion: false,
            waf_min_confidence: 0,
            remote_payloads: Vec::new(),
            remote_wordlists: Vec::new(),
        }
    }
}

} // verus!
