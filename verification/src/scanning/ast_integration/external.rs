//! External `<script src>` bundles: which of them are worth fetching for
//! analysis, and the bounded policy that decides, URL by URL, whether to
//! fetch, skip or stop.
//!
//! Only same-origin scripts are considered. At most `MAX_EXTERNAL_SCRIPTS`
//! requests are made per page, a URL is requested at most once across the
//! pages that share a `seen` set, a body larger than `MAX_SCRIPT_BYTES`
//! bytes is dropped, and the scan's `include_url` and `exclude_url` regular
//! expressions restrict which URLs are requested.
use crate::cmd::scan::{PreflightOptions, ScanArgs, preflight_defaults};
use crate::scanning::ast_integration::poc::owned;
use crate::scanning::ast_integration::html::{extract_script_srcs, script_srcs, script_tags, strings_contain};
use crate::text::to_chars;
use crate::weburl::{URL_SIZE_LIMIT, join, origin, url_joined, url_origin, url_parses};
use vstd::prelude::*;
use vstd::utf8::encode_utf8;

verus! {

/// The ASCII serialization of an opaque origin: never the same origin as
/// anything, itself included.
pub open spec fn opaque_origin() -> Seq<char> {
    "null"@
}

/// `src` resolved against `base`, when it resolves to a URL of the same
/// (non-opaque) origin as `base`. A reference too long to hand to the URL
/// parser is not resolved.
pub open spec fn same_origin_script(base: Seq<char>, src: Seq<char>) -> Option<Seq<char>> {
    if base.len() + src.len() > URL_SIZE_LIMIT {
        None
    } else {
        match url_joined(base, src) {
            Some(u) => if url_parses(u) && url_origin(u) == url_origin(base) && url_origin(base)
                != opaque_origin() {
                Some(u)
            } else {
                None
            },
            None => None,
        }
    }
}

/// The same-origin resolutions of `srcs` against `base`, without
/// repetitions, in order of first appearance.
pub open spec fn same_origin_scripts(base: Seq<char>, srcs: Seq<Seq<char>>) -> Seq<Seq<char>>
    decreases srcs.len(),
{
    if srcs.len() == 0 {
        Seq::empty()
    } else {
        let prev = same_origin_scripts(base, srcs.drop_last());
        match same_origin_script(base, srcs.last()) {
            Some(u) => if prev.contains(u) {
                prev
            } else {
                prev.push(u)
            },
            None => prev,
        }
    }
}

/// The external scripts of `html`, loaded from a page at `base`: the
/// `src` of each `<script>` element resolved against `base`, kept when it
/// has the origin of `base`, each URL once. Nothing when `base` does not
/// parse.
pub open spec fn external_script_urls(html: Seq<char>, base: Seq<char>) -> Seq<Seq<char>> {
    if url_parses(base) {
        same_origin_scripts(base, script_srcs(script_tags(html)))
    } else {
        Seq::empty()
    }
}

/// `src` resolved against `base` when it is a same-origin script URL.
fn same_origin_script_exec(base: &str, base_origin: &String, src: &String) -> (r: Option<String>)
    requires
        url_parses(base@),
        base_origin@ == url_origin(base@),
    ensures
        match r {
            Some(u) => same_origin_script(base@, src@) == Some(u@),
            None => same_origin_script(base@, src@) is None,
        },
{
    let blen: usize = to_chars(base).len();
    let slen: usize = to_chars(src.as_str()).len();
    if blen > URL_SIZE_LIMIT || slen > URL_SIZE_LIMIT - blen {
        return None;
    }
    let joined = match join(base, src.as_str()) {
        Some(u) => u,
        None => return None,
    };
    let o = match origin(joined.as_str()) {
        Some(o) => o,
        None => return None,
    };
    let null = "null".to_owned();
    if o == *base_origin && *base_origin != null {
        Some(joined)
    } else {
        None
    }
}

/// The same-origin external script URLs of an HTML page loaded from
/// `base_url`, resolved and without repetitions, in document order. Empty
/// when `base_url` does not parse.
pub fn extract_external_script_urls(html: &str, base_url: &str) -> (r: Vec<String>)
    ensures
        r.deep_view() == external_script_urls(html@, base_url@),
{
    let base_origin = match origin(base_url) {
        Some(o) => o,
        None => return Vec::new(),
    };
    let srcs = extract_script_srcs(html);
    let mut urls: Vec<String> = Vec::new();
    let mut i: usize = 0;
    while i < srcs.len()
        invariant
            i <= srcs@.len(),
            url_parses(base_url@),
            base_origin@ == url_origin(base_url@),
            srcs.deep_view() == script_srcs(script_tags(html@)),
            urls.deep_view() == same_origin_scripts(base_url@, srcs.deep_view().take(i as int)),
        decreases srcs.len() - i,
    {
        assert(srcs.deep_view().take(i + 1).drop_last() =~= srcs.deep_view().take(i as int));
        match same_origin_script_exec(base_url, &base_origin, &srcs[i]) {
            Some(u) => {
                if !strings_contain(&urls, &u) {
                    let ghost before = urls.deep_view();
                    urls.push(u);
                    assert(urls.deep_view() =~= before.push(u@));
                }
            },
            None => {},
        }
        i = i + 1;
    }
    assert(srcs.deep_view().take(srcs@.len() as int) =~= srcs.deep_view());
    urls
}

/// Each external script URL of a page is the resolution of one of its
/// `<script src>` values, has the page's own (non-opaque) origin, and is
/// listed once.
pub proof fn law_external_scripts_same_origin(html: Seq<char>, base: Seq<char>)
    ensures
        external_script_urls(html, base).no_duplicates(),
        forall|i: int|
            0 <= i < external_script_urls(html, base).len() ==> {
                let u = #[trigger] external_script_urls(html, base)[i];
                &&& url_origin(u) == url_origin(base)
                &&& url_origin(base) != opaque_origin()
                &&& exists|j: int|
                    0 <= j < script_srcs(script_tags(html)).len() && same_origin_script(
                        base,
                        #[trigger] script_srcs(script_tags(html))[j],
                    ) == Some(u)
            },
{
    if url_parses(base) {
        lemma_same_origin_scripts(base, script_srcs(script_tags(html)));
    }
}

/// No same-origin script is lost: the resolution of every `<script src>`
/// of a page with a parsable URL that has the page's origin is listed.
pub proof fn law_external_scripts_complete(html: Seq<char>, base: Seq<char>)
    requires
        url_parses(base),
    ensures
        forall|j: int|
            0 <= j < script_srcs(script_tags(html)).len() && (#[trigger] same_origin_script(
                base,
                script_srcs(script_tags(html))[j],
            )) is Some ==> external_script_urls(html, base).contains(
                same_origin_script(base, script_srcs(script_tags(html))[j]).unwrap(),
            ),
{
    lemma_same_origin_scripts_complete(base, script_srcs(script_tags(html)));
}

proof fn lemma_same_origin_scripts_complete(base: Seq<char>, srcs: Seq<Seq<char>>)
    ensures
        forall|j: int|
            0 <= j < srcs.len() && (#[trigger] same_origin_script(base, srcs[j])) is Some
                ==> same_origin_scripts(base, srcs).contains(
                same_origin_script(base, srcs[j]).unwrap(),
            ),
    decreases srcs.len(),
{
    if srcs.len() > 0 {
        let rest = srcs.drop_last();
        lemma_same_origin_scripts_complete(base, rest);
        let prev = same_origin_scripts(base, rest);
        let cur = same_origin_scripts(base, srcs);
        assert forall|j: int|
            0 <= j < srcs.len() && (#[trigger] same_origin_script(base, srcs[j])) is Some
                implies cur.contains(same_origin_script(base, srcs[j]).unwrap()) by {
            let u = same_origin_script(base, srcs[j]).unwrap();
            if j < rest.len() {
                assert(rest[j] == srcs[j]);
                assert(prev.contains(u));
                let k: int = choose|k: int| 0 <= k < prev.len() && prev[k] == u;
                if cur != prev {
                    assert(cur[k] == prev[k]);
                }
            } else {
                if !prev.contains(u) {
                    assert(cur[prev.len() as int] == u);
                }
            }
        }
    }
}

proof fn lemma_same_origin_scripts(base: Seq<char>, srcs: Seq<Seq<char>>)
    ensures
        same_origin_scripts(base, srcs).no_duplicates(),
        forall|i: int|
            0 <= i < same_origin_scripts(base, srcs).len() ==> {
                let u = #[trigger] same_origin_scripts(base, srcs)[i];
                &&& url_origin(u) == url_origin(base)
                &&& url_origin(base) != opaque_origin()
                &&& exists|j: int|
                    0 <= j < srcs.len() && same_origin_script(base, #[trigger] srcs[j]) == Some(u)
            },
    decreases srcs.len(),
{
    if srcs.len() > 0 {
        let rest = srcs.drop_last();
        lemma_same_origin_scripts(base, rest);
        let prev = same_origin_scripts(base, rest);
        let cur = same_origin_scripts(base, srcs);
        assert forall|i: int| 0 <= i < cur.len() implies {
            let u = #[trigger] cur[i];
            &&& url_origin(u) == url_origin(base)
            &&& url_origin(base) != opaque_origin()
            &&& exists|j: int|
                0 <= j < srcs.len() && same_origin_script(base, #[trigger] srcs[j]) == Some(u)
        } by {
            if i < prev.len() {
                assert(cur[i] == prev[i]);
                let u = prev[i];
                let j: int = choose|j: int|
                    0 <= j < rest.len() && same_origin_script(base, #[trigger] rest[j]) == Some(u);
                assert(srcs[j] == rest[j]);
            } else {
                assert(same_origin_script(base, srcs[srcs.len() - 1]) == Some(cur[i]));
            }
        }
        match same_origin_script(base, srcs.last()) {
            Some(u) => {
                if !prev.contains(u) {
                    assert(cur == prev.push(u));
                    assert forall|a: int, b: int| 0 <= a < b < cur.len() implies cur[a]
                        != cur[b] by {
                        if b == prev.len() {
                            assert(cur[a] == prev[a]);
                        } else {
                            assert(cur[a] == prev[a] && cur[b] == prev[b]);
                        }
                    }
                }
            },
            None => {},
        }
    }
}

/// Whether `regex::Regex::new(pattern)` succeeds.
pub uninterp spec fn regex_compiles(pattern: Seq<char>) -> bool;

/// `Regex::is_match(haystack)` of the regex compiled from `pattern`: some
/// substring of `haystack` matches it.
pub uninterp spec fn regex_is_match(pattern: Seq<char>, haystack: Seq<char>) -> bool;

/// `regex::Regex::new(pattern)` followed by `Regex::is_match(haystack)`.
/// Trusted: `None` exactly when the pattern does not compile (a syntax error,
/// or a regex over the default size limit); otherwise whether it matches.
#[verifier::external_body]
fn pattern_matches(pattern: &str, haystack: &str) -> (r: Option<bool>)
    ensures
        match r {
            Some(m) => regex_compiles(pattern@) && m == regex_is_match(pattern@, haystack@),
            None => !regex_compiles(pattern@),
        },
{
    let re = regex::Regex::new(pattern).ok()?;
    Some(re.is_match(haystack))
}

/// Some pattern of the list compiles and matches `url`.
pub open spec fn matches_some(patterns: Seq<Seq<char>>, url: Seq<char>) -> bool {
    exists|i: int|
        0 <= i < patterns.len() && regex_compiles(patterns[i]) && #[trigger] regex_is_match(
            patterns[i],
            url,
        )
}

/// A URL is in scope when it matches one of the `wanted` patterns (or there
/// are none) and none of the `unwanted` ones. A pattern that does not
/// compile matches nothing.
pub open spec fn in_scope(wanted: Seq<Seq<char>>, unwanted: Seq<Seq<char>>, url: Seq<char>) -> bool {
    (wanted.len() == 0 || matches_some(wanted, url)) && !matches_some(unwanted, url)
}

/// A URL that any `unwanted` pattern, at whatever position in the list,
/// compiles and matches is out of scope and never fetched; with `wanted`
/// patterns given, a URL that none of them matches is out of scope too; a URL
/// that some `wanted` pattern matches (or with none given) and no `unwanted`
/// one does is in scope.
pub proof fn law_scope_patterns(
    s: FetchState,
    wanted: Seq<Seq<char>>,
    unwanted: Seq<Seq<char>>,
    url: Seq<char>,
)
    ensures
        forall|i: int|
            0 <= i < unwanted.len() && regex_compiles(unwanted[i]) && #[trigger] regex_is_match(
                unwanted[i],
                url,
            ) ==> !in_scope(wanted, unwanted, url) && decide(s, url, wanted, unwanted)
                != FetchStep::Fetch,
        wanted.len() > 0 && (forall|i: int|
            0 <= i < wanted.len() ==> !(regex_compiles(wanted[i]) && #[trigger] regex_is_match(
                wanted[i],
                url,
            ))) ==> !in_scope(wanted, unwanted, url) && decide(s, url, wanted, unwanted)
            != FetchStep::Fetch,
        forall|i: int|
            0 <= i < wanted.len() && regex_compiles(wanted[i]) && #[trigger] regex_is_match(
                wanted[i],
                url,
            ) && (forall|j: int|
                0 <= j < unwanted.len() ==> !(regex_compiles(unwanted[j]) && #[trigger] regex_is_match(
                    unwanted[j],
                    url,
                ))) ==> in_scope(wanted, unwanted, url),
        wanted.len() == 0 && (forall|j: int|
            0 <= j < unwanted.len() ==> !(regex_compiles(unwanted[j]) && #[trigger] regex_is_match(
                unwanted[j],
                url,
            ))) ==> in_scope(wanted, unwanted, url),
{
}

/// Whether some pattern of the list compiles and matches `url`.
fn matches_some_exec(patterns: &Vec<String>, url: &str) -> (r: bool)
    ensures
        r == matches_some(patterns.deep_view(), url@),
{
    let mut i: usize = 0;
    while i < patterns.len()
        invariant
            i <= patterns@.len(),
            forall|j: int|
                0 <= j < i ==> !(regex_compiles(patterns.deep_view()[j]) && #[trigger] regex_is_match(
                    patterns.deep_view()[j],
                    url@,
                )),
        decreases patterns.len() - i,
    {
        match pattern_matches(patterns[i].as_str(), url) {
            Some(true) => {
                assert(regex_is_match(patterns.deep_view()[i as int], url@));
                return true;
            },
            _ => {},
        }
        i = i + 1;
    }
    false
}

/// Whether `url` passes the `wanted` and `unwanted` URL patterns of a scan
/// (its `include_url` and `exclude_url`).
pub fn url_in_scope(url: &str, wanted: &Vec<String>, unwanted: &Vec<String>) -> (r: bool)
    ensures
        r == in_scope(wanted.deep_view(), unwanted.deep_view(), url@),
{
    if wanted.len() > 0 && !matches_some_exec(wanted, url) {
        return false;
    }
    !matches_some_exec(unwanted, url)
}

/// At most this many external scripts are requested for one page.
pub const MAX_EXTERNAL_SCRIPTS: usize = 10;

/// A script body larger than this many bytes (2 MiB) is not analysed.
pub const MAX_SCRIPT_BYTES: usize = 2097152;

/// What to do with the next external script URL.
#[derive(Clone, Copy, Debug, PartialEq, Eq, Structural)]
pub enum FetchStep {
    /// Request it, then report the body (or the failure) with `record`.
    Fetch,
    /// Leave it: already requested, or out of scope.
    Skip,
    /// The request budget is spent: leave it and every later URL.
    Stop,
}

/// The state of a bounded external-script fetch, as values.
pub struct FetchState {
    /// The URLs requested so far, on this page or on an earlier one.
    pub seen: Seq<Seq<char>>,
    /// The number of requests made for this page.
    pub requested: nat,
    /// The URL requested last, while its response has not been recorded.
    pub pending: Option<Seq<char>>,
    /// The fetched scripts kept for analysis: URL and body.
    pub scripts: Seq<(Seq<char>, Seq<char>)>,
}

/// A body is kept when its UTF-8 encoding is at most `MAX_SCRIPT_BYTES` long.
pub open spec fn body_fits(body: Seq<char>) -> bool {
    encode_utf8(body).len() <= MAX_SCRIPT_BYTES
}

/// No URL is requested twice, the request budget holds, and each kept
/// script was requested and fits the size limit.
pub open spec fn fetch_wf(s: FetchState) -> bool {
    &&& s.seen.no_duplicates()
    &&& s.requested <= MAX_EXTERNAL_SCRIPTS
    &&& s.scripts.len() <= s.requested
    &&& (s.pending matches Some(u) ==> s.seen.contains(u) && s.scripts.len() < s.requested)
    &&& forall|i: int|
        0 <= i < s.scripts.len() ==> body_fits(#[trigger] s.scripts[i].1) && s.seen.contains(
            s.scripts[i].0,
        )
}

/// The decision on `url`: stop once the budget is spent; skip a URL already
/// requested or out of scope; fetch it otherwise.
pub open spec fn decide(
    s: FetchState,
    url: Seq<char>,
    wanted: Seq<Seq<char>>,
    unwanted: Seq<Seq<char>>,
) -> FetchStep {
    if s.requested >= MAX_EXTERNAL_SCRIPTS {
        FetchStep::Stop
    } else if s.seen.contains(url) || !in_scope(wanted, unwanted, url) {
        FetchStep::Skip
    } else {
        FetchStep::Fetch
    }
}

/// The state after deciding on `url`: a fetched URL is marked as seen,
/// counted, and awaits its response.
pub open spec fn after_offer(
    s: FetchState,
    url: Seq<char>,
    wanted: Seq<Seq<char>>,
    unwanted: Seq<Seq<char>>,
) -> FetchState {
    if decide(s, url, wanted, unwanted) == FetchStep::Fetch {
        FetchState {
            seen: s.seen.push(url),
            requested: s.requested + 1,
            pending: Some(url),
            scripts: s.scripts,
        }
    } else {
        s
    }
}

/// The state after the response to the pending request: a body that fits
/// is kept with its URL; a failed request or an oversized body is dropped.
pub open spec fn after_response(s: FetchState, body: Option<Seq<char>>) -> FetchState {
    match s.pending {
        None => s,
        Some(u) => FetchState {
            seen: s.seen,
            requested: s.requested,
            pending: None,
            scripts: match body {
                Some(b) => if body_fits(b) {
                    s.scripts.push((u, b))
                } else {
                    s.scripts
                },
                None => s.scripts,
            },
        },
    }
}

/// The texts of `s` without repetitions, in order of first appearance.
pub open spec fn distinct(s: Seq<Seq<char>>) -> Seq<Seq<char>>
    decreases s.len(),
{
    if s.len() == 0 {
        Seq::empty()
    } else {
        let prev = distinct(s.drop_last());
        if prev.contains(s.last()) {
            prev
        } else {
            prev.push(s.last())
        }
    }
}

/// `distinct` leaves no repetition and keeps every text.
pub proof fn lemma_distinct(s: Seq<Seq<char>>)
    ensures
        distinct(s).no_duplicates(),
        forall|x: Seq<char>| #[trigger] distinct(s).contains(x) <==> s.contains(x),
    decreases s.len(),
{
    if s.len() > 0 {
        lemma_distinct(s.drop_last());
        let prev = distinct(s.drop_last());
        assert forall|x: Seq<char>| #[trigger] distinct(s).contains(x) <==> s.contains(x) by {
            if s.contains(x) && x != s.last() {
                let i: int = choose|i: int| 0 <= i < s.len() && s[i] == x;
                assert(s.drop_last()[i] == x);
            }
            if s.drop_last().contains(x) {
                let i: int = choose|i: int| 0 <= i < s.drop_last().len() && s.drop_last()[i] == x;
                assert(s[i] == x);
            }
            if !prev.contains(s.last()) {
                assert(distinct(s) == prev.push(s.last()));
                if prev.push(s.last()).contains(x) && x != s.last() {
                    let i: int = choose|i: int| 0 <= i < prev.push(s.last()).len() && prev.push(s.last())[i] == x;
                    assert(prev[i] == x);
                }
                if x == s.last() {
                    assert(prev.push(s.last())[prev.len() as int] == x);
                }
                if prev.contains(x) {
                    let i: int = choose|i: int| 0 <= i < prev.len() && prev[i] == x;
                    assert(prev.push(s.last())[i] == x);
                }
            }
            if x == s.last() {
                assert(s[s.len() - 1] == x);
            }
        }
    }
}

/// The options used to fetch external scripts outside a full scan: a GET
/// preflight of `http://localhost` with a 5 second timeout, no parameters,
/// headers, cookies, encoders, proxy or redirects, and defaults elsewhere
/// (no `include_url` or `exclude_url` patterns among them).
pub fn minimal_scan_args() -> (a: ScanArgs)
    ensures
        a.targets.deep_view() == seq!["http://localhost"@],
        a.param@.len() == 0,
        a.method@ == "GET"@,
        a.data is None,
        a.headers@.len() == 0,
        a.cookies@.len() == 0,
        a.user_agent is None,
        a.timeout == 5,
        a.proxy is None,
        !a.follow_redirects,
        !a.skip_mining,
        !a.skip_discovery,
        a.encoders@.len() == 0,
        preflight_defaults(a),
{
    let opts = PreflightOptions {
        target: owned("http://localhost"),
        param: Vec::new(),
        method: owned("GET"),
        data: None,
        headers: Vec::new(),
        cookies: Vec::new(),
        user_agent: None,
        timeout: 5,
        proxy: None,
        follow_redirects: false,
        skip_mining: false,
        skip_discovery: false,
        encoders: Vec::new(),
    };
    let a = ScanArgs::for_preflight(opts);
    assert(a.targets.deep_view() =~= seq!["http://localhost"@]);
    a
}

/// An event of the bounded fetch: a script URL offered to `next_step`, or
/// the response reported to `record`.
pub enum FetchEvent {
    Offer(Seq<char>),
    Response(Option<Seq<char>>),
}

/// The state after one event.
pub open spec fn after_event(
    s: FetchState,
    wanted: Seq<Seq<char>>,
    unwanted: Seq<Seq<char>>,
    e: FetchEvent,
) -> FetchState {
    match e {
        FetchEvent::Offer(u) => after_offer(s, u, wanted, unwanted),
        FetchEvent::Response(b) => after_response(s, b),
    }
}

/// The state after a run of events.
pub open spec fn run(
    s: FetchState,
    wanted: Seq<Seq<char>>,
    unwanted: Seq<Seq<char>>,
    events: Seq<FetchEvent>,
) -> FetchState
    decreases events.len(),
{
    if events.len() == 0 {
        s
    } else {
        after_event(run(s, wanted, unwanted, events.drop_last()), wanted, unwanted, events.last())
    }
}

/// The URLs that a run of events requests, in order.
pub open spec fn fetched(
    s: FetchState,
    wanted: Seq<Seq<char>>,
    unwanted: Seq<Seq<char>>,
    events: Seq<FetchEvent>,
) -> Seq<Seq<char>>
    decreases events.len(),
{
    if events.len() == 0 {
        Seq::empty()
    } else {
        let prev = fetched(s, wanted, unwanted, events.drop_last());
        match events.last() {
            FetchEvent::Offer(u) => if decide(run(s, wanted, unwanted, events.drop_last()), u, wanted, unwanted)
                == FetchStep::Fetch {
                prev.push(u)
            } else {
                prev
            },
            FetchEvent::Response(_) => prev,
        }
    }
}

/// Whatever URLs are offered and whatever comes back, a fetch requests at
/// most `MAX_EXTERNAL_SCRIPTS` scripts per page, never a URL requested
/// before (on this page or on one sharing its seen set), each URL at most
/// once, and only URLs within the scan's include and exclude patterns; and
/// every kept script was requested and fits the size limit.
pub proof fn law_bounded_fetch(
    s: FetchState,
    wanted: Seq<Seq<char>>,
    unwanted: Seq<Seq<char>>,
    events: Seq<FetchEvent>,
)
    requires
        fetch_wf(s),
    ensures
        fetch_wf(run(s, wanted, unwanted, events)),
        run(s, wanted, unwanted, events).seen == s.seen + fetched(s, wanted, unwanted, events),
        run(s, wanted, unwanted, events).requested == s.requested + fetched(
            s,
            wanted,
            unwanted,
            events,
        ).len(),
        s.requested + fetched(s, wanted, unwanted, events).len() <= MAX_EXTERNAL_SCRIPTS,
        (s.seen + fetched(s, wanted, unwanted, events)).no_duplicates(),
        forall|i: int|
            0 <= i < fetched(s, wanted, unwanted, events).len() ==> in_scope(
                wanted,
                unwanted,
                #[trigger] fetched(s, wanted, unwanted, events)[i],
            ),
    decreases events.len(),
{
    if events.len() > 0 {
        let prev_events = events.drop_last();
        law_bounded_fetch(s, wanted, unwanted, prev_events);
        let st = run(s, wanted, unwanted, prev_events);
        let prev = fetched(s, wanted, unwanted, prev_events);
        lemma_event_keeps_wf(st, wanted, unwanted, events.last());
        match events.last() {
            FetchEvent::Offer(u) => {
                if decide(st, u, wanted, unwanted) == FetchStep::Fetch {
                    assert(s.seen + prev.push(u) =~= (s.seen + prev).push(u));
                    assert forall|i: int| 0 <= i < prev.push(u).len() implies in_scope(
                        wanted,
                        unwanted,
                        #[trigger] prev.push(u)[i],
                    ) by {
                        if i < prev.len() {
                            assert(prev.push(u)[i] == prev[i]);
                        }
                    }
                }
            },
            FetchEvent::Response(_) => {},
        }
    }
}

/// The fetch never leaves out a URL it may take: under the budget, a URL
/// not requested before and within the patterns is fetched; once the budget
/// is spent every URL stops the fetch. A response that fits the size limit
/// is kept with the URL that was requested; one that does not, or a failed
/// request, leaves the kept scripts as they were.
pub proof fn law_fetch_progress(
    s: FetchState,
    url: Seq<char>,
    wanted: Seq<Seq<char>>,
    unwanted: Seq<Seq<char>>,
    body: Option<Seq<char>>,
)
    ensures
        s.requested < MAX_EXTERNAL_SCRIPTS && !s.seen.contains(url) && in_scope(
            wanted,
            unwanted,
            url,
        ) ==> decide(s, url, wanted, unwanted) == FetchStep::Fetch && after_offer(
            s,
            url,
            wanted,
            unwanted,
        ).pending == Some(url),
        s.requested >= MAX_EXTERNAL_SCRIPTS ==> decide(s, url, wanted, unwanted) == FetchStep::Stop,
        s.pending is Some && body is Some && encode_utf8(body.unwrap()).len() <= MAX_SCRIPT_BYTES
            ==> after_response(s, body).scripts == s.scripts.push(
            (s.pending.unwrap(), body.unwrap()),
        ),
        s.pending is Some && (body is None || encode_utf8(body.unwrap()).len() > MAX_SCRIPT_BYTES)
            ==> after_response(s, body).scripts == s.scripts,
        after_response(s, body).pending is None,
{
}

/// One event keeps the state well formed; an offer that is fetched adds its
/// URL to `seen` and counts it, anything else leaves both as they are.
proof fn lemma_event_keeps_wf(
    s: FetchState,
    wanted: Seq<Seq<char>>,
    unwanted: Seq<Seq<char>>,
    e: FetchEvent,
)
    requires
        fetch_wf(s),
    ensures
        fetch_wf(after_event(s, wanted, unwanted, e)),
{
    match e {
        FetchEvent::Offer(u) => {
            if decide(s, u, wanted, unwanted) == FetchStep::Fetch {
                let t = after_offer(s, u, wanted, unwanted);
                assert(t.seen[s.seen.len() as int] == u);
                assert forall|a: int, b: int| 0 <= a < b < t.seen.len() implies t.seen[a]
                    != t.seen[b] by {
                    if b == s.seen.len() {
                        assert(s.seen[a] == t.seen[a]);
                    } else {
                        assert(s.seen[a] == t.seen[a] && s.seen[b] == t.seen[b]);
                    }
                }
                assert forall|i: int| 0 <= i < t.scripts.len() implies body_fits(
                    #[trigger] t.scripts[i].1,
                ) && t.seen.contains(t.scripts[i].0) by {
                    assert(body_fits(s.scripts[i].1));
                    assert(s.seen.contains(s.scripts[i].0));
                    let j: int = choose|j: int| 0 <= j < s.seen.len() && s.seen[j] == s.scripts[i].0;
                    assert(t.seen[j] == s.seen[j]);
                }
            }
        },
        FetchEvent::Response(b) => {
            match s.pending {
                None => {},
                Some(u) => {
                    let t = after_response(s, b);
                    assert forall|i: int| 0 <= i < t.scripts.len() implies body_fits(
                        #[trigger] t.scripts[i].1,
                    ) && t.seen.contains(t.scripts[i].0) by {
                        if i < s.scripts.len() {
                            assert(t.scripts[i] == s.scripts[i]);
                            assert(body_fits(s.scripts[i].1));
                        }
                    }
                },
            }
        },
    }
}

/// The bounded fetch of the external scripts of one page.
pub struct ExternalScriptFetch {
    seen: Vec<String>,
    requested: usize,
    pending: Option<String>,
    scripts: Vec<(String, String)>,
}

impl View for ExternalScriptFetch {
    type V = FetchState;

    closed spec fn view(&self) -> FetchState {
        FetchState {
            seen: self.seen.deep_view(),
            requested: self.requested as nat,
            pending: self.pending.deep_view(),
            scripts: self.scripts.deep_view(),
        }
    }
}

impl ExternalScriptFetch {
    /// Every value of the type is well formed: see `fetch_wf`.
    #[verifier::type_invariant]
    spec fn well_formed(&self) -> bool {
        fetch_wf(self@)
    }

    /// A fetch for a new page, given the URLs requested on earlier pages.
    pub fn new(seen: Vec<String>) -> (r: Self)
        ensures
            fetch_wf(r@),
            r@.seen == distinct(seen.deep_view()),
            r@.requested == 0,
            r@.pending is None,
            r@.scripts.len() == 0,
    {
        let mut d: Vec<String> = Vec::new();
        let mut i: usize = 0;
        while i < seen.len()
            invariant
                i <= seen@.len(),
                d.deep_view() == distinct(seen.deep_view().take(i as int)),
            decreases seen.len() - i,
        {
            assert(seen.deep_view().take(i + 1).drop_last() =~= seen.deep_view().take(i as int));
            if !strings_contain(&d, &seen[i]) {
                let ghost before = d.deep_view();
                d.push(seen[i].clone());
                assert(d.deep_view() =~= before.push(seen.deep_view()[i as int]));
            }
            i = i + 1;
        }
        assert(seen.deep_view().take(seen@.len() as int) =~= seen.deep_view());
        proof {
            lemma_distinct(seen.deep_view());
        }
        let r = ExternalScriptFetch { seen: d, requested: 0, pending: None, scripts: Vec::new() };
        assert(r@.scripts =~= Seq::<(Seq<char>, Seq<char>)>::empty());
        r
    }

    /// The state of a fetch that has requested and kept nothing, with an
    /// empty `seen` set.
    fn empty() -> (r: Self)
        ensures
            r@.seen.len() == 0,
            r@.requested == 0,
            r@.pending is None,
            r@.scripts.len() == 0,
    {
        let r = ExternalScriptFetch {
            seen: Vec::new(),
            requested: 0,
            pending: None,
            scripts: Vec::new(),
        };
        assert(r@.seen =~= Seq::<Seq<char>>::empty());
        assert(r@.scripts =~= Seq::<(Seq<char>, Seq<char>)>::empty());
        r
    }

    /// Decides on the next script URL of the page, under the scan's
    /// `include_url` and `exclude_url` patterns. On `Fetch` the URL is
    /// marked as requested; its response is to be reported with `record`.
    pub fn next_step(&mut self, url: &str, args: &ScanArgs) -> (step: FetchStep)
        ensures
            fetch_wf(final(self)@),
            step == decide(old(self)@, url@, args.include_url.deep_view(), args.exclude_url.deep_view()),
            final(self)@ == after_offer(
                old(self)@,
                url@,
                args.include_url.deep_view(),
                args.exclude_url.deep_view(),
            ),
    {
        proof {
            use_type_invariant(&*self);
        }
        if self.requested >= MAX_EXTERNAL_SCRIPTS {
            return FetchStep::Stop;
        }
        let u = url.to_owned();
        if strings_contain(&self.seen, &u) {
            return FetchStep::Skip;
        }
        if !url_in_scope(url, &args.include_url, &args.exclude_url) {
            return FetchStep::Skip;
        }
        let ghost old_view = self@;
        let mut cur = ExternalScriptFetch::empty();
        proof {
            use_type_invariant(&cur);
        }
        std::mem::swap(&mut cur, self);
        let ExternalScriptFetch { mut seen, requested, pending: _, scripts } = cur;
        seen.push(u.clone());
        let ghost nv = FetchState {
            seen: seen.deep_view(),
            requested: (requested + 1) as nat,
            pending: Some(u@),
            scripts: scripts.deep_view(),
        };
        proof {
            assert(nv.seen =~= old_view.seen.push(url@));
            assert(nv.scripts == old_view.scripts);
            assert forall|i: int| 0 <= i < nv.scripts.len() implies body_fits(
                #[trigger] nv.scripts[i].1,
            ) && nv.seen.contains(nv.scripts[i].0) by {
                assert(body_fits(old_view.scripts[i].1));
                assert(old_view.seen.contains(old_view.scripts[i].0));
                let j: int = choose|j: int|
                    0 <= j < old_view.seen.len() && old_view.seen[j] == old_view.scripts[i].0;
                assert(nv.seen[j] == old_view.seen[j]);
            }
            assert(nv.seen[old_view.seen.len() as int] == url@);
            assert forall|a: int, b: int| 0 <= a < b < nv.seen.len() implies nv.seen[a]
                != nv.seen[b] by {
                if b == old_view.seen.len() {
                    assert(old_view.seen[a] == nv.seen[a]);
                } else {
                    assert(old_view.seen[a] == nv.seen[a] && old_view.seen[b] == nv.seen[b]);
                }
            }
            assert(fetch_wf(nv));
        }
        let next = ExternalScriptFetch { seen, requested: requested + 1, pending: Some(u), scripts };
        assert(next@ == nv);
        *self = next;
        FetchStep::Fetch
    }

    /// Reports the response to the pending request: the body, or `None`
    /// when the request failed. A body that fits the size limit is kept.
    pub fn record(&mut self, body: Option<String>)
        ensures
            fetch_wf(final(self)@),
            final(self)@ == after_response(old(self)@, body.deep_view()),
    {
        proof {
            use_type_invariant(&*self);
        }
        if self.pending.is_none() {
            return;
        }
        let ghost old_view = self@;
        let mut cur = ExternalScriptFetch::empty();
        proof {
            use_type_invariant(&cur);
        }
        std::mem::swap(&mut cur, self);
        let ExternalScriptFetch { seen, requested, pending, mut scripts } = cur;
        match pending {
            None => {},
            Some(u) => {
                match body {
                    Some(b) => {
                        let n: usize = b.as_str().as_bytes().len();
                        if n <= MAX_SCRIPT_BYTES {
                            scripts.push((u, b));
                            proof {
                                assert(scripts.deep_view() =~= old_view.scripts.push((u@, b@)));
                            }
                        }
                    },
                    None => {},
                }
            },
        }
        let ghost nv = FetchState {
            seen: seen.deep_view(),
            requested: requested as nat,
            pending: None,
            scripts: scripts.deep_view(),
        };
        proof {
            assert forall|i: int| 0 <= i < nv.scripts.len() implies body_fits(
                #[trigger] nv.scripts[i].1,
            ) && nv.seen.contains(nv.scripts[i].0) by {
                if i < old_view.scripts.len() {
                    assert(nv.scripts[i] == old_view.scripts[i]);
                    assert(body_fits(old_view.scripts[i].1));
                }
            }
            assert(fetch_wf(nv));
        }
        let next = ExternalScriptFetch { seen, requested, pending: None, scripts };
        assert(next@ == nv);
        *self = next;
    }

    /// The URLs requested so far, on this page or earlier ones.
    pub fn seen(&self) -> (r: Vec<String>)
        ensures
            r.deep_view() == self@.seen,
    {
        let mut r: Vec<String> = Vec::new();
        let mut i: usize = 0;
        while i < self.seen.len()
            invariant
                i <= self.seen@.len(),
                r.deep_view() == self.seen.deep_view().take(i as int),
            decreases self.seen.len() - i,
        {
            let ghost before = r.deep_view();
            r.push(self.seen[i].clone());
            assert(r.deep_view() =~= before.push(self.seen.deep_view()[i as int]));
            assert(self.seen.deep_view().take(i + 1) =~= self.seen.deep_view().take(i as int).push(
                self.seen.deep_view()[i as int],
            ));
            i = i + 1;
        }
        assert(self.seen.deep_view().take(self.seen@.len() as int) =~= self.seen.deep_view());
        r
    }

    /// The number of requests made for this page.
    pub fn requested(&self) -> (r: usize)
        ensures
            r == self@.requested,
    {
        self.requested
    }

    /// The kept scripts, URL and body, in the order they were fetched.
    pub fn into_scripts(self) -> (r: Vec<(String, String)>)
        ensures
            r.deep_view() == self@.scripts,
    {
        self.scripts
    }
}

} // verus!
