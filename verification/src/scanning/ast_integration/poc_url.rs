//! The URL that delivers a DOM-XSS payload to its taint source: in the
//! fragment, the query, a named query parameter, the path, or, for browser
//! state that the page seeds from its own `seed` parameter, in `seed`.
use crate::scanning::ast_integration::poc::{owned, payload_body, poc_payload};
use crate::scanning::sources::{
    SourceKind, classify_source, is_browser_state, is_url_carried, param_chain, source_kind,
    url_param_chain,
};
use crate::text::{has_prefix, starts_with, string_of, to_chars};
use crate::weburl::{
    URL_SIZE_LIMIT, pairs_size, path, query_pairs, url_fragment_set, url_parses, url_path,
    url_path_set, url_query_pairs, url_query_pairs_set, url_query_set, with_fragment, with_path,
    with_query, with_query_pairs,
};
use vstd::prelude::*;
use vstd::string::StringExecFns;

verus! {

/// `s` without one leading `c`.
pub open spec fn strip_leading(s: Seq<char>, c: char) -> Seq<char> {
    if s.len() > 0 && s[0] == c {
        s.drop_first()
    } else {
        s
    }
}

/// `s` without the prefix `p`, when it has it.
pub open spec fn strip_prefix(s: Seq<char>, p: Seq<char>) -> Seq<char> {
    if starts_with(s, p) {
        s.skip(p.len() as int)
    } else {
        s
    }
}

/// Each name followed by `=`: `a=b=` for `[a, b]`.
pub open spec fn names_with_eq(names: Seq<Seq<char>>) -> Seq<char>
    decreases names.len(),
{
    if names.len() == 0 {
        Seq::empty()
    } else {
        names_with_eq(names.drop_last()) + names.last() + seq!['=']
    }
}

/// The value written to the outermost parameter of a
/// `URLSearchParams.get(c0).get(c1)...` chain so that the innermost lookup
/// yields the payload. The payload is given as `innermost=value`; for a
/// single parameter the `innermost=` prefix is dropped, and for a chain the
/// intermediate names are prepended: `c1=...=c(n-2)=` + payload.
pub open spec fn nested_param_value(chain: Seq<Seq<char>>, p: Seq<char>) -> Seq<char> {
    if chain.len() <= 1 {
        strip_prefix(p, chain[0] + seq!['='])
    } else {
        names_with_eq(chain.subrange(1, chain.len() - 1)) + p
    }
}

/// The pairs without those named `name`, in order.
pub open spec fn pairs_without(pairs: Seq<(Seq<char>, Seq<char>)>, name: Seq<char>) -> Seq<
    (Seq<char>, Seq<char>),
>
    decreases pairs.len(),
{
    if pairs.len() == 0 {
        Seq::empty()
    } else {
        let prev = pairs_without(pairs.drop_last(), name);
        if pairs.last().0 == name {
            prev
        } else {
            prev.push(pairs.last())
        }
    }
}

/// The pairs with `name` set to `value`: other pairs keep their order and
/// the pair `name=value` comes last, once.
pub open spec fn pairs_with(pairs: Seq<(Seq<char>, Seq<char>)>, name: Seq<char>, value: Seq<char>) -> Seq<
    (Seq<char>, Seq<char>),
> {
    pairs_without(pairs, name).push((name, value))
}

/// Pairs not named `name`.
pub open spec fn not_named(name: Seq<char>) -> spec_fn((Seq<char>, Seq<char>)) -> bool {
    |p: (Seq<char>, Seq<char>)| p.0 != name
}

/// Setting a parameter keeps every other parameter, in order, drops the
/// earlier values of the parameter itself, and adds it once, last, with the
/// new value.
pub proof fn law_pairs_with_sets_one_parameter(
    pairs: Seq<(Seq<char>, Seq<char>)>,
    name: Seq<char>,
    value: Seq<char>,
)
    ensures
        pairs_with(pairs, name, value).last() == (name, value),
        pairs_with(pairs, name, value).drop_last() == pairs.filter(not_named(name)),
        forall|i: int|
            0 <= i < pairs_with(pairs, name, value).len() - 1 ==> (#[trigger] pairs_with(
                pairs,
                name,
                value,
            )[i]).0 != name,
{
    lemma_pairs_without_filter(pairs, name);
    let f = pairs.filter(not_named(name));
    assert(pairs_with(pairs, name, value).drop_last() =~= f);
    assert forall|i: int| 0 <= i < pairs_with(pairs, name, value).len() - 1 implies (
    #[trigger] pairs_with(pairs, name, value)[i]).0 != name by {
        assert(pairs_with(pairs, name, value)[i] == f[i]);
        pairs.lemma_filter_pred(not_named(name), i);
    }
}

proof fn lemma_pairs_without_filter(pairs: Seq<(Seq<char>, Seq<char>)>, name: Seq<char>)
    ensures
        pairs_without(pairs, name) == pairs.filter(not_named(name)),
    decreases pairs.len(),
{
    let f = not_named(name);
    reveal(Seq::filter);
    if pairs.len() > 0 {
        lemma_pairs_without_filter(pairs.drop_last(), name);
        assert(f(pairs.last()) == (pairs.last().0 != name));
        let sub = pairs.drop_last().filter(f);
        assert(pairs.filter(f) == if f(pairs.last()) {
            sub.push(pairs.last())
        } else {
            sub
        });
    } else {
        assert(pairs.filter(f) == pairs);
        assert(pairs =~= Seq::<(Seq<char>, Seq<char>)>::empty());
    }
}

/// Some pair is named `name`.
pub open spec fn has_pair(pairs: Seq<(Seq<char>, Seq<char>)>, name: Seq<char>) -> bool {
    exists|i: int| 0 <= i < pairs.len() && #[trigger] pairs[i].0 == name
}

/// `base` with its query pairs replaced by `pairs`, unless that exceeds the
/// URL size limit.
pub open spec fn with_pairs_or_base(base: Seq<char>, pairs: Seq<(Seq<char>, Seq<char>)>) -> Seq<
    char,
> {
    if base.len() + pairs_size(pairs) <= URL_SIZE_LIMIT {
        url_query_pairs_set(base, pairs)
    } else {
        base
    }
}

/// The path extended by the payload as a new last segment.
pub open spec fn extended_path(p: Seq<char>, payload: Seq<char>) -> Seq<char> {
    if p.len() > 0 && p.last() == '/' {
        p + payload
    } else {
        p + seq!['/'] + payload
    }
}

/// The PoC URL for a finding on `base` whose source is `source`, carrying
/// `payload`. It is `base` itself when `base` does not parse, when the
/// source cannot be reached through the URL, or when the result would exceed
/// the URL size limit.
pub open spec fn poc_url(base: Seq<char>, source: Seq<char>, payload: Seq<char>) -> Seq<char> {
    if !url_parses(base) {
        base
    } else {
        match source_kind(source) {
            SourceKind::LocationHash | SourceKind::DocumentUrl => {
                let f = strip_leading(payload, '#');
                if base.len() + f.len() <= URL_SIZE_LIMIT {
                    url_fragment_set(base, f)
                } else {
                    base
                }
            },
            SourceKind::LocationSearch => {
                let q = strip_leading(payload, '?');
                if base.len() + q.len() <= URL_SIZE_LIMIT {
                    url_query_set(base, q)
                } else {
                    base
                }
            },
            SourceKind::LocationPathname => {
                let np = extended_path(url_path(base), payload);
                if base.len() + np.len() <= URL_SIZE_LIMIT {
                    url_path_set(base, np)
                } else {
                    base
                }
            },
            SourceKind::UrlParam => {
                let chain = param_chain(source).unwrap();
                with_pairs_or_base(
                    base,
                    pairs_with(url_query_pairs(base), chain[0], nested_param_value(chain, payload)),
                )
            },
            k => {
                if is_browser_state(k) && has_pair(url_query_pairs(base), "seed"@) {
                    with_pairs_or_base(base, pairs_with(url_query_pairs(base), "seed"@, payload))
                } else {
                    base
                }
            },
        }
    }
}

/// The pairs without those named `name`, followed by `name=value`.
fn pairs_with_exec(pairs: &Vec<(String, String)>, name: &String, value: String) -> (r: Vec<
    (String, String),
>)
    ensures
        r.deep_view() == pairs_with(pairs.deep_view(), name@, value@),
{
    let mut r: Vec<(String, String)> = Vec::new();
    let mut i: usize = 0;
    while i < pairs.len()
        invariant
            i <= pairs@.len(),
            r.deep_view() == pairs_without(pairs.deep_view().take(i as int), name@),
        decreases pairs.len() - i,
    {
        assert(pairs.deep_view().take(i + 1).drop_last() =~= pairs.deep_view().take(i as int));
        if pairs[i].0 != *name {
            let ghost before = r.deep_view();
            r.push((pairs[i].0.clone(), pairs[i].1.clone()));
            assert(r.deep_view() =~= before.push(pairs.deep_view()[i as int]));
        }
        i = i + 1;
    }
    assert(pairs.deep_view().take(pairs@.len() as int) =~= pairs.deep_view());
    let ghost before = r.deep_view();
    r.push((name.clone(), value));
    assert(r.deep_view() =~= before.push((name@, value@)));
    r
}

/// Whether some pair is named `name`.
fn has_pair_exec(pairs: &Vec<(String, String)>, name: &str) -> (r: bool)
    ensures
        r == has_pair(pairs.deep_view(), name@),
{
    let n = owned(name);
    let mut i: usize = 0;
    while i < pairs.len()
        invariant
            i <= pairs@.len(),
            n@ == name@,
            forall|j: int| 0 <= j < i ==> pairs.deep_view()[j].0 != name@,
        decreases pairs.len() - i,
    {
        if pairs[i].0 == n {
            assert(pairs.deep_view()[i as int].0 == name@);
            return true;
        }
        i = i + 1;
    }
    false
}

/// Whether `used + pairs_size(pairs) <= URL_SIZE_LIMIT`.
fn pairs_fit(pairs: &Vec<(String, String)>, used: usize) -> (r: bool)
    ensures
        r == (used + pairs_size(pairs.deep_view()) <= URL_SIZE_LIMIT),
{
    if used > URL_SIZE_LIMIT {
        proof {
            lemma_pairs_size_nonneg(pairs.deep_view());
        }
        return false;
    }
    let mut total: usize = used;
    let mut i: usize = 0;
    while i < pairs.len()
        invariant
            i <= pairs@.len(),
            total <= URL_SIZE_LIMIT,
            total == used + pairs_size(pairs.deep_view().take(i as int)),
        decreases pairs.len() - i,
    {
        assert(pairs.deep_view().take(i + 1).drop_last() =~= pairs.deep_view().take(i as int));
        let k: usize = to_chars(pairs[i].0.as_str()).len();
        let v: usize = to_chars(pairs[i].1.as_str()).len();
        if k > URL_SIZE_LIMIT - total || v > URL_SIZE_LIMIT - total - k || 2 > URL_SIZE_LIMIT
            - total - k - v {
            proof {
                lemma_pairs_size_prefix(pairs.deep_view(), i + 1);
            }
            return false;
        }
        total = total + k + v + 2;
        i = i + 1;
    }
    assert(pairs.deep_view().take(pairs@.len() as int) =~= pairs.deep_view());
    true
}

/// The size of pairs is not negative.
proof fn lemma_pairs_size_nonneg(pairs: Seq<(Seq<char>, Seq<char>)>)
    ensures
        pairs_size(pairs) >= 0,
    decreases pairs.len(),
{
    if pairs.len() > 0 {
        lemma_pairs_size_nonneg(pairs.drop_last());
    }
}

/// The size of a prefix of pairs does not exceed the size of all of them.
proof fn lemma_pairs_size_prefix(pairs: Seq<(Seq<char>, Seq<char>)>, n: int)
    requires
        0 <= n <= pairs.len(),
    ensures
        pairs_size(pairs.take(n)) <= pairs_size(pairs),
    decreases pairs.len(),
{
    if n < pairs.len() {
        assert(pairs.drop_last().take(n) =~= pairs.take(n));
        lemma_pairs_size_prefix(pairs.drop_last(), n);
    } else {
        assert(pairs.take(n) =~= pairs);
    }
}

/// `base` with its query pairs replaced by `pairs`, unless that exceeds the
/// URL size limit or `base` does not parse.
fn with_pairs_or_base_exec(base: &str, base_len: usize, pairs: &Vec<(String, String)>) -> (r: String)
    requires
        base_len == base@.len(),
        url_parses(base@),
    ensures
        r@ == with_pairs_or_base(base@, pairs.deep_view()),
{
    if pairs_fit(pairs, base_len) {
        match with_query_pairs(base, pairs) {
            Some(u) => u,
            None => owned(base),
        }
    } else {
        owned(base)
    }
}

/// The value for the outermost parameter of a `URLSearchParams` chain.
fn nested_param_value_exec(chain: &Vec<String>, payload: &str) -> (r: String)
    requires
        chain@.len() > 0,
    ensures
        r@ == nested_param_value(chain.deep_view(), payload@),
{
    let p = to_chars(payload);
    if chain.len() <= 1 {
        let mut prefix = to_chars(chain[0].as_str());
        prefix.push('=');
        assert(prefix@ =~= chain.deep_view()[0] + seq!['=']);
        if has_prefix(p.as_slice(), prefix.as_slice()) {
            let r = string_of(p.as_slice(), prefix.len(), p.len());
            assert(r@ =~= payload@.skip(prefix@.len() as int));
            r
        } else {
            owned(payload)
        }
    } else {
        let ghost mid = chain.deep_view().subrange(1, chain@.len() - 1);
        let mut r = String::new();
        let mut i: usize = 1;
        while i + 1 < chain.len()
            invariant
                1 <= i <= chain@.len() - 1,
                mid == chain.deep_view().subrange(1, chain@.len() - 1),
                r@ == names_with_eq(mid.take(i - 1)),
            decreases chain.len() - i,
        {
            assert(mid.take(i as int).drop_last() =~= mid.take(i - 1));
            r.append(chain[i].as_str());
            r.append("=");
            proof {
                reveal_strlit("=");
            }
            assert(r@ =~= names_with_eq(mid.take(i - 1)) + mid.take(i as int).last() + seq![
                '=',
            ]);
            i = i + 1;
        }
        assert(mid.take(i - 1) =~= mid);
        r.append(payload);
        r
    }
}

/// The URL that delivers `payload` to the taint source `source` of a
/// finding on `base_url`:
/// - `location.hash`-like sources: the fragment (a leading `#` of the payload dropped);
/// - `location.search`: the query (a leading `?` dropped);
/// - `location.pathname`: a new last path segment;
/// - `URLSearchParams.get(...)` chains: the outermost parameter, set so that
///   the chain of lookups yields the payload;
/// - browser-state sources of a page that takes a `seed` parameter: `seed`.
/// Otherwise, or when `base_url` does not parse, `base_url` itself.
pub fn build_dom_xss_poc_url(base_url: &str, source: &str, payload: &str) -> (r: String)
    ensures
        r@ == poc_url(base_url@, source@, payload@),
{
    let b = to_chars(base_url);
    let base_len: usize = b.len();
    let pc = to_chars(payload);
    let pl: usize = pc.len();
    match classify_source(source) {
        SourceKind::LocationHash | SourceKind::DocumentUrl => {
            let f = if pl > 0 && pc[0] == '#' {
                string_of(pc.as_slice(), 1, pl)
            } else {
                string_of(pc.as_slice(), 0, pl)
            };
            assert(pc@.subrange(1, pl as int) =~= pc@.drop_first());
            assert(pc@.subrange(0, pl as int) =~= pc@);
            let flen: usize = to_chars(f.as_str()).len();
            if flen > URL_SIZE_LIMIT || base_len > URL_SIZE_LIMIT - flen {
                return owned(base_url);
            }
            match with_fragment(base_url, f.as_str()) {
                Some(u) => u,
                None => owned(base_url),
            }
        },
        SourceKind::LocationSearch => {
            let q = if pl > 0 && pc[0] == '?' {
                string_of(pc.as_slice(), 1, pl)
            } else {
                string_of(pc.as_slice(), 0, pl)
            };
            assert(pc@.subrange(1, pl as int) =~= pc@.drop_first());
            assert(pc@.subrange(0, pl as int) =~= pc@);
            let qlen: usize = to_chars(q.as_str()).len();
            if qlen > URL_SIZE_LIMIT || base_len > URL_SIZE_LIMIT - qlen {
                return owned(base_url);
            }
            match with_query(base_url, q.as_str()) {
                Some(u) => u,
                None => owned(base_url),
            }
        },
        SourceKind::LocationPathname => {
            match path(base_url) {
                None => owned(base_url),
                Some(p) => {
                    let pch = to_chars(p.as_str());
                    let mut np = p.clone();
                    if !(pch.len() > 0 && pch[pch.len() - 1] == '/') {
                        np.append("/");
                        proof {
                            reveal_strlit("/");
                        }
                    }
                    np.append(payload);
                    assert(np@ =~= extended_path(url_path(base_url@), payload@));
                    let nlen: usize = to_chars(np.as_str()).len();
                    if nlen > URL_SIZE_LIMIT || base_len > URL_SIZE_LIMIT - nlen {
                        return owned(base_url);
                    }
                    match with_path(base_url, np.as_str()) {
                        Some(u) => u,
                        None => owned(base_url),
                    }
                },
            }
        },
        SourceKind::UrlParam => {
            match query_pairs(base_url) {
                None => owned(base_url),
                Some(pairs) => {
                    match url_param_chain(source) {
                        None => owned(base_url),
                        Some(chain) => {
                            let value = nested_param_value_exec(&chain, payload);
                            let np = pairs_with_exec(&pairs, &chain[0], value);
                            with_pairs_or_base_exec(base_url, base_len, &np)
                        },
                    }
                },
            }
        },
        k => {
            match query_pairs(base_url) {
                None => owned(base_url),
                Some(pairs) => {
                    let state = match k {
                        SourceKind::Other => false,
                        _ => true,
                    };
                    if state && has_pair_exec(&pairs, "seed") {
                        let seed = owned("seed");
                        let np = pairs_with_exec(&pairs, &seed, owned(payload));
                        with_pairs_or_base_exec(base_url, base_len, &np)
                    } else {
                        owned(base_url)
                    }
                },
            }
        },
    }
}

/// A payload made by `generate_dom_xss_poc` for a source reachable through
/// the URL, handed to `build_dom_xss_poc_url` for a page whose URL parses,
/// arrives at the source as the bare executable payload of the sink: in the
/// fragment for `location.hash`-like sources, as the `xss=` query for
/// `location.search`, as the last path segment for `location.pathname`, and
/// for `URLSearchParams.get(c0).get(c1)...` in parameter `c0`, whose value
/// `c1=...=payload` yields the payload after the chain of lookups (these
/// last two unless the URL would exceed the size limit).
pub proof fn law_generated_payload_reaches_source(base: Seq<char>, source: Seq<char>, sink: Seq<char>)
    requires
        url_parses(base),
    ensures
        ({
            let body = payload_body(sink);
            let u = poc_url(base, source, poc_payload(source, sink));
            match source_kind(source) {
                SourceKind::LocationHash | SourceKind::DocumentUrl => base.len() + body.len()
                    <= URL_SIZE_LIMIT ==> u == url_fragment_set(base, body),
                SourceKind::LocationSearch => base.len() + body.len() + 4 <= URL_SIZE_LIMIT ==> u
                    == url_query_set(base, "xss="@ + body),
                SourceKind::LocationPathname => base.len() + extended_path(url_path(base), body).len()
                    <= URL_SIZE_LIMIT ==> u == url_path_set(base, extended_path(url_path(base), body)),
                SourceKind::UrlParam => {
                    let chain = param_chain(source).unwrap();
                    u == with_pairs_or_base(
                        base,
                        pairs_with(
                            url_query_pairs(base),
                            chain[0],
                            names_with_eq(chain.drop_first()) + body,
                        ),
                    )
                },
                _ => true,
            }
        }),
{
    let body = payload_body(sink);
    let p = poc_payload(source, sink);
    reveal_strlit("#");
    reveal_strlit("xss=");
    reveal_strlit("=");
    match source_kind(source) {
        SourceKind::LocationHash | SourceKind::DocumentUrl => {
            assert(p == "#"@ + body);
            assert(p[0] == '#');
            assert(strip_leading(p, '#') =~= body);
        },
        SourceKind::LocationSearch => {
            assert(p == "xss="@ + body);
            assert(p[0] == 'x');
            assert(strip_leading(p, '?') == p);
            assert(p.len() == body.len() + 4);
        },
        SourceKind::UrlParam => {
            let chain = param_chain(source).unwrap();
            assert(p == chain.last() + "="@ + body);
            if chain.len() <= 1 {
                let pre = chain[0] + seq!['='];
                assert(chain.last() == chain[0]);
                assert("="@ =~= seq!['=']);
                assert(p.subrange(0, pre.len() as int) =~= pre);
                assert(starts_with(p, pre));
                assert(p.skip(pre.len() as int) =~= body);
                assert(chain.drop_first() =~= Seq::<Seq<char>>::empty());
                assert(names_with_eq(chain.drop_first()) + body =~= body);
            } else {
                let rest = chain.drop_first();
                assert(rest.drop_last() =~= chain.subrange(1, chain.len() - 1));
                assert(rest.last() == chain.last());
                assert(names_with_eq(rest) == names_with_eq(rest.drop_last()) + rest.last() + seq!['=']);
                assert(names_with_eq(chain.subrange(1, chain.len() - 1)) + p =~= names_with_eq(rest)
                    + body);
            }
        },
        _ => {},
    }
}

/// A source that the URL does not carry yields no PoC URL of its own: the
/// page URL is returned unchanged, unless the source is browser state and
/// the page takes a `seed` parameter to bootstrap it from.
pub proof fn law_poc_url_falls_back_to_base(base: Seq<char>, source: Seq<char>, payload: Seq<char>)
    requires
        !is_url_carried(source_kind(source)),
        !url_parses(base) || !is_browser_state(source_kind(source)) || !has_pair(
            url_query_pairs(base),
            "seed"@,
        ),
    ensures
        poc_url(base, source, payload) == base,
{
}

/// For a browser-state source on a page that takes a `seed` parameter, the
/// PoC URL keeps the other parameters and sets `seed` to the payload.
pub proof fn law_poc_url_seeds_browser_state(base: Seq<char>, source: Seq<char>, payload: Seq<char>)
    requires
        url_parses(base),
        is_browser_state(source_kind(source)),
        has_pair(url_query_pairs(base), "seed"@),
    ensures
        poc_url(base, source, payload) == with_pairs_or_base(
            base,
            pairs_with(url_query_pairs(base), "seed"@, payload),
        ),
{
}

} // verus!
