//! Classification of the DOM taint sources reported by the JavaScript
//! analysis (`location.hash`, `URLSearchParams.get(q)`, `window.name`, ...).
//!
//! The class of a source decides where a proof-of-concept payload has to be
//! placed: in the URL (fragment, query, a named query parameter, the path),
//! in browser state that a self-bootstrapping page seeds from a `seed` query
//! parameter, or nowhere the scanner can reach (manual reproduction).
use crate::text::{
    find, find_from, has_prefix, lemma_find_from, matches_at, occurs_at, starts_with, str_starts_with,
    string_of, to_chars,
};
use vstd::prelude::*;

verus! {

/// The classes of DOM taint sources.
#[derive(Clone, Copy, Debug, PartialEq, Eq, Structural)]
pub enum SourceKind {
    /// `location.hash`
    LocationHash,
    /// `location.href`, `document.URL`, `document.documentURI`, `document.baseURI`
    DocumentUrl,
    /// `location.search`
    LocationSearch,
    /// `location.pathname`
    LocationPathname,
    /// `URLSearchParams.get(a).get(b)...`
    UrlParam,
    /// `window.name`
    WindowName,
    /// `window.opener`
    WindowOpener,
    /// `document.referrer`
    DocumentReferrer,
    /// `document.cookie`
    DocumentCookie,
    /// `history.state`
    HistoryState,
    /// `event.data` of a `message` event (postMessage)
    MessageData,
    /// `event.newValue` of a `storage` event
    StorageEvent,
    /// `BroadcastChannel` messages
    BroadcastChannelMessage,
    /// `ServiceWorker` messages
    ServiceWorkerMessage,
    /// `WebSocket` messages
    WebSocketMessage,
    /// `EventSource` messages
    EventSourceMessage,
    /// `localStorage.getItem(key)`
    LocalStorage,
    /// `sessionStorage.getItem(key)`
    SessionStorage,
    /// Anything else.
    Other,
}

/// The names read by a chain `.get(a).get(b)...` starting at `pos`;
/// `None` when the text from `pos` on is not such a chain.
pub open spec fn get_chain_at(s: Seq<char>, pos: int) -> Option<Seq<Seq<char>>>
    decreases s.len() - pos,
{
    if pos < 0 || pos > s.len() {
        None
    } else if pos == s.len() {
        Some(Seq::empty())
    } else if occurs_at(s, ".get("@, pos) {
        let start: int = pos + ".get("@.len();
        match find_from(s, seq![')'], start) {
            Some(close) => {
                if close == start {
                    None
                } else {
                    proof {
                        lemma_find_from(s, seq![')'], start);
                    }
                    match get_chain_at(s, close + 1) {
                        Some(rest) => Some(seq![s.subrange(start, close)] + rest),
                        None => None,
                    }
                }
            },
            None => None,
        }
    } else {
        None
    }
}

/// The parameter names of a `URLSearchParams.get(a).get(b)...` source,
/// outermost first; `None` for any other source.
pub open spec fn param_chain(s: Seq<char>) -> Option<Seq<Seq<char>>> {
    if starts_with(s, "URLSearchParams"@) {
        match get_chain_at(s, "URLSearchParams"@.len() as int) {
            Some(c) => if c.len() > 0 {
                Some(c)
            } else {
                None
            },
            None => None,
        }
    } else {
        None
    }
}

/// The argument of a call source `prefix(arg)`, e.g. the key of
/// `localStorage.getItem(key)`; `None` when absent or empty.
pub open spec fn call_argument(s: Seq<char>, prefix: Seq<char>) -> Option<Seq<char>> {
    if starts_with(s, prefix) && s.len() > prefix.len() + 1 && s.last() == ')' {
        Some(s.subrange(prefix.len() as int, s.len() - 1))
    } else {
        None
    }
}

/// The storage key read by a `localStorage.getItem(key)` or
/// `sessionStorage.getItem(key)` source.
pub open spec fn storage_key(s: Seq<char>) -> Option<Seq<char>> {
    if starts_with(s, "localStorage.getItem("@) {
        call_argument(s, "localStorage.getItem("@)
    } else {
        call_argument(s, "sessionStorage.getItem("@)
    }
}

/// The class of a source, decided by its leading name.
pub open spec fn source_kind(s: Seq<char>) -> SourceKind {
    if starts_with(s, "location.hash"@) {
        SourceKind::LocationHash
    } else if starts_with(s, "location.href"@) || starts_with(s, "document.URL"@) || starts_with(
        s,
        "document.documentURI"@,
    ) || starts_with(s, "document.baseURI"@) {
        SourceKind::DocumentUrl
    } else if starts_with(s, "location.search"@) {
        SourceKind::LocationSearch
    } else if starts_with(s, "location.pathname"@) {
        SourceKind::LocationPathname
    } else if param_chain(s) is Some {
        SourceKind::UrlParam
    } else if starts_with(s, "window.name"@) {
        SourceKind::WindowName
    } else if starts_with(s, "window.opener"@) {
        SourceKind::WindowOpener
    } else if starts_with(s, "document.referrer"@) {
        SourceKind::DocumentReferrer
    } else if starts_with(s, "document.cookie"@) {
        SourceKind::DocumentCookie
    } else if starts_with(s, "history.state"@) {
        SourceKind::HistoryState
    } else if starts_with(s, "event.data"@) {
        SourceKind::MessageData
    } else if starts_with(s, "event.newValue"@) {
        SourceKind::StorageEvent
    } else if starts_with(s, "BroadcastChannel"@) {
        SourceKind::BroadcastChannelMessage
    } else if starts_with(s, "ServiceWorker"@) {
        SourceKind::ServiceWorkerMessage
    } else if starts_with(s, "WebSocket"@) {
        SourceKind::WebSocketMessage
    } else if starts_with(s, "EventSource"@) {
        SourceKind::EventSourceMessage
    } else if starts_with(s, "localStorage"@) {
        SourceKind::LocalStorage
    } else if starts_with(s, "sessionStorage"@) {
        SourceKind::SessionStorage
    } else {
        SourceKind::Other
    }
}

/// Sources whose value an attacker controls through the page URL.
pub open spec fn is_url_carried(k: SourceKind) -> bool {
    k == SourceKind::LocationHash || k == SourceKind::DocumentUrl || k == SourceKind::LocationSearch
        || k == SourceKind::LocationPathname || k == SourceKind::UrlParam
}

/// Sources held in browser state (window, storage, messages, history,
/// referrer, cookies): reachable only through another page or a
/// self-bootstrapping seed.
pub open spec fn is_browser_state(k: SourceKind) -> bool {
    !is_url_carried(k) && k != SourceKind::Other
}

/// The parameter names read by `s[pos..]` as a `.get(a).get(b)...` chain.
fn get_chain_exec(s: &[char], pos: usize) -> (r: Option<Vec<String>>)
    requires
        pos <= s@.len(),
    ensures
        match r {
            Some(v) => get_chain_at(s@, pos as int) == Some(v.deep_view()),
            None => get_chain_at(s@, pos as int) is None,
        },
    decreases s@.len() - pos,
{
    if pos == s.len() {
        let v: Vec<String> = Vec::new();
        assert(v.deep_view() =~= Seq::<Seq<char>>::empty());
        return Some(v);
    }
    let get = to_chars(".get(");
    if !matches_at(s, get.as_slice(), pos) {
        return None;
    }
    let start: usize = pos + get.len();
    let close_paren = to_chars(")");
    proof {
        reveal_strlit(")");
        assert(close_paren@ =~= seq![')']);
    }
    match find(s, close_paren.as_slice(), start) {
        None => None,
        Some(close) => {
            if close == start {
                return None;
            }
            proof {
                lemma_find_from(s@, seq![')'], start as int);
            }
            match get_chain_exec(s, close + 1) {
                None => None,
                Some(rest) => {
                    let name = string_of(s, start, close);
                    let mut v: Vec<String> = Vec::new();
                    v.push(name);
                    let mut i: usize = 0;
                    while i < rest.len()
                        invariant
                            i <= rest@.len(),
                            start <= close <= s@.len(),
                            v.deep_view() =~= seq![s@.subrange(start as int, close as int)]
                                + rest.deep_view().take(i as int),
                        decreases rest.len() - i,
                    {
                        let ghost before = v.deep_view();
                        v.push(rest[i].clone());
                        assert(v.deep_view() =~= before.push(rest.deep_view()[i as int]));
                        assert(rest.deep_view().take(i + 1) =~= rest.deep_view().take(
                            i as int,
                        ).push(rest.deep_view()[i as int]));
                        i = i + 1;
                    }
                    assert(rest.deep_view().take(rest@.len() as int) =~= rest.deep_view());
                    Some(v)
                },
            }
        },
    }
}

/// The parameter names of a `URLSearchParams.get(a).get(b)...` source,
/// outermost first; `None` for any other source.
pub fn url_param_chain(source: &str) -> (r: Option<Vec<String>>)
    ensures
        match r {
            Some(v) => param_chain(source@) == Some(v.deep_view()),
            None => param_chain(source@) is None,
        },
{
    let s = to_chars(source);
    let prefix = to_chars("URLSearchParams");
    if !has_prefix(s.as_slice(), prefix.as_slice()) {
        return None;
    }
    match get_chain_exec(s.as_slice(), prefix.len()) {
        Some(v) => {
            if v.len() > 0 {
                Some(v)
            } else {
                None
            }
        },
        None => None,
    }
}

/// The argument of the call source `s` = `prefix(arg)`.
fn call_argument_exec(s: &[char], prefix: &str) -> (r: Option<String>)
    ensures
        match r {
            Some(a) => call_argument(s@, prefix@) == Some(a@),
            None => call_argument(s@, prefix@) is None,
        },
{
    let p = to_chars(prefix);
    if has_prefix(s, p.as_slice()) && s.len() - p.len() > 1 && s[s.len() - 1] == ')' {
        Some(string_of(s, p.len(), s.len() - 1))
    } else {
        None
    }
}

/// The storage key read by a `localStorage.getItem(key)` or
/// `sessionStorage.getItem(key)` source.
pub fn source_storage_key(source: &str) -> (r: Option<String>)
    ensures
        match r {
            Some(k) => storage_key(source@) == Some(k@),
            None => storage_key(source@) is None,
        },
{
    let s = to_chars(source);
    if str_starts_with(s.as_slice(), "localStorage.getItem(") {
        call_argument_exec(s.as_slice(), "localStorage.getItem(")
    } else {
        call_argument_exec(s.as_slice(), "sessionStorage.getItem(")
    }
}

/// The class of a DOM taint source.
pub fn classify_source(source: &str) -> (k: SourceKind)
    ensures
        k == source_kind(source@),
{
    let s = to_chars(source);
    let s = s.as_slice();
    if str_starts_with(s, "location.hash") {
        SourceKind::LocationHash
    } else if str_starts_with(s, "location.href") || str_starts_with(s, "document.URL")
        || str_starts_with(s, "document.documentURI") || str_starts_with(s, "document.baseURI") {
        SourceKind::DocumentUrl
    } else if str_starts_with(s, "location.search") {
        SourceKind::LocationSearch
    } else if str_starts_with(s, "location.pathname") {
        SourceKind::LocationPathname
    } else if url_param_chain(source).is_some() {
        SourceKind::UrlParam
    } else if str_starts_with(s, "window.name") {
        SourceKind::WindowName
    } else if str_starts_with(s, "window.opener") {
        SourceKind::WindowOpener
    } else if str_starts_with(s, "document.referrer") {
        SourceKind::DocumentReferrer
    } else if str_starts_with(s, "document.cookie") {
        SourceKind::DocumentCookie
    } else if str_starts_with(s, "history.state") {
        SourceKind::HistoryState
    } else if str_starts_with(s, "event.data") {
        SourceKind::MessageData
    } else if str_starts_with(s, "event.newValue") {
        SourceKind::StorageEvent
    } else if str_starts_with(s, "BroadcastChannel") {
        SourceKind::BroadcastChannelMessage
    } else if str_starts_with(s, "ServiceWorker") {
        SourceKind::ServiceWorkerMessage
    } else if str_starts_with(s, "WebSocket") {
        SourceKind::WebSocketMessage
    } else if str_starts_with(s, "EventSource") {
        SourceKind::EventSourceMessage
    } else if str_starts_with(s, "localStorage") {
        SourceKind::LocalStorage
    } else if str_starts_with(s, "sessionStorage") {
        SourceKind::SessionStorage
    } else {
        SourceKind::Other
    }
}

/// The text `.get(n0).get(n1)...` of a chain of lookups.
pub open spec fn get_calls(names: Seq<Seq<char>>) -> Seq<char>
    decreases names.len(),
{
    if names.len() == 0 {
        Seq::empty()
    } else {
        ".get("@ + names[0] + ")"@ + get_calls(names.drop_first())
    }
}

/// The chain of a `URLSearchParams` source is read in full, outermost name
/// first: `URLSearchParams.get(n0).get(n1)...` names `n0, n1, ...`, for any
/// number of non-empty names without `)`; with no lookup at all it is no
/// parameter source.
pub proof fn law_param_chain_reads_every_lookup(names: Seq<Seq<char>>)
    requires
        forall|i: int| 0 <= i < names.len() ==> #[trigger] names[i].len() > 0,
        forall|i: int, j: int|
            0 <= i < names.len() && 0 <= j < names[i].len() ==> #[trigger] names[i][j] != ')',
    ensures
        param_chain("URLSearchParams"@ + get_calls(names)) == if names.len() > 0 {
            Some(names)
        } else {
            None::<Seq<Seq<char>>>
        },
{
    reveal_strlit("URLSearchParams");
    let s = "URLSearchParams"@ + get_calls(names);
    assert(s.subrange(0, 15) =~= "URLSearchParams"@);
    assert(s.subrange(15, s.len() as int) =~= get_calls(names));
    lemma_get_chain_at(s, 15, names);
}

proof fn lemma_get_chain_at(s: Seq<char>, pos: int, names: Seq<Seq<char>>)
    requires
        0 <= pos <= s.len(),
        s.subrange(pos, s.len() as int) == get_calls(names),
        forall|i: int| 0 <= i < names.len() ==> #[trigger] names[i].len() > 0,
        forall|i: int, j: int|
            0 <= i < names.len() && 0 <= j < names[i].len() ==> #[trigger] names[i][j] != ')',
    ensures
        get_chain_at(s, pos) == Some(names),
    decreases names.len(),
{
    reveal_strlit(".get(");
    reveal_strlit(")");
    if names.len() == 0 {
        assert(s.subrange(pos, s.len() as int).len() == 0);
        assert(names =~= Seq::<Seq<char>>::empty());
    } else {
        let n0 = names[0];
        let rest = names.drop_first();
        let t = s.subrange(pos, s.len() as int);
        assert(t == ".get("@ + n0 + ")"@ + get_calls(rest));
        let start = pos + 5;
        let close = start + n0.len();
        assert forall|k: int| 0 <= k < 5 implies s[pos + k] == ".get("@[k] by {
            assert(t[k] == s[pos + k]);
        }
        assert(s.subrange(pos, pos + 5) =~= ".get("@);
        assert(occurs_at(s, ".get("@, pos));
        assert forall|k: int| start <= k < close implies #[trigger] s[k] != ')' by {
            assert(t[k - pos] == s[k]);
            assert(s[k] == n0[k - start]);
            assert(names[0][k - start] != ')');
        }
        assert(s[close] == ')') by {
            assert(t[close - pos] == s[close]);
        }
        lemma_find_paren_at(s, start, close);
        assert(s.subrange(start, close) =~= n0) by {
            assert forall|k: int| 0 <= k < n0.len() implies s.subrange(start, close)[k] == n0[k] by {
                assert(t[k + 5] == s[start + k]);
            }
        }
        assert(s.subrange(close + 1, s.len() as int) =~= get_calls(rest)) by {
            assert forall|k: int| 0 <= k < get_calls(rest).len() implies s.subrange(
                close + 1,
                s.len() as int,
            )[k] == get_calls(rest)[k] by {
                assert(t[k + 6 + n0.len()] == s[close + 1 + k]);
            }
        }
        assert forall|i: int| 0 <= i < rest.len() implies #[trigger] rest[i].len() > 0 by {
            assert(rest[i] == names[i + 1]);
        }
        assert forall|i: int, j: int| 0 <= i < rest.len() && 0 <= j < rest[i].len() implies #[trigger] rest[i][j]
            != ')' by {
            assert(rest[i] == names[i + 1]);
            assert(names[i + 1][j] != ')');
        }
        lemma_get_chain_at(s, close + 1, rest);
        assert(seq![n0] + rest =~= names);
    }
}

/// The first `)` at or after `p` is the one at `e`.
proof fn lemma_find_paren_at(s: Seq<char>, p: int, e: int)
    requires
        0 <= p <= e < s.len(),
        s[e] == ')',
        forall|i: int| p <= i < e ==> #[trigger] s[i] != ')',
    ensures
        find_from(s, seq![')'], p) == Some(e),
    decreases e - p,
{
    if p < e {
        assert(!occurs_at(s, seq![')'], p)) by {
            if occurs_at(s, seq![')'], p) {
                assert(s.subrange(p, p + 1)[0] == seq![')'][0]);
            }
        }
        lemma_find_paren_at(s, p + 1, e);
    } else {
        assert(s.subrange(p, p + 1) =~= seq![')']);
    }
}

/// The documented source names fall in their classes: the fragment and the
/// document URL, the query and the path, the window name and opener, the
/// referrer and cookies, history state, message and storage events, the
/// four message channels, and the two storages.
pub proof fn law_documented_source_classes()
    ensures
        source_kind("location.hash"@) == SourceKind::LocationHash,
        source_kind("location.href"@) == SourceKind::DocumentUrl,
        source_kind("document.URL"@) == SourceKind::DocumentUrl,
        source_kind("location.search"@) == SourceKind::LocationSearch,
        source_kind("location.pathname"@) == SourceKind::LocationPathname,
        source_kind("window.name"@) == SourceKind::WindowName,
        source_kind("window.opener"@) == SourceKind::WindowOpener,
        source_kind("document.referrer"@) == SourceKind::DocumentReferrer,
        source_kind("document.cookie"@) == SourceKind::DocumentCookie,
        source_kind("history.state"@) == SourceKind::HistoryState,
        source_kind("event.data"@) == SourceKind::MessageData,
        source_kind("event.newValue"@) == SourceKind::StorageEvent,
        source_kind("BroadcastChannel.message"@) == SourceKind::BroadcastChannelMessage,
        source_kind("ServiceWorker.message"@) == SourceKind::ServiceWorkerMessage,
        source_kind("WebSocket.message"@) == SourceKind::WebSocketMessage,
        source_kind("EventSource.message"@) == SourceKind::EventSourceMessage,
        source_kind("localStorage.getItem"@) == SourceKind::LocalStorage,
        source_kind("sessionStorage.getItem"@) == SourceKind::SessionStorage,
{
    lemma_class_location_hash();
    lemma_class_location_href();
    lemma_class_document_url();
    lemma_class_location_search();
    lemma_class_location_pathname();
    lemma_class_window_name();
    lemma_class_window_opener();
    lemma_class_document_referrer();
    lemma_class_document_cookie();
    lemma_class_history_state();
    lemma_class_event_data();
    lemma_class_event_newvalue();
    lemma_class_broadcastchannel_message();
    lemma_class_serviceworker_message();
    lemma_class_websocket_message();
    lemma_class_eventsource_message();
    lemma_class_localstorage_getitem();
    lemma_class_sessionstorage_getitem();
}

/// A text differing from `p` at `i` does not start with `p`.
proof fn lemma_differs_at(s: Seq<char>, p: Seq<char>, i: int)
    requires
        0 <= i < s.len(),
        i < p.len(),
        s[i] != p[i],
    ensures
        !starts_with(s, p),
{
    if starts_with(s, p) {
        assert(s.subrange(0, p.len() as int)[i] == p[i]);
    }
}

proof fn lemma_class_location_hash()
    ensures
        source_kind("location.hash"@) == SourceKind::LocationHash,
{
    reveal_strlit("BroadcastChannel");
    reveal_strlit("EventSource");
    reveal_strlit("ServiceWorker");
    reveal_strlit("URLSearchParams");
    reveal_strlit("WebSocket");
    reveal_strlit("document.URL");
    reveal_strlit("document.baseURI");
    reveal_strlit("document.cookie");
    reveal_strlit("document.documentURI");
    reveal_strlit("document.referrer");
    reveal_strlit("event.data");
    reveal_strlit("event.newValue");
    reveal_strlit("history.state");
    reveal_strlit("localStorage");
    reveal_strlit("location.hash");
    reveal_strlit("location.href");
    reveal_strlit("location.pathname");
    reveal_strlit("location.search");
    reveal_strlit("sessionStorage");
    reveal_strlit("window.name");
    reveal_strlit("window.opener");
    let s = "location.hash"@;
    assert(starts_with(s, "location.hash"@)) by { assert(s.subrange(0, 13) =~= "location.hash"@); }
}

proof fn lemma_class_location_href()
    ensures
        source_kind("location.href"@) == SourceKind::DocumentUrl,
{
    reveal_strlit("BroadcastChannel");
    reveal_strlit("EventSource");
    reveal_strlit("ServiceWorker");
    reveal_strlit("URLSearchParams");
    reveal_strlit("WebSocket");
    reveal_strlit("document.URL");
    reveal_strlit("document.baseURI");
    reveal_strlit("document.cookie");
    reveal_strlit("document.documentURI");
    reveal_strlit("document.referrer");
    reveal_strlit("event.data");
    reveal_strlit("event.newValue");
    reveal_strlit("history.state");
    reveal_strlit("localStorage");
    reveal_strlit("location.hash");
    reveal_strlit("location.href");
    reveal_strlit("location.pathname");
    reveal_strlit("location.search");
    reveal_strlit("sessionStorage");
    reveal_strlit("window.name");
    reveal_strlit("window.opener");
    let s = "location.href"@;
    lemma_differs_at(s, "location.hash"@, 10);
    assert(starts_with(s, "location.href"@)) by { assert(s.subrange(0, 13) =~= "location.href"@); }
}

proof fn lemma_class_document_url()
    ensures
        source_kind("document.URL"@) == SourceKind::DocumentUrl,
{
    reveal_strlit("BroadcastChannel");
    reveal_strlit("EventSource");
    reveal_strlit("ServiceWorker");
    reveal_strlit("URLSearchParams");
    reveal_strlit("WebSocket");
    reveal_strlit("document.URL");
    reveal_strlit("document.baseURI");
    reveal_strlit("document.cookie");
    reveal_strlit("document.documentURI");
    reveal_strlit("document.referrer");
    reveal_strlit("event.data");
    reveal_strlit("event.newValue");
    reveal_strlit("history.state");
    reveal_strlit("localStorage");
    reveal_strlit("location.hash");
    reveal_strlit("location.href");
    reveal_strlit("location.pathname");
    reveal_strlit("location.search");
    reveal_strlit("sessionStorage");
    reveal_strlit("window.name");
    reveal_strlit("window.opener");
    let s = "document.URL"@;
    lemma_differs_at(s, "location.hash"@, 0);
    lemma_differs_at(s, "location.href"@, 0);
    assert(starts_with(s, "document.URL"@)) by { assert(s.subrange(0, 12) =~= "document.URL"@); }
}

proof fn lemma_class_location_search()
    ensures
        source_kind("location.search"@) == SourceKind::LocationSearch,
{
    reveal_strlit("BroadcastChannel");
    reveal_strlit("EventSource");
    reveal_strlit("ServiceWorker");
    reveal_strlit("URLSearchParams");
    reveal_strlit("WebSocket");
    reveal_strlit("document.URL");
    reveal_strlit("document.baseURI");
    reveal_strlit("document.cookie");
    reveal_strlit("document.documentURI");
    reveal_strlit("document.referrer");
    reveal_strlit("event.data");
    reveal_strlit("event.newValue");
    reveal_strlit("history.state");
    reveal_strlit("localStorage");
    reveal_strlit("location.hash");
    reveal_strlit("location.href");
    reveal_strlit("location.pathname");
    reveal_strlit("location.search");
    reveal_strlit("sessionStorage");
    reveal_strlit("window.name");
    reveal_strlit("window.opener");
    let s = "location.search"@;
    lemma_differs_at(s, "location.hash"@, 9);
    lemma_differs_at(s, "location.href"@, 9);
    lemma_differs_at(s, "document.URL"@, 0);
    lemma_differs_at(s, "document.documentURI"@, 0);
    lemma_differs_at(s, "document.baseURI"@, 0);
    assert(starts_with(s, "location.search"@)) by { assert(s.subrange(0, 15) =~= "location.search"@); }
}

proof fn lemma_class_location_pathname()
    ensures
        source_kind("location.pathname"@) == SourceKind::LocationPathname,
{
    reveal_strlit("BroadcastChannel");
    reveal_strlit("EventSource");
    reveal_strlit("ServiceWorker");
    reveal_strlit("URLSearchParams");
    reveal_strlit("WebSocket");
    reveal_strlit("document.URL");
    reveal_strlit("document.baseURI");
    reveal_strlit("document.cookie");
    reveal_strlit("document.documentURI");
    reveal_strlit("document.referrer");
    reveal_strlit("event.data");
    reveal_strlit("event.newValue");
    reveal_strlit("history.state");
    reveal_strlit("localStorage");
    reveal_strlit("location.hash");
    reveal_strlit("location.href");
    reveal_strlit("location.pathname");
    reveal_strlit("location.search");
    reveal_strlit("sessionStorage");
    reveal_strlit("window.name");
    reveal_strlit("window.opener");
    let s = "location.pathname"@;
    lemma_differs_at(s, "location.hash"@, 9);
    lemma_differs_at(s, "location.href"@, 9);
    lemma_differs_at(s, "document.URL"@, 0);
    lemma_differs_at(s, "document.documentURI"@, 0);
    lemma_differs_at(s, "document.baseURI"@, 0);
    lemma_differs_at(s, "location.search"@, 9);
    assert(starts_with(s, "location.pathname"@)) by { assert(s.subrange(0, 17) =~= "location.pathname"@); }
}

proof fn lemma_class_window_name()
    ensures
        source_kind("window.name"@) == SourceKind::WindowName,
{
    reveal_strlit("BroadcastChannel");
    reveal_strlit("EventSource");
    reveal_strlit("ServiceWorker");
    reveal_strlit("URLSearchParams");
    reveal_strlit("WebSocket");
    reveal_strlit("document.URL");
    reveal_strlit("document.baseURI");
    reveal_strlit("document.cookie");
    reveal_strlit("document.documentURI");
    reveal_strlit("document.referrer");
    reveal_strlit("event.data");
    reveal_strlit("event.newValue");
    reveal_strlit("history.state");
    reveal_strlit("localStorage");
    reveal_strlit("location.hash");
    reveal_strlit("location.href");
    reveal_strlit("location.pathname");
    reveal_strlit("location.search");
    reveal_strlit("sessionStorage");
    reveal_strlit("window.name");
    reveal_strlit("window.opener");
    let s = "window.name"@;
    lemma_differs_at(s, "location.hash"@, 0);
    lemma_differs_at(s, "location.href"@, 0);
    lemma_differs_at(s, "document.URL"@, 0);
    lemma_differs_at(s, "document.documentURI"@, 0);
    lemma_differs_at(s, "document.baseURI"@, 0);
    lemma_differs_at(s, "location.search"@, 0);
    lemma_differs_at(s, "location.pathname"@, 0);
    lemma_differs_at(s, "URLSearchParams"@, 0);
    assert(param_chain(s) is None);
    assert(starts_with(s, "window.name"@)) by { assert(s.subrange(0, 11) =~= "window.name"@); }
}

proof fn lemma_class_window_opener()
    ensures
        source_kind("window.opener"@) == SourceKind::WindowOpener,
{
    reveal_strlit("BroadcastChannel");
    reveal_strlit("EventSource");
    reveal_strlit("ServiceWorker");
    reveal_strlit("URLSearchParams");
    reveal_strlit("WebSocket");
    reveal_strlit("document.URL");
    reveal_strlit("document.baseURI");
    reveal_strlit("document.cookie");
    reveal_strlit("document.documentURI");
    reveal_strlit("document.referrer");
    reveal_strlit("event.data");
    reveal_strlit("event.newValue");
    reveal_strlit("history.state");
    reveal_strlit("localStorage");
    reveal_strlit("location.hash");
    reveal_strlit("location.href");
    reveal_strlit("location.pathname");
    reveal_strlit("location.search");
    reveal_strlit("sessionStorage");
    reveal_strlit("window.name");
    reveal_strlit("window.opener");
    let s = "window.opener"@;
    lemma_differs_at(s, "location.hash"@, 0);
    lemma_differs_at(s, "location.href"@, 0);
    lemma_differs_at(s, "document.URL"@, 0);
    lemma_differs_at(s, "document.documentURI"@, 0);
    lemma_differs_at(s, "document.baseURI"@, 0);
    lemma_differs_at(s, "location.search"@, 0);
    lemma_differs_at(s, "location.pathname"@, 0);
    lemma_differs_at(s, "URLSearchParams"@, 0);
    assert(param_chain(s) is None);
    lemma_differs_at(s, "window.name"@, 7);
    assert(starts_with(s, "window.opener"@)) by { assert(s.subrange(0, 13) =~= "window.opener"@); }
}

proof fn lemma_class_document_referrer()
    ensures
        source_kind("document.referrer"@) == SourceKind::DocumentReferrer,
{
    reveal_strlit("BroadcastChannel");
    reveal_strlit("EventSource");
    reveal_strlit("ServiceWorker");
    reveal_strlit("URLSearchParams");
    reveal_strlit("WebSocket");
    reveal_strlit("document.URL");
    reveal_strlit("document.baseURI");
    reveal_strlit("document.cookie");
    reveal_strlit("document.documentURI");
    reveal_strlit("document.referrer");
    reveal_strlit("event.data");
    reveal_strlit("event.newValue");
    reveal_strlit("history.state");
    reveal_strlit("localStorage");
    reveal_strlit("location.hash");
    reveal_strlit("location.href");
    reveal_strlit("location.pathname");
    reveal_strlit("location.search");
    reveal_strlit("sessionStorage");
    reveal_strlit("window.name");
    reveal_strlit("window.opener");
    let s = "document.referrer"@;
    lemma_differs_at(s, "location.hash"@, 0);
    lemma_differs_at(s, "location.href"@, 0);
    lemma_differs_at(s, "document.URL"@, 9);
    lemma_differs_at(s, "document.documentURI"@, 9);
    lemma_differs_at(s, "document.baseURI"@, 9);
    lemma_differs_at(s, "location.search"@, 0);
    lemma_differs_at(s, "location.pathname"@, 0);
    lemma_differs_at(s, "URLSearchParams"@, 0);
    assert(param_chain(s) is None);
    lemma_differs_at(s, "window.name"@, 0);
    lemma_differs_at(s, "window.opener"@, 0);
    assert(starts_with(s, "document.referrer"@)) by { assert(s.subrange(0, 17) =~= "document.referrer"@); }
}

proof fn lemma_class_document_cookie()
    ensures
        source_kind("document.cookie"@) == SourceKind::DocumentCookie,
{
    reveal_strlit("BroadcastChannel");
    reveal_strlit("EventSource");
    reveal_strlit("ServiceWorker");
    reveal_strlit("URLSearchParams");
    reveal_strlit("WebSocket");
    reveal_strlit("document.URL");
    reveal_strlit("document.baseURI");
    reveal_strlit("document.cookie");
    reveal_strlit("document.documentURI");
    reveal_strlit("document.referrer");
    reveal_strlit("event.data");
    reveal_strlit("event.newValue");
    reveal_strlit("history.state");
    reveal_strlit("localStorage");
    reveal_strlit("location.hash");
    reveal_strlit("location.href");
    reveal_strlit("location.pathname");
    reveal_strlit("location.search");
    reveal_strlit("sessionStorage");
    reveal_strlit("window.name");
    reveal_strlit("window.opener");
    let s = "document.cookie"@;
    lemma_differs_at(s, "location.hash"@, 0);
    lemma_differs_at(s, "location.href"@, 0);
    lemma_differs_at(s, "document.URL"@, 9);
    lemma_differs_at(s, "document.documentURI"@, 9);
    lemma_differs_at(s, "document.baseURI"@, 9);
    lemma_differs_at(s, "location.search"@, 0);
    lemma_differs_at(s, "location.pathname"@, 0);
    lemma_differs_at(s, "URLSearchParams"@, 0);
    assert(param_chain(s) is None);
    lemma_differs_at(s, "window.name"@, 0);
    lemma_differs_at(s, "window.opener"@, 0);
    lemma_differs_at(s, "document.referrer"@, 9);
    assert(starts_with(s, "document.cookie"@)) by { assert(s.subrange(0, 15) =~= "document.cookie"@); }
}

proof fn lemma_class_history_state()
    ensures
        source_kind("history.state"@) == SourceKind::HistoryState,
{
    reveal_strlit("BroadcastChannel");
    reveal_strlit("EventSource");
    reveal_strlit("ServiceWorker");
    reveal_strlit("URLSearchParams");
    reveal_strlit("WebSocket");
    reveal_strlit("document.URL");
    reveal_strlit("document.baseURI");
    reveal_strlit("document.cookie");
    reveal_strlit("document.documentURI");
    reveal_strlit("document.referrer");
    reveal_strlit("event.data");
    reveal_strlit("event.newValue");
    reveal_strlit("history.state");
    reveal_strlit("localStorage");
    reveal_strlit("location.hash");
    reveal_strlit("location.href");
    reveal_strlit("location.pathname");
    reveal_strlit("location.search");
    reveal_strlit("sessionStorage");
    reveal_strlit("window.name");
    reveal_strlit("window.opener");
    let s = "history.state"@;
    lemma_differs_at(s, "location.hash"@, 0);
    lemma_differs_at(s, "location.href"@, 0);
    lemma_differs_at(s, "document.URL"@, 0);
    lemma_differs_at(s, "document.documentURI"@, 0);
    lemma_differs_at(s, "document.baseURI"@, 0);
    lemma_differs_at(s, "location.search"@, 0);
    lemma_differs_at(s, "location.pathname"@, 0);
    lemma_differs_at(s, "URLSearchParams"@, 0);
    assert(param_chain(s) is None);
    lemma_differs_at(s, "window.name"@, 0);
    lemma_differs_at(s, "window.opener"@, 0);
    lemma_differs_at(s, "document.referrer"@, 0);
    lemma_differs_at(s, "document.cookie"@, 0);
    assert(starts_with(s, "history.state"@)) by { assert(s.subrange(0, 13) =~= "history.state"@); }
}

proof fn lemma_class_event_data()
    ensures
        source_kind("event.data"@) == SourceKind::MessageData,
{
    reveal_strlit("BroadcastChannel");
    reveal_strlit("EventSource");
    reveal_strlit("ServiceWorker");
    reveal_strlit("URLSearchParams");
    reveal_strlit("WebSocket");
    reveal_strlit("document.URL");
    reveal_strlit("document.baseURI");
    reveal_strlit("document.cookie");
    reveal_strlit("document.documentURI");
    reveal_strlit("document.referrer");
    reveal_strlit("event.data");
    reveal_strlit("event.newValue");
    reveal_strlit("history.state");
    reveal_strlit("localStorage");
    reveal_strlit("location.hash");
    reveal_strlit("location.href");
    reveal_strlit("location.pathname");
    reveal_strlit("location.search");
    reveal_strlit("sessionStorage");
    reveal_strlit("window.name");
    reveal_strlit("window.opener");
    let s = "event.data"@;
    lemma_differs_at(s, "location.hash"@, 0);
    lemma_differs_at(s, "location.href"@, 0);
    lemma_differs_at(s, "document.URL"@, 0);
    lemma_differs_at(s, "document.documentURI"@, 0);
    lemma_differs_at(s, "document.baseURI"@, 0);
    lemma_differs_at(s, "location.search"@, 0);
    lemma_differs_at(s, "location.pathname"@, 0);
    lemma_differs_at(s, "URLSearchParams"@, 0);
    assert(param_chain(s) is None);
    lemma_differs_at(s, "window.name"@, 0);
    lemma_differs_at(s, "window.opener"@, 0);
    lemma_differs_at(s, "document.referrer"@, 0);
    lemma_differs_at(s, "document.cookie"@, 0);
    lemma_differs_at(s, "history.state"@, 0);
    assert(starts_with(s, "event.data"@)) by { assert(s.subrange(0, 10) =~= "event.data"@); }
}

proof fn lemma_class_event_newvalue()
    ensures
        source_kind("event.newValue"@) == SourceKind::StorageEvent,
{
    reveal_strlit("BroadcastChannel");
    reveal_strlit("EventSource");
    reveal_strlit("ServiceWorker");
    reveal_strlit("URLSearchParams");
    reveal_strlit("WebSocket");
    reveal_strlit("document.URL");
    reveal_strlit("document.baseURI");
    reveal_strlit("document.cookie");
    reveal_strlit("document.documentURI");
    reveal_strlit("document.referrer");
    reveal_strlit("event.data");
    reveal_strlit("event.newValue");
    reveal_strlit("history.state");
    reveal_strlit("localStorage");
    reveal_strlit("location.hash");
    reveal_strlit("location.href");
    reveal_strlit("location.pathname");
    reveal_strlit("location.search");
    reveal_strlit("sessionStorage");
    reveal_strlit("window.name");
    reveal_strlit("window.opener");
    let s = "event.newValue"@;
    lemma_differs_at(s, "location.hash"@, 0);
    lemma_differs_at(s, "location.href"@, 0);
    lemma_differs_at(s, "document.URL"@, 0);
    lemma_differs_at(s, "document.documentURI"@, 0);
    lemma_differs_at(s, "document.baseURI"@, 0);
    lemma_differs_at(s, "location.search"@, 0);
    lemma_differs_at(s, "location.pathname"@, 0);
    lemma_differs_at(s, "URLSearchParams"@, 0);
    assert(param_chain(s) is None);
    lemma_differs_at(s, "window.name"@, 0);
    lemma_differs_at(s, "window.opener"@, 0);
    lemma_differs_at(s, "document.referrer"@, 0);
    lemma_differs_at(s, "document.cookie"@, 0);
    lemma_differs_at(s, "history.state"@, 0);
    lemma_differs_at(s, "event.data"@, 6);
    assert(starts_with(s, "event.newValue"@)) by { assert(s.subrange(0, 14) =~= "event.newValue"@); }
}

proof fn lemma_class_broadcastchannel_message()
    ensures
        source_kind("BroadcastChannel.message"@) == SourceKind::BroadcastChannelMessage,
{
    reveal_strlit("BroadcastChannel");
    reveal_strlit("BroadcastChannel.message");
    reveal_strlit("EventSource");
    reveal_strlit("ServiceWorker");
    reveal_strlit("URLSearchParams");
    reveal_strlit("WebSocket");
    reveal_strlit("document.URL");
    reveal_strlit("document.baseURI");
    reveal_strlit("document.cookie");
    reveal_strlit("document.documentURI");
    reveal_strlit("document.referrer");
    reveal_strlit("event.data");
    reveal_strlit("event.newValue");
    reveal_strlit("history.state");
    reveal_strlit("localStorage");
    reveal_strlit("location.hash");
    reveal_strlit("location.href");
    reveal_strlit("location.pathname");
    reveal_strlit("location.search");
    reveal_strlit("sessionStorage");
    reveal_strlit("window.name");
    reveal_strlit("window.opener");
    let s = "BroadcastChannel.message"@;
    lemma_differs_at(s, "location.hash"@, 0);
    lemma_differs_at(s, "location.href"@, 0);
    lemma_differs_at(s, "document.URL"@, 0);
    lemma_differs_at(s, "document.documentURI"@, 0);
    lemma_differs_at(s, "document.baseURI"@, 0);
    lemma_differs_at(s, "location.search"@, 0);
    lemma_differs_at(s, "location.pathname"@, 0);
    lemma_differs_at(s, "URLSearchParams"@, 0);
    assert(param_chain(s) is None);
    lemma_differs_at(s, "window.name"@, 0);
    lemma_differs_at(s, "window.opener"@, 0);
    lemma_differs_at(s, "document.referrer"@, 0);
    lemma_differs_at(s, "document.cookie"@, 0);
    lemma_differs_at(s, "history.state"@, 0);
    lemma_differs_at(s, "event.data"@, 0);
    lemma_differs_at(s, "event.newValue"@, 0);
    assert(starts_with(s, "BroadcastChannel"@)) by { assert(s.subrange(0, 16) =~= "BroadcastChannel"@); }
}

proof fn lemma_class_serviceworker_message()
    ensures
        source_kind("ServiceWorker.message"@) == SourceKind::ServiceWorkerMessage,
{
    reveal_strlit("BroadcastChannel");
    reveal_strlit("EventSource");
    reveal_strlit("ServiceWorker");
    reveal_strlit("ServiceWorker.message");
    reveal_strlit("URLSearchParams");
    reveal_strlit("WebSocket");
    reveal_strlit("document.URL");
    reveal_strlit("document.baseURI");
    reveal_strlit("document.cookie");
    reveal_strlit("document.documentURI");
    reveal_strlit("document.referrer");
    reveal_strlit("event.data");
    reveal_strlit("event.newValue");
    reveal_strlit("history.state");
    reveal_strlit("localStorage");
    reveal_strlit("location.hash");
    reveal_strlit("location.href");
    reveal_strlit("location.pathname");
    reveal_strlit("location.search");
    reveal_strlit("sessionStorage");
    reveal_strlit("window.name");
    reveal_strlit("window.opener");
    let s = "ServiceWorker.message"@;
    lemma_differs_at(s, "location.hash"@, 0);
    lemma_differs_at(s, "location.href"@, 0);
    lemma_differs_at(s, "document.URL"@, 0);
    lemma_differs_at(s, "document.documentURI"@, 0);
    lemma_differs_at(s, "document.baseURI"@, 0);
    lemma_differs_at(s, "location.search"@, 0);
    lemma_differs_at(s, "location.pathname"@, 0);
    lemma_differs_at(s, "URLSearchParams"@, 0);
    assert(param_chain(s) is None);
    lemma_differs_at(s, "window.name"@, 0);
    lemma_differs_at(s, "window.opener"@, 0);
    lemma_differs_at(s, "document.referrer"@, 0);
    lemma_differs_at(s, "document.cookie"@, 0);
    lemma_differs_at(s, "history.state"@, 0);
    lemma_differs_at(s, "event.data"@, 0);
    lemma_differs_at(s, "event.newValue"@, 0);
    lemma_differs_at(s, "BroadcastChannel"@, 0);
    assert(starts_with(s, "ServiceWorker"@)) by { assert(s.subrange(0, 13) =~= "ServiceWorker"@); }
}

proof fn lemma_class_websocket_message()
    ensures
        source_kind("WebSocket.message"@) == SourceKind::WebSocketMessage,
{
    reveal_strlit("BroadcastChannel");
    reveal_strlit("EventSource");
    reveal_strlit("ServiceWorker");
    reveal_strlit("URLSearchParams");
    reveal_strlit("WebSocket");
    reveal_strlit("WebSocket.message");
    reveal_strlit("document.URL");
    reveal_strlit("document.baseURI");
    reveal_strlit("document.cookie");
    reveal_strlit("document.documentURI");
    reveal_strlit("document.referrer");
    reveal_strlit("event.data");
    reveal_strlit("event.newValue");
    reveal_strlit("history.state");
    reveal_strlit("localStorage");
    reveal_strlit("location.hash");
    reveal_strlit("location.href");
    reveal_strlit("location.pathname");
    reveal_strlit("location.search");
    reveal_strlit("sessionStorage");
    reveal_strlit("window.name");
    reveal_strlit("window.opener");
    let s = "WebSocket.message"@;
    lemma_differs_at(s, "location.hash"@, 0);
    lemma_differs_at(s, "location.href"@, 0);
    lemma_differs_at(s, "document.URL"@, 0);
    lemma_differs_at(s, "document.documentURI"@, 0);
    lemma_differs_at(s, "document.baseURI"@, 0);
    lemma_differs_at(s, "location.search"@, 0);
    lemma_differs_at(s, "location.pathname"@, 0);
    lemma_differs_at(s, "URLSearchParams"@, 0);
    assert(param_chain(s) is None);
    lemma_differs_at(s, "window.name"@, 0);
    lemma_differs_at(s, "window.opener"@, 0);
    lemma_differs_at(s, "document.referrer"@, 0);
    lemma_differs_at(s, "document.cookie"@, 0);
    lemma_differs_at(s, "history.state"@, 0);
    lemma_differs_at(s, "event.data"@, 0);
    lemma_differs_at(s, "event.newValue"@, 0);
    lemma_differs_at(s, "BroadcastChannel"@, 0);
    lemma_differs_at(s, "ServiceWorker"@, 0);
    assert(starts_with(s, "WebSocket"@)) by { assert(s.subrange(0, 9) =~= "WebSocket"@); }
}

proof fn lemma_class_eventsource_message()
    ensures
        source_kind("EventSource.message"@) == SourceKind::EventSourceMessage,
{
    reveal_strlit("BroadcastChannel");
    reveal_strlit("EventSource");
    reveal_strlit("EventSource.message");
    reveal_strlit("ServiceWorker");
    reveal_strlit("URLSearchParams");
    reveal_strlit("WebSocket");
    reveal_strlit("document.URL");
    reveal_strlit("document.baseURI");
    reveal_strlit("document.cookie");
    reveal_strlit("document.documentURI");
    reveal_strlit("document.referrer");
    reveal_strlit("event.data");
    reveal_strlit("event.newValue");
    reveal_strlit("history.state");
    reveal_strlit("localStorage");
    reveal_strlit("location.hash");
    reveal_strlit("location.href");
    reveal_strlit("location.pathname");
    reveal_strlit("location.search");
    reveal_strlit("sessionStorage");
    reveal_strlit("window.name");
    reveal_strlit("window.opener");
    let s = "EventSource.message"@;
    lemma_differs_at(s, "location.hash"@, 0);
    lemma_differs_at(s, "location.href"@, 0);
    lemma_differs_at(s, "document.URL"@, 0);
    lemma_differs_at(s, "document.documentURI"@, 0);
    lemma_differs_at(s, "document.baseURI"@, 0);
    lemma_differs_at(s, "location.search"@, 0);
    lemma_differs_at(s, "location.pathname"@, 0);
    lemma_differs_at(s, "URLSearchParams"@, 0);
    assert(param_chain(s) is None);
    lemma_differs_at(s, "window.name"@, 0);
    lemma_differs_at(s, "window.opener"@, 0);
    lemma_differs_at(s, "document.referrer"@, 0);
    lemma_differs_at(s, "document.cookie"@, 0);
    lemma_differs_at(s, "history.state"@, 0);
    lemma_differs_at(s, "event.data"@, 0);
    lemma_differs_at(s, "event.newValue"@, 0);
    lemma_differs_at(s, "BroadcastChannel"@, 0);
    lemma_differs_at(s, "ServiceWorker"@, 0);
    lemma_differs_at(s, "WebSocket"@, 0);
    assert(starts_with(s, "EventSource"@)) by { assert(s.subrange(0, 11) =~= "EventSource"@); }
}

proof fn lemma_class_localstorage_getitem()
    ensures
        source_kind("localStorage.getItem"@) == SourceKind::LocalStorage,
{
    reveal_strlit("BroadcastChannel");
    reveal_strlit("EventSource");
    reveal_strlit("ServiceWorker");
    reveal_strlit("URLSearchParams");
    reveal_strlit("WebSocket");
    reveal_strlit("document.URL");
    reveal_strlit("document.baseURI");
    reveal_strlit("document.cookie");
    reveal_strlit("document.documentURI");
    reveal_strlit("document.referrer");
    reveal_strlit("event.data");
    reveal_strlit("event.newValue");
    reveal_strlit("history.state");
    reveal_strlit("localStorage");
    reveal_strlit("localStorage.getItem");
    reveal_strlit("location.hash");
    reveal_strlit("location.href");
    reveal_strlit("location.pathname");
    reveal_strlit("location.search");
    reveal_strlit("sessionStorage");
    reveal_strlit("window.name");
    reveal_strlit("window.opener");
    let s = "localStorage.getItem"@;
    lemma_differs_at(s, "location.hash"@, 4);
    lemma_differs_at(s, "location.href"@, 4);
    lemma_differs_at(s, "document.URL"@, 0);
    lemma_differs_at(s, "document.documentURI"@, 0);
    lemma_differs_at(s, "document.baseURI"@, 0);
    lemma_differs_at(s, "location.search"@, 4);
    lemma_differs_at(s, "location.pathname"@, 4);
    lemma_differs_at(s, "URLSearchParams"@, 0);
    assert(param_chain(s) is None);
    lemma_differs_at(s, "window.name"@, 0);
    lemma_differs_at(s, "window.opener"@, 0);
    lemma_differs_at(s, "document.referrer"@, 0);
    lemma_differs_at(s, "document.cookie"@, 0);
    lemma_differs_at(s, "history.state"@, 0);
    lemma_differs_at(s, "event.data"@, 0);
    lemma_differs_at(s, "event.newValue"@, 0);
    lemma_differs_at(s, "BroadcastChannel"@, 0);
    lemma_differs_at(s, "ServiceWorker"@, 0);
    lemma_differs_at(s, "WebSocket"@, 0);
    lemma_differs_at(s, "EventSource"@, 0);
    assert(starts_with(s, "localStorage"@)) by { assert(s.subrange(0, 12) =~= "localStorage"@); }
}

proof fn lemma_class_sessionstorage_getitem()
    ensures
        source_kind("sessionStorage.getItem"@) == SourceKind::SessionStorage,
{
    reveal_strlit("BroadcastChannel");
    reveal_strlit("EventSource");
    reveal_strlit("ServiceWorker");
    reveal_strlit("URLSearchParams");
    reveal_strlit("WebSocket");
    reveal_strlit("document.URL");
    reveal_strlit("document.baseURI");
    reveal_strlit("document.cookie");
    reveal_strlit("document.documentURI");
    reveal_strlit("document.referrer");
    reveal_strlit("event.data");
    reveal_strlit("event.newValue");
    reveal_strlit("history.state");
    reveal_strlit("localStorage");
    reveal_strlit("location.hash");
    reveal_strlit("location.href");
    reveal_strlit("location.pathname");
    reveal_strlit("location.search");
    reveal_strlit("sessionStorage");
    reveal_strlit("sessionStorage.getItem");
    reveal_strlit("window.name");
    reveal_strlit("window.opener");
    let s = "sessionStorage.getItem"@;
    lemma_differs_at(s, "location.hash"@, 0);
    lemma_differs_at(s, "location.href"@, 0);
    lemma_differs_at(s, "document.URL"@, 0);
    lemma_differs_at(s, "document.documentURI"@, 0);
    lemma_differs_at(s, "document.baseURI"@, 0);
    lemma_differs_at(s, "location.search"@, 0);
    lemma_differs_at(s, "location.pathname"@, 0);
    lemma_differs_at(s, "URLSearchParams"@, 0);
    assert(param_chain(s) is None);
    lemma_differs_at(s, "window.name"@, 0);
    lemma_differs_at(s, "window.opener"@, 0);
    lemma_differs_at(s, "document.referrer"@, 0);
    lemma_differs_at(s, "document.cookie"@, 0);
    lemma_differs_at(s, "history.state"@, 0);
    lemma_differs_at(s, "event.data"@, 0);
    lemma_differs_at(s, "event.newValue"@, 0);
    lemma_differs_at(s, "BroadcastChannel"@, 0);
    lemma_differs_at(s, "ServiceWorker"@, 0);
    lemma_differs_at(s, "WebSocket"@, 0);
    lemma_differs_at(s, "EventSource"@, 0);
    lemma_differs_at(s, "localStorage"@, 0);
    assert(starts_with(s, "sessionStorage"@)) by { assert(s.subrange(0, 14) =~= "sessionStorage"@); }
}

} // verus!
