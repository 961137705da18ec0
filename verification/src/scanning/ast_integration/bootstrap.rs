//! Detection of pages that seed a browser-state source from their own `seed`
//! query parameter. On such pages a PoC URL carrying `seed=<payload>` verifies
//! the finding without a second page, so the scanner can confirm it itself.
use crate::scanning::sources::{
    SourceKind, classify_source, is_browser_state, source_kind, source_storage_key, storage_key,
};
use crate::text::{contains_seq, starts_with, str_contains, to_chars};
use vstd::prelude::*;

verus! {

/// The script reads the `seed` query parameter.
pub open spec fn reads_seed(js: Seq<char>) -> bool {
    contains_seq(js, "searchParams.get('seed')"@) || contains_seq(js, "searchParams.get(\"seed\")"@)
}

/// The script assigns the seed to a variable or an object property.
pub open spec fn assigns_seed(js: Seq<char>) -> bool {
    ||| contains_seq(js, "= seed"@)
    ||| contains_seq(js, "=seed"@)
    ||| contains_seq(js, ": seed"@)
    ||| contains_seq(js, ":seed"@)
}

/// The script passes the seed as the last argument of a call.
pub open spec fn passes_seed(js: Seq<char>) -> bool {
    contains_seq(js, ", seed)"@) || contains_seq(js, ",seed)"@)
}

/// The script dispatches a synthetic event whose data is the seed.
pub open spec fn dispatches_seed(js: Seq<char>) -> bool {
    contains_seq(js, "dispatchEvent("@) && (contains_seq(js, "data: seed"@) || contains_seq(
        js,
        "data:seed"@,
    ))
}

/// The script mentions the storage key read by the source (if it names one).
pub open spec fn mentions_key(js: Seq<char>, source: Seq<char>) -> bool {
    match storage_key(source) {
        Some(k) => contains_seq(js, k),
        None => true,
    }
}

/// The script writes the seed into the state that `source` reads.
pub open spec fn seeds_source(js: Seq<char>, source: Seq<char>) -> bool {
    match source_kind(source) {
        SourceKind::WindowName => contains_seq(js, "window.name = seed"@) || contains_seq(
            js,
            "window.name=seed"@,
        ),
        SourceKind::WindowOpener => contains_seq(js, "window.open("@) && assigns_seed(js),
        SourceKind::LocalStorage => contains_seq(js, "localStorage.setItem("@) && passes_seed(js)
            && mentions_key(js, source),
        SourceKind::SessionStorage => contains_seq(js, "sessionStorage.setItem("@) && passes_seed(
            js,
        ) && mentions_key(js, source),
        SourceKind::StorageEvent => (contains_seq(js, "localStorage.setItem("@) || contains_seq(
            js,
            "sessionStorage.setItem("@,
        )) && passes_seed(js),
        SourceKind::EventSourceMessage => contains_seq(js, "EventSource"@) && dispatches_seed(js),
        SourceKind::ServiceWorkerMessage => contains_seq(js, "serviceWorker"@) && dispatches_seed(
            js,
        ),
        SourceKind::WebSocketMessage => contains_seq(js, "WebSocket"@) && dispatches_seed(js),
        SourceKind::HistoryState => (contains_seq(js, "history.replaceState("@) || contains_seq(
            js,
            "history.pushState("@,
        )) && (contains_seq(js, ": seed"@) || contains_seq(js, ":seed"@) || contains_seq(
            js,
            "(seed"@,
        )),
        SourceKind::DocumentReferrer => contains_seq(js, "searchParams.set("@) && contains_seq(
            js,
            ".src"@,
        ),
        SourceKind::MessageData => contains_seq(js, "postMessage(seed"@),
        SourceKind::BroadcastChannelMessage => contains_seq(js, "BroadcastChannel"@)
            && contains_seq(js, "postMessage(seed"@),
        SourceKind::DocumentCookie => (contains_seq(js, "document.cookie ="@) || contains_seq(
            js,
            "document.cookie="@,
        )) && contains_seq(js, "seed"@),
        _ => false,
    }
}

/// The page bootstraps `source` from its own `seed` query parameter.
pub open spec fn self_bootstraps(js: Seq<char>, source: Seq<char>) -> bool {
    reads_seed(js) && seeds_source(js, source)
}

/// Whether the script `js` seeds the state read by `source` from the page's
/// own `seed` query parameter, so that a `seed=<payload>` PoC URL verifies a
/// finding on that source without help from another page.
pub fn has_self_bootstrap_verification(js: &str, source: &str) -> (r: bool)
    ensures
        r == self_bootstraps(js@, source@),
{
    let j = to_chars(js);
    let j = j.as_slice();
    let reads = str_contains(j, "searchParams.get('seed')") || str_contains(
        j,
        "searchParams.get(\"seed\")",
    );
    if !reads {
        return false;
    }
    let assigns = str_contains(j, "= seed") || str_contains(j, "=seed") || str_contains(j, ": seed")
        || str_contains(j, ":seed");
    let passes = str_contains(j, ", seed)") || str_contains(j, ",seed)");
    let dispatches = str_contains(j, "dispatchEvent(") && (str_contains(j, "data: seed")
        || str_contains(j, "data:seed"));
    let mentions = match source_storage_key(source) {
        Some(k) => {
            let kc = to_chars(k.as_str());
            crate::text::contains(j, kc.as_slice())
        },
        None => true,
    };
    match classify_source(source) {
        SourceKind::WindowName => str_contains(j, "window.name = seed") || str_contains(
            j,
            "window.name=seed",
        ),
        SourceKind::WindowOpener => str_contains(j, "window.open(") && assigns,
        SourceKind::LocalStorage => str_contains(j, "localStorage.setItem(") && passes && mentions,
        SourceKind::SessionStorage => str_contains(j, "sessionStorage.setItem(") && passes
            && mentions,
        SourceKind::StorageEvent => (str_contains(j, "localStorage.setItem(") || str_contains(
            j,
            "sessionStorage.setItem(",
        )) && passes,
        SourceKind::EventSourceMessage => str_contains(j, "EventSource") && dispatches,
        SourceKind::ServiceWorkerMessage => str_contains(j, "serviceWorker") && dispatches,
        SourceKind::WebSocketMessage => str_contains(j, "WebSocket") && dispatches,
        SourceKind::HistoryState => (str_contains(j, "history.replaceState(") || str_contains(
            j,
            "history.pushState(",
        )) && (str_contains(j, ": seed") || str_contains(j, ":seed") || str_contains(j, "(seed")),
        SourceKind::DocumentReferrer => str_contains(j, "searchParams.set(") && str_contains(
            j,
            ".src",
        ),
        SourceKind::MessageData => str_contains(j, "postMessage(seed"),
        SourceKind::BroadcastChannelMessage => str_contains(j, "BroadcastChannel") && str_contains(
            j,
            "postMessage(seed",
        ),
        SourceKind::DocumentCookie => (str_contains(j, "document.cookie =") || str_contains(
            j,
            "document.cookie=",
        )) && str_contains(j, "seed"),
        _ => false,
    }
}

/// Only a source held in browser state can be self-bootstrapped: a page
/// never counts as seeding a URL source or an unknown one.
pub proof fn law_self_bootstrap_only_browser_state(js: Seq<char>, source: Seq<char>)
    ensures
        self_bootstraps(js, source) ==> is_browser_state(source_kind(source)),
{
}

/// A page that never reads its `seed` query parameter bootstraps nothing,
/// whatever else it does with the word `seed`.
pub proof fn law_no_seed_read_no_bootstrap(js: Seq<char>, source: Seq<char>)
    requires
        !contains_seq(js, "searchParams.get('seed')"@),
        !contains_seq(js, "searchParams.get(\"seed\")"@),
    ensures
        !self_bootstraps(js, source),
{
}

/// A storage source that names a key is bootstrapped only by a page that
/// mentions that key: seeding another key does not count.
pub proof fn law_storage_bootstrap_needs_key(js: Seq<char>, source: Seq<char>, key: Seq<char>)
    requires
        source_kind(source) == SourceKind::LocalStorage || source_kind(source)
            == SourceKind::SessionStorage,
        storage_key(source) == Some(key),
        !contains_seq(js, key),
    ensures
        !self_bootstraps(js, source),
{
}

/// A page that reads its `seed` query parameter and writes the seed into
/// the browser state a source reads bootstraps that source: `window.name`;
/// a value stored before opening itself for `window.opener`; the keyed
/// entry of local or session storage; a storage write for storage events;
/// a synthetic `MessageEvent` for EventSource, service-worker and WebSocket
/// messages; `postMessage(seed)` for messages and broadcast channels; a
/// relayed child frame for `document.referrer`; and a cookie write for
/// `document.cookie`.
pub proof fn law_seed_writers_bootstrap(js: Seq<char>, source: Seq<char>)
    requires
        contains_seq(js, "searchParams.get('seed')"@) || contains_seq(
            js,
            "searchParams.get(\"seed\")"@,
        ),
    ensures
        source_kind(source) == SourceKind::WindowName && (contains_seq(js, "window.name = seed"@)
            || contains_seq(js, "window.name=seed"@)) ==> self_bootstraps(js, source),
        source_kind(source) == SourceKind::WindowOpener && contains_seq(js, "window.open("@) && (
        contains_seq(js, "= seed"@) || contains_seq(js, ": seed"@)) ==> self_bootstraps(js, source),
        source_kind(source) == SourceKind::LocalStorage && contains_seq(js, "localStorage.setItem("@)
            && contains_seq(js, ", seed)"@) && (forall|k: Seq<char>|
            storage_key(source) == Some(k) ==> contains_seq(js, k)) ==> self_bootstraps(js, source),
        source_kind(source) == SourceKind::SessionStorage && contains_seq(
            js,
            "sessionStorage.setItem("@,
        ) && contains_seq(js, ", seed)"@) && (forall|k: Seq<char>|
            storage_key(source) == Some(k) ==> contains_seq(js, k)) ==> self_bootstraps(js, source),
        source_kind(source) == SourceKind::StorageEvent && (contains_seq(js, "localStorage.setItem("@)
            || contains_seq(js, "sessionStorage.setItem("@)) && contains_seq(js, ", seed)"@)
            ==> self_bootstraps(js, source),
        source_kind(source) == SourceKind::EventSourceMessage && contains_seq(js, "EventSource"@)
            && contains_seq(js, "dispatchEvent("@) && contains_seq(js, "data: seed"@)
            ==> self_bootstraps(js, source),
        source_kind(source) == SourceKind::ServiceWorkerMessage && contains_seq(js, "serviceWorker"@)
            && contains_seq(js, "dispatchEvent("@) && contains_seq(js, "data: seed"@)
            ==> self_bootstraps(js, source),
        source_kind(source) == SourceKind::WebSocketMessage && contains_seq(js, "WebSocket"@)
            && contains_seq(js, "dispatchEvent("@) && contains_seq(js, "data: seed"@)
            ==> self_bootstraps(js, source),
        source_kind(source) == SourceKind::MessageData && contains_seq(js, "postMessage(seed"@)
            ==> self_bootstraps(js, source),
        source_kind(source) == SourceKind::BroadcastChannelMessage && contains_seq(
            js,
            "BroadcastChannel"@,
        ) && contains_seq(js, "postMessage(seed"@) ==> self_bootstraps(js, source),
        source_kind(source) == SourceKind::DocumentReferrer && contains_seq(js, "searchParams.set("@)
            && contains_seq(js, ".src"@) ==> self_bootstraps(js, source),
        source_kind(source) == SourceKind::DocumentCookie && contains_seq(js, "document.cookie ="@)
            && contains_seq(js, "seed"@) ==> self_bootstraps(js, source),
        source_kind(source) == SourceKind::HistoryState && (contains_seq(js, "history.replaceState("@)
            || contains_seq(js, "history.pushState("@)) && (contains_seq(js, ": seed"@)
            || contains_seq(js, "(seed"@)) ==> self_bootstraps(js, source),
{
}

/// A page that reads its `seed` query parameter and stores the seed as
/// (part of) its history state, with either `history.replaceState` or
/// `history.pushState`, bootstraps a `history.state` source by itself.
pub proof fn law_history_state_writers_bootstrap(js: Seq<char>)
    requires
        contains_seq(js, "searchParams.get('seed')"@) || contains_seq(
            js,
            "searchParams.get(\"seed\")"@,
        ),
        contains_seq(js, "history.replaceState("@) || contains_seq(js, "history.pushState("@),
        contains_seq(js, ": seed"@) || contains_seq(js, "(seed"@),
    ensures
        self_bootstraps(js, "history.state"@),
{
    lemma_history_state_source();
}

/// `history.state` is classified as history state.
proof fn lemma_history_state_source()
    ensures
        source_kind("history.state"@) == SourceKind::HistoryState,
{
    reveal_strlit("history.state");
    reveal_strlit("location.hash");
    reveal_strlit("location.href");
    reveal_strlit("document.URL");
    reveal_strlit("document.documentURI");
    reveal_strlit("document.baseURI");
    reveal_strlit("location.search");
    reveal_strlit("location.pathname");
    reveal_strlit("URLSearchParams");
    reveal_strlit("window.name");
    reveal_strlit("window.opener");
    reveal_strlit("document.referrer");
    reveal_strlit("document.cookie");
    let h = "history.state"@;
    assert(!starts_with(h, "location.hash"@)) by { assert(h[0] != "location.hash"@[0]); }
    assert(!starts_with(h, "location.href"@)) by { assert(h[0] != "location.href"@[0]); }
    assert(!starts_with(h, "document.URL"@)) by { assert(h[0] != "document.URL"@[0]); }
    assert(!starts_with(h, "document.documentURI"@)) by { assert(h[0] != "document.documentURI"@[0]); }
    assert(!starts_with(h, "document.baseURI"@)) by { assert(h[0] != "document.baseURI"@[0]); }
    assert(!starts_with(h, "location.search"@)) by { assert(h[0] != "location.search"@[0]); }
    assert(!starts_with(h, "location.pathname"@)) by { assert(h[0] != "location.pathname"@[0]); }
    assert(!starts_with(h, "URLSearchParams"@)) by { assert(h[0] != "URLSearchParams"@[0]); }
    assert(!starts_with(h, "window.name"@)) by { assert(h[0] != "window.name"@[0]); }
    assert(!starts_with(h, "window.opener"@)) by { assert(h[0] != "window.opener"@[0]); }
    assert(!starts_with(h, "document.referrer"@)) by { assert(h[0] != "document.referrer"@[0]); }
    assert(!starts_with(h, "document.cookie"@)) by { assert(h[0] != "document.cookie"@[0]); }
    assert(h.subrange(0, h.len() as int) =~= h);
    assert(starts_with(h, "history.state"@));
}

} // verus!
