//! Manual reproduction hints for DOM-XSS findings whose source lives in
//! browser state rather than in the URL: the tester has to seed the state from
//! another page, a tab, a socket or the console.
use crate::scanning::ast_integration::poc::owned;
use crate::scanning::sources::{
    SourceKind, classify_source, is_browser_state, source_kind, source_storage_key, storage_key,
};
use crate::text::{
    contains_seq, js_escape, js_escape_char, js_quote, lemma_contains_middle, push_char, to_chars,
};
use vstd::prelude::*;
use vstd::string::StringExecFns;

verus! {

/// The storage key of a storage source, or `dalfox` when the source names none.
pub open spec fn hint_storage_key(source: Seq<char>) -> Seq<char> {
    match storage_key(source) {
        Some(k) => k,
        None => "dalfox"@,
    }
}

/// The manual hint for a finding on page `u`, from `source`, with payload `p`;
/// `None` when the payload travels in the URL or the source is unknown.
pub open spec fn manual_hint(u: Seq<char>, source: Seq<char>, p: Seq<char>) -> Option<Seq<char>> {
    match source_kind(source) {
        SourceKind::WindowName => Some(
            "The page reads window.name, which survives cross-origin navigation. From an attacker page run: const w = window.open('about:blank'); w.name = "@
                + js_quote(p) + "; w.location = "@ + js_quote(u) + ";"@,
        ),
        SourceKind::WindowOpener => Some(
            "The page reads from window.opener. From a same-origin page run: window.name = "@
                + js_quote(p) + "; window.__xssmazePreview = { html: "@ + js_quote(p)
                + " }; window.open("@ + js_quote(u) + ");"@,
        ),
        SourceKind::DocumentReferrer => Some(
            "The page reads document.referrer. Host an attacker-controlled page whose URL contains "@
                + p + " and link from it to "@ + u,
        ),
        SourceKind::DocumentCookie => Some(
            "The page reads document.cookie. Set a same-origin cookie carrying the payload, e.g. document.cookie = 'dalfox=' + encodeURIComponent("@
                + js_quote(p) + "), then reload "@ + u
                + " (a cookie-safe variant may be needed when the page does not decode the value)."@,
        ),
        SourceKind::HistoryState => Some(
            "The page reads history.state. On "@ + u + " run: history.replaceState({ html: "@
                + js_quote(p) + " }, '', location.href); then reload the page."@,
        ),
        SourceKind::MessageData => Some(
            "The page handles postMessage events. From an attacker page run: const w = window.open("@
                + js_quote(u) + "); setTimeout(() => w.postMessage("@ + js_quote(p)
                + ", '*'), 1000);"@,
        ),
        SourceKind::BroadcastChannelMessage => Some(
            "The page listens on a BroadcastChannel. While "@ + u
                + " is open, from a same-origin page run: new BroadcastChannel(CHANNEL).postMessage("@
                + js_quote(p) + "); with CHANNEL set to the channel name the page subscribes to."@,
        ),
        SourceKind::ServiceWorkerMessage => Some(
            "The page renders messages from its service worker. In a page controlled by the same worker as "@
                + u + " run: navigator.serviceWorker.controller?.postMessage("@ + js_quote(p)
                + ");"@,
        ),
        SourceKind::WebSocketMessage => Some(
            "The page renders WebSocket messages. Make the WebSocket server, or an intercepting proxy, send "@
                + js_quote(p) + " to the socket opened by "@ + u
                + " so that its onmessage handler receives it."@,
        ),
        SourceKind::EventSourceMessage => Some(
            "The page renders EventSource messages. In the console of "@ + u
                + " dispatch new MessageEvent('message', { data: "@ + js_quote(p)
                + " }) on the page's EventSource, or make the stream emit the payload."@,
        ),
        SourceKind::StorageEvent => Some(
            "The page reacts to storage events. Open "@ + u
                + ", then from a same-origin tab run: localStorage.setItem('dalfox', "@
                + js_quote(p) + ");"@,
        ),
        SourceKind::LocalStorage => Some(
            "The page reads localStorage. From a same-origin page run: localStorage.setItem("@
                + js_quote(hint_storage_key(source)) + ", "@ + js_quote(p) + "); then open "@ + u,
        ),
        SourceKind::SessionStorage => Some(
            "The page reads sessionStorage. In the same tab run: sessionStorage.setItem("@
                + js_quote(hint_storage_key(source)) + ", "@ + js_quote(p) + "); then reload "@
                + u,
        ),
        _ => None,
    }
}

/// Appends `s` as a double-quoted JavaScript string literal.
pub fn push_js_quoted(out: &mut String, s: &str)
    ensures
        final(out)@ == old(out)@ + js_quote(s@),
{
    let cs = to_chars(s);
    push_char(out, '"');
    let ghost start = out@;
    let mut i: usize = 0;
    while i < cs.len()
        invariant
            i <= cs@.len(),
            cs@ == s@,
            out@ == start + js_escape(cs@.take(i as int)),
        decreases cs.len() - i,
    {
        let c = cs[i];
        if c == '\\' {
            push_char(out, '\\');
            push_char(out, '\\');
        } else if c == '"' {
            push_char(out, '\\');
            push_char(out, '"');
        } else if c == '\n' {
            push_char(out, '\\');
            push_char(out, 'n');
        } else if c == '\r' {
            push_char(out, '\\');
            push_char(out, 'r');
        } else {
            push_char(out, c);
        }
        assert(cs@.take(i + 1).drop_last() =~= cs@.take(i as int));
        assert(out@ =~= start + js_escape(cs@.take(i as int)) + js_escape_char(c));
        i = i + 1;
    }
    assert(cs@.take(cs@.len() as int) =~= cs@);
    push_char(out, '"');
    assert(out@ =~= old(out)@ + js_quote(s@));
}

/// A manual reproduction hint for a DOM-XSS finding on `url` whose taint
/// source is `source`, using `payload`; `None` for sources that the PoC URL
/// already delivers (fragment, query, path, URL parameters) and for unknown
/// sources.
pub fn build_dom_xss_manual_poc_hint(url: &str, source: &str, payload: &str) -> (r: Option<
    String,
>)
    ensures
        match r {
            Some(h) => manual_hint(url@, source@, payload@) == Some(h@),
            None => manual_hint(url@, source@, payload@) is None,
        },
{
    match classify_source(source) {
        SourceKind::WindowName => {
            let mut h = owned(
                "The page reads window.name, which survives cross-origin navigation. From an attacker page run: const w = window.open('about:blank'); w.name = ",
            );
            push_js_quoted(&mut h, payload);
            h.append("; w.location = ");
            push_js_quoted(&mut h, url);
            h.append(";");
            Some(h)
        },
        SourceKind::WindowOpener => {
            let mut h = owned(
                "The page reads from window.opener. From a same-origin page run: window.name = ",
            );
            push_js_quoted(&mut h, payload);
            h.append("; window.__xssmazePreview = { html: ");
            push_js_quoted(&mut h, payload);
            h.append(" }; window.open(");
            push_js_quoted(&mut h, url);
            h.append(");");
            Some(h)
        },
        SourceKind::DocumentReferrer => {
            let mut h = owned(
                "The page reads document.referrer. Host an attacker-controlled page whose URL contains ",
            );
            h.append(payload);
            h.append(" and link from it to ");
            h.append(url);
            Some(h)
        },
        SourceKind::DocumentCookie => {
            let mut h = owned(
                "The page reads document.cookie. Set a same-origin cookie carrying the payload, e.g. document.cookie = 'dalfox=' + encodeURIComponent(",
            );
            push_js_quoted(&mut h, payload);
            h.append("), then reload ");
            h.append(url);
            h.append(
                " (a cookie-safe variant may be needed when the page does not decode the value).",
            );
            Some(h)
        },
        SourceKind::HistoryState => {
            let mut h = owned("The page reads history.state. On ");
            h.append(url);
            h.append(" run: history.replaceState({ html: ");
            push_js_quoted(&mut h, payload);
            h.append(" }, '', location.href); then reload the page.");
            Some(h)
        },
        SourceKind::MessageData => {
            let mut h = owned(
                "The page handles postMessage events. From an attacker page run: const w = window.open(",
            );
            push_js_quoted(&mut h, url);
            h.append("); setTimeout(() => w.postMessage(");
            push_js_quoted(&mut h, payload);
            h.append(", '*'), 1000);");
            Some(h)
        },
        SourceKind::BroadcastChannelMessage => {
            let mut h = owned("The page listens on a BroadcastChannel. While ");
            h.append(url);
            h.append(
                " is open, from a same-origin page run: new BroadcastChannel(CHANNEL).postMessage(",
            );
            push_js_quoted(&mut h, payload);
            h.append("); with CHANNEL set to the channel name the page subscribes to.");
            Some(h)
        },
        SourceKind::ServiceWorkerMessage => {
            let mut h = owned(
                "The page renders messages from its service worker. In a page controlled by the same worker as ",
            );
            h.append(url);
            h.append(" run: navigator.serviceWorker.controller?.postMessage(");
            push_js_quoted(&mut h, payload);
            h.append(");");
            Some(h)
        },
        SourceKind::WebSocketMessage => {
            let mut h = owned(
                "The page renders WebSocket messages. Make the WebSocket server, or an intercepting proxy, send ",
            );
            push_js_quoted(&mut h, payload);
            h.append(" to the socket opened by ");
            h.append(url);
            h.append(" so that its onmessage handler receives it.");
            Some(h)
        },
        SourceKind::EventSourceMessage => {
            let mut h = owned("The page renders EventSource messages. In the console of ");
            h.append(url);
            h.append(" dispatch new MessageEvent('message', { data: ");
            push_js_quoted(&mut h, payload);
            h.append(" }) on the page's EventSource, or make the stream emit the payload.");
            Some(h)
        },
        SourceKind::StorageEvent => {
            let mut h = owned("The page reacts to storage events. Open ");
            h.append(url);
            h.append(", then from a same-origin tab run: localStorage.setItem('dalfox', ");
            push_js_quoted(&mut h, payload);
            h.append(");");
            Some(h)
        },
        SourceKind::LocalStorage => {
            let key = match source_storage_key(source) {
                Some(k) => k,
                None => owned("dalfox"),
            };
            let mut h = owned(
                "The page reads localStorage. From a same-origin page run: localStorage.setItem(",
            );
            push_js_quoted(&mut h, key.as_str());
            h.append(", ");
            push_js_quoted(&mut h, payload);
            h.append("); then open ");
            h.append(url);
            Some(h)
        },
        SourceKind::SessionStorage => {
            let key = match source_storage_key(source) {
                Some(k) => k,
                None => owned("dalfox"),
            };
            let mut h = owned(
                "The page reads sessionStorage. In the same tab run: sessionStorage.setItem(",
            );
            push_js_quoted(&mut h, key.as_str());
            h.append(", ");
            push_js_quoted(&mut h, payload);
            h.append("); then reload ");
            h.append(url);
            Some(h)
        },
        _ => None,
    }
}

/// A manual hint is given exactly for the sources held in browser state:
/// never for a source the URL carries (its PoC URL reproduces the finding),
/// nor for an unknown one.
pub proof fn law_manual_hint_iff_browser_state(u: Seq<char>, source: Seq<char>, p: Seq<char>)
    ensures
        manual_hint(u, source, p) is Some <==> is_browser_state(source_kind(source)),
{
}

/// A storage hint writes the payload under the key the source reads, or
/// under `dalfox` when the source names no key.
pub proof fn law_storage_hint_uses_source_key(u: Seq<char>, source: Seq<char>, p: Seq<char>)
    ensures
        source_kind(source) == SourceKind::LocalStorage ==> contains_seq(
            manual_hint(u, source, p).unwrap(),
            "localStorage.setItem("@ + js_quote(
                match storage_key(source) {
                    Some(k) => k,
                    None => "dalfox"@,
                },
            ) + ", "@ + js_quote(p),
        ),
        source_kind(source) == SourceKind::SessionStorage ==> contains_seq(
            manual_hint(u, source, p).unwrap(),
            "sessionStorage.setItem("@ + js_quote(
                match storage_key(source) {
                    Some(k) => k,
                    None => "dalfox"@,
                },
            ) + ", "@ + js_quote(p),
        ),
{
    let key = match storage_key(source) {
        Some(k) => k,
        None => "dalfox"@,
    };
    if source_kind(source) == SourceKind::LocalStorage {
        let h = manual_hint(u, source, p).unwrap();
        let a = "The page reads localStorage. From a same-origin page run: "@;
        let m = "localStorage.setItem("@ + js_quote(key) + ", "@ + js_quote(p);
        let c = "); then open "@ + u;
        reveal_strlit("The page reads localStorage. From a same-origin page run: localStorage.setItem(");
        reveal_strlit("The page reads localStorage. From a same-origin page run: ");
        reveal_strlit("localStorage.setItem(");
        assert(h == "The page reads localStorage. From a same-origin page run: localStorage.setItem("@
            + js_quote(key) + ", "@ + js_quote(p) + "); then open "@ + u);
        assert("The page reads localStorage. From a same-origin page run: localStorage.setItem("@
            =~= a + "localStorage.setItem("@);
        lemma_contains_middle(a, m, c);
        assert(a + m + c =~= h);
    }
    if source_kind(source) == SourceKind::SessionStorage {
        let h = manual_hint(u, source, p).unwrap();
        let a = "The page reads sessionStorage. In the same tab run: "@;
        let m = "sessionStorage.setItem("@ + js_quote(key) + ", "@ + js_quote(p);
        let c = "); then reload "@ + u;
        reveal_strlit("The page reads sessionStorage. In the same tab run: sessionStorage.setItem(");
        reveal_strlit("The page reads sessionStorage. In the same tab run: ");
        reveal_strlit("sessionStorage.setItem(");
        assert(h == "The page reads sessionStorage. In the same tab run: sessionStorage.setItem("@
            + js_quote(key) + ", "@ + js_quote(p) + "); then reload "@ + u);
        assert("The page reads sessionStorage. In the same tab run: sessionStorage.setItem("@
            =~= a + "sessionStorage.setItem("@);
        lemma_contains_middle(a, m, c);
        assert(a + m + c =~= h);
    }
}

/// Each hint hands the quoted payload to the mechanism that delivers it and
/// names the page as the one to open or act on, with the two in their own
/// places: payload and page are never swapped.
pub proof fn law_manual_hint_roles(u: Seq<char>, source: Seq<char>, p: Seq<char>)
    requires
        manual_hint(u, source, p) is Some,
    ensures
        ({
            let h = manual_hint(u, source, p).unwrap();
            let q = js_quote(p);
            match source_kind(source) {
                SourceKind::WindowName => contains_seq(h, q + "; w.location = "@ + js_quote(u)),
                SourceKind::WindowOpener => contains_seq(h, q + " }; window.open("@ + js_quote(u)),
                SourceKind::DocumentReferrer => contains_seq(h, p + " and link from it to "@ + u),
                SourceKind::DocumentCookie => contains_seq(h, q + "), then reload "@ + u),
                SourceKind::HistoryState => contains_seq(
                    h,
                    u + " run: history.replaceState({ html: "@ + q,
                ),
                SourceKind::MessageData => contains_seq(
                    h,
                    js_quote(u) + "); setTimeout(() => w.postMessage("@ + q,
                ),
                SourceKind::BroadcastChannelMessage => contains_seq(
                    h,
                    u
                        + " is open, from a same-origin page run: new BroadcastChannel(CHANNEL).postMessage("@
                        + q,
                ),
                SourceKind::ServiceWorkerMessage => contains_seq(
                    h,
                    u + " run: navigator.serviceWorker.controller?.postMessage("@ + q,
                ),
                SourceKind::WebSocketMessage => contains_seq(
                    h,
                    q + " to the socket opened by "@ + u,
                ),
                SourceKind::EventSourceMessage => contains_seq(
                    h,
                    u + " dispatch new MessageEvent('message', { data: "@ + q,
                ),
                SourceKind::StorageEvent => contains_seq(
                    h,
                    u + ", then from a same-origin tab run: localStorage.setItem('dalfox', "@ + q,
                ),
                SourceKind::LocalStorage => contains_seq(h, ", "@ + q + "); then open "@ + u),
                SourceKind::SessionStorage => contains_seq(h, ", "@ + q + "); then reload "@ + u),
                _ => false,
            }
        }),
{
    match source_kind(source) {
        SourceKind::WindowName => lemma_hint_roles_window_name(u, source, p),
        SourceKind::WindowOpener => lemma_hint_roles_window_opener(u, source, p),
        SourceKind::DocumentReferrer => lemma_hint_roles_document_referrer(u, source, p),
        SourceKind::DocumentCookie => lemma_hint_roles_document_cookie(u, source, p),
        SourceKind::HistoryState => lemma_hint_roles_history_state(u, source, p),
        SourceKind::MessageData => lemma_hint_roles_message_data(u, source, p),
        SourceKind::BroadcastChannelMessage => lemma_hint_roles_broadcast_channel_message(u, source, p),
        SourceKind::ServiceWorkerMessage => lemma_hint_roles_service_worker_message(u, source, p),
        SourceKind::WebSocketMessage => lemma_hint_roles_web_socket_message(u, source, p),
        SourceKind::EventSourceMessage => lemma_hint_roles_event_source_message(u, source, p),
        SourceKind::StorageEvent => lemma_hint_roles_storage_event(u, source, p),
        SourceKind::LocalStorage => lemma_hint_roles_local_storage(u, source, p),
        SourceKind::SessionStorage => lemma_hint_roles_session_storage(u, source, p),
        _ => {},
    }
}

proof fn lemma_hint_roles_window_name(u: Seq<char>, source: Seq<char>, p: Seq<char>)
    requires
        source_kind(source) == SourceKind::WindowName,
    ensures
        contains_seq(manual_hint(u, source, p).unwrap(), js_quote(p) + "; w.location = "@ + js_quote(u)),
{
    let h = manual_hint(u, source, p).unwrap();
    let q = js_quote(p);
    let ju = js_quote(u);
    let a = "The page reads window.name, which survives cross-origin navigation. From an attacker page run: const w = window.open('about:blank'); w.name = "@;
    lemma_contains_middle(a, q + "; w.location = "@ + ju, ";"@);
    assert(a + (q + "; w.location = "@ + ju) + ";"@ =~= h);
}

proof fn lemma_hint_roles_window_opener(u: Seq<char>, source: Seq<char>, p: Seq<char>)
    requires
        source_kind(source) == SourceKind::WindowOpener,
    ensures
        contains_seq(manual_hint(u, source, p).unwrap(), js_quote(p) + " }; window.open("@ + js_quote(u)),
{
    let h = manual_hint(u, source, p).unwrap();
    let q = js_quote(p);
    let ju = js_quote(u);
    let a = "The page reads from window.opener. From a same-origin page run: window.name = "@
        + q + "; window.__xssmazePreview = { html: "@;
    lemma_contains_middle(a, q + " }; window.open("@ + ju, ");"@);
    assert(a + (q + " }; window.open("@ + ju) + ");"@ =~= h);
}

proof fn lemma_hint_roles_document_referrer(u: Seq<char>, source: Seq<char>, p: Seq<char>)
    requires
        source_kind(source) == SourceKind::DocumentReferrer,
    ensures
        contains_seq(manual_hint(u, source, p).unwrap(), p + " and link from it to "@ + u),
{
    let h = manual_hint(u, source, p).unwrap();
    let q = js_quote(p);
    let ju = js_quote(u);
    let a = "The page reads document.referrer. Host an attacker-controlled page whose URL contains "@;
    let m = p + " and link from it to "@ + u;
    assert(h == a + p + " and link from it to "@ + u);
    assert(h =~= a + m);
    lemma_contains_middle(a, m, Seq::empty());
    assert(a + m + Seq::<char>::empty() =~= a + m);
}

proof fn lemma_hint_roles_document_cookie(u: Seq<char>, source: Seq<char>, p: Seq<char>)
    requires
        source_kind(source) == SourceKind::DocumentCookie,
    ensures
        contains_seq(manual_hint(u, source, p).unwrap(), js_quote(p) + "), then reload "@ + u),
{
    let h = manual_hint(u, source, p).unwrap();
    let q = js_quote(p);
    let ju = js_quote(u);
    let a = "The page reads document.cookie. Set a same-origin cookie carrying the payload, e.g. document.cookie = 'dalfox=' + encodeURIComponent("@;
    let c = " (a cookie-safe variant may be needed when the page does not decode the value)."@;
    lemma_contains_middle(a, q + "), then reload "@ + u, c);
    assert(a + (q + "), then reload "@ + u) + c =~= h);
}

proof fn lemma_hint_roles_history_state(u: Seq<char>, source: Seq<char>, p: Seq<char>)
    requires
        source_kind(source) == SourceKind::HistoryState,
    ensures
        contains_seq(
            manual_hint(u, source, p).unwrap(),
            u + " run: history.replaceState({ html: "@ + js_quote(p),
        ),
{
    let h = manual_hint(u, source, p).unwrap();
    let q = js_quote(p);
    let ju = js_quote(u);
    let a = "The page reads history.state. On "@;
    let c = " }, '', location.href); then reload the page."@;
    lemma_contains_middle(a, u + " run: history.replaceState({ html: "@ + q, c);
    assert(a + (u + " run: history.replaceState({ html: "@ + q) + c =~= h);
}

proof fn lemma_hint_roles_message_data(u: Seq<char>, source: Seq<char>, p: Seq<char>)
    requires
        source_kind(source) == SourceKind::MessageData,
    ensures
        contains_seq(
            manual_hint(u, source, p).unwrap(),
            js_quote(u) + "); setTimeout(() => w.postMessage("@ + js_quote(p),
        ),
{
    let h = manual_hint(u, source, p).unwrap();
    let q = js_quote(p);
    let ju = js_quote(u);
    let a = "The page handles postMessage events. From an attacker page run: const w = window.open("@;
    let c = ", '*'), 1000);"@;
    lemma_contains_middle(a, ju + "); setTimeout(() => w.postMessage("@ + q, c);
    assert(a + (ju + "); setTimeout(() => w.postMessage("@ + q) + c =~= h);
}

proof fn lemma_hint_roles_broadcast_channel_message(u: Seq<char>, source: Seq<char>, p: Seq<char>)
    requires
        source_kind(source) == SourceKind::BroadcastChannelMessage,
    ensures
        contains_seq(
            manual_hint(u, source, p).unwrap(),
            u
                + " is open, from a same-origin page run: new BroadcastChannel(CHANNEL).postMessage("@
                + js_quote(p),
        ),
{
    let h = manual_hint(u, source, p).unwrap();
    let q = js_quote(p);
    let ju = js_quote(u);
    let a = "The page listens on a BroadcastChannel. While "@;
    let m = u
        + " is open, from a same-origin page run: new BroadcastChannel(CHANNEL).postMessage("@
        + q;
    let c = "); with CHANNEL set to the channel name the page subscribes to."@;
    lemma_contains_middle(a, m, c);
    assert(a + m + c =~= h);
}

proof fn lemma_hint_roles_service_worker_message(u: Seq<char>, source: Seq<char>, p: Seq<char>)
    requires
        source_kind(source) == SourceKind::ServiceWorkerMessage,
    ensures
        contains_seq(
            manual_hint(u, source, p).unwrap(),
            u + " run: navigator.serviceWorker.controller?.postMessage("@ + js_quote(p),
        ),
{
    let h = manual_hint(u, source, p).unwrap();
    let q = js_quote(p);
    let ju = js_quote(u);
    let a = "The page renders messages from its service worker. In a page controlled by the same worker as "@;
    let m = u + " run: navigator.serviceWorker.controller?.postMessage("@ + q;
    lemma_contains_middle(a, m, ");"@);
    assert(a + m + ");"@ =~= h);
}

proof fn lemma_hint_roles_web_socket_message(u: Seq<char>, source: Seq<char>, p: Seq<char>)
    requires
        source_kind(source) == SourceKind::WebSocketMessage,
    ensures
        contains_seq(
            manual_hint(u, source, p).unwrap(),
            js_quote(p) + " to the socket opened by "@ + u,
        ),
{
    let h = manual_hint(u, source, p).unwrap();
    let q = js_quote(p);
    let ju = js_quote(u);
    let a = "The page renders WebSocket messages. Make the WebSocket server, or an intercepting proxy, send "@;
    let m = q + " to the socket opened by "@ + u;
    let c = " so that its onmessage handler receives it."@;
    lemma_contains_middle(a, m, c);
    assert(a + m + c =~= h);
}

proof fn lemma_hint_roles_event_source_message(u: Seq<char>, source: Seq<char>, p: Seq<char>)
    requires
        source_kind(source) == SourceKind::EventSourceMessage,
    ensures
        contains_seq(
            manual_hint(u, source, p).unwrap(),
            u + " dispatch new MessageEvent('message', { data: "@ + js_quote(p),
        ),
{
    let h = manual_hint(u, source, p).unwrap();
    let q = js_quote(p);
    let ju = js_quote(u);
    let a = "The page renders EventSource messages. In the console of "@;
    let m = u + " dispatch new MessageEvent('message', { data: "@ + q;
    let c = " }) on the page's EventSource, or make the stream emit the payload."@;
    lemma_contains_middle(a, m, c);
    assert(a + m + c =~= h);
}

proof fn lemma_hint_roles_storage_event(u: Seq<char>, source: Seq<char>, p: Seq<char>)
    requires
        source_kind(source) == SourceKind::StorageEvent,
    ensures
        contains_seq(
            manual_hint(u, source, p).unwrap(),
            u + ", then from a same-origin tab run: localStorage.setItem('dalfox', "@ + js_quote(p),
        ),
{
    let h = manual_hint(u, source, p).unwrap();
    let q = js_quote(p);
    let ju = js_quote(u);
    let a = "The page reacts to storage events. Open "@;
    let m = u + ", then from a same-origin tab run: localStorage.setItem('dalfox', "@ + q;
    lemma_contains_middle(a, m, ");"@);
    assert(a + m + ");"@ =~= h);
}

proof fn lemma_hint_roles_local_storage(u: Seq<char>, source: Seq<char>, p: Seq<char>)
    requires
        source_kind(source) == SourceKind::LocalStorage,
    ensures
        contains_seq(manual_hint(u, source, p).unwrap(), ", "@ + js_quote(p) + "); then open "@ + u),
{
    let h = manual_hint(u, source, p).unwrap();
    let q = js_quote(p);
    let ju = js_quote(u);
    let a = "The page reads localStorage. From a same-origin page run: localStorage.setItem("@
        + js_quote(hint_storage_key(source));
    let m = ", "@ + q + "); then open "@ + u;
    assert(h == a + ", "@ + q + "); then open "@ + u);
    assert(h =~= a + m);
    lemma_contains_middle(a, m, Seq::empty());
    assert(a + m + Seq::<char>::empty() =~= a + m);
}

proof fn lemma_hint_roles_session_storage(u: Seq<char>, source: Seq<char>, p: Seq<char>)
    requires
        source_kind(source) == SourceKind::SessionStorage,
    ensures
        contains_seq(manual_hint(u, source, p).unwrap(), ", "@ + js_quote(p) + "); then reload "@ + u),
{
    let h = manual_hint(u, source, p).unwrap();
    let q = js_quote(p);
    let ju = js_quote(u);
    let a = "The page reads sessionStorage. In the same tab run: sessionStorage.setItem("@
        + js_quote(hint_storage_key(source));
    let m = ", "@ + q + "); then reload "@ + u;
    assert(h == a + ", "@ + q + "); then reload "@ + u);
    assert(h =~= a + m);
    lemma_contains_middle(a, m, Seq::empty());
    assert(a + m + Seq::<char>::empty() =~= a + m);
}

} // verus!
