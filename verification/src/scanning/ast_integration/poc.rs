//! Payload and description of a DOM-XSS proof of concept, chosen from the
//! taint source (where the payload has to be written) and the sink (what kind
//! of string executes there).
use crate::scanning::markers::{class_marker, class_marker_spec};
use crate::scanning::sources::{
    SourceKind, classify_source, param_chain, source_kind, url_param_chain,
};
use crate::text::{contains_seq, lemma_contains_middle, to_chars};
use vstd::prelude::*;
use vstd::string::StringExecFns;

verus! {

/// What kind of string a sink executes.
#[derive(Clone, Copy, Debug, PartialEq, Eq, Structural)]
pub enum SinkKind {
    /// The sink parses HTML (`innerHTML`, `document.write`, jQuery `$()`, ...).
    Html,
    /// The sink loads or navigates to a URL (`src`, `href`, `import`, ...).
    Url,
    /// The sink evaluates JavaScript source (`eval`, `Function`, ...).
    Script,
}

/// Sinks that evaluate their argument as JavaScript source.
pub open spec fn is_script_sink(s: Seq<char>) -> bool {
    ||| s == "eval"@
    ||| s == "Function"@
    ||| s == "new Function"@
    ||| s == "setTimeout"@
    ||| s == "setInterval"@
    ||| s == "setImmediate"@
    ||| s == "execScript"@
    ||| s == "script.text"@
    ||| s == "script.textContent"@
    ||| s == "script.innerText"@
}

/// Sinks that load or navigate to their argument as a URL.
pub open spec fn is_url_sink(s: Seq<char>) -> bool {
    ||| s == "src"@
    ||| s == "href"@
    ||| s == "action"@
    ||| s == "formAction"@
    ||| s == "location"@
    ||| s == "location.href"@
    ||| s == "location.assign"@
    ||| s == "location.replace"@
    ||| s == "window.location"@
    ||| s == "window.open"@
    ||| s == "import"@
    ||| s == "importScripts"@
    ||| s == "Worker"@
}

/// The kind of a sink.
pub open spec fn sink_kind(s: Seq<char>) -> SinkKind {
    if is_script_sink(s) {
        SinkKind::Script
    } else if is_url_sink(s) {
        SinkKind::Url
    } else {
        SinkKind::Html
    }
}

/// The executable part of a payload for a sink.
pub open spec fn payload_body(sink: Seq<char>) -> Seq<char> {
    match sink_kind(sink) {
        SinkKind::Script => "alert(1)"@,
        SinkKind::Url => "data:text/javascript,alert(1)"@,
        SinkKind::Html => "<img src=x onerror=alert(1) class="@ + class_marker_spec() + ">"@,
    }
}

/// The payload in the form the source delivers it: a fragment for
/// `location.hash`-like sources, an `xss=` query for `location.search`, a
/// `name=` pair for the innermost `URLSearchParams` name, and the bare
/// payload otherwise.
pub open spec fn poc_payload(source: Seq<char>, sink: Seq<char>) -> Seq<char> {
    let body = payload_body(sink);
    match source_kind(source) {
        SourceKind::LocationHash | SourceKind::DocumentUrl => "#"@ + body,
        SourceKind::LocationSearch => "xss="@ + body,
        SourceKind::UrlParam => param_chain(source).unwrap().last() + "="@ + body,
        _ => body,
    }
}

/// The human-readable description of a finding.
pub open spec fn poc_description(source: Seq<char>, sink: Seq<char>) -> Seq<char> {
    "DOM-based XSS: data from "@ + source + " reaches the sink "@ + sink
}

/// Whether the characters `a` spell the text `b`.
pub fn chars_eq(a: &[char], b: &str) -> (r: bool)
    ensures
        r == (a@ == b@),
{
    let bc = to_chars(b);
    if a.len() != bc.len() {
        return false;
    }
    let mut i: usize = 0;
    while i < a.len()
        invariant
            a@.len() == bc@.len(),
            bc@ == b@,
            i <= a@.len(),
            forall|j: int| 0 <= j < i ==> a@[j] == bc@[j],
        decreases a.len() - i,
    {
        if a[i] != bc[i] {
            assert(a@[i as int] != bc@[i as int]);
            return false;
        }
        i = i + 1;
    }
    assert(a@ =~= bc@);
    true
}

/// An owned copy of a text.
pub fn owned(s: &str) -> (r: String)
    ensures
        r@ == s@,
{
    s.to_owned()
}

/// The kind of the sink `sink`.
pub fn classify_sink(sink: &str) -> (k: SinkKind)
    ensures
        k == sink_kind(sink@),
{
    let s = to_chars(sink);
    let s = s.as_slice();
    if chars_eq(s, "eval") || chars_eq(s, "Function") || chars_eq(s, "new Function") || chars_eq(
        s,
        "setTimeout",
    ) || chars_eq(s, "setInterval") || chars_eq(s, "setImmediate") || chars_eq(s, "execScript")
        || chars_eq(s, "script.text") || chars_eq(s, "script.textContent") || chars_eq(
        s,
        "script.innerText",
    ) {
        SinkKind::Script
    } else if chars_eq(s, "src") || chars_eq(s, "href") || chars_eq(s, "action") || chars_eq(
        s,
        "formAction",
    ) || chars_eq(s, "location") || chars_eq(s, "location.href") || chars_eq(s, "location.assign")
        || chars_eq(s, "location.replace") || chars_eq(s, "window.location") || chars_eq(
        s,
        "window.open",
    ) || chars_eq(s, "import") || chars_eq(s, "importScripts") || chars_eq(s, "Worker") {
        SinkKind::Url
    } else {
        SinkKind::Html
    }
}

/// The executable part of a payload for the sink `sink`.
pub fn build_payload_body(sink: &str) -> (r: String)
    ensures
        r@ == payload_body(sink@),
{
    match classify_sink(sink) {
        SinkKind::Script => owned("alert(1)"),
        SinkKind::Url => owned("data:text/javascript,alert(1)"),
        SinkKind::Html => {
            let mut r = owned("<img src=x onerror=alert(1) class=");
            r.append(class_marker());
            r.append(">");
            r
        },
    }
}

/// Builds the proof-of-concept payload and the finding description for a
/// taint flow from `source` into `sink`.
pub fn generate_dom_xss_poc(source: &str, sink: &str) -> (r: (String, String))
    ensures
        r.0@ == poc_payload(source@, sink@),
        r.1@ == poc_description(source@, sink@),
{
    let body = build_payload_body(sink);
    let payload = match classify_source(source) {
        SourceKind::LocationHash | SourceKind::DocumentUrl => {
            let mut p = owned("#");
            p.append(body.as_str());
            p
        },
        SourceKind::LocationSearch => {
            let mut p = owned("xss=");
            p.append(body.as_str());
            p
        },
        SourceKind::UrlParam => {
            let chain = url_param_chain(source);
            match chain {
                Some(names) => {
                    let mut p = names[names.len() - 1].clone();
                    proof {
                        assert(names.deep_view().last() == names@[names@.len() - 1]@);
                    }
                    p.append("=");
                    p.append(body.as_str());
                    p
                },
                None => body,
            }
        },
        _ => body,
    };
    let mut description = owned("DOM-based XSS: data from ");
    description.append(source);
    description.append(" reaches the sink ");
    description.append(sink);
    (payload, description)
}

/// The description of a finding names the vulnerability class, the source
/// and the sink.
pub proof fn law_description_names_source_and_sink(source: Seq<char>, sink: Seq<char>)
    ensures
        contains_seq(poc_description(source, sink), "DOM-based XSS"@),
        contains_seq(poc_description(source, sink), source),
        contains_seq(poc_description(source, sink), sink),
{
    let d = poc_description(source, sink);
    let a = "DOM-based XSS: data from "@;
    let b = " reaches the sink "@;
    reveal_strlit("DOM-based XSS: data from ");
    reveal_strlit("DOM-based XSS");
    lemma_contains_middle(a, source, b + sink);
    assert(a + source + (b + sink) =~= d);
    lemma_contains_middle(a + source + b, sink, Seq::empty());
    assert(a + source + b + sink + Seq::<char>::empty() =~= d);
    let pre = "DOM-based XSS"@;
    assert(d.subrange(0, pre.len() as int) =~= pre);
    assert(crate::text::occurs_at(d, pre, 0));
}

/// An HTML payload, wherever the source delivers it, carries the class
/// marker, so that its reflection can be recognised in the page.
pub proof fn law_html_payload_carries_marker(source: Seq<char>, sink: Seq<char>)
    requires
        sink_kind(sink) == SinkKind::Html,
    ensures
        contains_seq(poc_payload(source, sink), class_marker_spec()),
{
    let body = payload_body(sink);
    let a = "<img src=x onerror=alert(1) class="@;
    let m = class_marker_spec();
    let c = ">"@;
    lemma_contains_middle(a, m, c);
    let p = poc_payload(source, sink);
    let pre = p.subrange(0, p.len() - body.len());
    assert(p =~= pre + body) by {
        match source_kind(source) {
            SourceKind::LocationHash | SourceKind::DocumentUrl => {},
            SourceKind::LocationSearch => {},
            SourceKind::UrlParam => {},
            _ => {},
        }
    }
    lemma_contains_middle(pre + a, m, c);
    assert(pre + a + m + c =~= p);
}

/// Sinks that parse HTML (`innerHTML`, `outerHTML`, `document.write`,
/// `insertAdjacentHTML`) get an `<img>` tag whose `onerror` handler runs
/// `alert(1)`, marked with the class marker.
pub proof fn law_html_sinks_get_img_payload(sink: Seq<char>)
    requires
        sink == "innerHTML"@ || sink == "outerHTML"@ || sink == "document.write"@ || sink
            == "insertAdjacentHTML"@,
    ensures
        payload_body(sink) == "<img src=x onerror=alert(1) class=dalfox>"@,
{
    reveal_strlit("innerHTML");
    reveal_strlit("outerHTML");
    reveal_strlit("document.write");
    reveal_strlit("insertAdjacentHTML");
    reveal_strlit("eval");
    reveal_strlit("Function");
    reveal_strlit("new Function");
    reveal_strlit("setTimeout");
    reveal_strlit("setInterval");
    reveal_strlit("setImmediate");
    reveal_strlit("execScript");
    reveal_strlit("script.text");
    reveal_strlit("script.textContent");
    reveal_strlit("script.innerText");
    reveal_strlit("src");
    reveal_strlit("href");
    reveal_strlit("action");
    reveal_strlit("formAction");
    reveal_strlit("location");
    reveal_strlit("location.href");
    reveal_strlit("location.assign");
    reveal_strlit("location.replace");
    reveal_strlit("window.location");
    reveal_strlit("window.open");
    reveal_strlit("import");
    reveal_strlit("importScripts");
    reveal_strlit("Worker");
    reveal_strlit("<img src=x onerror=alert(1) class=");
    reveal_strlit("dalfox");
    reveal_strlit(">");
    reveal_strlit("<img src=x onerror=alert(1) class=dalfox>");
    assert(sink[0] == 'i' || sink[0] == 'o' || sink[0] == 'd');
    assert(!is_script_sink(sink)) by {
        assert(sink[0] != 'e' && sink[0] != 'F' && sink[0] != 'n' && sink[0] != 's');
        if sink == "eval"@ || sink == "execScript"@ {
            assert(sink[0] == 'e');
        }
        if sink == "Function"@ {
            assert(sink[0] == 'F');
        }
        if sink == "new Function"@ {
            assert(sink[0] == 'n');
        }
        if sink == "setTimeout"@ || sink == "setInterval"@ || sink == "setImmediate"@ || sink
            == "script.text"@ || sink == "script.textContent"@ || sink == "script.innerText"@ {
            assert(sink[0] == 's');
        }
    }
    assert(!is_url_sink(sink)) by {
        if sink == "src"@ || sink == "href"@ || sink == "action"@ || sink == "formAction"@
            || sink == "location"@ || sink == "location.href"@ || sink == "location.assign"@
            || sink == "location.replace"@ || sink == "window.location"@ || sink
            == "window.open"@ || sink == "Worker"@ {
            assert(sink[0] != 'i' && sink[0] != 'o' && sink[0] != 'd');
        }
        if sink == "import"@ || sink == "importScripts"@ {
            assert(sink.len() == 6 || sink.len() == 13);
            assert(sink[0] == 'i');
            assert(sink == "innerHTML"@ || sink == "insertAdjacentHTML"@);
            assert(sink.len() == 9 || sink.len() == 18);
        }
    }
    assert("<img src=x onerror=alert(1) class="@ + "dalfox"@ + ">"@
        =~= "<img src=x onerror=alert(1) class=dalfox>"@);
}

/// Sinks that evaluate a string as JavaScript source (`eval`, `Function`,
/// `new Function`, the string forms of `setTimeout` and `setInterval`, and
/// the text of a script element) get the bare script `alert(1)`, with no
/// HTML tag or URL scheme around it; sinks that load a URL (`src`, `href`,
/// dynamic `import`, navigation) get an executable `data:` URL; wherever the
/// source delivers the payload, it ends with that body.
pub proof fn law_payload_follows_sink(source: Seq<char>, sink: Seq<char>)
    ensures
        (sink == "eval"@ || sink == "Function"@ || sink == "new Function"@ || sink
            == "setTimeout"@ || sink == "setInterval"@ || sink == "script.text"@ || sink
            == "script.textContent"@) ==> payload_body(sink) == "alert(1)"@,
        (sink == "src"@ || sink == "href"@ || sink == "import"@ || sink == "location.href"@
            || sink == "location.assign"@ || sink == "window.open"@) ==> payload_body(sink)
            == "data:text/javascript,alert(1)"@,
        poc_payload(source, sink).len() >= payload_body(sink).len(),
        poc_payload(source, sink).subrange(
            poc_payload(source, sink).len() - payload_body(sink).len(),
            poc_payload(source, sink).len() as int,
        ) == payload_body(sink),
{
    if sink == "src"@ || sink == "href"@ || sink == "import"@ || sink == "location.href"@ || sink
        == "location.assign"@ || sink == "window.open"@ {
        reveal_strlit("eval");
        reveal_strlit("Function");
        reveal_strlit("new Function");
        reveal_strlit("setTimeout");
        reveal_strlit("setInterval");
        reveal_strlit("setImmediate");
        reveal_strlit("execScript");
        reveal_strlit("script.text");
        reveal_strlit("script.textContent");
        reveal_strlit("script.innerText");
        reveal_strlit("src");
        reveal_strlit("href");
        reveal_strlit("import");
        reveal_strlit("location.href");
        reveal_strlit("location.assign");
        reveal_strlit("window.open");
        let e = "eval"@;
        let f = "Function"@;
        let nf = "new Function"@;
        let st = "setTimeout"@;
        let si = "setInterval"@;
        let sm = "setImmediate"@;
        let ex = "execScript"@;
        let t1 = "script.text"@;
        let t2 = "script.textContent"@;
        let t3 = "script.innerText"@;
        assert(sink[0] == 's' || sink[0] == 'h' || sink[0] == 'i' || sink[0] == 'l' || sink[0]
            == 'w');
        assert(sink.len() == 3 || sink.len() == 4 || sink.len() == 6 || sink.len() == 13
            || sink.len() == 15 || sink.len() == 11);
        assert(sink != e && sink != f && sink != nf && sink != ex) by {
            assert(sink[0] != e[0] && sink[0] != f[0] && sink[0] != nf[0] && sink[0] != ex[0]);
        }
        assert(sink != st && sink != si && sink != sm && sink != t1 && sink != t2 && sink != t3)
            by {
            if sink[0] == 's' {
                assert(sink.len() == 3);
            }
            if sink.len() == 11 {
                assert(sink == "window.open"@);
                assert(sink[0] != t1[0] && sink[0] != si[0]);
            }
        }
        assert(!is_script_sink(sink));
    }
    let body = payload_body(sink);
    let p = poc_payload(source, sink);
    match source_kind(source) {
        SourceKind::LocationHash | SourceKind::DocumentUrl => {
            assert(p =~= "#"@ + body);
        },
        SourceKind::LocationSearch => {
            assert(p =~= "xss="@ + body);
        },
        SourceKind::UrlParam => {
            let c = param_chain(source).unwrap();
            assert(p =~= (c.last() + "="@) + body);
        },
        _ => {
            assert(p =~= Seq::<char>::empty() + body);
        },
    }
    assert(p.subrange(p.len() - body.len(), p.len() as int) =~= body);
}

} // verus!
