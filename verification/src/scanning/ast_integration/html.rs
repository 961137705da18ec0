//! A small HTML scanner for `<script>` elements: their attribute text and
//! their body. It is tolerant: tag names are matched ignoring ASCII case, an
//! unterminated start tag ends the scan, and an unclosed element runs to the
//! end of the document.
use crate::text::{
    blank, find, find_ci, find_ci_from, find_from, is_blank, is_space, is_space_char,
    lemma_find_ci_from, lemma_find_from, lemma_trim_edges, lower_char, matches_at_ci, occurs_at,
    occurs_at_ci, string_of, to_chars, trim, trimmed,
};
use vstd::prelude::*;

verus! {

/// A character that ends a tag name.
pub open spec fn is_tag_name_end(c: char) -> bool {
    is_space(c) || c == '>' || c == '/'
}

/// A `<script` start tag begins at `i`.
pub open spec fn script_open_at(h: Seq<char>, i: int) -> bool {
    &&& occurs_at_ci(h, "<script"@, i)
    &&& i + "<script"@.len() < h.len()
    &&& is_tag_name_end(h[i + "<script"@.len()])
}

/// The first `<script` start tag at or after `from`.
pub open spec fn find_script_open(h: Seq<char>, from: int) -> Option<int>
    decreases h.len() + 1 - from,
{
    if from < 0 || from >= h.len() {
        None
    } else if script_open_at(h, from) {
        Some(from)
    } else {
        find_script_open(h, from + 1)
    }
}

/// `find_script_open` finds a start tag at or after `from`.
pub proof fn lemma_find_script_open(h: Seq<char>, from: int)
    requires
        0 <= from,
    ensures
        find_script_open(h, from) matches Some(i) ==> from <= i < h.len() && script_open_at(h, i),
    decreases h.len() + 1 - from,
{
    if from >= h.len() {
    } else if script_open_at(h, from) {
    } else {
        lemma_find_script_open(h, from + 1);
    }
}

/// The `<script>` elements found at or after `pos`, each as the text of its
/// start tag after the tag name, and its body.
pub open spec fn script_tags_from(h: Seq<char>, pos: int) -> Seq<(Seq<char>, Seq<char>)>
    decreases h.len() + 1 - pos,
{
    if pos < 0 || pos > h.len() {
        Seq::empty()
    } else {
        match find_script_open(h, pos) {
            None => Seq::empty(),
            Some(i) => {
                let a0: int = i + "<script"@.len();
                match find_from(h, seq!['>'], a0) {
                    None => Seq::empty(),
                    Some(gt) => {
                        let attrs = h.subrange(a0, gt);
                        match find_ci_from(h, "</script"@, gt + 1) {
                            None => seq![(attrs, h.subrange(gt + 1, h.len() as int))],
                            Some(c) => {
                                proof {
                                    lemma_find_script_open(h, pos);
                                    lemma_find_from(h, seq!['>'], a0);
                                    lemma_find_ci_from(h, "</script"@, gt + 1);
                                }
                                seq![(attrs, h.subrange(gt + 1, c))] + script_tags_from(h, c + 1)
                            },
                        }
                    },
                }
            },
        }
    }
}

/// The `<script>` elements of a document, in document order.
pub open spec fn script_tags(h: Seq<char>) -> Seq<(Seq<char>, Seq<char>)> {
    script_tags_from(h, 0)
}

/// Only a `<` can start a match of a text that starts with `<`, ignoring case.
proof fn lemma_lower_lt(c: char)
    ensures
        lower_char(c) == '<' ==> c == '<',
{
    if 'A' <= c && c <= 'Z' {
        assert((c as u32) + 32 >= 'a' as u32);
    }
}

/// With no `<` in `[p, e)` and a start tag at `e`, the first start tag at
/// or after `p` is the one at `e`.
proof fn lemma_find_script_open_at(h: Seq<char>, p: int, e: int)
    requires
        0 <= p <= e < h.len(),
        forall|i: int| p <= i < e ==> #[trigger] h[i] != '<',
        script_open_at(h, e),
    ensures
        find_script_open(h, p) == Some(e),
    decreases e - p,
{
    if p < e {
        reveal_strlit("<script");
        lemma_lower_lt(h[p]);
        assert(!script_open_at(h, p)) by {
            if occurs_at_ci(h, "<script"@, p) {
                assert(lower_char(h[p + 0]) == "<script"@[0]);
            }
        }
        lemma_find_script_open_at(h, p + 1, e);
    }
}

/// With no `<` in `[p, e)` and `n` (starting with `<`) at `e`, ignoring
/// case, the first match of `n` at or after `p` is at `e`.
proof fn lemma_find_ci_at(h: Seq<char>, n: Seq<char>, p: int, e: int)
    requires
        0 <= p <= e,
        n.len() > 0,
        n[0] == '<',
        forall|i: int| p <= i < e ==> #[trigger] h[i] != '<',
        occurs_at_ci(h, n, e),
    ensures
        find_ci_from(h, n, p) == Some(e),
    decreases e - p,
{
    if p < e {
        lemma_lower_lt(h[p]);
        assert(!occurs_at_ci(h, n, p)) by {
            if occurs_at_ci(h, n, p) {
                assert(lower_char(h[p + 0]) == n[0]);
            }
        }
        lemma_find_ci_at(h, n, p + 1, e);
    }
}

/// The first script element of a document is found with its start-tag text
/// and its body, after any text without markup: in
/// `pre<script attrs>body</script` + `rest`, with the tag names in any ASCII
/// case, the first element is `(attrs, body)`, when `pre` and `body` hold no
/// `<`, `attrs` no `>`, and `attrs` is empty or starts with whitespace or `/`.
pub proof fn law_first_script_element(
    pre: Seq<char>,
    open: Seq<char>,
    attrs: Seq<char>,
    body: Seq<char>,
    close: Seq<char>,
    rest: Seq<char>,
)
    requires
        open.len() == 7,
        forall|k: int| 0 <= k < 7 ==> lower_char(#[trigger] open[k]) == "<script"@[k],
        close.len() == 8,
        forall|k: int| 0 <= k < 8 ==> lower_char(#[trigger] close[k]) == "</script"@[k],
        forall|i: int| 0 <= i < pre.len() ==> #[trigger] pre[i] != '<',
        forall|i: int| 0 <= i < attrs.len() ==> #[trigger] attrs[i] != '>',
        attrs.len() == 0 || is_space(attrs[0]) || attrs[0] == '/',
        forall|i: int| 0 <= i < body.len() ==> #[trigger] body[i] != '<',
    ensures
        script_tags(pre + open + attrs + seq!['>'] + body + close + rest).len() >= 1,
        script_tags(pre + open + attrs + seq!['>'] + body + close + rest)[0] == (attrs, body),
{
    reveal_strlit("<script");
    reveal_strlit("</script");
    let h = pre + open + attrs + seq!['>'] + body + close + rest;
    let l = pre.len() as int;
    let a0 = l + 7;
    let gt = a0 + attrs.len();
    let c = gt + 1 + body.len();
    assert forall|i: int| 0 <= i < l implies #[trigger] h[i] != '<' by {
        assert(h[i] == pre[i]);
    }
    assert forall|k: int| 0 <= k < 7 implies #[trigger] lower_char(h[l + k]) == "<script"@[k] by {
        assert(h[l + k] == open[k]);
    }
    assert forall|i: int| a0 <= i < gt implies #[trigger] h[i] != '>' by {
        assert(h[i] == attrs[i - a0]);
    }
    assert(h[gt] == '>');
    assert(is_tag_name_end(h[a0]));
    assert(script_open_at(h, l));
    lemma_find_script_open_at(h, 0, l);
    lemma_find_char_at(h, '>', a0, gt);
    assert forall|i: int| gt + 1 <= i < c implies #[trigger] h[i] != '<' by {
        assert(h[i] == body[i - gt - 1]);
    }
    assert forall|k: int| 0 <= k < 8 implies #[trigger] lower_char(h[c + k]) == "</script"@[k] by {
        assert(h[c + k] == close[k]);
    }
    assert(occurs_at_ci(h, "</script"@, c));
    lemma_find_ci_at(h, "</script"@, gt + 1, c);
    assert(h.subrange(a0, gt) =~= attrs);
    assert(h.subrange(gt + 1, c) =~= body);
}

/// Whether a `<script` start tag begins at `i`.
fn script_open_at_exec(h: &[char], open: &[char], i: usize) -> (r: bool)
    requires
        open@ == "<script"@,
    ensures
        r == script_open_at(h@, i as int),
{
    if !matches_at_ci(h, open, i) {
        return false;
    }
    assert(i + open@.len() <= h@.len());
    assert(h.len() == h@.len());
    assert(open.len() == open@.len());
    let j: usize = i + open.len();
    if j >= h.len() {
        return false;
    }
    let c = h[j];
    is_space_char(c) || c == '>' || c == '/'
}

/// The first `<script` start tag at or after `from`.
fn find_script_open_exec(h: &[char], open: &[char], from: usize) -> (r: Option<usize>)
    requires
        open@ == "<script"@,
    ensures
        match r {
            Some(i) => find_script_open(h@, from as int) == Some(i as int),
            None => find_script_open(h@, from as int) is None,
        },
{
    let mut i: usize = from;
    while i < h.len()
        invariant
            open@ == "<script"@,
            from <= i,
            find_script_open(h@, from as int) == find_script_open(h@, i as int),
        decreases h.len() - i,
    {
        if script_open_at_exec(h, open, i) {
            return Some(i);
        }
        i = i + 1;
    }
    None
}

/// The `<script>` elements of the document `h`: start-tag text after the tag
/// name, and body.
pub fn script_tags_exec(h: &[char]) -> (r: Vec<(String, String)>)
    ensures
        r.deep_view() == script_tags(h@),
{
    let open = to_chars("<script");
    let close = to_chars("</script");
    let gt_c = to_chars(">");
    proof {
        reveal_strlit(">");
        reveal_strlit("</script");
        assert(gt_c@ =~= seq!['>']);
        assert(close@.len() > 0);
    }
    let mut r: Vec<(String, String)> = Vec::new();
    let mut pos: usize = 0;
    assert(r.deep_view() =~= Seq::<(Seq<char>, Seq<char>)>::empty());
    loop
        invariant
            open@ == "<script"@,
            close@ == "</script"@,
            close@.len() > 0,
            gt_c@ == seq!['>'],
            pos <= h@.len(),
            script_tags(h@) == r.deep_view() + script_tags_from(h@, pos as int),
        decreases h@.len() - pos,
    {
        let ghost rest = script_tags_from(h@, pos as int);
        let ghost before = r.deep_view();
        match find_script_open_exec(h, open.as_slice(), pos) {
            None => {
                assert(rest =~= Seq::<(Seq<char>, Seq<char>)>::empty());
                assert(r.deep_view() + rest =~= r.deep_view());
                return r;
            },
            Some(i) => {
                proof {
                    lemma_find_script_open(h@, pos as int);
                }
                assert(i + open@.len() < h@.len());
                assert(h.len() == h@.len());
                let a0: usize = i + open.len();
                match find(h, gt_c.as_slice(), a0) {
                    None => {
                        assert(r.deep_view() + rest =~= r.deep_view());
                        return r;
                    },
                    Some(gt) => {
                        proof {
                            lemma_find_from(h@, seq!['>'], a0 as int);
                        }
                        assert(gt + 1 <= h@.len());
                        assert(h.len() == h@.len());
                        let attrs = string_of(h, a0, gt);
                        match find_ci(h, close.as_slice(), gt + 1) {
                            None => {
                                let body = string_of(h, gt + 1, h.len());
                                r.push((attrs, body));
                                assert(r.deep_view() =~= before + rest);
                                return r;
                            },
                            Some(c) => {
                                proof {
                                    lemma_find_ci_from(h@, "</script"@, gt + 1);
                                }
                                assert(c < h@.len());
                                let body = string_of(h, gt + 1, c);
                                r.push((attrs, body));
                                assert(rest =~= seq![
                                    (h@.subrange(a0 as int, gt as int), h@.subrange(
                                        gt + 1,
                                        c as int,
                                    )),
                                ] + script_tags_from(h@, c + 1));
                                assert(r.deep_view() =~= before + seq![
                                    (h@.subrange(a0 as int, gt as int), h@.subrange(
                                        gt + 1,
                                        c as int,
                                    )),
                                ]);
                                assert(before + rest =~= r.deep_view() + script_tags_from(
                                    h@,
                                    c + 1,
                                ));
                                pos = c + 1;
                            },
                        }
                    },
                }
            },
        }
    }
}


/// Character classes used by the attribute scanner.
#[derive(Clone, Copy, Debug, PartialEq, Eq, Structural)]
pub enum CharClass {
    /// Whitespace.
    Space,
    /// Whitespace or `/`, which separate attributes.
    Separator,
    /// Characters of an attribute name.
    NameChar,
    /// Characters of an unquoted attribute value.
    ValueChar,
}

/// Whether `c` belongs to the class `k`.
pub open spec fn in_class(c: char, k: CharClass) -> bool {
    match k {
        CharClass::Space => is_space(c),
        CharClass::Separator => is_space(c) || c == '/',
        CharClass::NameChar => !is_space(c) && c != '=' && c != '>' && c != '/',
        CharClass::ValueChar => !is_space(c) && c != '>',
    }
}

/// The end of the run of class-`k` characters starting at `p`.
pub open spec fn run_end(a: Seq<char>, p: int, k: CharClass) -> int
    decreases a.len() - p,
{
    if 0 <= p < a.len() && in_class(a[p], k) {
        run_end(a, p + 1, k)
    } else {
        p
    }
}

/// A run stays within the text and is maximal.
pub proof fn lemma_run_end(a: Seq<char>, p: int, k: CharClass)
    requires
        0 <= p <= a.len(),
    ensures
        p <= run_end(a, p, k) <= a.len(),
        forall|j: int| p <= j < run_end(a, p, k) ==> in_class(#[trigger] a[j], k),
        run_end(a, p, k) < a.len() ==> !in_class(a[run_end(a, p, k)], k),
    decreases a.len() - p,
{
    if p < a.len() && in_class(a[p], k) {
        lemma_run_end(a, p + 1, k);
    }
}

/// The value of the attribute whose name ends at `ne`, and the position
/// after it. A quoted value runs to the matching quote (or the end), an
/// unquoted one to the next whitespace, and a name without `=` has the empty
/// value.
pub open spec fn value_span(a: Seq<char>, ne: int) -> (Seq<char>, int) {
    let q = run_end(a, ne, CharClass::Space);
    if q < a.len() && a[q] == '=' {
        let v0 = run_end(a, q + 1, CharClass::Space);
        if v0 < a.len() && (a[v0] == '"' || a[v0] == '\'') {
            match find_from(a, seq![a[v0]], v0 + 1) {
                Some(c) => (a.subrange(v0 + 1, c), c + 1),
                None => (a.subrange(v0 + 1, a.len() as int), a.len() as int),
            }
        } else {
            let ve = run_end(a, v0, CharClass::ValueChar);
            (a.subrange(v0, ve), ve)
        }
    } else {
        (Seq::empty(), ne)
    }
}

/// The position after a value never precedes the name's end.
pub proof fn lemma_value_span(a: Seq<char>, ne: int)
    requires
        0 <= ne <= a.len(),
    ensures
        ne <= value_span(a, ne).1 <= a.len(),
{
    lemma_run_end(a, ne, CharClass::Space);
    let q = run_end(a, ne, CharClass::Space);
    if q < a.len() && a[q] == '=' {
        lemma_run_end(a, q + 1, CharClass::Space);
        let v0 = run_end(a, q + 1, CharClass::Space);
        if v0 < a.len() && (a[v0] == '"' || a[v0] == '\'') {
            lemma_find_from(a, seq![a[v0]], v0 + 1);
        } else {
            lemma_run_end(a, v0, CharClass::ValueChar);
        }
    }
}

/// The value of the first attribute named `t` (in lower case; matched
/// ignoring ASCII case) at or after position `p` of the start-tag text `a`.
pub open spec fn attr_lookup(a: Seq<char>, t: Seq<char>, p: int) -> Option<Seq<char>>
    decreases a.len() + 1 - p,
{
    if p < 0 || p > a.len() {
        None
    } else {
        let s = run_end(a, p, CharClass::Separator);
        if s >= a.len() {
            None
        } else {
            let ne = run_end(a, s, CharClass::NameChar);
            proof {
                lemma_run_end(a, p, CharClass::Separator);
                lemma_run_end(a, s, CharClass::NameChar);
            }
            if ne == s {
                attr_lookup(a, t, s + 1)
            } else {
                let v = value_span(a, ne);
                proof {
                    lemma_value_span(a, ne);
                }
                if ne - s == t.len() && occurs_at_ci(a, t, s) {
                    Some(v.0)
                } else {
                    attr_lookup(a, t, v.1)
                }
            }
        }
    }
}

/// A run of class-`k` characters from `p` that stops at `e` ends at `e`.
proof fn lemma_run_end_at(a: Seq<char>, p: int, e: int, k: CharClass)
    requires
        0 <= p <= e <= a.len(),
        forall|i: int| p <= i < e ==> in_class(#[trigger] a[i], k),
        e == a.len() || !in_class(a[e], k),
    ensures
        run_end(a, p, k) == e,
    decreases e - p,
{
    if p < e {
        lemma_run_end_at(a, p + 1, e, k);
    }
}

/// The first `c` at or after `p` is the one at `e`.
proof fn lemma_find_char_at(a: Seq<char>, c: char, p: int, e: int)
    requires
        0 <= p <= e < a.len(),
        a[e] == c,
        forall|i: int| p <= i < e ==> #[trigger] a[i] != c,
    ensures
        find_from(a, seq![c], p) == Some(e),
    decreases e - p,
{
    if p < e {
        assert(!occurs_at(a, seq![c], p)) by {
            if occurs_at(a, seq![c], p) {
                assert(a.subrange(p, p + 1)[0] == seq![c][0]);
            }
        }
        lemma_find_char_at(a, c, p + 1, e);
    } else {
        assert(a.subrange(p, p + 1) =~= seq![c]);
    }
}

/// The lookup from `p0` over separators up to an attribute `name="value"`
/// whose name spans `[p, ne)` and whose closing quote is at `c`: that
/// attribute's value when its name is `t`, the lookup after it otherwise.
proof fn lemma_quoted_attribute(a: Seq<char>, t: Seq<char>, p0: int, p: int, ne: int, c: int)
    requires
        0 <= p0 <= p < ne,
        ne + 2 <= c < a.len(),
        forall|i: int| p0 <= i < p ==> in_class(#[trigger] a[i], CharClass::Separator),
        forall|i: int| p <= i < ne ==> in_class(#[trigger] a[i], CharClass::NameChar),
        a[ne] == '=',
        a[ne + 1] == '"',
        a[c] == '"',
        forall|i: int| ne + 2 <= i < c ==> #[trigger] a[i] != '"',
    ensures
        attr_lookup(a, t, p0) == if ne - p == t.len() && occurs_at_ci(a, t, p) {
            Some(a.subrange(ne + 2, c))
        } else {
            attr_lookup(a, t, c + 1)
        },
{
    lemma_run_end_at(a, p0, p, CharClass::Separator);
    lemma_run_end_at(a, p, ne, CharClass::NameChar);
    lemma_run_end_at(a, ne, ne, CharClass::Space);
    lemma_run_end_at(a, ne + 1, ne + 1, CharClass::Space);
    lemma_find_char_at(a, '"', ne + 2, c);
}

/// An attribute is found whatever attribute comes before it: in the
/// start-tag text `n="w" t="v"...`, where `n` is another name than `t`
/// (ignoring ASCII case), the value of `t` is `v`. Names are made of name
/// characters, `t` is given in lower case, and the values hold no `"`.
pub proof fn law_attribute_after_another(
    n: Seq<char>,
    w: Seq<char>,
    t: Seq<char>,
    v: Seq<char>,
    rest: Seq<char>,
)
    requires
        n.len() > 0,
        t.len() > 0,
        forall|i: int|
            0 <= i < n.len() ==> !is_space(#[trigger] n[i]) && n[i] != '=' && n[i] != '>' && n[i]
                != '/',
        forall|i: int|
            0 <= i < t.len() ==> !is_space(#[trigger] t[i]) && t[i] != '=' && t[i] != '>' && t[i]
                != '/' && !('A' <= t[i] && t[i] <= 'Z'),
        n.len() != t.len() || exists|k: int| 0 <= k < n.len() && lower_char(n[k]) != #[trigger] t[k],
        forall|i: int| 0 <= i < w.len() ==> #[trigger] w[i] != '"',
        forall|i: int| 0 <= i < v.len() ==> #[trigger] v[i] != '"',
    ensures
        attribute(
            n + seq!['=', '"'] + w + seq!['"', ' '] + t + seq!['=', '"'] + v + seq!['"'] + rest,
            t,
        ) == Some(v),
{
    let a = n + seq!['=', '"'] + w + seq!['"', ' '] + t + seq!['=', '"'] + v + seq!['"'] + rest;
    let ln = n.len() as int;
    let c = ln + 2 + w.len();
    let p2 = c + 2;
    let ne2 = p2 + t.len();
    let c2 = ne2 + 2 + v.len();
    assert forall|i: int| 0 <= i < ln implies a[i] == n[i] by {}
    assert(a[ln] == '=' && a[ln + 1] == '"');
    assert forall|i: int| ln + 2 <= i < c implies a[i] == w[i - ln - 2] by {}
    assert(a[c] == '"' && a[c + 1] == ' ');
    assert forall|i: int| p2 <= i < ne2 implies a[i] == t[i - p2] by {}
    assert(a[ne2] == '=' && a[ne2 + 1] == '"');
    assert forall|i: int| ne2 + 2 <= i < c2 implies a[i] == v[i - ne2 - 2] by {}
    assert(a[c2] == '"');
    assert forall|i: int| 0 <= i < ln implies in_class(#[trigger] a[i], CharClass::NameChar) by {
        assert(a[i] == n[i]);
    }
    assert forall|i: int| ln + 2 <= i < c implies #[trigger] a[i] != '"' by {
        assert(a[i] == w[i - ln - 2]);
    }
    lemma_quoted_attribute(a, t, 0, 0, ln, c);
    assert(!(ln == t.len() && occurs_at_ci(a, t, 0))) by {
        if ln == t.len() && occurs_at_ci(a, t, 0) {
            let k: int = choose|k: int| 0 <= k < n.len() && lower_char(n[k]) != #[trigger] t[k];
            assert(lower_char(a[0 + k]) == t[k]);
            assert(a[k] == n[k]);
        }
    }
    assert forall|i: int| c + 1 <= i < p2 implies in_class(#[trigger] a[i], CharClass::Separator) by {}
    assert forall|i: int| p2 <= i < ne2 implies in_class(#[trigger] a[i], CharClass::NameChar) by {
        assert(a[i] == t[i - p2]);
    }
    assert forall|i: int| ne2 + 2 <= i < c2 implies #[trigger] a[i] != '"' by {
        assert(a[i] == v[i - ne2 - 2]);
    }
    lemma_quoted_attribute(a, t, c + 1, p2, ne2, c2);
    assert(occurs_at_ci(a, t, p2)) by {
        assert forall|k: int| 0 <= k < t.len() implies #[trigger] lower_char(a[p2 + k]) == t[k] by {
            assert(a[p2 + k] == t[k]);
        }
    }
    assert(a.subrange(ne2 + 2, c2) =~= v);
}

/// The value of attribute `t` (lower-case name) in the start-tag text `a`.
pub open spec fn attribute(a: Seq<char>, t: Seq<char>) -> Option<Seq<char>> {
    attr_lookup(a, t, 0)
}

/// Whether `c` belongs to the class `k`.
fn in_class_exec(c: char, k: CharClass) -> (r: bool)
    ensures
        r == in_class(c, k),
{
    match k {
        CharClass::Space => is_space_char(c),
        CharClass::Separator => is_space_char(c) || c == '/',
        CharClass::NameChar => !is_space_char(c) && c != '=' && c != '>' && c != '/',
        CharClass::ValueChar => !is_space_char(c) && c != '>',
    }
}

/// The end of the run of class-`k` characters starting at `p`.
fn run_end_exec(a: &[char], p: usize, k: CharClass) -> (r: usize)
    requires
        p <= a@.len(),
    ensures
        r == run_end(a@, p as int, k),
{
    let mut i: usize = p;
    while i < a.len() && in_class_exec(a[i], k)
        invariant
            p <= i <= a@.len(),
            run_end(a@, p as int, k) == run_end(a@, i as int, k),
        decreases a.len() - i,
    {
        i = i + 1;
    }
    i
}

/// The value of the attribute whose name ends at `ne`, and the position after it.
fn value_span_exec(a: &[char], ne: usize) -> (r: (String, usize))
    requires
        ne <= a@.len(),
    ensures
        r.0@ == value_span(a@, ne as int).0,
        r.1 as int == value_span(a@, ne as int).1,
{
    proof {
        lemma_run_end(a@, ne as int, CharClass::Space);
    }
    let q = run_end_exec(a, ne, CharClass::Space);
    if q < a.len() && a[q] == '=' {
        let v0 = run_end_exec(a, q + 1, CharClass::Space);
        proof {
            lemma_run_end(a@, q + 1, CharClass::Space);
        }
        if v0 < a.len() && (a[v0] == '"' || a[v0] == '\'') {
            let quote = vec![a[v0]];
            assert(quote@ =~= seq![a@[v0 as int]]);
            match find(a, quote.as_slice(), v0 + 1) {
                Some(c) => {
                    proof {
                        lemma_find_from(a@, seq![a@[v0 as int]], v0 + 1);
                    }
                    assert(c < a@.len());
                    (string_of(a, v0 + 1, c), c + 1)
                },
                None => (string_of(a, v0 + 1, a.len()), a.len()),
            }
        } else {
            let ve = run_end_exec(a, v0, CharClass::ValueChar);
            proof {
                lemma_run_end(a@, v0 as int, CharClass::ValueChar);
            }
            (string_of(a, v0, ve), ve)
        }
    } else {
        let e = String::new();
        (e, ne)
    }
}

/// The value of attribute `t` (lower-case name) in the start-tag text `a`.
pub fn attribute_exec(a: &[char], t: &[char]) -> (r: Option<String>)
    ensures
        match r {
            Some(v) => attribute(a@, t@) == Some(v@),
            None => attribute(a@, t@) is None,
        },
{
    let mut p: usize = 0;
    while p <= a.len()
        invariant
            p <= a@.len() + 1,
            attribute(a@, t@) == attr_lookup(a@, t@, p as int),
        decreases a@.len() + 1 - p,
    {
        let s = run_end_exec(a, p, CharClass::Separator);
        proof {
            lemma_run_end(a@, p as int, CharClass::Separator);
        }
        if s >= a.len() {
            return None;
        }
        let ne = run_end_exec(a, s, CharClass::NameChar);
        proof {
            lemma_run_end(a@, s as int, CharClass::NameChar);
        }
        if ne == s {
            p = s + 1;
        } else {
            let v = value_span_exec(a, ne);
            proof {
                lemma_value_span(a@, ne as int);
            }
            if ne - s == t.len() && matches_at_ci(a, t, s) {
                return Some(v.0);
            }
            p = v.1;
        }
    }
    None
}


/// The non-blank bodies of the given script elements, in order.
pub open spec fn inline_scripts(tags: Seq<(Seq<char>, Seq<char>)>) -> Seq<Seq<char>>
    decreases tags.len(),
{
    if tags.len() == 0 {
        Seq::empty()
    } else {
        let prev = inline_scripts(tags.drop_last());
        if is_blank(tags.last().1) {
            prev
        } else {
            prev.push(tags.last().1)
        }
    }
}

/// The trimmed value of attribute `t` of a start tag, when present and not blank.
pub open spec fn trimmed_attribute(attrs: Seq<char>, t: Seq<char>) -> Option<Seq<char>> {
    match attribute(attrs, t) {
        Some(v) => if trim(v).len() == 0 {
            None
        } else {
            Some(trim(v))
        },
        None => None,
    }
}

/// The distinct non-blank `id`s of the given script elements, in order of
/// first appearance.
pub open spec fn script_ids(tags: Seq<(Seq<char>, Seq<char>)>) -> Seq<Seq<char>>
    decreases tags.len(),
{
    if tags.len() == 0 {
        Seq::empty()
    } else {
        let prev = script_ids(tags.drop_last());
        match trimmed_attribute(tags.last().0, "id"@) {
            Some(id) => if prev.contains(id) {
                prev
            } else {
                prev.push(id)
            },
            None => prev,
        }
    }
}

/// The non-blank `src` values of the given script elements, in order.
pub open spec fn script_srcs(tags: Seq<(Seq<char>, Seq<char>)>) -> Seq<Seq<char>>
    decreases tags.len(),
{
    if tags.len() == 0 {
        Seq::empty()
    } else {
        let prev = script_srcs(tags.drop_last());
        match trimmed_attribute(tags.last().0, "src"@) {
            Some(src) => prev.push(src),
            None => prev,
        }
    }
}

/// Whether the list `v` holds the text `x`.
pub fn strings_contain(v: &Vec<String>, x: &String) -> (r: bool)
    ensures
        r == v.deep_view().contains(x@),
{
    let mut i: usize = 0;
    while i < v.len()
        invariant
            i <= v@.len(),
            forall|j: int| 0 <= j < i ==> v.deep_view()[j] != x@,
        decreases v.len() - i,
    {
        if v[i] == *x {
            assert(v.deep_view()[i as int] == x@);
            return true;
        }
        i = i + 1;
    }
    false
}

/// The trimmed value of attribute `t` (lower-case name) when present and not blank.
fn trimmed_attribute_exec(attrs: &String, t: &str) -> (r: Option<String>)
    ensures
        match r {
            Some(v) => trimmed_attribute(attrs@, t@) == Some(v@),
            None => trimmed_attribute(attrs@, t@) is None,
        },
{
    let a = to_chars(attrs.as_str());
    let tc = to_chars(t);
    match attribute_exec(a.as_slice(), tc.as_slice()) {
        Some(v) => {
            let vc = to_chars(v.as_str());
            let tv = trimmed(vc.as_slice());
            if tv.len() == 0 {
                None
            } else {
                Some(string_of(tv.as_slice(), 0, tv.len()))
            }
        },
        None => None,
    }
}

/// The inline JavaScript of an HTML document: the bodies of its `<script>`
/// elements that hold more than whitespace, in document order.
pub fn extract_javascript_from_html(html: &str) -> (r: Vec<String>)
    ensures
        r.deep_view() == inline_scripts(script_tags(html@)),
{
    let h = to_chars(html);
    let tags = script_tags_exec(h.as_slice());
    let mut r: Vec<String> = Vec::new();
    let mut i: usize = 0;
    while i < tags.len()
        invariant
            i <= tags@.len(),
            tags.deep_view() == script_tags(html@),
            r.deep_view() == inline_scripts(tags.deep_view().take(i as int)),
        decreases tags.len() - i,
    {
        assert(tags.deep_view().take(i + 1).drop_last() =~= tags.deep_view().take(i as int));
        let body = to_chars(tags[i].1.as_str());
        if !blank(body.as_slice()) {
            let ghost before = r.deep_view();
            r.push(tags[i].1.clone());
            assert(r.deep_view() =~= before.push(tags.deep_view()[i as int].1));
        }
        i = i + 1;
    }
    assert(tags.deep_view().take(tags@.len() as int) =~= tags.deep_view());
    r
}

/// The distinct `id`s of the `<script>` elements of a document.
pub struct ScriptIds {
    ids: Vec<String>,
}

impl View for ScriptIds {
    type V = Seq<Seq<char>>;

    closed spec fn view(&self) -> Seq<Seq<char>> {
        self.ids.deep_view()
    }
}

impl ScriptIds {
    /// Whether `id` is one of the ids.
    pub fn contains(&self, id: &str) -> (r: bool)
        ensures
            r == self@.contains(id@),
    {
        let x = id.to_owned();
        strings_contain(&self.ids, &x)
    }

    /// The number of distinct ids.
    pub fn len(&self) -> (r: usize)
        ensures
            r == self@.len(),
    {
        self.ids.len()
    }

    /// Whether there is no id.
    pub fn is_empty(&self) -> (r: bool)
        ensures
            r == (self@.len() == 0),
    {
        self.ids.len() == 0
    }

    /// The ids, in order of first appearance.
    pub fn to_vec(&self) -> (r: Vec<String>)
        ensures
            r.deep_view() == self@,
    {
        let mut r: Vec<String> = Vec::new();
        let mut i: usize = 0;
        while i < self.ids.len()
            invariant
                i <= self.ids@.len(),
                r.deep_view() == self.ids.deep_view().take(i as int),
            decreases self.ids.len() - i,
        {
            let ghost before = r.deep_view();
            r.push(self.ids[i].clone());
            assert(r.deep_view() =~= before.push(self.ids.deep_view()[i as int]));
            assert(self.ids.deep_view().take(i + 1) =~= self.ids.deep_view().take(i as int).push(
                self.ids.deep_view()[i as int],
            ));
            i = i + 1;
        }
        assert(self.ids.deep_view().take(self.ids@.len() as int) =~= self.ids.deep_view());
        r
    }
}

/// The ids of the `<script>` elements of an HTML document: their `id`
/// attributes, trimmed, without blank ones and without repetitions.
pub fn extract_script_element_ids(html: &str) -> (r: ScriptIds)
    ensures
        r@ == script_ids(script_tags(html@)),
{
    let h = to_chars(html);
    let tags = script_tags_exec(h.as_slice());
    let mut ids: Vec<String> = Vec::new();
    let mut i: usize = 0;
    while i < tags.len()
        invariant
            i <= tags@.len(),
            tags.deep_view() == script_tags(html@),
            ids.deep_view() == script_ids(tags.deep_view().take(i as int)),
        decreases tags.len() - i,
    {
        assert(tags.deep_view().take(i + 1).drop_last() =~= tags.deep_view().take(i as int));
        match trimmed_attribute_exec(&tags[i].0, "id") {
            Some(id) => {
                if !strings_contain(&ids, &id) {
                    let ghost before = ids.deep_view();
                    ids.push(id);
                    assert(ids.deep_view() =~= before.push(id@));
                }
            },
            None => {},
        }
        i = i + 1;
    }
    assert(tags.deep_view().take(tags@.len() as int) =~= tags.deep_view());
    ScriptIds { ids }
}

/// The non-blank `src` attributes of the `<script>` elements of a document,
/// trimmed, in document order.
pub fn extract_script_srcs(html: &str) -> (r: Vec<String>)
    ensures
        r.deep_view() == script_srcs(script_tags(html@)),
{
    let h = to_chars(html);
    let tags = script_tags_exec(h.as_slice());
    let mut srcs: Vec<String> = Vec::new();
    let mut i: usize = 0;
    while i < tags.len()
        invariant
            i <= tags@.len(),
            tags.deep_view() == script_tags(html@),
            srcs.deep_view() == script_srcs(tags.deep_view().take(i as int)),
        decreases tags.len() - i,
    {
        assert(tags.deep_view().take(i + 1).drop_last() =~= tags.deep_view().take(i as int));
        match trimmed_attribute_exec(&tags[i].0, "src") {
            Some(src) => {
                let ghost before = srcs.deep_view();
                srcs.push(src);
                assert(srcs.deep_view() =~= before.push(src@));
            },
            None => {},
        }
        i = i + 1;
    }
    assert(tags.deep_view().take(tags@.len() as int) =~= tags.deep_view());
    srcs
}

/// Every inline script handed to the analysis holds more than whitespace.
pub proof fn law_inline_scripts_not_blank(html: Seq<char>)
    ensures
        forall|i: int|
            0 <= i < inline_scripts(script_tags(html)).len() ==> !is_blank(
                #[trigger] inline_scripts(script_tags(html))[i],
            ),
{
    lemma_inline_scripts_not_blank(script_tags(html));
}

/// No script with code is lost: the body of every script element that holds
/// more than whitespace is among the inline scripts.
pub proof fn law_inline_scripts_complete(html: Seq<char>)
    ensures
        forall|i: int|
            0 <= i < script_tags(html).len() && !is_blank(#[trigger] script_tags(html)[i].1)
                ==> inline_scripts(script_tags(html)).contains(script_tags(html)[i].1),
{
    lemma_inline_scripts_complete(script_tags(html));
}

proof fn lemma_inline_scripts_complete(tags: Seq<(Seq<char>, Seq<char>)>)
    ensures
        forall|i: int|
            0 <= i < tags.len() && !is_blank(#[trigger] tags[i].1) ==> inline_scripts(
                tags,
            ).contains(tags[i].1),
    decreases tags.len(),
{
    if tags.len() > 0 {
        let rest = tags.drop_last();
        lemma_inline_scripts_complete(rest);
        let prev = inline_scripts(rest);
        let cur = inline_scripts(tags);
        assert forall|i: int| 0 <= i < tags.len() && !is_blank(#[trigger] tags[i].1) implies cur.contains(
            tags[i].1,
        ) by {
            if i < rest.len() {
                assert(rest[i] == tags[i]);
                assert(prev.contains(tags[i].1));
                let k: int = choose|k: int| 0 <= k < prev.len() && prev[k] == tags[i].1;
                if cur != prev {
                    assert(cur[k] == prev[k]);
                }
            } else {
                assert(cur[prev.len() as int] == tags[i].1);
            }
        }
    }
}

proof fn lemma_inline_scripts_not_blank(tags: Seq<(Seq<char>, Seq<char>)>)
    ensures
        forall|i: int|
            0 <= i < inline_scripts(tags).len() ==> !is_blank(#[trigger] inline_scripts(tags)[i]),
    decreases tags.len(),
{
    if tags.len() > 0 {
        lemma_inline_scripts_not_blank(tags.drop_last());
        let prev = inline_scripts(tags.drop_last());
        if !is_blank(tags.last().1) {
            assert forall|i: int| 0 <= i < prev.push(tags.last().1).len() implies !is_blank(
                #[trigger] prev.push(tags.last().1)[i],
            ) by {
                if i < prev.len() {
                    assert(prev.push(tags.last().1)[i] == prev[i]);
                }
            }
        }
    }
}

/// The script ids of a document are distinct, none is empty, and none
/// starts or ends with whitespace.
pub proof fn law_script_ids_distinct_and_trimmed(html: Seq<char>)
    ensures
        script_ids(script_tags(html)).no_duplicates(),
        forall|i: int|
            0 <= i < script_ids(script_tags(html)).len() ==> {
                let id = #[trigger] script_ids(script_tags(html))[i];
                id.len() > 0 && !is_space(id[0]) && !is_space(id.last())
            },
{
    lemma_script_ids(script_tags(html));
}

proof fn lemma_script_ids(tags: Seq<(Seq<char>, Seq<char>)>)
    ensures
        script_ids(tags).no_duplicates(),
        forall|i: int|
            0 <= i < script_ids(tags).len() ==> {
                let id = #[trigger] script_ids(tags)[i];
                id.len() > 0 && !is_space(id[0]) && !is_space(id.last())
            },
    decreases tags.len(),
{
    if tags.len() > 0 {
        lemma_script_ids(tags.drop_last());
        let prev = script_ids(tags.drop_last());
        match trimmed_attribute(tags.last().0, "id"@) {
            Some(id) => {
                if !prev.contains(id) {
                    let v = attribute(tags.last().0, "id"@).unwrap();
                    lemma_trim_edges(v);
                    let ids = prev.push(id);
                    assert(ids[prev.len() as int] == id);
                    assert forall|a: int, b: int| 0 <= a < b < ids.len() implies ids[a] != ids[b] by {
                        if b == prev.len() {
                            assert(ids[a] == prev[a]);
                        } else {
                            assert(ids[a] == prev[a] && ids[b] == prev[b]);
                        }
                    }
                    assert forall|i: int| 0 <= i < ids.len() implies {
                        let x = #[trigger] ids[i];
                        x.len() > 0 && !is_space(x[0]) && !is_space(x.last())
                    } by {
                        if i < prev.len() {
                            assert(ids[i] == prev[i]);
                        }
                    }
                }
            },
            None => {},
        }
    }
}

} // verus!
