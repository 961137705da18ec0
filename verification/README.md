# dalfox — DOM-XSS proof-of-concept planning, verified with Verus

The library turns a DOM taint finding (a source such as `location.hash`
and a sink such as `innerHTML`) into something a tester can reproduce,
and decides which external scripts of a page are fetched for analysis.
Every function in `src/` carries a contract. Verus proves all of them
except the trusted wrappers around the `url` and `regex` crates and
`String::push` (in `src/weburl.rs`, `src/scanning/ast_integration/external.rs`
and `src/text.rs`), whose contracts state what those crates document and are
believed, not proved.

- `src/text.rs` — character-sequence primitives (search, case folding,
  trimming, JavaScript string quoting).
- `src/weburl.rs` — URL operations of the `url` crate behind trusted
  wrappers, with their results named.
- `src/scanning/sources.rs` — classification of taint sources.
- `src/scanning/ast_integration/` — payloads (`poc`), PoC URLs (`poc_url`),
  manual hints (`hints`), self-bootstrap detection (`bootstrap`), the
  `<script>` scanner (`html`) and the external-script policy (`external`).
- `src/cmd/scan.rs` — scan options.
- `app/` — the asynchronous HTTP side (`reqwest`) that runs the fetch
  policy, and the scan options with the WAF confidence as a fraction.
- `tests/` — executable tests of the library.

## What is not here

The JavaScript source-to-sink analysis that produces the findings (which
taint source reaches which sink in a script) is not part of this library: it
takes `(source, sink)` pairs as given. That analysis works on a syntax tree of
the script, and no JavaScript parser is among the crates this library builds
on; a parser and taint analysis of its own would be a project of its own,
outside the scope of this library. Likewise the scan driver, which
visits targets and gathers findings, lives outside the library; `app/` shows
how it consults `ScanArgs::analyzes_external_js` before any external script
is requested.

URL operations are refused, and the page URL is returned or the script
dropped, when the texts handed to the `url` crate exceed `URL_SIZE_LIMIT`
characters. The `url` crate panics once a serialization passes `u32::MAX`
bytes; where exactly that happens depends on the encoded result, so the
library bounds the input lengths instead (at most 12 bytes per character
once percent-encoded).
