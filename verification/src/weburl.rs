//! URL operations, delegated to the `url` crate (WHATWG URL parsing,
//! percent-encoding and serialization).
//!
//! A URL is held by the library as its text. Each operation parses the text
//! with `url::Url::parse`, applies one `url` operation and hands back the
//! serialization. What the `url` crate computes is named, not restated: the
//! names below stand for its results, as functions of the texts given.
use vstd::prelude::*;

verus! {

/// Whether `url::Url::parse` accepts the text.
pub uninterp spec fn url_parses(input: Seq<char>) -> bool;

/// The serialization of `Url::join(reference)` on the parsed `base`, or
/// `None` when `join` fails.
pub uninterp spec fn url_joined(base: Seq<char>, reference: Seq<char>) -> Option<Seq<char>>;

/// The ASCII serialization of `Url::origin()` of the parsed URL
/// (`null` for an opaque origin).
pub uninterp spec fn url_origin(input: Seq<char>) -> Seq<char>;

/// The serialization of the parsed URL after `Url::set_fragment(Some(fragment))`.
pub uninterp spec fn url_fragment_set(input: Seq<char>, fragment: Seq<char>) -> Seq<char>;

/// The serialization of the parsed URL after `Url::set_query(Some(query))`.
pub uninterp spec fn url_query_set(input: Seq<char>, query: Seq<char>) -> Seq<char>;

/// The decoded name/value pairs of `Url::query_pairs()` of the parsed URL.
pub uninterp spec fn url_query_pairs(input: Seq<char>) -> Seq<(Seq<char>, Seq<char>)>;

/// The serialization of the parsed URL after replacing its query by the
/// `application/x-www-form-urlencoded` serialization of `pairs`
/// (`Url::query_pairs_mut().clear().extend_pairs(pairs)`).
pub uninterp spec fn url_query_pairs_set(
    input: Seq<char>,
    pairs: Seq<(Seq<char>, Seq<char>)>,
) -> Seq<char>;

/// `Url::path()` of the parsed URL.
pub uninterp spec fn url_path(input: Seq<char>) -> Seq<char>;

/// The serialization of the parsed URL after `Url::set_path(path)`.
pub uninterp spec fn url_path_set(input: Seq<char>, path: Seq<char>) -> Seq<char>;

/// The largest total number of characters handed to one URL operation.
/// The `url` crate stores offsets as `u32` and panics beyond that; with at
/// most 4 UTF-8 bytes per character, each percent-encoded to 3, this bound
/// keeps every serialization below 4 GiB. The exact point of overflow depends
/// on the encoded serialization, which is named here but not described, so
/// the bound is stated over the lengths of the inputs.
pub const URL_SIZE_LIMIT: usize = 0x1000_0000;

/// The total number of characters of name/value pairs, counting one
/// separator after each name and after each value.
pub open spec fn pairs_size(pairs: Seq<(Seq<char>, Seq<char>)>) -> int
    decreases pairs.len(),
{
    if pairs.len() == 0 {
        0
    } else {
        pairs_size(pairs.drop_last()) + pairs.last().0.len() + pairs.last().1.len() + 2
    }
}

/// `Url::join`: resolves `reference` against `base`.
/// Trusted: `None` exactly when `base` does not parse or `join` fails; the
/// text is otherwise the serialization of the joined URL.
#[verifier::external_body]
pub(crate) fn join(base: &str, reference: &str) -> (r: Option<String>)
    requires
        base@.len() + reference@.len() <= URL_SIZE_LIMIT,
    ensures
        match r {
            Some(s) => url_parses(base@) && url_joined(base@, reference@) == Some(s@),
            None => !url_parses(base@) || url_joined(base@, reference@) is None,
        },
{
    let b = url::Url::parse(base).ok()?;
    let u = b.join(reference).ok()?;
    Some(String::from(u))
}

/// `Url::origin`: the ASCII serialization of the origin of `input`.
/// Trusted: `None` exactly when `input` does not parse.
#[verifier::external_body]
pub(crate) fn origin(input: &str) -> (r: Option<String>)
    ensures
        match r {
            Some(s) => url_parses(input@) && url_origin(input@) == s@,
            None => !url_parses(input@),
        },
{
    let u = url::Url::parse(input).ok()?;
    Some(u.origin().ascii_serialization())
}

/// `Url::set_fragment(Some(fragment))` on `input`.
/// Trusted: `None` exactly when `input` does not parse.
#[verifier::external_body]
pub(crate) fn with_fragment(input: &str, fragment: &str) -> (r: Option<String>)
    requires
        input@.len() + fragment@.len() <= URL_SIZE_LIMIT,
    ensures
        match r {
            Some(s) => url_parses(input@) && url_fragment_set(input@, fragment@) == s@,
            None => !url_parses(input@),
        },
{
    let mut u = url::Url::parse(input).ok()?;
    u.set_fragment(Some(fragment));
    Some(String::from(u))
}

/// `Url::set_query(Some(query))` on `input`.
/// Trusted: `None` exactly when `input` does not parse.
#[verifier::external_body]
pub(crate) fn with_query(input: &str, query: &str) -> (r: Option<String>)
    requires
        input@.len() + query@.len() <= URL_SIZE_LIMIT,
    ensures
        match r {
            Some(s) => url_parses(input@) && url_query_set(input@, query@) == s@,
            None => !url_parses(input@),
        },
{
    let mut u = url::Url::parse(input).ok()?;
    u.set_query(Some(query));
    Some(String::from(u))
}

/// `Url::query_pairs` of `input`, decoded.
/// Trusted: `None` exactly when `input` does not parse.
#[verifier::external_body]
pub(crate) fn query_pairs(input: &str) -> (r: Option<Vec<(String, String)>>)
    ensures
        match r {
            Some(p) => url_parses(input@) && url_query_pairs(input@) == p.deep_view(),
            None => !url_parses(input@),
        },
{
    let u = url::Url::parse(input).ok()?;
    Some(u.query_pairs().into_owned().collect())
}

/// `Url::query_pairs_mut().clear().extend_pairs(pairs)` on `input`.
/// Trusted: `None` exactly when `input` does not parse.
#[verifier::external_body]
pub(crate) fn with_query_pairs(input: &str, pairs: &Vec<(String, String)>) -> (r: Option<String>)
    requires
        input@.len() + pairs_size(pairs.deep_view()) <= URL_SIZE_LIMIT,
    ensures
        match r {
            Some(s) => url_parses(input@) && url_query_pairs_set(input@, pairs.deep_view()) == s@,
            None => !url_parses(input@),
        },
{
    let mut u = url::Url::parse(input).ok()?;
    u.query_pairs_mut().clear().extend_pairs(pairs.iter().map(|p| (&p.0, &p.1)));
    Some(String::from(u))
}

/// `Url::path` of `input`.
/// Trusted: `None` exactly when `input` does not parse.
#[verifier::external_body]
pub(crate) fn path(input: &str) -> (r: Option<String>)
    ensures
        match r {
            Some(s) => url_parses(input@) && url_path(input@) == s@,
            None => !url_parses(input@),
        },
{
    let u = url::Url::parse(input).ok()?;
    Some(u.path().to_owned())
}

/// `Url::set_path(path)` on `input`.
/// Trusted: `None` exactly when `input` does not parse.
#[verifier::external_body]
pub(crate) fn with_path(input: &str, path: &str) -> (r: Option<String>)
    requires
        input@.len() + path@.len() <= URL_SIZE_LIMIT,
    ensures
        match r {
            Some(s) => url_parses(input@) && url_path_set(input@, path@) == s@,
            None => !url_parses(input@),
        },
{
    let mut u = url::Url::parse(input).ok()?;
    u.set_path(path);
    Some(String::from(u))
}

} // verus!
