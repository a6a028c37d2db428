//! What this library reads of a parsed URL, as plain values, and the calls
//! into the `url` crate and std that produce it.
use vstd::prelude::*;

verus! {

/// A parsed URL: its scheme, its serialization, and its query's decoded
/// key-value pairs in order.
pub struct UrlParts {
    pub scheme: String,
    pub text: String,
    pub query: Vec<(String, String)>,
}

/// The model of `UrlParts`: scheme, serialization and query pairs as sequences.
pub open spec fn parts_view(p: UrlParts) -> (Seq<char>, Seq<char>, Seq<(Seq<char>, Seq<char>)>) {
    (p.scheme@, p.text@, pairs_view(p.query@))
}

/// What the `url` crate's parser makes of a text, or `None` where it rejects it.
pub uninterp spec fn parsed_url(s: Seq<char>) -> Option<
    (Seq<char>, Seq<char>, Seq<(Seq<char>, Seq<char>)>),
>;

/// Relies on `url::Url::parse`, read back through `scheme`, `as_str` and
/// `query_pairs`: the outcome depends on the text alone.
#[verifier::external_body]
pub(crate) fn parse_url(s: &str) -> (r: Option<UrlParts>)
    ensures
        r matches Some(p) ==> parsed_url(s@) == Some(parts_view(p)),
        r is None ==> parsed_url(s@) is None,
{
    match url::Url::parse(s) {
        Ok(u) => Some(UrlParts {
            scheme: u.scheme().to_string(),
            text: u.as_str().to_string(),
            query: u.query_pairs().map(|(k, v)| (k.into_owned(), v.into_owned())).collect(),
        }),
        Err(_) => None,
    }
}

/// Query pairs as sequences.
pub open spec fn pairs_view(q: Seq<(String, String)>) -> Seq<(Seq<char>, Seq<char>)> {
    q.map_values(|kv: (String, String)| (kv.0@, kv.1@))
}

/// An optional text as a sequence.
pub open spec fn text_view(t: Option<String>) -> Option<Seq<char>> {
    match t {
        Some(s) => Some(s@),
        None => None,
    }
}

/// The `application/x-www-form-urlencoded` text of `pairs`, as the `url`
/// crate writes it.
pub uninterp spec fn encoded_query(pairs: Seq<(Seq<char>, Seq<char>)>) -> Seq<char>;

/// Relies on `url::form_urlencoded::Serializer`: the pairs, in order,
/// encoded as a query; the result depends on the pairs alone.
#[verifier::external_body]
pub(crate) fn encode_query(pairs: &Vec<(String, String)>) -> (r: String)
    ensures
        r@ == encoded_query(pairs_view(pairs@)),
{
    url::form_urlencoded::Serializer::new(String::new()).extend_pairs(pairs.iter()).finish()
}

/// What the `url` crate serializes after parsing `s` and setting its query
/// to `query` (removing it for `None`); `None` where `s` does not parse.
pub uninterp spec fn url_with_query(s: Seq<char>, query: Option<Seq<char>>) -> Option<Seq<char>>;

/// Relies on `url::Url::parse`, then `Url::set_query` and `Url::as_str`:
/// the outcome depends on the text and the query alone.
#[verifier::external_body]
pub(crate) fn replace_query(s: &str, query: Option<String>) -> (r: Option<String>)
    ensures
        r matches Some(t) ==> url_with_query(s@, text_view(query)) == Some(t@),
        r is None ==> url_with_query(s@, text_view(query)) is None,
{
    match url::Url::parse(s) {
        Ok(mut u) => {
            u.set_query(query.as_deref());
            Some(u.as_str().to_string())
        },
        Err(_) => None,
    }
}

/// `p` is a prefix of `s`.
pub open spec fn has_prefix(s: Seq<char>, p: Seq<char>) -> bool {
    p.len() <= s.len() && s.take(p.len() as int) == p
}

/// Relies on `str::strip_prefix`: what follows `prefix` in `s`, if `s` starts
/// with it.
#[verifier::external_body]
pub(crate) fn strip_prefix(s: &str, prefix: &str) -> (r: Option<String>)
    ensures
        r is Some <==> has_prefix(s@, prefix@),
        r matches Some(rest) ==> rest@ == s@.skip(prefix@.len() as int),
{
    s.strip_prefix(prefix).map(|rest| rest.to_string())
}

} // verus!
