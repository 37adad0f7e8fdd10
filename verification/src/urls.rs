//! The bridge to the `url` crate: request URLs are validated and their
//! query pairs percent-encoded by `url`, behind trusted declarations.
//!
//! What the crate computes is named, not restated: `parsed_text` is the
//! serialization that parsing a string yields, `appended_text` the
//! serialization after one query pair is appended, and `url_ser` the
//! serialization a URL value carries. Each result is a function of its
//! arguments alone.

use vstd::prelude::*;

verus! {

#[verifier::external_type_specification]
#[verifier::external_body]
pub struct ExUrl(url::Url);

/// Whether the `url` parser accepts a string as an absolute URL. The parser
/// decides on the string's content alone.
pub uninterp spec fn url_accepts(s: Seq<char>) -> bool;

/// The serialization of the URL that parsing an accepted string yields.
pub uninterp spec fn parsed_text(s: Seq<char>) -> Seq<char>;

/// The serialization after one percent-encoded query pair is appended to a
/// URL with the given serialization.
pub uninterp spec fn appended_text(u: Seq<char>, name: Seq<char>, value: Seq<char>) -> Seq<char>;

/// The serialization a URL value carries.
pub uninterp spec fn url_ser(u: url::Url) -> Seq<char>;

/// The serialization after every pair of a list is appended in order.
pub open spec fn appended_all(u: Seq<char>, pairs: Seq<(String, String)>) -> Seq<char>
    decreases pairs.len(),
{
    if pairs.len() == 0 {
        u
    } else {
        appended_all(appended_text(u, pairs[0].0@, pairs[0].1@), pairs.drop_first())
    }
}

/// Relies on url::Url::parse: it returns Ok exactly when the input parses
/// as an absolute URL, decides on the input string alone, and the parsed
/// value's serialization is a function of the input string.
#[verifier::external_body]
fn parse_checked(s: &str) -> (r: Option<url::Url>)
    ensures
        r.is_some() == url_accepts(s@),
        r matches Some(u) ==> url_ser(u) == parsed_text(s@),
{
    url::Url::parse(s).ok()
}

/// Relies on form_urlencoded::Serializer::append_pair, reached through
/// url::Url::query_pairs_mut: appends one percent-encoded key/value pair to
/// the URL's query string, keeping the pairs already present; the new
/// serialization is a function of the old one and the pair.
#[verifier::external_body]
fn append_query_pair(u: &mut url::Url, name: &str, value: &str)
    ensures
        url_ser(*final(u)) == appended_text(url_ser(*old(u)), name@, value@),
{
    u.query_pairs_mut().append_pair(name, value);
}

/// Relies on url::Url::as_str: returns the URL's serialization.
#[verifier::external_body]
fn url_text(u: &url::Url) -> (r: String)
    ensures
        r@ == url_ser(*u),
{
    u.as_str().to_owned()
}

/// Validates a base URL and appends the given query pairs in order.
///
/// Returns None exactly when the base string is not an acceptable URL; on
/// success the returned text is the parsed base's serialization with every
/// pair appended in order.
pub fn build_final_url(base: &str, query: &Vec<(String, String)>) -> (r: Option<String>)
    ensures
        r.is_some() == url_accepts(base@),
        r matches Some(t) ==> t@ == appended_all(parsed_text(base@), query@),
{
    match parse_checked(base) {
        None => None,
        Some(mut u) => {
            let n = query.len();
            let mut i: usize = 0;
            proof {
                assert(query@.skip(0) =~= query@);
            }
            while i < n
                invariant
                    0 <= i <= n,
                    n == query@.len(),
                    appended_all(parsed_text(base@), query@) == appended_all(
                        url_ser(u),
                        query@.skip(i as int),
                    ),
                decreases n - i,
            {
                let pair = &query[i];
                append_query_pair(&mut u, pair.0.as_str(), pair.1.as_str());
                proof {
                    assert(query@.skip(i as int)[0] == query@[i as int]);
                    assert(query@.skip(i as int).drop_first() =~= query@.skip(i as int + 1));
                }
                i = i + 1;
            }
            Some(url_text(&u))
        },
    }
}

} // verus!
