//! The URL boundary: the `url` crate resolves a document key against a
//! collection's base URL and attaches the query, and the rest of the library
//! reasons about a URL through its serialization.
//!
//! The items up to `set_query` are not proved: each states what one function of
//! the `url` crate does, over the names declared here.

use vstd::prelude::*;
use vstd::utf8::encode_utf8;

verus! {

#[verifier::external_type_specification]
#[verifier::external_body]
pub struct ExUrl(url::Url);

#[verifier::external_type_specification]
#[verifier::external_body]
pub struct ExUrlParseError(url::ParseError);

/// The serialization of a URL: what `Url::as_str` returns. A URL is known to the
/// contracts only by this text.
pub uninterp spec fn url_text(url: url::Url) -> Seq<char>;

/// The serialization of the URL that `Url::join` resolves `reference` to against
/// the URL serialized as `base`, or `None` where it refuses.
pub uninterp spec fn url_joined(base: Seq<char>, reference: Seq<char>) -> Option<Seq<char>>;

/// The serialization that the URL serialized as `url` has after
/// `Url::set_query(Some(query))`.
pub uninterp spec fn url_with_query(url: Seq<char>, query: Seq<char>) -> Seq<char>;

/// `Url::as_str`: the serialization.
#[verifier::external_body]
pub(crate) fn serialization(url: &url::Url) -> (text: &str)
    ensures
        text@ == url_text(*url),
{
    url.as_str()
}

/// `Url::join`: the URL that `reference` resolves to, as `url_joined` names it,
/// and an error exactly where that is `None`.
#[verifier::external_body]
pub(crate) fn join(base: &url::Url, reference: &str) -> (r: Result<url::Url, url::ParseError>)
    ensures
        match r {
            Ok(url) => url_joined(url_text(*base), reference@) == Some(url_text(url)),
            Err(_) => url_joined(url_text(*base), reference@) is None,
        },
{
    base.join(reference)
}

/// The size up to which a URL and a query are handed to `Url::set_query`, in
/// bytes each. The `url` crate counts positions in a URL in 32 bits and stops
/// the program where one does not fit; a query grows to at most three times its
/// size when it is escaped.
pub const URL_PART_LIMIT: usize = 0x1000_0000;

/// Whether a URL and a query are within `URL_PART_LIMIT`.
pub open spec fn within_limits(url: Seq<char>, query: Seq<char>) -> bool {
    encode_utf8(url).len() < URL_PART_LIMIT && encode_utf8(query).len() < URL_PART_LIMIT
}

/// `Url::set_query` with a query: the URL is afterwards serialized as
/// `url_with_query` names it. The sizes asked for keep every position in the new
/// serialization within 32 bits.
#[verifier::external_body]
pub(crate) fn set_query(url: &mut url::Url, query: &str)
    requires
        within_limits(url_text(*old(url)), query@),
    ensures
        url_text(*final(url)) == url_with_query(url_text(*old(url)), query@),
{
    url.set_query(Some(query))
}

/// The serialization of an optional URL.
pub open spec fn url_text_of(url: Option<url::Url>) -> Option<Seq<char>> {
    match url {
        Some(url) => Some(url_text(url)),
        None => None,
    }
}

/// The address of `reference` under the URL serialized as `base`, with `query`
/// attached where one is given. There is none where the reference does not
/// resolve, or where the URL and the query are not within `URL_PART_LIMIT`.
pub open spec fn address(base: Seq<char>, reference: Seq<char>, query: Option<Seq<char>>) -> Option<
    Seq<char>,
> {
    match url_joined(base, reference) {
        Some(url) => match query {
            Some(query) => if within_limits(url, query) {
                Some(url_with_query(url, query))
            } else {
                None
            },
            None => Some(url),
        },
        None => None,
    }
}

/// The URL that `reference` resolves to against `base`, if it resolves.
pub fn resolve(base: &url::Url, reference: &str) -> (url: Option<url::Url>)
    ensures
        url_text_of(url) == address(url_text(*base), reference@, None),
{
    match join(base, reference) {
        Ok(url) => Some(url),
        Err(_) => None,
    }
}

/// The URL with `query` in place of its query, if both are within
/// `URL_PART_LIMIT`.
pub fn with_query(url: url::Url, query: &str) -> (changed: Option<url::Url>)
    ensures
        url_text_of(changed) == if within_limits(url_text(url), query@) {
            Some(url_with_query(url_text(url), query@))
        } else {
            None
        },
{
    let mut url = url;
    if serialization(&url).as_bytes().len() < URL_PART_LIMIT && query.as_bytes().len() < URL_PART_LIMIT {
        set_query(&mut url, query);
        Some(url)
    } else {
        None
    }
}

/// The URL that `reference` resolves to against `base`, with `query` as its
/// query.
pub fn resolve_with_query(base: &url::Url, reference: &str, query: &str) -> (url: Option<url::Url>)
    ensures
        url_text_of(url) == address(url_text(*base), reference@, Some(query@)),
{
    match resolve(base, reference) {
        Some(url) => with_query(url, query),
        None => None,
    }
}

} // verus!
