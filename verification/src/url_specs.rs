//! URLs as the `url` crate parses and rewrites them. A `url::Url` is opaque
//! here; the names below stand for what the crate computes, and the
//! contracts of its methods say no more than which name a call returns.

use vstd::prelude::*;
use vstd::utf8::encode_utf8;

verus! {

/// `url::Url`, a parsed URL.
#[verifier::external_type_specification]
#[verifier::external_body]
pub struct ExUrl(url::Url);

/// `url::ParseError`, the reason why a text is no URL.
#[verifier::external_type_specification]
#[verifier::external_body]
pub struct ExParseError(url::ParseError);

/// The serialization of a URL, which `url::Url::as_str` returns.
pub uninterp spec fn url_text(u: url::Url) -> Seq<char>;

/// The URL that `url::Url::parse` reads from a text, or `None` where it
/// reports an error.
pub uninterp spec fn url_parsed(input: Seq<char>) -> Option<url::Url>;

/// The scheme of a URL, which `url::Url::scheme` returns: lower case,
/// without the colon.
pub uninterp spec fn url_scheme(u: url::Url) -> Seq<char>;

/// The URL that `url::Url::set_scheme` leaves, or `None` where it refuses
/// the new scheme.
pub uninterp spec fn url_with_scheme(u: url::Url, scheme: Seq<char>) -> Option<url::Url>;

/// The URL that `url::Url::set_path` leaves.
pub uninterp spec fn url_with_path(u: url::Url, path: Seq<char>) -> url::Url;

/// The URL that `url::Url::set_query` leaves.
pub uninterp spec fn url_with_query(u: url::Url, query: Option<Seq<char>>) -> url::Url;

/// The URL that `url::Url::set_fragment` leaves.
pub uninterp spec fn url_with_fragment(u: url::Url, fragment: Option<Seq<char>>) -> url::Url;

/// The characters of an optional string slice.
pub open spec fn opt_str(s: Option<&str>) -> Option<Seq<char>> {
    match s {
        Some(t) => Some(t@),
        None => None,
    }
}

/// The length of a URL's serialization in bytes.
pub open spec fn url_bytes(u: url::Url) -> nat {
    encode_utf8(url_text(u)).len()
}

/// Whether a URL can take `part` as a new component. The `url` crate keeps
/// positions within a URL in 32 bits and gives up beyond; a component
/// grows to at most three bytes for each of its own when it is escaped.
pub open spec fn fits(u: url::Url, part: Seq<char>) -> bool {
    url_bytes(u) + 3 * encode_utf8(part).len() + 4 <= u32::MAX
}

/// `url::Url::parse` returns the URL that the text holds, or an error.
pub assume_specification[ url::Url::parse ](input: &str) -> (r: Result<url::Url, url::ParseError>)
    ensures
        match r {
            Ok(u) => url_parsed(input@) == Some(u),
            Err(_) => url_parsed(input@) is None,
        },
;

/// `url::Url::as_str` returns the serialization.
pub assume_specification[ url::Url::as_str ](u: &url::Url) -> (r: &str)
    ensures
        r@ == url_text(*u),
;

/// `url::Url::scheme` returns the scheme.
pub assume_specification[ url::Url::scheme ](u: &url::Url) -> (r: &str)
    ensures
        r@ == url_scheme(*u),
;

/// `url::Url::set_scheme` changes the scheme, or refuses and leaves the
/// URL as it was.
pub assume_specification[ url::Url::set_scheme ](u: &mut url::Url, scheme: &str) -> (r: Result<
    (),
    (),
>)
    requires
        fits(*old(u), scheme@),
    ensures
        match r {
            Ok(_) => url_with_scheme(*old(u), scheme@) == Some(*final(u)),
            Err(_) => url_with_scheme(*old(u), scheme@) is None && *final(u) == *old(u),
        },
;

/// `url::Url::set_path` replaces the path.
pub assume_specification[ url::Url::set_path ](u: &mut url::Url, path: &str)
    requires
        fits(*old(u), path@),
    ensures
        *final(u) == url_with_path(*old(u), path@),
;

/// `url::Url::set_query` replaces or removes the query.
pub assume_specification[ url::Url::set_query ](u: &mut url::Url, query: Option<&str>)
    requires
        query matches Some(q) ==> fits(*old(u), q@),
    ensures
        *final(u) == url_with_query(*old(u), opt_str(query)),
;

/// `url::Url::set_fragment` replaces or removes the fragment.
pub assume_specification[ url::Url::set_fragment ](u: &mut url::Url, fragment: Option<&str>)
    requires
        fragment matches Some(f) ==> fits(*old(u), f@),
    ensures
        *final(u) == url_with_fragment(*old(u), opt_str(fragment)),
;

} // verus!
