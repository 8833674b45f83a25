//! The addresses of the service: where the signaling stream of a room is,
//! where the room's page is, and where rooms are made.
//!
//! An endpoint is given by the caller, else taken from the environment,
//! else the built-in one. It may be written with an `http`, `https`, `ws`
//! or `wss` scheme; each address gets the scheme of its own protocol.

use vstd::prelude::*;
use crate::text::text_is;
use crate::url_specs::{
    fits, opt_str, url_parsed, url_scheme, url_with_fragment, url_with_path, url_with_query,
    url_with_scheme,
};

verus! {

/// Why no address can be made of an endpoint.
#[derive(Debug, PartialEq, Eq)]
pub enum EndpointError {
    /// The endpoint is no URL; the parser's reason is kept.
    Parse(url::ParseError),
    /// The endpoint's scheme is none of `http`, `https`, `ws` and `wss`.
    UnsupportedScheme(String),
    /// The URL does not take the scheme it needs.
    InvalidScheme,
    /// The address would be longer than a URL can be.
    TooLong,
}

/// Mathematical model of an [`EndpointError`]; the parser's reason is left out.
pub enum EndpointFailure {
    Parse,
    UnsupportedScheme(Seq<char>),
    InvalidScheme,
    TooLong,
}

impl View for EndpointError {
    type V = EndpointFailure;

    open spec fn view(&self) -> EndpointFailure {
        match self {
            EndpointError::Parse(_) => EndpointFailure::Parse,
            EndpointError::UnsupportedScheme(s) => EndpointFailure::UnsupportedScheme(s@),
            EndpointError::InvalidScheme => EndpointFailure::InvalidScheme,
            EndpointError::TooLong => EndpointFailure::TooLong,
        }
    }
}

/// A URL or the reason why there is none.
pub type UrlOutcome = Result<url::Url, EndpointFailure>;

/// Model of a result that holds a URL.
pub open spec fn url_outcome(r: Result<url::Url, EndpointError>) -> UrlOutcome {
    match r {
        Ok(u) => Ok(u),
        Err(e) => Err(e@),
    }
}

/// The endpoint of the service where the caller names none.
pub open spec fn default_endpoint() -> Seq<char> {
    "https://share-files.karakuri-maker.com"@
}

/// The endpoint to use: the one given, else the one of the environment,
/// else the built-in one.
pub open spec fn chosen_endpoint(given: Option<Seq<char>>, env: Option<Seq<char>>) -> Seq<char> {
    match given {
        Some(e) => e,
        None => match env {
            Some(e) => e,
            None => default_endpoint(),
        },
    }
}

/// The scheme of the service's pages for an endpoint's scheme.
pub open spec fn http_scheme(scheme: Seq<char>) -> Option<Seq<char>> {
    if scheme == "https"@ {
        Some("https"@)
    } else if scheme == "http"@ {
        Some("http"@)
    } else if scheme == "wss"@ {
        Some("https"@)
    } else if scheme == "ws"@ {
        Some("http"@)
    } else {
        None
    }
}

/// The scheme of the signaling stream for an endpoint's scheme.
pub open spec fn ws_scheme(scheme: Seq<char>) -> Option<Seq<char>> {
    if scheme == "https"@ {
        Some("wss"@)
    } else if scheme == "http"@ {
        Some("ws"@)
    } else if scheme == "wss"@ {
        Some("wss"@)
    } else if scheme == "ws"@ {
        Some("ws"@)
    } else {
        None
    }
}

/// A URL under another scheme.
pub open spec fn rescheme(u: url::Url, scheme: Seq<char>) -> UrlOutcome {
    if !fits(u, scheme) {
        Err(EndpointFailure::TooLong)
    } else {
        match url_with_scheme(u, scheme) {
            Some(v) => Ok(v),
            None => Err(EndpointFailure::InvalidScheme),
        }
    }
}

/// A URL with another path.
pub open spec fn repath(u: url::Url, path: Seq<char>) -> UrlOutcome {
    if !fits(u, path) {
        Err(EndpointFailure::TooLong)
    } else {
        Ok(url_with_path(u, path))
    }
}

/// A URL with another query.
pub open spec fn requery(u: url::Url, query: Seq<char>) -> UrlOutcome {
    if !fits(u, query) {
        Err(EndpointFailure::TooLong)
    } else {
        Ok(url_with_query(u, Some(query)))
    }
}

/// A URL under the scheme that `pick` gives for its own.
pub open spec fn under_scheme_of(u: url::Url, pick: spec_fn(Seq<char>) -> Option<Seq<char>>) -> UrlOutcome {
    match pick(url_scheme(u)) {
        Some(scheme) => rescheme(u, scheme),
        None => Err(EndpointFailure::UnsupportedScheme(url_scheme(u))),
    }
}

/// The root of the service's pages for an endpoint: the endpoint's URL
/// under the pages' scheme, without path, query and fragment.
pub open spec fn base_of(endpoint: Seq<char>) -> UrlOutcome {
    match url_parsed(endpoint) {
        None => Err(EndpointFailure::Parse),
        Some(u) => match under_scheme_of(u, |s: Seq<char>| http_scheme(s)) {
            Ok(v) => match repath(v, ""@) {
                Ok(w) => Ok(url_with_fragment(url_with_query(w, None), None)),
                Err(e) => Err(e),
            },
            Err(e) => Err(e),
        },
    }
}

/// The address of a room's signaling stream for a client:
/// `/ws/{room}?cid={client}` under the stream's scheme.
pub open spec fn ws_url_of(endpoint: Seq<char>, room_id: Seq<char>, client_id: Seq<char>) -> UrlOutcome {
    match base_of(endpoint) {
        Ok(u) => match under_scheme_of(u, |s: Seq<char>| ws_scheme(s)) {
            Ok(v) => match repath(v, "/ws/"@ + room_id) {
                Ok(w) => requery(w, "cid="@ + client_id),
                Err(e) => Err(e),
            },
            Err(e) => Err(e),
        },
        Err(e) => Err(e),
    }
}

/// The address of a room's page: `/r/{room}` without a query.
pub open spec fn room_url_of(endpoint: Seq<char>, room_id: Seq<char>) -> UrlOutcome {
    match base_of(endpoint) {
        Ok(u) => match repath(u, "/r/"@ + room_id) {
            Ok(v) => Ok(url_with_query(v, None)),
            Err(e) => Err(e),
        },
        Err(e) => Err(e),
    }
}

/// The address at which rooms are made: `/api/rooms`.
pub open spec fn rooms_url_of(endpoint: Seq<char>) -> UrlOutcome {
    match base_of(endpoint) {
        Ok(u) => repath(u, "/api/rooms"@),
        Err(e) => Err(e),
    }
}

/// Picks the endpoint to use: the one given, else the one of the
/// environment, else the built-in one.
pub fn choose_endpoint(given: Option<&str>, env: Option<&str>) -> (endpoint: String)
    ensures
        endpoint@ == chosen_endpoint(opt_str(given), opt_str(env)),
{
    match given {
        Some(e) => e.to_owned(),
        None => match env {
            Some(e) => e.to_owned(),
            None => "https://share-files.karakuri-maker.com".to_owned(),
        },
    }
}

/// The scheme of the service's pages for an endpoint's scheme, if the
/// endpoint's scheme is one of the four.
pub fn http_scheme_for(scheme: &str) -> (r: Option<&'static str>)
    ensures
        opt_str(r) == http_scheme(scheme@),
{
    let scheme = scheme.to_owned();
    if text_is(&scheme, "https") {
        Some("https")
    } else if text_is(&scheme, "http") {
        Some("http")
    } else if text_is(&scheme, "wss") {
        Some("https")
    } else if text_is(&scheme, "ws") {
        Some("http")
    } else {
        None
    }
}

/// The scheme of the signaling stream for an endpoint's scheme, if the
/// endpoint's scheme is one of the four.
pub fn ws_scheme_for(scheme: &str) -> (r: Option<&'static str>)
    ensures
        opt_str(r) == ws_scheme(scheme@),
{
    let scheme = scheme.to_owned();
    if text_is(&scheme, "https") {
        Some("wss")
    } else if text_is(&scheme, "http") {
        Some("ws")
    } else if text_is(&scheme, "wss") {
        Some("wss")
    } else if text_is(&scheme, "ws") {
        Some("ws")
    } else {
        None
    }
}

/// Whether a URL can take `part` as a new component.
fn has_room(u: &url::Url, part: &str) -> (ok: bool)
    ensures
        ok == fits(*u, part@),
{
    let have = u.as_str().as_bytes().len();
    let more = part.as_bytes().len();
    if have > 0xffff_ffff || more > 0xffff_ffff {
        false
    } else {
        let have: u64 = have as u64;
        let more: u64 = more as u64;
        have + 3 * more + 4 <= 0xffff_ffff
    }
}

/// Puts a URL under another scheme.
fn set_scheme(u: url::Url, scheme: &str) -> (r: Result<url::Url, EndpointError>)
    ensures
        url_outcome(r) == rescheme(u, scheme@),
{
    if !has_room(&u, scheme) {
        return Err(EndpointError::TooLong);
    }
    let mut u = u;
    match u.set_scheme(scheme) {
        Ok(_) => Ok(u),
        Err(_) => Err(EndpointError::InvalidScheme),
    }
}

/// Gives a URL another path.
fn set_path(u: url::Url, path: &str) -> (r: Result<url::Url, EndpointError>)
    ensures
        url_outcome(r) == repath(u, path@),
{
    if !has_room(&u, path) {
        return Err(EndpointError::TooLong);
    }
    let mut u = u;
    u.set_path(path);
    Ok(u)
}

/// Gives a URL another query.
fn set_query(u: url::Url, query: &str) -> (r: Result<url::Url, EndpointError>)
    ensures
        url_outcome(r) == requery(u, query@),
{
    if !has_room(&u, query) {
        return Err(EndpointError::TooLong);
    }
    let mut u = u;
    u.set_query(Some(query));
    Ok(u)
}

/// The root of the service's pages for an endpoint.
pub fn base_endpoint_url(endpoint: &str) -> (r: Result<url::Url, EndpointError>)
    ensures
        url_outcome(r) == base_of(endpoint@),
{
    let parsed = match url::Url::parse(endpoint) {
        Ok(u) => u,
        Err(e) => return Err(EndpointError::Parse(e)),
    };
    let scheme = match http_scheme_for(parsed.scheme()) {
        Some(s) => s,
        None => return Err(EndpointError::UnsupportedScheme(parsed.scheme().to_owned())),
    };
    let under = match set_scheme(parsed, scheme) {
        Ok(u) => u,
        Err(e) => return Err(e),
    };
    let mut bare = match set_path(under, "") {
        Ok(u) => u,
        Err(e) => return Err(e),
    };
    bare.set_query(None);
    bare.set_fragment(None);
    Ok(bare)
}

/// The address of the signaling stream of `room_id` for the client
/// `client_id`.
pub fn build_ws_url(endpoint: &str, room_id: &str, client_id: &str) -> (r: Result<
    url::Url,
    EndpointError,
>)
    ensures
        url_outcome(r) == ws_url_of(endpoint@, room_id@, client_id@),
{
    let base = match base_endpoint_url(endpoint) {
        Ok(u) => u,
        Err(e) => return Err(e),
    };
    let scheme = match ws_scheme_for(base.scheme()) {
        Some(s) => s,
        None => return Err(EndpointError::UnsupportedScheme(base.scheme().to_owned())),
    };
    let under = match set_scheme(base, scheme) {
        Ok(u) => u,
        Err(e) => return Err(e),
    };
    let mut path = "/ws/".to_owned();
    path.append(room_id);
    let at = match set_path(under, path.as_str()) {
        Ok(u) => u,
        Err(e) => return Err(e),
    };
    let mut query = "cid=".to_owned();
    query.append(client_id);
    set_query(at, query.as_str())
}

/// The address of the page of `room_id`.
pub fn build_room_url(endpoint: &str, room_id: &str) -> (r: Result<url::Url, EndpointError>)
    ensures
        url_outcome(r) == room_url_of(endpoint@, room_id@),
{
    let base = match base_endpoint_url(endpoint) {
        Ok(u) => u,
        Err(e) => return Err(e),
    };
    let mut path = "/r/".to_owned();
    path.append(room_id);
    let mut at = match set_path(base, path.as_str()) {
        Ok(u) => u,
        Err(e) => return Err(e),
    };
    at.set_query(None);
    Ok(at)
}

/// The address at which rooms are made.
pub fn build_rooms_url(endpoint: &str) -> (r: Result<url::Url, EndpointError>)
    ensures
        url_outcome(r) == rooms_url_of(endpoint@),
{
    let base = match base_endpoint_url(endpoint) {
        Ok(u) => u,
        Err(e) => return Err(e),
    };
    set_path(base, "/api/rooms")
}

} // verus!
