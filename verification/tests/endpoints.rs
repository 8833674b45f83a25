use share_files::endpoint::{
    base_endpoint_url, build_room_url, build_rooms_url, build_ws_url, choose_endpoint,
    http_scheme_for, ws_scheme_for, EndpointError,
};

#[test]
fn endpoint_is_chosen_in_order() {
    assert_eq!(choose_endpoint(Some("http://a"), Some("http://b")), "http://a");
    assert_eq!(choose_endpoint(None, Some("http://b")), "http://b");
    assert_eq!(choose_endpoint(None, None), "https://share-files.karakuri-maker.com");
    assert_eq!(choose_endpoint(Some(""), Some("http://b")), "");
}

#[test]
fn schemes_are_mapped() {
    assert_eq!(http_scheme_for("https"), Some("https"));
    assert_eq!(http_scheme_for("http"), Some("http"));
    assert_eq!(http_scheme_for("wss"), Some("https"));
    assert_eq!(http_scheme_for("ws"), Some("http"));
    assert_eq!(http_scheme_for("ftp"), None);
    assert_eq!(http_scheme_for(""), None);
    assert_eq!(ws_scheme_for("https"), Some("wss"));
    assert_eq!(ws_scheme_for("http"), Some("ws"));
    assert_eq!(ws_scheme_for("wss"), Some("wss"));
    assert_eq!(ws_scheme_for("ws"), Some("ws"));
    assert_eq!(ws_scheme_for("HTTP"), None);
}

#[test]
fn base_url_drops_path_query_and_fragment() {
    for (endpoint, base) in [
        ("https://share-files.karakuri-maker.com", "https://share-files.karakuri-maker.com/"),
        ("http://localhost:8787/some/path?x=1#frag", "http://localhost:8787/"),
        ("wss://example.org/ws/abc?cid=1", "https://example.org/"),
        ("ws://127.0.0.1:3000", "http://127.0.0.1:3000/"),
        ("HTTPS://Example.ORG:443/", "https://example.org/"),
    ] {
        assert_eq!(base_endpoint_url(endpoint).unwrap().as_str(), base, "{endpoint}");
    }
}

#[test]
fn unsupported_schemes_are_refused() {
    assert_eq!(
        base_endpoint_url("ftp://example.org/"),
        Err(EndpointError::UnsupportedScheme("ftp".to_string()))
    );
    assert_eq!(
        build_ws_url("mailto:someone@example.org", "r", "c"),
        Err(EndpointError::UnsupportedScheme("mailto".to_string()))
    );
    assert_eq!(
        build_room_url("file:///tmp/x", "r"),
        Err(EndpointError::UnsupportedScheme("file".to_string()))
    );
}

#[test]
fn what_is_no_url_is_refused() {
    assert_eq!(
        base_endpoint_url("not a url"),
        Err(EndpointError::Parse(url::ParseError::RelativeUrlWithoutBase))
    );
    assert!(matches!(build_ws_url("", "r", "c"), Err(EndpointError::Parse(_))));
    assert!(matches!(build_rooms_url("http://"), Err(EndpointError::Parse(_))));
}

#[test]
fn signaling_address_has_room_and_client() {
    assert_eq!(
        build_ws_url("https://share-files.karakuri-maker.com", "ROOM", "CID").unwrap().as_str(),
        "wss://share-files.karakuri-maker.com/ws/ROOM?cid=CID"
    );
    assert_eq!(
        build_ws_url("http://localhost:8787/ignored?q#f", "r1", "c1").unwrap().as_str(),
        "ws://localhost:8787/ws/r1?cid=c1"
    );
    assert_eq!(
        build_ws_url("wss://example.org", "r1", "c1").unwrap().as_str(),
        "wss://example.org/ws/r1?cid=c1"
    );
    assert_eq!(
        build_ws_url("ws://example.org", "a b", "x y").unwrap().as_str(),
        "ws://example.org/ws/a%20b?cid=x%20y"
    );
}

#[test]
fn room_page_address_has_no_query() {
    assert_eq!(
        build_room_url("https://share-files.karakuri-maker.com", "abc123").unwrap().as_str(),
        "https://share-files.karakuri-maker.com/r/abc123"
    );
    assert_eq!(
        build_room_url("ws://localhost:8787/?x=1", "abc").unwrap().as_str(),
        "http://localhost:8787/r/abc"
    );
}

#[test]
fn rooms_are_made_at_the_api_path() {
    assert_eq!(
        build_rooms_url("wss://example.org/anything").unwrap().as_str(),
        "https://example.org/api/rooms"
    );
}
