use http::header::{HeaderMap, HeaderValue};
use regex::RegexSet;
use websocket_bridge::allowlist::{allowlist_patterns, compile_allowlist, host_suffix_pattern};
use websocket_bridge::fields::{get_field, Field};
use websocket_bridge::reply::Status;
use websocket_bridge::urls::{
    access_denied, get_header_url, get_url, get_urls, missing_error, parse_error, parse_url,
    ConnectQuery,
};

fn allow(patterns: &[&str]) -> RegexSet {
    let patterns = patterns.iter().map(|s| s.to_string()).collect();
    compile_allowlist(patterns, &Vec::new()).ok().unwrap()
}

fn ask(on_frame: Option<&str>, on_disconnect: Option<&str>) -> ConnectQuery {
    ConnectQuery {
        on_frame: on_frame.map(str::to_owned),
        on_disconnect: on_disconnect.map(str::to_owned),
    }
}

#[test]
fn rejections() {
    let parse = parse_error("x-name");
    assert_eq!(parse.status.code(), 400);
    assert_eq!(parse.message, "unable to parse \"x-name\" header as a URL");
    let missing = missing_error("x-name");
    assert_eq!(missing.status.code(), 400);
    assert_eq!(missing.message, "missing required header: \"x-name\"");
    let denied = access_denied("x-name");
    assert_eq!(denied.status.code(), 403);
    assert_eq!(denied.message, "access denied for URL specified by \"x-name\" header");
}

#[test]
fn urls_are_normalised() {
    let url = parse_url("HTTP://Example.COM:80").unwrap();
    assert_eq!(url.text, "http://example.com/");
    assert_eq!(url.host.as_deref(), Some("example.com"));
    assert!(parse_url("data:text/plain,x").unwrap().host.is_none());
    assert!(parse_url("/relative").is_none());
}

#[test]
fn header_fields() {
    let mut headers = HeaderMap::new();
    headers.append("x-a", HeaderValue::from_static("one"));
    headers.append("x-a", HeaderValue::from_static("two"));
    headers.insert("x-b", HeaderValue::from_bytes(&[0xff]).unwrap());
    headers.insert("x-c", HeaderValue::from_static("tab\there"));
    assert!(matches!(get_field(&headers, "x-a"), Field::Text(text) if text == "one"));
    assert!(matches!(get_field(&headers, "X-A"), Field::Text(text) if text == "one"));
    assert!(matches!(get_field(&headers, "x-b"), Field::Opaque));
    assert!(matches!(get_field(&headers, "x-c"), Field::Text(text) if text == "tab\there"));
    assert!(matches!(get_field(&headers, "x-d"), Field::Missing));
    assert!(matches!(get_field(&headers, "not a name"), Field::Missing));
}

#[test]
fn header_urls() {
    let mut headers = HeaderMap::new();
    headers.insert("x-good", HeaderValue::from_static("http://example.com"));
    headers.insert("x-bad", HeaderValue::from_static("example"));
    headers.insert("x-opaque", HeaderValue::from_bytes(&[0xff]).unwrap());
    assert_eq!(get_header_url(&headers, "x-good").ok().unwrap().text, "http://example.com/");
    assert_eq!(
        get_header_url(&headers, "x-bad").err().unwrap().message,
        "unable to parse \"x-bad\" header as a URL"
    );
    assert_eq!(
        get_header_url(&headers, "x-opaque").err().unwrap().message,
        "unable to parse \"x-opaque\" header as a URL"
    );
    assert_eq!(
        get_header_url(&headers, "x-none").err().unwrap().message,
        "missing required header: \"x-none\""
    );
}

#[test]
fn parameters_go_before_header_fields() {
    let allowlist = allow(&["http://.*/.*"]);
    let mut headers = HeaderMap::new();
    headers.insert("x-ws-proxy-on-frame", HeaderValue::from_static("http://h/frame"));
    headers.insert("x-ws-proxy-on-disconnect", HeaderValue::from_static("http://h/disconnect"));
    let urls = get_urls(&allowlist, &ask(Some("http://q/frame"), None), &headers).ok().unwrap();
    assert_eq!(urls.on_frame.text, "http://q/frame");
    assert_eq!(urls.on_disconnect.text, "http://h/disconnect");

    let url = get_url(&allowlist, Some("bad"), &headers, "x-ws-proxy-on-frame");
    assert_eq!(
        url.err().unwrap().message,
        "unable to parse \"x-ws-proxy-on-frame\" header as a URL"
    );
}

#[test]
fn frames_are_complained_about_first() {
    let rejection = get_urls(&allow(&[".*"]), &ask(None, None), &HeaderMap::new()).err().unwrap();
    assert_eq!(rejection.message, "missing required header: \"x-ws-proxy-on-frame\"");
    let rejection = get_urls(&allow(&[".*"]), &ask(Some("http://a/"), None), &HeaderMap::new());
    assert_eq!(
        rejection.err().unwrap().message,
        "missing required header: \"x-ws-proxy-on-disconnect\""
    );
}

#[test]
fn urls_outside_the_allowlist_are_denied() {
    let allowlist = allow(&["http://good\\.example\\.com/.*"]);
    let query = ask(Some("http://good.example.com/f"), Some("http://evil.example.com/d"));
    let rejection = get_urls(&allowlist, &query, &HeaderMap::new()).err().unwrap();
    assert_eq!(rejection.status, Status::Forbidden);
    assert_eq!(
        rejection.message,
        "access denied for URL specified by \"x-ws-proxy-on-disconnect\" header"
    );
    let query = ask(Some("http://good.example.com/f"), Some("http://good.example.com/d"));
    assert!(get_urls(&allowlist, &query, &HeaderMap::new()).is_ok());
}

#[test]
fn an_empty_allowlist_denies_everything() {
    let query = ask(Some("http://a/"), Some("http://a/"));
    let rejection = get_urls(&allow(&[]), &query, &HeaderMap::new()).err().unwrap();
    assert_eq!(rejection.status.code(), 403);
}

#[test]
fn host_suffixes_are_plain_strings() {
    assert_eq!(
        host_suffix_pattern(".foo.example.com"),
        "https://.*\\.foo\\.example\\.com/.*"
    );
    assert_eq!(host_suffix_pattern("a-b~c"), "https://.*a\\-b\\~c/.*");
    let suffixes = vec![".foo.example.com".to_owned(), ".bar".to_owned()];
    assert_eq!(
        allowlist_patterns(vec!["x".to_owned()], &suffixes),
        vec!["x", "https://.*\\.foo\\.example\\.com/.*", "https://.*\\.bar/.*"]
    );

    let allowlist = compile_allowlist(vec!["http://x/".to_owned()], &suffixes).ok().unwrap();
    assert!(allowlist.is_match("https://a.foo.example.com/frame"));
    assert!(allowlist.is_match("http://x/"));
    assert!(!allowlist.is_match("https://aXfooXexampleXcom/frame"));
    assert!(!allowlist.is_match("http://a.foo.example.com/frame"));
}

#[test]
fn an_invalid_allowlist_is_turned_down() {
    let error = compile_allowlist(vec!["(".to_owned()], &Vec::new()).err().unwrap();
    assert!(matches!(error.cause, regex::Error::Syntax(_)));
}
