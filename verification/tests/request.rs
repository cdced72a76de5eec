use std::collections::HashMap;

use zircon::request::json_outcome;
use zircon::request::Query;
use zircon::request::RequestBody;
use zircon::request::RequestHeader;
use zircon::handlers::router::RouteResult;
use zircon::Headers;
use zircon::Method;
use zircon::Request;
use zircon::ZirconError;

fn as_map(q: &Query) -> HashMap<String, Vec<String>> {
    q.entries().into_iter().collect()
}

fn plain(path: &str, query: Option<&str>) -> Request {
    Request::from_internal(
        Method::Get,
        Some("http".to_string()),
        path.to_string(),
        query.map(|q| q.to_string()),
        Headers::new(),
        Vec::new(),
    )
}

#[test]
fn from_internal_builds_an_unrouted_request() {
    let mut headers = Headers::new();
    headers.set("Host", "example.org".to_string());
    let req = Request::from_internal(
        Method::Post,
        None,
        "/a".to_string(),
        Some("x=1".to_string()),
        headers,
        b"body".to_vec(),
    );
    assert!(*req.method() == Method::Post);
    assert_eq!(req.path(), "/a");
    assert_eq!(req.scheme(), None);
    assert_eq!(req.modified_path(), &None);
    assert!(req.header.params.is_none());
    assert!(!req.header.respect_xforwarded);
    assert_eq!(req.headers().get("host"), Some(&"example.org".to_string()));
    assert_eq!(req.body.bytes(), &b"body".to_vec());
    let (header, body) = req.deconstruct();
    assert_eq!(header.path(), "/a");
    assert_eq!(header.query, Some("x=1".to_string()));
    assert_eq!(body.bytes(), &b"body".to_vec());
}

#[test]
fn modified_path_takes_the_place_of_the_path() {
    let mut req = plain("/user/foo", None);
    assert_eq!(req.path(), "/user/foo");
    req.set_modified_path(Some("/foo".to_string()));
    assert_eq!(req.path(), "/foo");
    assert_eq!(req.header.path(), "/foo");
    assert_eq!(req.modified_path(), &Some("/foo".to_string()));
    assert_eq!(req.header.uri_path, "/user/foo");
    req.set_modified_path(Some("".to_string()));
    assert_eq!(req.path(), "");
    req.set_modified_path(None);
    assert_eq!(req.path(), "/user/foo");
}

#[test]
fn scheme_respects_forwarding_only_when_asked() {
    let mut headers = Headers::new();
    headers.set("X-Forwarded-Proto", "https".to_string());
    let mut req = Request::from_internal(
        Method::Get,
        Some("http".to_string()),
        "/".to_string(),
        None,
        headers,
        Vec::new(),
    );
    assert_eq!(req.scheme(), Some("http"));
    req.header.respect_xforwarded = true;
    assert_eq!(req.scheme(), Some("https"));
    assert_eq!(req.header.scheme(), Some("https"));

    let mut bare = plain("/", None);
    bare.header.respect_xforwarded = true;
    assert_eq!(bare.scheme(), Some("http"));

    let forwarded = |lines: Vec<&str>| {
        let mut headers = Headers::new();
        headers.set_lines(
            "x-forwarded-proto",
            lines.into_iter().map(|l| l.to_string()).collect(),
        );
        let mut req = Request::from_internal(
            Method::Get,
            Some("http".to_string()),
            "/".to_string(),
            None,
            headers,
            Vec::new(),
        );
        req.header.respect_xforwarded = true;
        req.scheme().map(|s| s.to_string())
    };
    assert_eq!(forwarded(vec!["  https\t"]), Some("https".to_string()));
    assert_eq!(forwarded(vec!["\u{a0}wss\u{3000}\n"]), Some("wss".to_string()));
    assert_eq!(forwarded(vec!["a b"]), Some("a b".to_string()));
    assert_eq!(forwarded(vec!["   "]), Some("".to_string()));
    assert_eq!(forwarded(vec![""]), Some("http".to_string()));
    assert_eq!(forwarded(vec![]), Some("http".to_string()));
    assert_eq!(forwarded(vec!["https", "http"]), Some("http".to_string()));
    let mut none = Request::from_internal(
        Method::Get,
        None,
        "/".to_string(),
        None,
        Headers::new(),
        Vec::new(),
    );
    assert_eq!(none.scheme(), None);
    none.header.respect_xforwarded = true;
    assert_eq!(none.scheme(), None);
}

#[test]
fn param_reads_the_routing_result() {
    let mut req = plain("/", None);
    req.set_params(Some(RouteResult::from_pairs(vec![
        ("user".to_string(), "alice".to_string()),
        ("id".to_string(), "7".to_string()),
    ])));
    assert_eq!(req.param("user"), Some("alice"));
    assert_eq!(req.param("id"), Some("7"));
    assert_eq!(req.param("other"), None);
    assert_eq!(req.header.param("id"), Some("7"));
    assert_eq!(req.path(), "/");
    req.set_params(Some(RouteResult::from_pairs(Vec::new())));
    assert_eq!(req.param("user"), None);
    req.set_params(None);
    assert!(req.header.params.is_none());
}

#[test]
fn parse_query_reads_the_query_string() {
    let req = plain("/search", Some("q=rust+lang&page=2&q=verus"));
    let q = req.parse_query();
    let mut expected = HashMap::new();
    expected.insert(
        "q".to_string(),
        vec!["rust lang".to_string(), "verus".to_string()],
    );
    expected.insert("page".to_string(), vec!["2".to_string()]);
    assert_eq!(as_map(&q), expected);
    assert_eq!(q.find_first("q"), Some("rust lang"));
    let none = plain("/search", None).parse_query();
    assert!(none.entries().is_empty());
    let empty = plain("/search", Some("")).header.parse_query();
    assert!(empty.entries().is_empty());
}

#[test]
fn header_new_starts_unrouted() {
    let header = RequestHeader::new(
        Method::Delete,
        Some("https".to_string()),
        "/x".to_string(),
        None,
        Headers::new(),
    );
    assert!(*header.method() == Method::Delete);
    assert_eq!(header.scheme(), Some("https"));
    assert_eq!(header.path(), "/x");
    assert!(header.params.is_none());
    assert!(header.modified_path().is_none());
    assert!(header.headers().to_pairs().is_empty());
    assert!(header.parse_query().entries().is_empty());
}

#[test]
fn parse_form_body_reads_pairs() {
    let body = RequestBody::new(b"name=J%C3%BCrgen&tag=a&tag=b+c".to_vec());
    assert_eq!(body.read_error(), None);
    let q = body.parse_form_body().unwrap();
    assert_eq!(q.find_first("name"), Some("J\u{fc}rgen"));
    let mut expected = HashMap::new();
    expected.insert("name".to_string(), vec!["J\u{fc}rgen".to_string()]);
    expected.insert("tag".to_string(), vec!["a".to_string(), "b c".to_string()]);
    assert_eq!(as_map(&q), expected);
}

#[test]
fn parse_form_body_replaces_what_is_not_utf8() {
    let body = RequestBody::new(vec![b'a', b'=', 0xff, b'z']);
    let q = body.parse_form_body().unwrap();
    assert_eq!(q.find_first("a"), Some("\u{fffd}z"));
    assert!(RequestBody::new(Vec::new())
        .parse_form_body()
        .unwrap()
        .entries()
        .is_empty());
}

#[test]
fn parse_json_body_reads_a_value() {
    let body = RequestBody::new(b"{\"a\": [1, 2, {\"b\": null}]}".to_vec());
    let value = body.parse_json_body().unwrap();
    assert_eq!(value["a"][1], serde_json::Value::from(2));
    assert!(value["a"][2]["b"].is_null());
    assert_eq!(
        RequestBody::new(b" 12 ".to_vec()).parse_json_body().unwrap(),
        serde_json::Value::from(12)
    );
}

#[test]
fn parse_json_body_reports_what_is_no_json() {
    for bad in [&b"{"[..], &b""[..], &b"{\"a\":}"[..], &b"[1,]"[..], &b"nul"[..]] {
        match RequestBody::new(bad.to_vec()).parse_json_body() {
            Err(ZirconError::JsonError(message)) => assert!(!message.is_empty()),
            _ => panic!("read a JSON value from what is none"),
        }
    }
}

#[test]
fn body_that_could_not_be_read_fails_to_parse_with_the_transport_error() {
    let body = RequestBody::failed("connection reset".to_string());
    assert_eq!(body.read_error(), Some("connection reset"));
    assert!(body.bytes().is_empty());
    match body.parse_form_body() {
        Err(ZirconError::HyperError(d)) => assert_eq!(d, "connection reset"),
        _ => panic!("parsed a body that was not read"),
    }
    assert_eq!(
        RequestBody::failed("eof".to_string()).parse_json_body(),
        Err(ZirconError::HyperError("eof".to_string()))
    );
}

#[test]
fn json_outcome_wraps_the_message() {
    assert_eq!(
        json_outcome(Err("broken".to_string())),
        Err(ZirconError::JsonError("broken".to_string()))
    );
    assert_eq!(
        json_outcome(Ok(serde_json::Value::Bool(true))),
        Ok(serde_json::Value::Bool(true))
    );
}

struct Visits;

impl typemap::Key for Visits {
    type Value = u32;
}

struct Label;

impl typemap::Key for Label {
    type Value = String;
}

#[test]
fn extensions_start_empty_and_hold_typed_values() {
    let mut req = plain("/", None);
    assert_eq!(req.extensions().len(), 0);
    req.extensions_mut().map.insert::<Visits>(3);
    assert_eq!(req.extensions().len(), 1);
    req.extensions_mut().map.insert::<Label>("x".to_string());
    req.extensions_mut().map.insert::<Visits>(4);
    assert_eq!(req.extensions().len(), 2);
    assert_eq!(req.extensions().map.get::<Visits>(), Some(&4));
    assert_eq!(req.extensions().map.get::<Label>(), Some(&"x".to_string()));
    req.extensions_mut().map.remove::<Visits>();
    assert_eq!(req.extensions().len(), 1);
    assert_eq!(req.path(), "/");
    assert_eq!(zircon::request::Extensions::new().len(), 0);
}
