use zircon::Headers;
use zircon::Method;
use zircon::Response;
use zircon::StatusCode;
use zircon::ZirconError;

fn lines(h: &Headers, name: &str) -> Option<Vec<String>> {
    h.get_lines(name).cloned()
}

#[test]
fn new_response_is_empty_and_ok() {
    let resp = Response::new();
    assert!(resp.status == StatusCode::Okay);
    assert_eq!(resp.status.to_u16(), 200);
    assert!(resp.headers.to_pairs().is_empty());
    assert!(resp.body.is_empty());
}

#[test]
fn render_hands_the_response_over() {
    let result = Response::text("x").with_status(StatusCode::Created).render();
    let resp = result.unwrap();
    assert_eq!(resp.status.to_u16(), 201);
    assert_eq!(resp.body, b"x".to_vec());
}

#[test]
fn text_response() {
    let resp = Response::text("Hello World");
    assert_eq!(resp.status.to_u16(), 200);
    assert_eq!(resp.body, b"Hello World".to_vec());
    assert_eq!(resp.headers.get("Content-Length"), Some(&"11".to_string()));
    assert_eq!(
        resp.headers.get("Content-Type"),
        Some(&"text/plain; charset=utf-8".to_string())
    );
    assert_eq!(resp.headers.to_pairs().len(), 2);
}

#[test]
fn text_response_counts_bytes_not_characters() {
    let resp = Response::text("h\u{e9}llo \u{1f600}");
    assert_eq!(resp.body, "h\u{e9}llo \u{1f600}".as_bytes().to_vec());
    assert_eq!(resp.headers.get("content-length"), Some(&"11".to_string()));
    let empty = Response::text("");
    assert_eq!(empty.headers.get("content-length"), Some(&"0".to_string()));
    assert!(empty.body.is_empty());
}

#[test]
fn json_response() {
    let resp = Response::json("{\"a\":1}");
    assert_eq!(resp.status.to_u16(), 200);
    assert_eq!(resp.body, b"{\"a\":1}".to_vec());
    assert_eq!(resp.headers.get("Content-Length"), Some(&"7".to_string()));
    assert_eq!(
        resp.headers.get("Content-Type"),
        Some(&"application/json".to_string())
    );
    assert_eq!(resp.headers.to_pairs().len(), 2);
}

#[test]
fn redirect_response() {
    let resp = Response::redirect("/login?next=%2F");
    assert!(resp.status == StatusCode::Found);
    assert_eq!(resp.headers.get("Location"), Some(&"/login?next=%2F".to_string()));
    assert_eq!(resp.headers.to_pairs().len(), 1);
    assert!(resp.body.is_empty());
}

#[test]
fn with_header_replaces_the_header_of_that_name() {
    let resp = Response::text("x")
        .with_header("X-Test", "1")
        .with_header("content-type", "text/x-test")
        .with_header("x-test", "2");
    assert_eq!(resp.headers.get("X-TEST"), Some(&"2".to_string()));
    assert_eq!(resp.headers.get("Content-Type"), Some(&"text/x-test".to_string()));
    assert_eq!(resp.headers.get("Content-Length"), Some(&"1".to_string()));
    assert_eq!(resp.headers.to_pairs().len(), 3);
    assert_eq!(resp.body, b"x".to_vec());
    assert_eq!(resp.status.to_u16(), 200);
}

#[test]
fn with_status_changes_only_the_status() {
    let resp = Response::text("x").with_status(StatusCode::NotFound);
    assert_eq!(resp.status.to_u16(), 404);
    assert_eq!(resp.body, b"x".to_vec());
    assert_eq!(resp.headers.to_pairs().len(), 2);
}

#[test]
fn render_file_content_sets_cache_control_and_body() {
    let resp = Response::new()
        .render_file_content(Ok(vec![1, 2, 3]))
        .unwrap();
    assert_eq!(resp.body, vec![1, 2, 3]);
    assert_eq!(resp.status.to_u16(), 200);
    assert_eq!(resp.headers.get("Cache-Control"), Some(&"max-age=86400".to_string()));
    assert_eq!(resp.headers.to_pairs().len(), 1);
}

#[test]
fn render_file_content_keeps_a_cache_control_that_is_set() {
    let resp = Response::new()
        .with_header("cache-control", "no-store")
        .with_status(StatusCode::Accepted)
        .render_file_content(Ok(Vec::new()))
        .unwrap();
    assert!(resp.body.is_empty());
    assert_eq!(resp.status.to_u16(), 202);
    assert_eq!(resp.headers.get("Cache-Control"), Some(&"no-store".to_string()));
    assert_eq!(resp.headers.to_pairs().len(), 1);
}

#[test]
fn render_file_content_reports_the_read_error() {
    let result = Response::new().render_file_content(Err("No such file".to_string()));
    assert_eq!(
        result.err(),
        Some(ZirconError::IoError("No such file".to_string()))
    );
}

#[test]
fn render_html_page_sets_type_length_and_body() {
    let resp = Response::new()
        .with_header("content-type", "text/plain")
        .with_status(StatusCode::Created)
        .render_html_page(Ok("<p>\u{e9}</p>".to_string()))
        .unwrap();
    assert_eq!(resp.body, "<p>\u{e9}</p>".as_bytes().to_vec());
    assert_eq!(resp.status.to_u16(), 201);
    assert_eq!(resp.headers.get("Content-Type"), Some(&"text/html".to_string()));
    assert_eq!(resp.headers.get("Content-Length"), Some(&"9".to_string()));
    assert_eq!(resp.headers.to_pairs().len(), 2);
}

#[test]
fn render_html_page_reports_the_render_error() {
    let result = Response::new().render_html_page(Err("no such template".to_string()));
    assert_eq!(
        result.err(),
        Some(ZirconError::StringError(
            StatusCode::InternalServerError,
            "no such template".to_string()
        ))
    );
}

#[test]
fn headers_hold_lines_under_names_without_regard_to_case() {
    let mut h = Headers::new();
    assert!(!h.has("a"));
    assert_eq!(h.get("a"), None);
    h.set("Accept", "x".to_string());
    h.set_lines("Set-Cookie", vec!["a=1".to_string(), "b=2".to_string()]);
    h.set_lines("X-Empty", Vec::new());
    assert!(h.has("ACCEPT"));
    assert!(h.has("x-empty"));
    assert_eq!(h.get("x-empty"), None);
    assert_eq!(lines(&h, "x-empty"), Some(Vec::new()));
    assert_eq!(h.get("accept"), Some(&"x".to_string()));
    assert_eq!(h.get("set-cookie"), Some(&"a=1".to_string()));
    assert_eq!(
        lines(&h, "SET-COOKIE"),
        Some(vec!["a=1".to_string(), "b=2".to_string()])
    );
    assert_eq!(lines(&h, "cookie"), None);
    h.set("aCCept", "y".to_string());
    assert_eq!(h.get("Accept"), Some(&"y".to_string()));
    let mut pairs = h.to_pairs();
    pairs.sort();
    assert_eq!(
        pairs,
        vec![
            ("accept".to_string(), vec!["y".to_string()]),
            (
                "set-cookie".to_string(),
                vec!["a=1".to_string(), "b=2".to_string()]
            ),
            ("x-empty".to_string(), Vec::new()),
        ]
    );
    let copy = h.clone();
    let mut copied = copy.to_pairs();
    copied.sort();
    assert_eq!(copied, pairs);
}

#[test]
fn header_names_lower_only_ascii_letters() {
    let mut h = Headers::new();
    h.set("X-\u{c9}", "1".to_string());
    assert!(h.has("x-\u{c9}"));
    assert!(!h.has("x-\u{e9}"));
}

#[test]
fn status_codes_and_their_numbers() {
    let named = [
        (StatusCode::Okay, 200),
        (StatusCode::Created, 201),
        (StatusCode::Accepted, 202),
        (StatusCode::NoContent, 204),
        (StatusCode::MovedPermanently, 301),
        (StatusCode::Found, 302),
        (StatusCode::SeeOther, 303),
        (StatusCode::NotModified, 304),
        (StatusCode::TemporaryRedirect, 307),
        (StatusCode::PermanentRedirect, 308),
        (StatusCode::BadRequest, 400),
        (StatusCode::Unauthorized, 401),
        (StatusCode::Forbidden, 403),
        (StatusCode::NotFound, 404),
        (StatusCode::MethodNotAllowed, 405),
        (StatusCode::RequestTimeout, 408),
        (StatusCode::Conflict, 409),
        (StatusCode::InternalServerError, 500),
        (StatusCode::NotImplemented, 501),
        (StatusCode::BadGateway, 502),
        (StatusCode::ServiceUnavailable, 503),
        (StatusCode::GatewayTimeout, 504),
    ];
    for (status, number) in named {
        assert_eq!(status.to_u16(), number);
        assert!(StatusCode::from_u16(number) == status);
    }
    assert!(StatusCode::from_u16(418) == StatusCode::Unregistered(418));
    assert_eq!(StatusCode::Unregistered(418).to_u16(), 418);
    for n in [0u16, 99, 100, 203, 299, 418, 599, 65535] {
        assert_eq!(StatusCode::from_u16(n).to_u16(), n);
    }
}

#[test]
fn methods_compare_by_kind_and_extension_name() {
    assert!(Method::Get == Method::Get);
    assert!(Method::Get != Method::Post);
    assert!(Method::Options != Method::Head);
    assert!(Method::Extension("A".to_string()) == Method::Extension("A".to_string()));
    assert!(Method::Extension("A".to_string()) != Method::Extension("a".to_string()));
    assert!(Method::Extension("GET".to_string()) != Method::Get);
    let all = [
        Method::Options,
        Method::Get,
        Method::Post,
        Method::Put,
        Method::Delete,
        Method::Head,
        Method::Trace,
        Method::Connect,
        Method::Patch,
    ];
    for (i, a) in all.iter().enumerate() {
        for (j, b) in all.iter().enumerate() {
            assert_eq!(a == b, i == j);
        }
    }
}
