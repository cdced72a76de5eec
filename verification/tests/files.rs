use zircon::error::ZirconError;
use zircon::extensions::session::make_session_cookie;
use zircon::extensions::session::removal_cookie;
use zircon::extensions::session::session_cookie;
use zircon::extensions::session::session_from_value;
use zircon::extensions::session::SessionConverter;
use zircon::handlers::static_file_handler::is_safe_path;
use zircon::handlers::static_file_handler::FileProbe;
use zircon::handlers::SingleFileHandler;
use zircon::renderers::template_renderer::template_name;
use zircon::handlers::StaticFileHandler;
use zircon::StatusCode;

#[test]
fn safe_paths() {
    for good in ["", "a", "a/b", "a/./b", "./a", ".", "a..", "..a", "a/..b/c", "a//b", "...", "a/.../b"] {
        assert!(is_safe_path(good), "{}", good);
    }
    for bad in ["/", "/a", "..", "../a", "a/..", "a/../b", "./..", "a//../b"] {
        assert!(!is_safe_path(bad), "{}", bad);
    }
}

#[test]
fn safe_paths_agree_with_path_components() {
    for p in ["", "a", "a/b", "/a", "..", "../a", "a/..", "a/../b", "a..", "..a", ".", "./a", "a/./b", "a//b", "//", "a/.. /b"] {
        let expected = std::path::Path::new(p).components().all(|c| match c {
            std::path::Component::CurDir | std::path::Component::Normal(_) => true,
            _ => false,
        });
        assert_eq!(is_safe_path(p), expected, "{}", p);
    }
}

#[test]
fn locate_maps_request_paths_to_files() {
    let h = StaticFileHandler::new("public");
    assert_eq!(h.locate("/"), Ok("public/index.html".to_string()));
    assert_eq!(h.locate("/css/site.css"), Ok("public/css/site.css".to_string()));
    assert_eq!(h.locate("/a"), Ok("public/a".to_string()));
    let slash = StaticFileHandler::new("/var/www/");
    assert_eq!(slash.locate("/"), Ok("/var/www/index.html".to_string()));
    assert_eq!(slash.locate("/x.txt"), Ok("/var/www/x.txt".to_string()));
    let empty = StaticFileHandler::new("");
    assert_eq!(empty.locate("/x.txt"), Ok("x.txt".to_string()));
}

#[test]
fn locate_refuses_paths_that_leave_the_root() {
    let h = StaticFileHandler::new("public");
    for bad in ["/..", "/../secret", "/a/../../b", "//etc/passwd", "/a/.."] {
        assert_eq!(
            h.locate(bad),
            Err(ZirconError::Status(StatusCode::BadRequest)),
            "{}",
            bad
        );
    }
}

#[test]
fn outcome_of_probe_for_each_probe() {
    assert_eq!(StaticFileHandler::outcome_of_probe(FileProbe::File), Ok(()));
    assert_eq!(
        StaticFileHandler::outcome_of_probe(FileProbe::Failed),
        Err(ZirconError::StringError(
            StatusCode::InternalServerError,
            "failed to get file metadata".to_string()
        ))
    );
    assert_eq!(
        StaticFileHandler::outcome_of_probe(FileProbe::Missing),
        Err(ZirconError::Status(StatusCode::NotFound))
    );
    assert_eq!(
        StaticFileHandler::outcome_of_probe(FileProbe::NotAFile),
        Err(ZirconError::Status(StatusCode::NotFound))
    );
}

#[test]
fn single_file_handler_keeps_its_path() {
    let h = SingleFileHandler::new("static/favicon.ico");
    assert_eq!(h.filepath(), "static/favicon.ico");
}

#[derive(Debug, PartialEq)]
struct Visit(u32);

impl SessionConverter for Visit {
    fn session_key() -> &'static str {
        "visit"
    }

    fn serialize_for_session(self) -> String {
        format!("v{}", self.0)
    }

    fn deserialize_for_session(s: &str) -> Option<Self> {
        s.strip_prefix('v').and_then(|n| n.parse().ok()).map(Visit)
    }
}

#[test]
fn session_cookie_holds_the_serialized_session() {
    let c = session_cookie(Visit(3));
    assert_eq!(c.name, "visit");
    assert_eq!(c.value, "v3");
    assert_eq!(c.path, "/");
    assert!(c.http_only);
}

#[test]
fn removal_cookie_has_an_empty_value() {
    let c = removal_cookie::<Visit>();
    assert_eq!(c.name, "visit");
    assert_eq!(c.value, "");
    assert_eq!(c.path, "/");
    assert!(c.http_only);
}

#[test]
fn make_session_cookie_is_for_every_path() {
    let c = make_session_cookie("k", "v".to_string());
    assert_eq!(c.name, "k");
    assert_eq!(c.value, "v");
    assert_eq!(c.path, "/");
    assert!(c.http_only);
}

#[test]
fn session_from_value_reads_the_cookie_value() {
    assert_eq!(session_from_value::<Visit>(Some("v12")), Some(Visit(12)));
    assert_eq!(session_from_value::<Visit>(Some("x")), None);
    assert_eq!(session_from_value::<Visit>(None), None);
}

#[test]
fn template_name_strips_the_suffix() {
    assert_eq!(template_name("index.hbs", ".hbs"), Some("index".to_string()));
    assert_eq!(template_name("a/b.html.hbs", ".hbs"), Some("a/b.html".to_string()));
    assert_eq!(template_name(".hbs", ".hbs"), Some("".to_string()));
    assert_eq!(template_name("x", ""), Some("x".to_string()));
    assert_eq!(template_name("index.html", ".hbs"), None);
    assert_eq!(template_name("hbs", ".hbs"), None);
    assert_eq!(template_name("a.hbs.bak", ".hbs"), None);
    assert_eq!(template_name("\u{e9}.hbs", ".hbs"), Some("\u{e9}".to_string()));
}
