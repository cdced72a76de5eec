use std::sync::Arc;

use futures_cpupool::CpuPool;
use zircon::handlers::router::Router;
use zircon::handlers::MountHandler;
use zircon::FnHandler;
use zircon::Handler;
use zircon::HandlerResult;
use zircon::Headers;
use zircon::Method;
use zircon::Request;
use zircon::Response;
use zircon::StatusCode;
use zircon::ZirconApp;
use zircon::ZirconError;

struct TestApp {
    pool: CpuPool,
}

impl ZirconApp for TestApp {
    fn num_accept_threads(&self) -> usize {
        1
    }

    fn num_cpu_threads(&self) -> usize {
        1
    }

    fn cpu_pool(&self) -> &CpuPool {
        &self.pool
    }
}

fn app() -> Arc<TestApp> {
    Arc::new(TestApp {
        pool: CpuPool::new(1),
    })
}

fn request(method: Method, path: &str) -> Request {
    Request::from_internal(
        method,
        None,
        path.to_string(),
        None,
        Headers::new(),
        Vec::new(),
    )
}

fn get(path: &str) -> Request {
    request(Method::Get, path)
}

/// Answers with a fixed text.
struct Fixed(&'static str);

impl Handler<TestApp> for Fixed {
    fn handle(&self, _app: Arc<TestApp>, _req: Request) -> HandlerResult {
        Response::text(self.0).render()
    }
}

/// Answers with the path it sees.
struct EchoPath;

impl Handler<TestApp> for EchoPath {
    fn handle(&self, _app: Arc<TestApp>, req: Request) -> HandlerResult {
        Response::text(req.path()).render()
    }
}

/// Answers with the value bound to a name.
struct EchoParam(&'static str);

impl Handler<TestApp> for EchoParam {
    fn handle(&self, _app: Arc<TestApp>, req: Request) -> HandlerResult {
        match req.param(self.0) {
            Some(v) => Response::text(v).render(),
            None => ZirconError::render_error_status(StatusCode::BadRequest),
        }
    }
}

struct Redirect(&'static str);

impl Handler<TestApp> for Redirect {
    fn handle(&self, _app: Arc<TestApp>, _req: Request) -> HandlerResult {
        Response::redirect(self.0).render()
    }
}

fn body_of(result: HandlerResult) -> String {
    String::from_utf8(result.unwrap().body).unwrap()
}

#[test]
fn empty_router_answers_not_found() {
    let router: Router<TestApp, Fixed> = Router::new();
    assert_eq!(router.len(), 0);
    let result = router.handle(app(), get("/"));
    assert!(matches!(
        result,
        Err(ZirconError::Status(StatusCode::NotFound))
    ));
}

#[test]
fn request_without_matching_route_answers_not_found() {
    let mut router: Router<TestApp, Fixed> = Router::new();
    router.get("/", Fixed("root"));
    router.get("/user", Fixed("user"));
    for path in ["/missing", "/user/", "/users", "", "//"] {
        let result = router.handle(app(), get(path));
        assert!(matches!(
            result,
            Err(ZirconError::Status(StatusCode::NotFound))
        ));
    }
}

#[test]
fn route_of_another_method_does_not_take_the_request() {
    let mut router: Router<TestApp, Fixed> = Router::new();
    router.post("/form", Fixed("posted"));
    assert!(matches!(
        router.handle(app(), get("/form")),
        Err(ZirconError::Status(StatusCode::NotFound))
    ));
    assert_eq!(
        body_of(router.handle(app(), request(Method::Post, "/form"))),
        "posted"
    );
}

#[test]
fn first_registered_route_wins() {
    let mut router: Router<TestApp, Fixed> = Router::new();
    router.get("/items/:id", Fixed("first"));
    router.get("/items/special", Fixed("second"));
    router.get("/**", Fixed("third"));
    assert_eq!(body_of(router.handle(app(), get("/items/special"))), "first");
    assert_eq!(body_of(router.handle(app(), get("/items/7"))), "first");
    assert_eq!(body_of(router.handle(app(), get("/other"))), "third");

    let mut reversed: Router<TestApp, Fixed> = Router::new();
    reversed.get("/items/special", Fixed("second"));
    reversed.get("/items/:id", Fixed("first"));
    assert_eq!(
        body_of(reversed.handle(app(), get("/items/special"))),
        "second"
    );
    assert_eq!(body_of(reversed.handle(app(), get("/items/7"))), "first");
}

#[test]
fn find_route_gives_place_and_bindings_of_first_match() {
    let mut router: Router<TestApp, Fixed> = Router::new();
    router.get("/a", Fixed("0"));
    router.post("/:x", Fixed("1"));
    router.get("/:y", Fixed("2"));
    router.get("/:z", Fixed("3"));
    assert_eq!(router.len(), 4);
    let (i, params) = router.find_route(&Method::Get, "/b").unwrap();
    assert_eq!(i, 2);
    assert_eq!(params.param("y"), Some("b"));
    assert_eq!(params.param("z"), None);
    let (i, params) = router.find_route(&Method::Get, "/a").unwrap();
    assert_eq!(i, 0);
    assert_eq!(params.len(), 0);
    let (i, _) = router.find_route(&Method::Post, "/a").unwrap();
    assert_eq!(i, 1);
    assert!(router.find_route(&Method::Put, "/a").is_none());
    assert!(router.find_route(&Method::Get, "/a/b").is_none());
    assert_eq!(router.handler_at(3).0, "3");
}

#[test]
fn extension_methods_are_told_apart_by_name() {
    let mut router: Router<TestApp, Fixed> = Router::new();
    router.add_route(Method::Extension("PURGE".to_string()), "/", Fixed("purged"));
    assert_eq!(
        body_of(router.handle(
            app(),
            request(Method::Extension("PURGE".to_string()), "/")
        )),
        "purged"
    );
    assert!(router
        .handle(app(), request(Method::Extension("BAN".to_string()), "/"))
        .is_err());
    assert!(router.handle(app(), get("/")).is_err());
}

#[test]
fn handler_sees_bindings_of_the_match() {
    let mut router: Router<TestApp, EchoParam> = Router::new();
    router.get("/regex/:user", EchoParam("user"));
    router.get("/:a/:b/:c", EchoParam("b"));
    assert_eq!(body_of(router.handle(app(), get("/regex/alice"))), "alice");
    assert_eq!(body_of(router.handle(app(), get("/x/y/z"))), "y");
}

#[test]
fn try_add_route_refuses_a_pattern_that_cannot_be_compiled() {
    let mut router: Router<TestApp, Fixed> = Router::new();
    let back = router.try_add_route(Method::Get, "/broken(", Fixed("never"));
    assert_eq!(back.unwrap().0, "never");
    assert_eq!(router.len(), 0);
    assert!(router.try_add_route(Method::Get, "/fine", Fixed("ok")).is_none());
    assert!(router.try_get("/also/:fine", Fixed("ok")).is_none());
    assert!(router.try_post("/:not-fine", Fixed("no")).is_some());
    assert!(router.try_post("/posted", Fixed("ok")).is_none());
    assert!(router.try_get("/[", Fixed("no")).is_some());
    assert_eq!(router.len(), 3);
    assert_eq!(body_of(router.handle(app(), get("/fine"))), "ok");
    assert_eq!(
        body_of(router.handle(app(), request(Method::Post, "/posted"))),
        "ok"
    );
}

#[test]
fn end_to_end_scenario() {
    let mut router: Router<TestApp, Box<dyn Handler<TestApp>>> = Router::new();
    router.get("/", Box::new(Fixed("Hello World")));
    router.get("/user", Box::new(Fixed("user list")));
    router.get("/regex/:user", Box::new(EchoParam("user")));
    router.get("/redirect", Box::new(Redirect("/")));

    assert_eq!(body_of(router.handle(app(), get("/"))), "Hello World");
    assert_eq!(body_of(router.handle(app(), get("/user"))), "user list");
    assert_eq!(body_of(router.handle(app(), get("/regex/alice"))), "alice");
    assert!(matches!(
        router.handle(app(), get("/missing")),
        Err(ZirconError::Status(StatusCode::NotFound))
    ));
    let resp = router.handle(app(), get("/redirect")).unwrap();
    assert!(resp.status == StatusCode::Found);
    assert_eq!(resp.status.to_u16(), 302);
    assert_eq!(resp.headers.get("Location"), Some(&"/".to_string()));
    assert!(resp.body.is_empty());
}

#[test]
fn mounted_handler_sees_the_rest_of_the_path() {
    let mount: MountHandler<TestApp, EchoPath> = MountHandler::new("/user", EchoPath);
    assert_eq!(body_of(mount.handle(app(), get("/user/foo"))), "/foo");
    assert_eq!(body_of(mount.handle(app(), get("/user"))), "");
    assert_eq!(body_of(mount.handle(app(), get("/user/a/b"))), "/a/b");
    assert_eq!(body_of(mount.handle(app(), get("/users"))), "s");
}

#[test]
fn mount_reports_a_path_outside_its_mount_point() {
    let mount: MountHandler<TestApp, EchoPath> = MountHandler::new("/user", EchoPath);
    for path in ["/", "/use", "/other/user", ""] {
        match mount.handle(app(), get(path)) {
            Err(ZirconError::StringError(code, message)) => {
                assert!(code == StatusCode::InternalServerError);
                assert_eq!(message, "path didn't match");
            }
            _ => panic!("a mount took a path outside its mount point"),
        }
    }
}

#[test]
fn try_new_refuses_what_is_no_mount_point() {
    for bad in ["", "user", "/user/", "/"] {
        assert!(MountHandler::<TestApp, EchoPath>::try_new(bad, EchoPath).is_err());
        assert!(!MountHandler::<TestApp, EchoPath>::is_valid_mount_point(bad));
    }
    for good in ["/user", "/a/b", "/x"] {
        assert!(MountHandler::<TestApp, EchoPath>::try_new(good, EchoPath).is_ok());
        assert!(MountHandler::<TestApp, EchoPath>::is_valid_mount_point(good));
    }
}

#[test]
fn router_under_a_mount_routes_the_rest_of_the_path() {
    let mut inner: Router<TestApp, EchoPath> = Router::new();
    inner.get("/foo", EchoPath);
    inner.get("/:name/edit", EchoPath);
    let mount = MountHandler::new("/user", inner);
    let mut outer: Router<TestApp, MountHandler<TestApp, Router<TestApp, EchoPath>>> =
        Router::new();
    outer.get("/user/**", mount);
    assert_eq!(body_of(outer.handle(app(), get("/user/foo"))), "/foo");
    assert_eq!(body_of(outer.handle(app(), get("/user/bob/edit"))), "/bob/edit");
    assert!(matches!(
        outer.handle(app(), get("/user/bar")),
        Err(ZirconError::Status(StatusCode::NotFound))
    ));
    assert!(matches!(
        outer.handle(app(), get("/users")),
        Err(ZirconError::Status(StatusCode::NotFound))
    ));
}

#[test]
fn mount_on_a_modified_path_strips_from_the_modified_path() {
    let inner: MountHandler<TestApp, EchoPath> = MountHandler::new("/b", EchoPath);
    let outer = MountHandler::new("/a", inner);
    assert_eq!(body_of(outer.handle(app(), get("/a/b/c"))), "/c");
    assert!(outer.handle(app(), get("/b/a/c")).is_err());
}

fn hello(_app: Arc<TestApp>, req: Request) -> HandlerResult {
    Response::text(&format!("hello {}", req.path())).render()
}

fn failing(_app: Arc<TestApp>, _req: Request) -> HandlerResult {
    ZirconError::render_error_status(StatusCode::Forbidden)
}

#[test]
fn functions_serve_as_handlers() {
    let mut router: Router<TestApp, FnHandler<TestApp, fn(Arc<TestApp>, Request) -> HandlerResult>> =
        Router::new();
    router.get("/hello", FnHandler::new(hello));
    router.get("/fail", FnHandler::new(failing));
    assert_eq!(body_of(router.handle(app(), get("/hello"))), "hello /hello");
    assert!(matches!(
        router.handle(app(), get("/fail")),
        Err(ZirconError::Status(StatusCode::Forbidden))
    ));
    let closure = FnHandler::new(|_app: Arc<TestApp>, _req: Request| Response::text("c").render());
    assert_eq!(body_of(closure.handle(app(), get("/"))), "c");
}
