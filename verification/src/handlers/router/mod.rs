//! Routing of requests by method and path.
//!
//! Routes are tried in the order they were added, and the first that takes
//! the request gets it: a route that should win over another is added first.

pub mod matcher;

use std::marker::PhantomData;
use std::sync::Arc;
use vstd::prelude::*;
use crate::app::ZirconApp;
use crate::error::ZirconError;
use crate::http::{Method, StatusCode};
use crate::request::{Request, RequestHeader};
use crate::response::Response;
use crate::{Handler, HandlerResult};
use self::matcher::{regex_compiles, route_regex};

pub use self::matcher::Matcher;
pub use self::matcher::RouteResult;

verus! {

/// One rule of a router: the requests of a method and a path pattern go to a handler.
pub struct Route<H> {
    pub method: Method,
    pub matcher: Matcher,
    pub handler: H,
}

impl<H> Route<H> {
    /// Whether the route takes requests of `method` for `path`.
    pub open spec fn accepts(&self, method: Method, path: Seq<char>) -> bool {
        self.method.same(&method) && self.matcher.matches(path) is Some
    }
}

/// Whether `i` is the place of the first route that takes requests of `method` for `path`.
pub open spec fn is_first_match<H>(
    routes: Seq<Route<H>>,
    method: Method,
    path: Seq<char>,
    i: int,
) -> bool {
    &&& 0 <= i < routes.len()
    &&& routes[i].accepts(method, path)
    &&& forall|j: int| 0 <= j < i ==> !(#[trigger] routes[j]).accepts(method, path)
}

/// Whether no route takes requests of `method` for `path`.
pub open spec fn no_match<H>(routes: Seq<Route<H>>, method: Method, path: Seq<char>) -> bool {
    forall|j: int| 0 <= j < routes.len() ==> !(#[trigger] routes[j]).accepts(method, path)
}

/// The request as the handler of a route sees it: with the bindings of the match.
pub open spec fn routed(req: Request, params: RouteResult) -> Request {
    Request { header: RequestHeader { params: Some(params), ..req.header }, body: req.body }
}

/// Whether `result` is an outcome that the route's handler can give for the
/// request, once the request carries the bindings of the route's match.
pub open spec fn dispatched<A: ZirconApp, H: Handler<A>>(
    route: Route<H>,
    app: Arc<A>,
    req: Request,
    result: HandlerResult,
) -> bool {
    exists|params: RouteResult|
        route.matcher.matches(req.header.effective_path()) == Some(params@)
            && #[trigger] route.handler.answers(app, routed(req, params), result)
}

/// An ordered list of routes. A request goes to the first route that takes it.
pub struct Router<A: ZirconApp, H: Handler<A>> {
    routes: Vec<Route<H>>,
    _p: PhantomData<A>,
}

impl<A: ZirconApp, H: Handler<A>> Router<A, H> {
    /// The routes, in the order they were added.
    pub closed spec fn routes(&self) -> Seq<Route<H>> {
        self.routes@
    }

    /// Whether `other` holds the routes of `self` and, behind them, one
    /// route for `method` and `path` to `handler`.
    pub open spec fn extended_by(
        &self,
        other: &Router<A, H>,
        method: Method,
        path: Seq<char>,
        handler: H,
    ) -> bool {
        &&& other.routes().len() == self.routes().len() + 1
        &&& other.routes().drop_last() == self.routes()
        &&& other.routes().last().method == method
        &&& other.routes().last().matcher.compiled_from(path)
        &&& other.routes().last().handler == handler
    }

    /// A router without routes.
    pub fn new() -> (r: Router<A, H>)
        ensures
            r.routes().len() == 0,
    {
        Router { routes: Vec::new(), _p: PhantomData }
    }

    /// Adds a route behind the ones that are there.
    pub fn add_route(&mut self, method: Method, path: &str, handler: H)
        requires
            regex_compiles(route_regex(path@)),
        ensures
            old(self).extended_by(final(self), method, path@, handler),
    {
        let ghost before = self.routes@;
        let route = Route { method: method, matcher: Matcher::from(path), handler: handler };
        self.routes.push(route);
        proof {
            lemma_push_facts(before, route);
        }
    }

    /// Adds a route for `GET` requests.
    pub fn get(&mut self, path: &str, handler: H)
        requires
            regex_compiles(route_regex(path@)),
        ensures
            old(self).extended_by(final(self), Method::Get, path@, handler),
    {
        self.add_route(Method::Get, path, handler)
    }

    /// Adds a route for `POST` requests.
    pub fn post(&mut self, path: &str, handler: H)
        requires
            regex_compiles(route_regex(path@)),
        ensures
            old(self).extended_by(final(self), Method::Post, path@, handler),
    {
        self.add_route(Method::Post, path, handler)
    }

    /// Adds a route where the pattern can be compiled, and hands the
    /// handler back where it cannot.
    pub fn try_add_route(&mut self, method: Method, path: &str, handler: H) -> (r: Option<H>)
        ensures
            match r {
                None => regex_compiles(route_regex(path@)) && old(self).extended_by(
                    final(self),
                    method,
                    path@,
                    handler,
                ),
                Some(h) => !regex_compiles(route_regex(path@)) && h == handler
                    && final(self).routes() == old(self).routes(),
            },
    {
        if Matcher::accepts(path) {
            self.add_route(method, path, handler);
            None
        } else {
            Some(handler)
        }
    }

    /// Adds a route for `GET` requests where the pattern can be compiled,
    /// and hands the handler back where it cannot.
    pub fn try_get(&mut self, path: &str, handler: H) -> (r: Option<H>)
        ensures
            match r {
                None => regex_compiles(route_regex(path@)) && old(self).extended_by(
                    final(self),
                    Method::Get,
                    path@,
                    handler,
                ),
                Some(h) => !regex_compiles(route_regex(path@)) && h == handler
                    && final(self).routes() == old(self).routes(),
            },
    {
        if Matcher::accepts(path) {
            self.get(path, handler);
            None
        } else {
            Some(handler)
        }
    }

    /// Adds a route for `POST` requests where the pattern can be compiled,
    /// and hands the handler back where it cannot.
    pub fn try_post(&mut self, path: &str, handler: H) -> (r: Option<H>)
        ensures
            match r {
                None => regex_compiles(route_regex(path@)) && old(self).extended_by(
                    final(self),
                    Method::Post,
                    path@,
                    handler,
                ),
                Some(h) => !regex_compiles(route_regex(path@)) && h == handler
                    && final(self).routes() == old(self).routes(),
            },
    {
        if Matcher::accepts(path) {
            self.post(path, handler);
            None
        } else {
            Some(handler)
        }
    }

    /// The first route that takes requests of `method` for `path`, by its
    /// place, with the bindings of its match.
    pub fn find_route(&self, method: &Method, path: &str) -> (r: Option<(usize, RouteResult)>)
        ensures
            match r {
                Some((i, params)) => is_first_match(self.routes(), *method, path@, i as int)
                    && self.routes()[i as int].matcher.matches(path@) == Some(params@),
                None => no_match(self.routes(), *method, path@),
            },
    {
        let mut i: usize = 0;
        while i < self.routes.len()
            invariant
                i <= self.routes@.len(),
                forall|j: int| 0 <= j < i ==> !(#[trigger] self.routes@[j]).accepts(*method, path@),
            decreases self.routes@.len() - i,
        {
            let route = &self.routes[i];
            if route.method == *method {
                match route.matcher.match_route(path) {
                    Some(params) => {
                        return Some((i, params));
                    },
                    None => {},
                }
            }
            i += 1;
        }
        None
    }

    /// The handler of the route at place `i`.
    pub fn handler_at(&self, i: usize) -> (h: &H)
        requires
            i < self.routes().len(),
        ensures
            *h == self.routes()[i as int].handler,
    {
        &self.routes[i].handler
    }

    /// The number of routes.
    pub fn len(&self) -> (n: usize)
        ensures
            n == self.routes().len(),
    {
        self.routes.len()
    }
}

impl<A: ZirconApp, H: Handler<A>> Handler<A> for Router<A, H> {
    /// A router answers as the handler of the first route that takes the
    /// request does, and with status 404 where no route takes it.
    open spec fn answers(&self, app: Arc<A>, req: Request, result: HandlerResult) -> bool {
        let method = req.header.method;
        let path = req.header.effective_path();
        &&& forall|i: int| #[trigger]
            is_first_match(self.routes(), method, path, i) ==> dispatched(
                self.routes()[i],
                app,
                req,
                result,
            )
        &&& no_match(self.routes(), method, path) ==> result == Err::<Response, ZirconError>(
            ZirconError::Status(StatusCode::NotFound),
        )
    }

    fn handle(&self, app: Arc<A>, req: Request) -> (result: HandlerResult) {
        let mut req = req;
        let ghost asked = req;
        let found = self.find_route(req.method(), req.path());
        match found {
            Some((i, params)) => {
                req.set_params(Some(params));
                assert(req == routed(asked, params));
                let result = self.routes[i].handler.handle(app, req);
                proof {
                    let method = asked.header.method;
                    let path = asked.header.effective_path();
                    assert(dispatched(self.routes()[i as int], app, asked, result));
                    assert forall|k: int| #[trigger]
                        is_first_match(self.routes(), method, path, k) implies dispatched(
                        self.routes()[k],
                        app,
                        asked,
                        result,
                    ) by {
                        assert(self.routes()[k].accepts(method, path));
                        assert(self.routes()[i as int].accepts(method, path));
                        assert(k == i);
                    }
                }
                result
            },
            None => ZirconError::render_error_status(StatusCode::NotFound),
        }
    }
}

/// Of two routes that take a request, the one added later never gets it.
pub proof fn lemma_earlier_route_wins<H>(
    routes: Seq<Route<H>>,
    method: Method,
    path: Seq<char>,
    first: int,
    second: int,
    chosen: int,
)
    requires
        0 <= first < second < routes.len(),
        routes[first].accepts(method, path),
        routes[second].accepts(method, path),
        is_first_match(routes, method, path, chosen),
    ensures
        chosen <= first,
        chosen != second,
{
}

/// A request that two routes take goes to the handler of the one added
/// first, where no route before that one takes it.
pub proof fn lemma_dispatch_goes_to_earlier_route<A: ZirconApp, H: Handler<A>>(
    router: Router<A, H>,
    app: Arc<A>,
    req: Request,
    result: HandlerResult,
    first: int,
    second: int,
)
    requires
        router.answers(app, req, result),
        0 <= first < second < router.routes().len(),
        router.routes()[first].accepts(req.header.method, req.header.effective_path()),
        router.routes()[second].accepts(req.header.method, req.header.effective_path()),
        forall|j: int|
            0 <= j < first ==> !(#[trigger] router.routes()[j]).accepts(
                req.header.method,
                req.header.effective_path(),
            ),
    ensures
        dispatched(router.routes()[first], app, req, result),
{
    assert(is_first_match(
        router.routes(),
        req.header.method,
        req.header.effective_path(),
        first,
    ));
}

/// A request that no route takes gets status 404, whatever the routes are.
pub proof fn lemma_unmatched_request_is_not_found<A: ZirconApp, H: Handler<A>>(
    router: Router<A, H>,
    app: Arc<A>,
    req: Request,
    result: HandlerResult,
)
    requires
        router.answers(app, req, result),
        no_match(router.routes(), req.header.method, req.header.effective_path()),
    ensures
        result == Err::<Response, ZirconError>(ZirconError::Status(StatusCode::NotFound)),
{
}

/// What a sequence is after one more element.
proof fn lemma_push_facts<T>(s: Seq<T>, x: T)
    ensures
        s.push(x).len() == s.len() + 1,
        s.push(x).drop_last() == s,
        s.push(x).last() == x,
{
    assert(s.push(x).drop_last() =~= s);
}

} // verus!
