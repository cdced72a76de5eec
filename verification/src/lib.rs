//! Request-dispatch core of an embeddable HTTP server: route patterns, an
//! ordered router, the request and response model and the error pipeline,
//! each with a machine-checked contract.

use std::marker::PhantomData;
use std::sync::Arc;
use vstd::prelude::*;
use vstd::utf8::encode_utf8;

pub mod app;
pub mod assoc;
pub mod config;
pub mod error;
pub mod extensions;
pub mod handlers;
pub mod http;
pub mod renderers;
pub mod request;
pub mod response;
pub mod text;
pub mod zircon;

pub use app::ZirconApp;
pub use app::ZirconDefaultApp;
pub use config::Mode;
pub use config::ZirconConfig;
pub use error::ZirconError;
pub use handlers::router::Router;
pub use handlers::MountHandler;
pub use http::Headers;
pub use http::Method;
pub use http::StatusCode;
pub use request::Request;
pub use response::Response;
pub use zircon::Zircon;

verus! {

/// The outcome of a handler: a response, or the error that kept it from one.
pub type HandlerResult = Result<Response, ZirconError>;

/// Anything that answers a request.
pub trait Handler<A>: Send + Sync + 'static {
    /// Whether `result` is an outcome that the handler can give for `req`.
    /// A handler that says nothing of its outcomes can give any.
    open spec fn answers(&self, app: Arc<A>, req: Request, result: HandlerResult) -> bool {
        true
    }

    fn handle(&self, app: Arc<A>, req: Request) -> (result: HandlerResult)
        ensures
            self.answers(app, req, result),
    ;
}

impl<A: ZirconApp, T: Handler<A> + ?Sized> Handler<A> for Box<T> {
    /// A boxed handler answers as the handler in the box.
    open spec fn answers(&self, app: Arc<A>, req: Request, result: HandlerResult) -> bool {
        (**self).answers(app, req, result)
    }

    fn handle(&self, app: Arc<A>, req: Request) -> (result: HandlerResult) {
        (**self).handle(app, req)
    }
}

/// A function as a handler.
pub struct FnHandler<A: ZirconApp, F: Fn(Arc<A>, Request) -> HandlerResult + Send + Sync + 'static> {
    function: F,
    _p: PhantomData<A>,
}

impl<A: ZirconApp, F: Fn(Arc<A>, Request) -> HandlerResult + Send + Sync + 'static> FnHandler<A, F> {
    #[verifier::type_invariant]
    spec fn inv(&self) -> bool {
        forall|app: Arc<A>, req: Request| call_requires(self.function, (app, req))
    }

    /// The function.
    pub closed spec fn function(&self) -> F {
        self.function
    }

    /// The handler that answers as `function` does. The function has to
    /// take every request.
    pub fn new(function: F) -> (h: Self)
        requires
            forall|app: Arc<A>, req: Request| call_requires(function, (app, req)),
        ensures
            h.function() == function,
    {
        FnHandler { function: function, _p: PhantomData }
    }
}

impl<A: ZirconApp, F: Fn(Arc<A>, Request) -> HandlerResult + Send + Sync + 'static> Handler<
    A,
> for FnHandler<A, F> {
    /// The handler answers as the function does.
    open spec fn answers(&self, app: Arc<A>, req: Request, result: HandlerResult) -> bool {
        call_ensures(self.function(), (app, req), result)
    }

    fn handle(&self, app: Arc<A>, req: Request) -> (result: HandlerResult) {
        proof {
            use_type_invariant(self);
        }
        (self.function)(app, req)
    }
}

/// Anything that turns the error of a handler into a response.
pub trait ErrorHandler<A>: Send + Sync + 'static {
    /// Whether `result` is an outcome that the error handler can give for `err`.
    /// An error handler that says nothing of its outcomes can give any.
    open spec fn recovers(&self, app: Arc<A>, err: ZirconError, result: HandlerResult) -> bool {
        true
    }

    fn handle(&self, app: Arc<A>, err: &ZirconError) -> (result: HandlerResult)
        ensures
            self.recovers(app, *err, result),
    ;
}

/// A function as an error handler.
pub struct FnErrorHandler<
    A: ZirconApp,
    F: Fn(Arc<A>, &ZirconError) -> HandlerResult + Send + Sync + 'static,
> {
    function: F,
    _p: PhantomData<A>,
}

impl<
    A: ZirconApp,
    F: Fn(Arc<A>, &ZirconError) -> HandlerResult + Send + Sync + 'static,
> FnErrorHandler<A, F> {
    #[verifier::type_invariant]
    spec fn inv(&self) -> bool {
        forall|app: Arc<A>, err: &ZirconError| call_requires(self.function, (app, err))
    }

    /// The function.
    pub closed spec fn function(&self) -> F {
        self.function
    }

    /// The error handler that answers as `function` does. The function has
    /// to take every error.
    pub fn new(function: F) -> (h: Self)
        requires
            forall|app: Arc<A>, err: &ZirconError| call_requires(function, (app, err)),
        ensures
            h.function() == function,
    {
        FnErrorHandler { function: function, _p: PhantomData }
    }
}

impl<
    A: ZirconApp,
    F: Fn(Arc<A>, &ZirconError) -> HandlerResult + Send + Sync + 'static,
> ErrorHandler<A> for FnErrorHandler<A, F> {
    /// The error handler answers as the function does.
    open spec fn recovers(&self, app: Arc<A>, err: ZirconError, result: HandlerResult) -> bool {
        call_ensures(self.function(), (app, &err), result)
    }

    fn handle(&self, app: Arc<A>, err: &ZirconError) -> (result: HandlerResult) {
        proof {
            use_type_invariant(self);
        }
        (self.function)(app, err)
    }
}

/// The error handler a server has unless it is given another.
pub struct DefaultErrorHandler<A: ZirconApp> {
    _p: PhantomData<A>,
}

impl<A: ZirconApp> DefaultErrorHandler<A> {
    pub fn new() -> Self {
        DefaultErrorHandler { _p: PhantomData }
    }
}

impl<A: ZirconApp> ErrorHandler<A> for DefaultErrorHandler<A> {
    /// The default error handler always succeeds, with the response that
    /// `make_default_error_response` gives.
    open spec fn recovers(&self, app: Arc<A>, err: ZirconError, result: HandlerResult) -> bool {
        &&& result matches Ok(resp)
        &&& resp.status == error::error_status(err)
        &&& resp.headers@ == Map::<Seq<char>, Seq<Seq<char>>>::empty()
        &&& resp.body@ == encode_utf8(error::error_text(err))
    }

    fn handle(&self, _app: Arc<A>, err: &ZirconError) -> (result: HandlerResult) {
        let resp = error::make_default_error_response(err);
        Ok(resp)
    }
}

} // verus!
