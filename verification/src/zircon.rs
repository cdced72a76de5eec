//! The server's answer to one request: the handler first, the error handler
//! for what the handler could not answer, and a fixed response of last resort.

use std::sync::Arc;
use vstd::prelude::*;
use crate::app::ZirconApp;
use vstd::utf8::encode_utf8;
use crate::error::{error_status, error_text, make_fallback_error_response, ZirconError};
use crate::request::Request;
use crate::response::Response;
use crate::http::StatusCode;
use crate::{DefaultErrorHandler, ErrorHandler, Handler, HandlerResult};

verus! {

/// Another handle to a shared value.
///
/// Trusted: `Arc::clone` of the standard library; the new handle is to the same value.
#[verifier::external_body]
pub(crate) fn share<T>(shared: &Arc<T>) -> (r: Arc<T>)
    ensures
        r == *shared,
{
    Arc::clone(shared)
}

/// Whether a response is the one of last resort: status 500, no header, no body.
pub open spec fn is_fallback(resp: Response) -> bool {
    &&& resp.status == StatusCode::InternalServerError
    &&& resp.headers@ == Map::<Seq<char>, Seq<Seq<char>>>::empty()
    &&& resp.body@ == Seq::<u8>::empty()
}

/// Whether `resp` is what the server sends once the error handler has
/// given `recovery`: the error handler's response, or the one of last
/// resort where the error handler failed too.
pub open spec fn settles(recovery: HandlerResult, resp: Response) -> bool {
    match recovery {
        Ok(r) => resp == r,
        Err(_) => is_fallback(resp),
    }
}

/// Whether `resp` is what the server sends once the handler has given
/// `outcome`: the handler's response, or what the error handler makes of
/// the handler's error.
pub open spec fn concludes<A, E: ErrorHandler<A>>(
    app: Arc<A>,
    error_handler: E,
    outcome: HandlerResult,
    resp: Response,
) -> bool {
    match outcome {
        Ok(r) => resp == r,
        Err(e) => exists|recovery: HandlerResult| #[trigger]
            error_handler.recovers(app, e, recovery) && settles(recovery, resp),
    }
}

/// Whether `resp` is a response that the server can send for `req`.
pub open spec fn responds<A, H: Handler<A>, E: ErrorHandler<A>>(
    app: Arc<A>,
    handler: H,
    error_handler: E,
    req: Request,
    resp: Response,
) -> bool {
    exists|outcome: HandlerResult| #[trigger]
        handler.answers(app, req, outcome) && concludes(app, error_handler, outcome, resp)
}

/// The response for what the error handler gave.
pub fn settle(recovery: HandlerResult) -> (resp: Response)
    ensures
        settles(recovery, resp),
{
    match recovery {
        Ok(resp) => resp,
        Err(_) => make_fallback_error_response(),
    }
}

/// The response for what the handler gave: the error handler is asked only
/// about an error.
pub fn conclude<A, E: ErrorHandler<A>>(app: Arc<A>, error_handler: &E, outcome: HandlerResult) -> (resp:
    Response)
    ensures
        concludes(app, *error_handler, outcome, resp),
{
    match outcome {
        Ok(resp) => resp,
        Err(err) => {
            let recovery = error_handler.handle(app, &err);
            settle(recovery)
        },
    }
}

/// Answers one request: every request gets a response.
pub fn dispatch<A, H: Handler<A>, E: ErrorHandler<A>>(
    app: &Arc<A>,
    handler: &H,
    error_handler: &E,
    req: Request,
) -> (resp: Response)
    ensures
        responds(*app, *handler, *error_handler, req, resp),
{
    let outcome = handler.handle(share(app), req);
    conclude(share(app), error_handler, outcome)
}

/// Where the handler can only fail with `err`, the default error handler
/// answers for it: with the status that the error names, or 500 where it
/// names none, and with the error's text as the body.
pub proof fn lemma_default_error_handler_answers_for_the_error<A: ZirconApp, H: Handler<A>>(
    app: Arc<A>,
    handler: H,
    error_handler: DefaultErrorHandler<A>,
    req: Request,
    err: ZirconError,
    resp: Response,
)
    requires
        responds(app, handler, error_handler, req, resp),
        forall|outcome: HandlerResult| #[trigger]
            handler.answers(app, req, outcome) ==> outcome == Err::<Response, ZirconError>(err),
    ensures
        resp.status == error_status(err),
        resp.headers@ == Map::<Seq<char>, Seq<Seq<char>>>::empty(),
        resp.body@ == encode_utf8(error_text(err)),
{
}

/// Where the handler can only fail and the error handler can only fail
/// too, the response is the one of last resort.
pub proof fn lemma_failing_error_handler_falls_back<A, H: Handler<A>, E: ErrorHandler<A>>(
    app: Arc<A>,
    handler: H,
    error_handler: E,
    req: Request,
    resp: Response,
)
    requires
        responds(app, handler, error_handler, req, resp),
        forall|outcome: HandlerResult| #[trigger]
            handler.answers(app, req, outcome) ==> outcome is Err,
        forall|err: ZirconError, recovery: HandlerResult| #[trigger]
            error_handler.recovers(app, err, recovery) ==> recovery is Err,
    ensures
        is_fallback(resp),
{
}

/// Where the handler can only succeed, the response is one of the handler's.
pub proof fn lemma_successful_handler_is_answered<A, H: Handler<A>, E: ErrorHandler<A>>(
    app: Arc<A>,
    handler: H,
    error_handler: E,
    req: Request,
    resp: Response,
)
    requires
        responds(app, handler, error_handler, req, resp),
        forall|outcome: HandlerResult| #[trigger]
            handler.answers(app, req, outcome) ==> outcome is Ok,
    ensures
        handler.answers(app, req, Ok::<Response, ZirconError>(resp)),
{
}

/// A server: the application context, the handler, and the error handler.
pub struct Zircon<A: ZirconApp, H: Handler<A>, E: ErrorHandler<A>> {
    app: Arc<A>,
    handler: Arc<H>,
    error_handler: Arc<E>,
}

impl<A: ZirconApp, H: Handler<A>> Zircon<A, H, DefaultErrorHandler<A>> {
    /// A server with the default error handler.
    pub fn new(app: A, handler: H) -> (z: Zircon<A, H, DefaultErrorHandler<A>>)
        ensures
            *z.shared_app() == app,
            *z.handler() == handler,
    {
        Zircon::with_custom_error_handler(app, handler, DefaultErrorHandler::new())
    }
}

impl<A: ZirconApp, H: Handler<A>, E: ErrorHandler<A>> Zircon<A, H, E> {
    /// The application context.
    pub closed spec fn shared_app(&self) -> Arc<A> {
        self.app
    }

    /// The handler.
    pub closed spec fn handler(&self) -> Arc<H> {
        self.handler
    }

    /// The error handler.
    pub closed spec fn error_handler(&self) -> Arc<E> {
        self.error_handler
    }

    /// A server with an error handler of the caller's choice.
    pub fn with_custom_error_handler(app: A, handler: H, error_handler: E) -> (z: Zircon<A, H, E>)
        ensures
            *z.shared_app() == app,
            *z.handler() == handler,
            *z.error_handler() == error_handler,
    {
        Zircon {
            app: Arc::new(app),
            handler: Arc::new(handler),
            error_handler: Arc::new(error_handler),
        }
    }

    /// The application context, shared.
    pub fn app(&self) -> (a: Arc<A>)
        ensures
            a == self.shared_app(),
    {
        share(&self.app)
    }

    /// Answers one request.
    pub fn respond(&self, req: Request) -> (resp: Response)
        ensures
            responds(self.shared_app(), *self.handler(), *self.error_handler(), req, resp),
    {
        dispatch(&self.app, &*self.handler, &*self.error_handler, req)
    }
}

} // verus!
