//! Handlers carry the application logic behind a route, and the token
//! validator decorates one with a shared-secret check.

use vstd::prelude::*;

verus! {

use crate::captures::Captures;
use crate::command::Command;
use crate::responder::Responder;
use crate::response::Response;

/// Command handling capability. `spec_handle` is the implementation's
/// contract: the relation its `handle` establishes between the command, the
/// captures it was given, and the reply it returns.
pub trait Handler {
    /// The relation `handle` establishes between its inputs and its result.
    /// Left alone, a handler promises nothing of its reply; implementations
    /// in this crate say exactly what theirs do.
    open spec fn spec_handle(
        &self,
        cmd: &Command,
        caps: &Option<Captures>,
        r: &Option<Response>,
    ) -> bool {
        true
    }

    /// Handles a command. Captures resulting from matching are provided
    /// along with a responder for deferred replies; an immediate reply may
    /// be returned, scheduled for later delivery through the responder, or
    /// both.
    fn handle<R: Responder + 'static>(&self, cmd: &Command, caps: &Option<Captures>, responder: R) -> (r:
        Option<Response>)
        ensures
            self.spec_handle(cmd, caps, &r),
    ;
}

/// A handler decorator enforcing a per-route shared secret: when the
/// command's token equals the configured one, it delegates to the inner
/// handler and returns its result unchanged; with any other token the inner
/// handler is not invoked and nothing is returned.
pub struct TokenValidator<H> {
    pub handler: H,
    pub token: String,
}

impl<H: Handler> TokenValidator<H> {
    /// Wraps `handler` behind the shared secret `token`.
    pub fn new(handler: H, token: String) -> (r: TokenValidator<H>)
        ensures
            r == (TokenValidator { handler, token }),
    {
        TokenValidator { handler, token }
    }
}

impl<H: Handler> Handler for TokenValidator<H> {
    open spec fn spec_handle(&self, cmd: &Command, caps: &Option<Captures>, r: &Option<Response>) -> bool {
        if cmd@.token == self.token@ {
            self.handler.spec_handle(cmd, caps, r)
        } else {
            r is None
        }
    }

    fn handle<R: Responder + 'static>(&self, cmd: &Command, caps: &Option<Captures>, responder: R) -> (r:
        Option<Response>) {
        if cmd.token == self.token {
            self.handler.handle(cmd, caps, responder)
        } else {
            None
        }
    }
}

/// The token gate: with the matching token the validator's contract is
/// exactly the inner handler's, and with any other token it is exactly "no
/// reply".
pub proof fn lemma_token_gate<H: Handler>(
    v: &TokenValidator<H>,
    cmd: &Command,
    caps: &Option<Captures>,
    r: &Option<Response>,
)
    ensures
        cmd@.token == v.token@ ==> (v.spec_handle(cmd, caps, r) == v.handler.spec_handle(
            cmd,
            caps,
            r,
        )),
        cmd@.token != v.token@ ==> (v.spec_handle(cmd, caps, r) <==> r is None),
{
}

/// Adapts a plain function of a command and its captures to the [`Handler`]
/// capability, so that the common case needs no new type. The wrapped
/// function must accept every input; a handler that defers replies through
/// the responder implements [`Handler`] directly instead.
pub struct FnHandler<F> where F: Fn(&Command, &Option<Captures>) -> Option<Response> {
    f: F,
}

impl<F> FnHandler<F> where F: Fn(&Command, &Option<Captures>) -> Option<Response> {
    #[verifier::type_invariant]
    spec fn wf(self) -> bool {
        forall|cmd: Command, caps: Option<Captures>| call_requires(self.f, (&cmd, &caps))
    }

    /// Wraps `f`, which must accept every command and capture set.
    pub fn new(f: F) -> (r: FnHandler<F>)
        requires
            forall|cmd: Command, caps: Option<Captures>| call_requires(f, (&cmd, &caps)),
        ensures
            forall|cmd: &Command, caps: &Option<Captures>, out: Option<Response>|
                #[trigger] r.spec_handle(cmd, caps, &out) == call_ensures(f, (cmd, caps), out),
    {
        FnHandler { f }
    }
}

impl<F> Handler for FnHandler<F> where F: Fn(&Command, &Option<Captures>) -> Option<Response> {
    closed spec fn spec_handle(&self, cmd: &Command, caps: &Option<Captures>, r: &Option<Response>) -> bool {
        call_ensures(self.f, (cmd, caps), *r)
    }

    fn handle<R: Responder + 'static>(&self, cmd: &Command, caps: &Option<Captures>, _responder: R) -> (r:
        Option<Response>) {
        proof {
            use_type_invariant(&*self);
        }
        (self.f)(cmd, caps)
    }
}

} // verus!
