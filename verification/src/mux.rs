//! The dispatcher: an ordered route table with first-match-wins selection,
//! itself a handler, so one can nest inside another as a sub-router.

use vstd::prelude::*;

verus! {

use crate::captures::{Captures, caps_view};
use crate::command::{Command, CommandView};
use crate::handler::{Handler, TokenValidator};
use crate::matcher::{MatchCommand, Matcher};
use crate::responder::Responder;
use crate::response::Response;

/// The handler bound into a route: either the handler as registered, or one
/// wrapped with a token check by the convenience registration path.
pub enum RouteHandler<H> {
    /// Registered without a token check.
    Plain(H),
    /// Registered through [`Mux::command`], which wraps the handler in a
    /// [`TokenValidator`].
    Guarded(TokenValidator<H>),
}

impl<H: Handler> Handler for RouteHandler<H> {
    open spec fn spec_handle(&self, cmd: &Command, caps: &Option<Captures>, r: &Option<Response>) -> bool {
        match self {
            RouteHandler::Plain(h) => h.spec_handle(cmd, caps, r),
            RouteHandler::Guarded(h) => h.spec_handle(cmd, caps, r),
        }
    }

    fn handle<R: Responder + 'static>(&self, cmd: &Command, caps: &Option<Captures>, responder: R) -> (r:
        Option<Response>) {
        match self {
            RouteHandler::Plain(h) => h.handle(cmd, caps, responder),
            RouteHandler::Guarded(h) => h.handle(cmd, caps, responder),
        }
    }
}

/// A route: one matcher bound to one handler, immutable once registered and
/// owned by the dispatcher that holds it.
pub struct Route<H> {
    pub matcher: Matcher,
    pub handler: RouteHandler<H>,
}

impl<H: Handler> Route<H> {
    /// Binds `matcher` to `handler`, with no token check.
    pub fn new(matcher: Matcher, handler: H) -> (r: Route<H>)
        ensures
            r == (Route { matcher, handler: RouteHandler::Plain(handler) }),
    {
        Route { matcher, handler: RouteHandler::Plain(handler) }
    }
}

/// A command de-multiplexor: an ordered sequence of routes, extended only by
/// registration and read by dispatch. Dispatch selects the first route whose
/// matcher accepts the command — registration order decides, nothing else.
pub struct Mux<H> {
    pub routes: Vec<Route<H>>,
}

impl<H: Handler> Mux<H> {
    /// Whether the route at `i` accepts `cmd`.
    pub open spec fn matches_at(&self, cmd: CommandView, i: int) -> bool {
        self.routes@[i].matcher.spec_matches(cmd)
    }

    /// The first route at or after `i` that accepts `cmd`.
    pub open spec fn first_match_from(&self, cmd: CommandView, i: int) -> Option<int>
        decreases self.routes@.len() - i,
        when 0 <= i <= self.routes@.len()
    {
        if i == self.routes@.len() {
            None
        } else if self.matches_at(cmd, i) {
            Some(i)
        } else {
            self.first_match_from(cmd, i + 1)
        }
    }

    /// The first route that accepts `cmd`, in registration order.
    pub open spec fn first_match(&self, cmd: CommandView) -> Option<int> {
        self.first_match_from(cmd, 0)
    }

    /// An empty route table.
    pub fn new() -> (r: Mux<H>)
        ensures
            r.routes@.len() == 0,
    {
        Mux { routes: Vec::new() }
    }

    /// Installs a route.
    pub fn route(&mut self, route: Route<H>)
        ensures
            final(self).routes@ == old(self).routes@.push(route),
    {
        self.routes.push(route);
    }

    /// Installs routing for a matcher and target handler.
    pub fn matching(&mut self, matcher: Matcher, handler: H)
        ensures
            final(self).routes@ == old(self).routes@.push(
                (Route { matcher, handler: RouteHandler::Plain(handler) }),
            ),
    {
        self.route(Route::new(matcher, handler));
    }

    /// Installs routing for a slash-command name, secret token, and target
    /// handler: the command is matched exactly, and the handler is wrapped
    /// in a [`TokenValidator`] for the token.
    pub fn command(&mut self, cmd: String, token: String, handler: H)
        ensures
            final(self).routes@ == old(self).routes@.push(
                (Route {
                    matcher: Matcher::Command(MatchCommand(cmd)),
                    handler: RouteHandler::Guarded(TokenValidator { handler, token }),
                }),
            ),
    {
        self.route(
            Route {
                matcher: Matcher::Command(MatchCommand(cmd)),
                handler: RouteHandler::Guarded(TokenValidator::new(handler, token)),
            },
        );
    }

    /// The first match for `cmd`: the matcher's captures and the route's
    /// handler, or nothing when no route accepts `cmd`.
    pub fn handler(&self, cmd: &Command) -> (r: Option<(Option<Captures>, &RouteHandler<H>)>)
        ensures
            match r {
                None => self.first_match(cmd@) is None,
                Some(p) => {
                    &&& self.first_match(cmd@) matches Some(i) && *(p.1) == self.routes@[i].handler
                        && caps_view(p.0) == self.routes@[i].matcher.spec_captures(cmd@)
                },
            },
    {
        let mut i: usize = 0;
        while i < self.routes.len()
            invariant
                i <= self.routes.len(),
                self.first_match(cmd@) == self.first_match_from(cmd@, i as int),
            decreases self.routes.len() - i,
        {
            let (caps, matched) = self.routes[i].matcher.matches(cmd);
            if matched {
                return Some((caps, &self.routes[i].handler));
            }
            i += 1;
        }
        None
    }
}

impl<H: Handler> Handler for Mux<H> {
    /// Dispatch returns a reply governed by the first matching route's
    /// handler, fed that route's captures; with no matching route it returns
    /// nothing and invokes no handler. The captures handed to the dispatcher
    /// itself play no part.
    open spec fn spec_handle(&self, cmd: &Command, caps: &Option<Captures>, r: &Option<Response>) -> bool {
        match self.first_match(cmd@) {
            Some(i) => exists|c: Option<Captures>|
                caps_view(c) == self.routes@[i].matcher.spec_captures(cmd@)
                    && #[trigger] self.routes@[i].handler.spec_handle(cmd, &c, r),
            None => r is None,
        }
    }

    fn handle<R: Responder + 'static>(&self, cmd: &Command, caps: &Option<Captures>, responder: R) -> (r:
        Option<Response>) {
        match self.handler(cmd) {
            Some((caps2, h)) => {
                let out = h.handle(cmd, &caps2, responder);
                proof {
                    let i: int = self.first_match(cmd@)->Some_0;
                    assert(self.routes@[i].handler.spec_handle(cmd, &caps2, &out));
                }
                out
            },
            None => None,
        }
    }
}

/// When every route at an index below `i` rejects `cmd` and route `i`
/// accepts it, route `i` is the first match when scanning from any index at
/// or below `i`.
pub proof fn lemma_first_match_found<H: Handler>(m: &Mux<H>, cmd: CommandView, j: int, i: int)
    requires
        0 <= j <= i < m.routes@.len(),
        m.matches_at(cmd, i),
        forall|k: int| j <= k < i ==> !m.matches_at(cmd, k),
    ensures
        m.first_match_from(cmd, j) == Some(i),
    decreases i - j,
{
    if j < i {
        lemma_first_match_found(m, cmd, j + 1, i);
    }
}

/// When every route at or after `j` rejects `cmd`, there is no match from
/// `j` on.
pub proof fn lemma_first_match_none<H: Handler>(m: &Mux<H>, cmd: CommandView, j: int)
    requires
        0 <= j <= m.routes@.len(),
        forall|k: int| j <= k < m.routes@.len() ==> !m.matches_at(cmd, k),
    ensures
        m.first_match_from(cmd, j) is None,
    decreases m.routes@.len() - j,
{
    if j < m.routes@.len() {
        lemma_first_match_none(m, cmd, j + 1);
    }
}

/// First-match-wins: when route `i` is the first whose matcher accepts the
/// command, dispatch is governed by route `i`'s handler alone — fed that
/// route's captures — whatever the routes after it would do.
pub proof fn lemma_first_match_wins<H: Handler>(
    m: &Mux<H>,
    cmd: &Command,
    caps: &Option<Captures>,
    r: &Option<Response>,
    i: int,
)
    requires
        0 <= i < m.routes@.len(),
        m.matches_at(cmd@, i),
        forall|k: int| 0 <= k < i ==> !m.matches_at(cmd@, k),
    ensures
        m.spec_handle(cmd, caps, r) == exists|c: Option<Captures>|
            caps_view(c) == m.routes@[i].matcher.spec_captures(cmd@)
                && #[trigger] m.routes@[i].handler.spec_handle(cmd, &c, r),
{
    lemma_first_match_found(m, cmd@, 0, i);
}

/// A dispatcher with no routes, or with routes none of which accepts the
/// command, replies with nothing, for any command.
pub proof fn lemma_no_match_yields_none<H: Handler>(
    m: &Mux<H>,
    cmd: &Command,
    caps: &Option<Captures>,
    r: &Option<Response>,
)
    requires
        forall|k: int| 0 <= k < m.routes@.len() ==> !m.matches_at(cmd@, k),
    ensures
        m.spec_handle(cmd, caps, r) <==> r is None,
{
    lemma_first_match_none(m, cmd@, 0);
}

} // verus!
