//! The router: owns the root of the route tree and decides, for one
//! request, which handler runs, which parameters are published, and which
//! middleware layers wrap the call — or that nothing matched. The
//! asynchronous execution of the chosen handler and layers, and any
//! configured replacement handlers, live with the embedding application;
//! the defaults it falls back on are fixed here.

use vstd::prelude::*;

use crate::error::HttpError;
use crate::error::PatternError;
use crate::http::Request;
use crate::http::Response;
use crate::params::RequestParams;
use crate::pattern::Pattern;
use crate::pattern::spec_parse;
use crate::resolver::ctx::CtxView;
use crate::resolver::ctx::ResolveContext;
use crate::resolver::node::Node;
use crate::resolver::node::Resolver;
use crate::resolver::node::is_scope_of;
use crate::resolver::node::spec_resolve_node;
use crate::text::segments_of;
use crate::text::views_of;

verus! {

/// The routing decision for one request: a handler with its captures and
/// middleware layers, or no match.
pub enum Dispatch {
    Matched { handler: u64, params: RequestParams, layers: Vec<u64> },
    NotFound,
}

/// The fresh resolution state for a request: its non-empty path segments,
/// no captures, no layers.
pub open spec fn initial_ctx(req: Request) -> CtxView {
    CtxView {
        method: req.method@,
        segments: segments_of(req.path@),
        params: Seq::<(Seq<char>, Seq<char>)>::empty(),
        layers: Seq::<u64>::empty(),
    }
}

/// The router: the root node plus, in the embedding application, the
/// configured error and not-found handlers.
pub struct Router {
    pub root: Node,
}

impl Router {
    /// A router with an empty root node gating nothing.
    pub fn new() -> (r: Router)
        ensures
            r.root.pattern.method@ == "ALL"@,
            r.root.pattern.full_path@ == "/"@,
            views_of(r.root.pattern.chunks@) == Seq::<Seq<char>>::empty(),
            r.root.layers@ == Seq::<u64>::empty(),
            r.root.childs@ == Seq::<Resolver>::empty(),
    {
        Router { root: Node::new() }
    }

    /// Registers a resolver directly under the root.
    pub fn add(self, srv: Resolver) -> (r: Router)
        ensures
            r.root.pattern == self.root.pattern,
            r.root.layers == self.root.layers,
            r.root.childs@ == self.root.childs@.push(srv),
    {
        Router { root: self.root.add(srv) }
    }

    /// Registers `srv` under a sub-pattern of the root, which must be
    /// well-formed — route strings are fixed at startup.
    pub fn at(self, pattern: &str, srv: Resolver) -> (r: Router)
        requires
            spec_parse(pattern@) is Ok,
        ensures
            r.root.pattern == self.root.pattern,
            r.root.layers == self.root.layers,
            r.root.childs@.len() == self.root.childs@.len() + 1,
            r.root.childs@ == self.root.childs@.push(r.root.childs@.last()),
            r.root.childs@.last() is Node,
            is_scope_of(r.root.childs@.last()->Node_0, pattern@),
            r.root.childs@.last()->Node_0.childs@ == seq![srv],
    {
        Router { root: self.root.at(pattern, srv) }
    }

    /// Registers `srv` under `pattern` if the pattern is well-formed, and
    /// otherwise reports the parse error, handing the router back
    /// unchanged.
    pub fn try_at(self, pattern: &str, srv: Resolver) -> (r: Result<Router, (Router, PatternError)>)
        ensures
            match r {
                Ok(updated) => spec_parse(pattern@) is Ok && updated.root.pattern
                    == self.root.pattern && updated.root.layers == self.root.layers
                    && updated.root.childs@.len() == self.root.childs@.len() + 1
                    && updated.root.childs@ == self.root.childs@.push(updated.root.childs@.last())
                    && updated.root.childs@.last() is Node && is_scope_of(
                    updated.root.childs@.last()->Node_0,
                    pattern@,
                ) && updated.root.childs@.last()->Node_0.childs@ == seq![srv],
                Err(unchanged) => spec_parse(pattern@) is Err && unchanged.0 == self
                    && unchanged.1 == spec_parse(pattern@)->Err_0,
            },
    {
        match Pattern::parse(pattern) {
            Ok(_) => Ok(self.at(pattern, srv)),
            Err(e) => Err((self, e)),
        }
    }

    /// Appends one middleware layer to the root, wrapping every route.
    pub fn wrap(self, middleware: u64) -> (r: Router)
        ensures
            r.root.pattern == self.root.pattern,
            r.root.childs == self.root.childs,
            r.root.layers@ == self.root.layers@.push(middleware),
    {
        Router { root: self.root.wrap(middleware) }
    }

    /// Decides one request: resolve against the root; on a match hand out
    /// the handler, the captured parameters to publish, and the layers to
    /// run; otherwise report that nothing matched.
    pub fn dispatch(&self, req: &Request) -> (d: Dispatch)
        ensures
            match spec_resolve_node(self.root, initial_ctx(*req)) {
                Some(found) => d matches Dispatch::Matched { handler, params, layers }
                    && handler == found.0 && params@ == found.1.params && layers@
                    == found.1.layers,
                None => d is NotFound,
            },
    {
        let mut ctx = ResolveContext::new(req);
        match self.root.resolve(&mut ctx) {
            Some(handler) => {
                let ResolveContext { params, layers, .. } = ctx;
                Dispatch::Matched { handler, params: RequestParams::new(params), layers }
            },
            None => Dispatch::NotFound,
        }
    }
}

impl Default for Router {
    /// A fresh router, exactly as `new` builds it.
    fn default() -> (r: Router)
        ensures
            r.root.pattern.method@ == "ALL"@,
            r.root.pattern.full_path@ == "/"@,
            views_of(r.root.pattern.chunks@) == Seq::<Seq<char>>::empty(),
            r.root.layers@ == Seq::<u64>::empty(),
            r.root.childs@ == Seq::<Resolver>::empty(),
    {
        Router::new()
    }
}

/// The response when no route matched and no replacement handler is
/// configured: status 404 with the fixed body.
pub fn default_not_found_response() -> (r: Response)
    ensures
        r.status == 404,
        r.body@ == "404 Not Found"@,
{
    Response::new(404, "404 Not Found")
}

/// The response for a handler or extractor error when no replacement
/// handler is configured: the error's status code carrying its message as
/// body.
pub fn default_error_response(err: HttpError) -> (r: Response)
    ensures
        r.status == err.status,
        r.body@ == err.message@,
{
    Response { status: err.status, body: err.message }
}

} // verus!
