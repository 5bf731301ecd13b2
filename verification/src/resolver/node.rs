//! The route tree: each node owns a pattern, local middleware layers and an
//! ordered list of child resolvers. Resolution consumes the node's chunks
//! against the context's leading segments, descends into a nested context,
//! and absorbs the nested state only when a child matched — a failed
//! attempt leaves the caller's context exactly as it was.

use vstd::prelude::*;

use crate::params::copy_params;
use crate::params::pairs_view;
use crate::params::push_param;
use crate::pattern::Pattern;
use crate::pattern::chunk_dynamic_name;
use crate::pattern::chunk_is_wildcard;
use crate::pattern::dynamic_name;
use crate::pattern::is_dynamic_chunk;
use crate::pattern::is_wildcard_chunk;
use crate::pattern::spec_parse;
use crate::resolver::ctx::CtxView;
use crate::resolver::ctx::ResolveContext;
use crate::text::copy_strings_from;
use crate::text::join_from;
use crate::text::join_segments;
use crate::text::str_eq;
use crate::text::views_of;

verus! {

/// One element of the route tree: a subtree with its own pattern, or a
/// bare handler, named by the identifier under which the application
/// registered it.
pub enum Resolver {
    Node(Node),
    Handler(u64),
}

/// A route-tree node: a pattern, local middleware layers, and child
/// resolvers tried in insertion order.
pub struct Node {
    pub pattern: Pattern,
    pub layers: Vec<u64>,
    pub childs: Vec<Resolver>,
}

/// The node's method gate: its pattern must name the request method or
/// "ALL".
pub open spec fn method_allows(pattern_method: Seq<char>, req_method: Seq<char>) -> bool {
    pattern_method == req_method || pattern_method == "ALL"@
}

/// Matches the pattern chunks from index `i` against the leading segments:
/// a literal chunk must equal its segment, a dynamic chunk captures it, a
/// wildcard captures all remaining segments joined by `/` under `*`, and
/// running out of segments before the chunks are exhausted fails.
pub open spec fn match_chunks(
    chunks: Seq<Seq<char>>,
    i: int,
    segs: Seq<Seq<char>>,
    params: Seq<(Seq<char>, Seq<char>)>,
) -> Option<(Seq<(Seq<char>, Seq<char>)>, Seq<Seq<char>>)>
    decreases chunks.len() - i,
{
    if i < 0 || i >= chunks.len() {
        Some((params, segs))
    } else if is_wildcard_chunk(chunks[i]) {
        Some((params.push(("*"@, join_segments(segs))), Seq::empty()))
    } else if segs.len() == 0 {
        None
    } else if is_dynamic_chunk(chunks[i]) {
        match_chunks(chunks, i + 1, segs.skip(1), params.push((dynamic_name(chunks[i]), segs[0])))
    } else if chunks[i] == segs[0] {
        match_chunks(chunks, i + 1, segs.skip(1), params)
    } else {
        None
    }
}

/// What resolving against one resolver yields: the handler and the
/// context state it leaves, or nothing.
pub open spec fn spec_resolve(r: Resolver, ctx: CtxView) -> Option<(u64, CtxView)>
    decreases r, 0nat,
{
    match r {
        Resolver::Handler(h) => if ctx.segments.len() == 0 {
            Some((h, ctx))
        } else {
            None
        },
        Resolver::Node(n) => spec_resolve_node(n, ctx),
    }
}

/// What resolving against a node yields: gate on the method, consume the
/// node's chunks, then try the children in order on the nested state.
pub open spec fn spec_resolve_node(n: Node, ctx: CtxView) -> Option<(u64, CtxView)>
    decreases n, 2nat,
{
    if !method_allows(n.pattern.method@, ctx.method) {
        None
    } else {
        match match_chunks(views_of(n.pattern.chunks@), 0, ctx.segments, ctx.params) {
            None => None,
            Some(consumed) => spec_resolve_children(
                n.childs@,
                0,
                CtxView {
                    method: ctx.method,
                    segments: consumed.1,
                    params: consumed.0,
                    layers: ctx.layers + n.layers@,
                },
            ),
        }
    }
}

/// The first child from index `i` on that resolves, in insertion order.
pub open spec fn spec_resolve_children(cs: Seq<Resolver>, i: int, ctx: CtxView) -> Option<
    (u64, CtxView),
>
    decreases cs, 1nat, cs.len() - i,
{
    if i < 0 || i >= cs.len() {
        None
    } else {
        match spec_resolve(cs[i], ctx) {
            Some(found) => Some(found),
            None => spec_resolve_children(cs, i + 1, ctx),
        }
    }
}

impl Resolver {
    /// Resolves against this element: a bare handler matches exactly when
    /// no segments remain; a node resolves its subtree. On failure the
    /// context is left exactly as it was.
    pub fn resolve(&self, ctx: &mut ResolveContext) -> (r: Option<u64>)
        ensures
            match spec_resolve(*self, old(ctx)@) {
                Some(found) => r == Some(found.0) && final(ctx)@ == found.1,
                None => r is None && final(ctx)@ == old(ctx)@,
            },
        decreases *self, 0nat,
    {
        match self {
            Resolver::Handler(h) => {
                if ctx.path_segments.len() == 0 {
                    Some(*h)
                } else {
                    None
                }
            },
            Resolver::Node(n) => n.resolve(ctx),
        }
    }
}

impl Node {
    /// Consumes this node's chunks against the context's leading segments,
    /// returning the extended captures and the remaining segments, or
    /// nothing on a mismatch. The context itself is only read.
    fn check_path(&self, ctx: &ResolveContext) -> (r: Option<(Vec<(String, String)>, Vec<String>)>)
        ensures
            match match_chunks(views_of(self.pattern.chunks@), 0, ctx@.segments, ctx@.params) {
                Some(consumed) => r is Some && pairs_view((r->0).0@) == consumed.0 && views_of(
                    (r->0).1@,
                ) == consumed.1,
                None => r is None,
            },
    {
        let ghost cs = views_of(self.pattern.chunks@);
        let ghost ss = ctx@.segments;
        let ghost ps0 = ctx@.params;
        let mut params = copy_params(&ctx.params);
        let n_ch = self.pattern.chunks.len();
        let segs_len = ctx.path_segments.len();
        let mut i: usize = 0;
        let mut j: usize = 0;
        proof {
            assert(ss.skip(0) =~= ss);
        }
        while i < n_ch
            invariant
                cs == views_of(self.pattern.chunks@),
                ss == ctx@.segments,
                ps0 == ctx@.params,
                n_ch == cs.len(),
                segs_len == ss.len(),
                i <= n_ch,
                j <= segs_len,
                match_chunks(cs, 0, ss, ps0) == match_chunks(
                    cs,
                    i as int,
                    ss.skip(j as int),
                    pairs_view(params@),
                ),
            decreases n_ch - i,
        {
            proof {
                assert(cs[i as int] == self.pattern.chunks@[i as int]@);
            }
            let chunk = &self.pattern.chunks[i];
            if chunk_is_wildcard(chunk.as_str()) {
                let captured = join_from(&ctx.path_segments, j);
                proof {
                    assert(views_of(ctx.path_segments@).skip(j as int) =~= ss.skip(j as int));
                }
                push_param(&mut params, "*".to_owned(), captured);
                let rest: Vec<String> = Vec::new();
                proof {
                    assert(views_of(rest@) =~= Seq::<Seq<char>>::empty());
                }
                return Some((params, rest));
            }
            if j >= segs_len {
                return None;
            }
            proof {
                assert(ss.skip(j as int)[0] == ss[j as int]);
                assert(ss[j as int] == ctx.path_segments@[j as int]@);
                assert(ss.skip(j as int).skip(1) =~= ss.skip(j + 1));
            }
            match chunk_dynamic_name(chunk.as_str()) {
                Some(name) => {
                    push_param(&mut params, name, ctx.path_segments[j].clone());
                    i += 1;
                    j += 1;
                },
                None => {
                    if str_eq(chunk.as_str(), ctx.path_segments[j].as_str()) {
                        i += 1;
                        j += 1;
                    } else {
                        return None;
                    }
                },
            }
        }
        let rest = copy_strings_from(&ctx.path_segments, j);
        proof {
            assert(views_of(rest@) =~= ss.skip(j as int));
        }
        Some((params, rest))
    }

    /// Resolves the subtree under this node: gate on the method, consume
    /// this node's chunks, then try the children in insertion order on a
    /// nested context. Only when a child matches is the nested state
    /// absorbed back; otherwise the context is left exactly as it was —
    /// backtracking needs no undo because every attempt works on its own
    /// copy.
    pub fn resolve(&self, ctx: &mut ResolveContext) -> (r: Option<u64>)
        ensures
            match spec_resolve_node(*self, old(ctx)@) {
                Some(found) => r == Some(found.0) && final(ctx)@ == found.1,
                None => r is None && final(ctx)@ == old(ctx)@,
            },
        decreases *self, 1nat,
    {
        if !(str_eq(ctx.method.as_str(), self.pattern.method.as_str()) || str_eq(
            self.pattern.method.as_str(),
            "ALL",
        )) {
            return None;
        }
        match self.check_path(ctx) {
            Some(consumed) => {
                let (new_params, new_segments) = consumed;
                let mut nested = ctx.nest(new_segments, new_params, &self.layers);
                let ghost nctx = nested@;
                let mut k: usize = 0;
                while k < self.childs.len()
                    invariant
                        nctx == (CtxView {
                            method: old(ctx)@.method,
                            segments: views_of(nested.path_segments@),
                            params: pairs_view(nested.params@),
                            layers: nested.layers@,
                        }),
                        nested@ == nctx,
                        k <= self.childs@.len(),
                        spec_resolve_children(self.childs@, 0, nctx) == spec_resolve_children(
                            self.childs@,
                            k as int,
                            nctx,
                        ),
                        spec_resolve_node(*self, old(ctx)@) == spec_resolve_children(
                            self.childs@,
                            0,
                            nctx,
                        ),
                        ctx@ == old(ctx)@,
                    decreases self.childs@.len() - k,
                {
                    if let Some(h) = self.childs[k].resolve(&mut nested) {
                        ctx.absorb(nested);
                        return Some(h);
                    }
                    k += 1;
                }
                None
            },
            None => None,
        }
    }
}

/// The chunk is a plain literal: neither the wildcard nor a dynamic
/// capture.
pub open spec fn is_literal_chunk(s: Seq<char>) -> bool {
    !is_wildcard_chunk(s) && !is_dynamic_chunk(s)
}

/// Literal chunks consume exactly themselves: matching a literal-only
/// chunk tail against segments equal to it succeeds, captures nothing,
/// and leaves no segment.
proof fn lemma_literal_chunks_consume(
    chunks: Seq<Seq<char>>,
    i: int,
    params: Seq<(Seq<char>, Seq<char>)>,
)
    requires
        0 <= i <= chunks.len(),
        forall|k: int| 0 <= k < chunks.len() ==> is_literal_chunk(#[trigger] chunks[k]),
    ensures
        match_chunks(chunks, i, chunks.skip(i), params) == Some(
            (params, Seq::<Seq<char>>::empty()),
        ),
    decreases chunks.len() - i,
{
    if i == chunks.len() {
        assert(chunks.skip(i) =~= Seq::<Seq<char>>::empty());
    } else {
        let segs = chunks.skip(i);
        assert(segs[0] == chunks[i]);
        assert(segs.skip(1) =~= chunks.skip(i + 1));
        lemma_literal_chunks_consume(chunks, i + 1, params);
    }
}

/// Law: a request whose method the pattern admits and whose path
/// segments exactly equal a literal-only pattern's chunks resolves to
/// that pattern's handler, capturing no parameters.
pub proof fn lemma_literal_exact_match(n: Node, h: u64, ctx: CtxView)
    requires
        forall|k: int| 0 <= k < views_of(n.pattern.chunks@).len() ==> is_literal_chunk(
            #[trigger] views_of(n.pattern.chunks@)[k],
        ),
        method_allows(n.pattern.method@, ctx.method),
        ctx.segments == views_of(n.pattern.chunks@),
        n.childs@ == seq![Resolver::Handler(h)],
    ensures
        spec_resolve_node(n, ctx) == Some(
            (
                h,
                CtxView {
                    segments: Seq::<Seq<char>>::empty(),
                    layers: ctx.layers + n.layers@,
                    ..ctx
                },
            ),
        ),
{
    let cs = views_of(n.pattern.chunks@);
    assert(cs.skip(0) =~= cs);
    lemma_literal_chunks_consume(cs, 0, ctx.params);
}

/// Law: a route registered under method "ALL" matches every method for
/// the same path shape — resolving a leaf-only "ALL" node does not depend
/// on the request method, neither in whether it matches, nor in which
/// handler it picks, nor in the segments, captures and layers it leaves.
pub proof fn lemma_all_method_matches_every_method(n: Node, ctx1: CtxView, ctx2: CtxView)
    requires
        n.pattern.method@ == "ALL"@,
        forall|k: int| 0 <= k < n.childs@.len() ==> (#[trigger] n.childs@[k]) is Handler,
        ctx2.segments == ctx1.segments,
        ctx2.params == ctx1.params,
        ctx2.layers == ctx1.layers,
    ensures
        spec_resolve_node(n, ctx1) is Some <==> spec_resolve_node(n, ctx2) is Some,
        spec_resolve_node(n, ctx1) is Some ==> {
            let r1 = spec_resolve_node(n, ctx1)->Some_0;
            let r2 = spec_resolve_node(n, ctx2)->Some_0;
            r1.0 == r2.0 && r1.1.segments == r2.1.segments && r1.1.params == r2.1.params
                && r1.1.layers == r2.1.layers
        },
{
    let cs = views_of(n.pattern.chunks@);
    match match_chunks(cs, 0, ctx1.segments, ctx1.params) {
        None => {},
        Some(consumed) => {
            let d1 = CtxView {
                method: ctx1.method,
                segments: consumed.1,
                params: consumed.0,
                layers: ctx1.layers + n.layers@,
            };
            let d2 = CtxView { method: ctx2.method, ..d1 };
            lemma_handler_children_ignore_method(n.childs@, 0, d1, d2);
        },
    }
}

/// Bare-handler children look only at the remaining segments, never at
/// the method.
proof fn lemma_handler_children_ignore_method(cs: Seq<Resolver>, i: int, c1: CtxView, c2: CtxView)
    requires
        forall|k: int| 0 <= k < cs.len() ==> (#[trigger] cs[k]) is Handler,
        c2.segments == c1.segments,
        c2.params == c1.params,
        c2.layers == c1.layers,
    ensures
        spec_resolve_children(cs, i, c1) is Some <==> spec_resolve_children(cs, i, c2) is Some,
        spec_resolve_children(cs, i, c1) is Some ==> {
            let r1 = spec_resolve_children(cs, i, c1)->Some_0;
            let r2 = spec_resolve_children(cs, i, c2)->Some_0;
            r1.0 == r2.0 && r1.1.segments == r2.1.segments && r1.1.params == r2.1.params
                && r1.1.layers == r2.1.layers
        },
    decreases cs.len() - i,
{
    if 0 <= i < cs.len() {
        assert(cs[i] is Handler);
        let h = cs[i]->Handler_0;
        if c1.segments.len() == 0 {
            assert(spec_resolve(cs[i], c1) == Some((h, c1)));
            assert(spec_resolve(cs[i], c2) == Some((h, c2)));
        } else {
            assert(spec_resolve(cs[i], c1) is None);
            assert(spec_resolve(cs[i], c2) is None);
        }
        lemma_handler_children_ignore_method(cs, i + 1, c1, c2);
    }
}

/// The node is a freshly-made scope for `pattern`: that pattern parsed,
/// no layers, no children yet.
pub open spec fn is_scope_of(n: Node, pattern: Seq<char>) -> bool {
    &&& spec_parse(pattern) is Ok
    &&& n.pattern.method@ == (spec_parse(pattern)->Ok_0).0
    &&& n.pattern.full_path@ == (spec_parse(pattern)->Ok_0).1
    &&& views_of(n.pattern.chunks@) == (spec_parse(pattern)->Ok_0).2
    &&& n.layers@ == Seq::<u64>::empty()
}

impl Node {
    /// The implicit root node: pattern `ALL:/`, which gates no method and
    /// consumes no segments.
    pub(crate) fn new() -> (r: Node)
        ensures
            r.pattern.method@ == "ALL"@,
            r.pattern.full_path@ == "/"@,
            views_of(r.pattern.chunks@) == Seq::<Seq<char>>::empty(),
            r.layers@ == Seq::<u64>::empty(),
            r.childs@ == Seq::<Resolver>::empty(),
    {
        let r = Node {
            pattern: Pattern {
                method: "ALL".to_owned(),
                full_path: "/".to_owned(),
                chunks: Vec::new(),
            },
            layers: Vec::new(),
            childs: Vec::new(),
        };
        proof {
            assert(views_of(r.pattern.chunks@) =~= Seq::<Seq<char>>::empty());
        }
        r
    }

    /// A node whose pattern is parsed from `pattern`, which must be
    /// well-formed — route strings are fixed at startup.
    pub(crate) fn with_pattern(pattern: &str) -> (r: Node)
        requires
            spec_parse(pattern@) is Ok,
        ensures
            is_scope_of(r, pattern@),
            r.childs@ == Seq::<Resolver>::empty(),
    {
        match Pattern::parse(pattern) {
            Ok(p) => Node { pattern: p, layers: Vec::new(), childs: Vec::new() },
            Err(_) => vstd::pervasive::unreached(),
        }
    }

    /// Appends a child resolver; children are tried in insertion order.
    pub fn add(self, srv: Resolver) -> (r: Node)
        ensures
            r.pattern == self.pattern,
            r.layers == self.layers,
            r.childs@ == self.childs@.push(srv),
    {
        let mut node = self;
        node.childs.push(srv);
        node
    }

    /// Registers `srv` under a sub-pattern: shorthand for adding a scope
    /// for `pattern` holding `srv` as its only child.
    pub fn at(self, pattern: &str, srv: Resolver) -> (r: Node)
        requires
            spec_parse(pattern@) is Ok,
        ensures
            r.pattern == self.pattern,
            r.layers == self.layers,
            r.childs@.len() == self.childs@.len() + 1,
            r.childs@.take(self.childs@.len() as int) == self.childs@,
            r.childs@ == self.childs@.push(r.childs@.last()),
            r.childs@.last() is Node,
            is_scope_of(r.childs@.last()->Node_0, pattern@),
            r.childs@.last()->Node_0.childs@ == seq![srv],
    {
        let child = scope(pattern).add(srv);
        let r = self.add(Resolver::Node(child));
        proof {
            assert(r.childs@.take(r.childs@.len() - 1) =~= self.childs@);
        }
        r
    }

    /// Appends one middleware layer to this node.
    pub fn wrap(self, middleware: u64) -> (r: Node)
        ensures
            r.pattern == self.pattern,
            r.childs == self.childs,
            r.layers@ == self.layers@.push(middleware),
    {
        let mut node = self;
        node.layers.push(middleware);
        node
    }
}

/// A subtree gated on `pattern`, to be filled with children.
pub fn scope(pattern: &str) -> (r: Node)
    requires
        spec_parse(pattern@) is Ok,
    ensures
        is_scope_of(r, pattern@),
        r.childs@ == Seq::<Resolver>::empty(),
{
    Node::with_pattern(pattern)
}

/// A subtree gated on `pattern` if it is well-formed, and nothing
/// otherwise.
pub fn try_scope(pattern: &str) -> (r: Option<Node>)
    ensures
        match r {
            Some(n) => spec_parse(pattern@) is Ok && is_scope_of(n, pattern@) && n.childs@
                == Seq::<Resolver>::empty(),
            None => spec_parse(pattern@) is Err,
        },
{
    match Pattern::parse(pattern) {
        Ok(_) => Some(scope(pattern)),
        Err(_) => None,
    }
}

/// A node holding `handler` under the given method, gating nothing else.
fn method_leaf(method: &str, handler: u64) -> (r: Node)
    ensures
        r.pattern.method@ == method@,
        r.pattern.full_path@ == "/"@,
        views_of(r.pattern.chunks@) == Seq::<Seq<char>>::empty(),
        r.layers@ == Seq::<u64>::empty(),
        r.childs@ == seq![Resolver::Handler(handler)],
    {
    let r = Node {
        pattern: Pattern {
            method: method.to_owned(),
            full_path: "/".to_owned(),
            chunks: Vec::new(),
        },
        layers: Vec::new(),
        childs: Vec::new(),
    };
    proof {
        assert(views_of(r.pattern.chunks@) =~= Seq::<Seq<char>>::empty());
    }
    r.add(Resolver::Handler(handler))
}

/// A GET-only route for `handler` at the enclosing path.
pub fn get(handler: u64) -> (r: Node)
    ensures
        r.pattern.method@ == "GET"@,
        r.pattern.full_path@ == "/"@,
        views_of(r.pattern.chunks@) == Seq::<Seq<char>>::empty(),
        r.layers@ == Seq::<u64>::empty(),
        r.childs@ == seq![Resolver::Handler(handler)],
{
    method_leaf("GET", handler)
}

/// A POST-only route for `handler` at the enclosing path.
pub fn post(handler: u64) -> (r: Node)
    ensures
        r.pattern.method@ == "POST"@,
        r.pattern.full_path@ == "/"@,
        views_of(r.pattern.chunks@) == Seq::<Seq<char>>::empty(),
        r.layers@ == Seq::<u64>::empty(),
        r.childs@ == seq![Resolver::Handler(handler)],
{
    method_leaf("POST", handler)
}

/// A PUT-only route for `handler` at the enclosing path.
pub fn put(handler: u64) -> (r: Node)
    ensures
        r.pattern.method@ == "PUT"@,
        r.pattern.full_path@ == "/"@,
        views_of(r.pattern.chunks@) == Seq::<Seq<char>>::empty(),
        r.layers@ == Seq::<u64>::empty(),
        r.childs@ == seq![Resolver::Handler(handler)],
{
    method_leaf("PUT", handler)
}

/// A PATCH-only route for `handler` at the enclosing path.
pub fn patch(handler: u64) -> (r: Node)
    ensures
        r.pattern.method@ == "PATCH"@,
        r.pattern.full_path@ == "/"@,
        views_of(r.pattern.chunks@) == Seq::<Seq<char>>::empty(),
        r.layers@ == Seq::<u64>::empty(),
        r.childs@ == seq![Resolver::Handler(handler)],
{
    method_leaf("PATCH", handler)
}

/// A DELETE-only route for `handler` at the enclosing path.
pub fn delete(handler: u64) -> (r: Node)
    ensures
        r.pattern.method@ == "DELETE"@,
        r.pattern.full_path@ == "/"@,
        views_of(r.pattern.chunks@) == Seq::<Seq<char>>::empty(),
        r.layers@ == Seq::<u64>::empty(),
        r.childs@ == seq![Resolver::Handler(handler)],
{
    method_leaf("DELETE", handler)
}

} // verus!
