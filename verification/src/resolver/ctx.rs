//! Per-attempt resolution state: the remaining path segments, the captures
//! accumulated so far, and the middleware layers collected on the way down.
//! Nesting copies state for a speculative descent; a parent only absorbs a
//! nested context once the subtree below it has matched.

use vstd::prelude::*;

use crate::http::Request;
use crate::params::pairs_view;
use crate::text::segments_of;
use crate::text::split_segments;
use crate::text::views_of;

verus! {

/// The abstract state of a resolution context.
#[verifier::ext_equal]
pub struct CtxView {
    pub method: Seq<char>,
    pub segments: Seq<Seq<char>>,
    pub params: Seq<(Seq<char>, Seq<char>)>,
    pub layers: Seq<u64>,
}

/// One resolution attempt's mutable state.
pub struct ResolveContext {
    /// The method of the request being resolved.
    pub method: String,
    /// Path segments not yet consumed by any pattern.
    pub path_segments: Vec<String>,
    /// Parameters captured so far, later captures winning.
    pub params: Vec<(String, String)>,
    /// Middleware layers accumulated outer to inner.
    pub layers: Vec<u64>,
}

impl View for ResolveContext {
    type V = CtxView;

    open spec fn view(&self) -> CtxView {
        CtxView {
            method: self.method@,
            segments: views_of(self.path_segments@),
            params: pairs_view(self.params@),
            layers: self.layers@,
        }
    }
}

/// Copies a list of middleware identifiers.
pub(crate) fn copy_layers(v: &Vec<u64>) -> (r: Vec<u64>)
    ensures
        r@ == v@,
{
    let mut r: Vec<u64> = Vec::new();
    let mut i: usize = 0;
    while i < v.len()
        invariant
            i <= v@.len(),
            r@ == v@.take(i as int),
        decreases v@.len() - i,
    {
        r.push(v[i]);
        proof {
            assert(v@.take(i + 1) =~= v@.take(i as int).push(v@[i as int]));
        }
        i += 1;
    }
    proof {
        assert(v@.take(v@.len() as int) =~= v@);
    }
    r
}

/// Appends a list of middleware identifiers to another.
pub(crate) fn extend_layers(dst: &mut Vec<u64>, src: &Vec<u64>)
    ensures
        final(dst)@ == old(dst)@ + src@,
{
    let mut i: usize = 0;
    while i < src.len()
        invariant
            i <= src@.len(),
            dst@ == old(dst)@ + src@.take(i as int),
        decreases src@.len() - i,
    {
        dst.push(src[i]);
        proof {
            assert(old(dst)@ + src@.take(i + 1) =~= (old(dst)@ + src@.take(i as int)).push(
                src@[i as int],
            ));
        }
        i += 1;
    }
    proof {
        assert(old(dst)@ + src@.take(src@.len() as int) =~= old(dst)@ + src@);
    }
}

impl ResolveContext {
    /// A fresh context for one request: the path split into its non-empty
    /// segments, no captures, no layers.
    pub fn new(req: &Request) -> (r: ResolveContext)
        ensures
            r@ == (CtxView {
                method: req.method@,
                segments: segments_of(req.path@),
                params: Seq::<(Seq<char>, Seq<char>)>::empty(),
                layers: Seq::<u64>::empty(),
            }),
    {
        let r = ResolveContext {
            method: req.method.clone(),
            path_segments: split_segments(req.path.as_str()),
            params: Vec::new(),
            layers: Vec::new(),
        };
        proof {
            assert(pairs_view(r.params@) =~= Seq::<(Seq<char>, Seq<char>)>::empty());
        }
        r
    }

    /// Records one captured parameter.
    pub fn add_param(&mut self, key: String, value: String)
        ensures
            final(self)@ == (CtxView {
                params: old(self)@.params.push((key@, value@)),
                ..old(self)@
            }),
    {
        crate::params::push_param(&mut self.params, key, value);
    }

    /// A nested context for descending into a subtree: the given segments
    /// and captures, and the parent's layers followed by `more_layers`.
    /// The parent itself is left untouched.
    pub fn nest(&self, path_segments: Vec<String>, params: Vec<(String, String)>, more_layers: &Vec<u64>) -> (r: ResolveContext)
        ensures
            r@ == (CtxView {
                method: self@.method,
                segments: views_of(path_segments@),
                params: pairs_view(params@),
                layers: self@.layers + more_layers@,
            }),
    {
        let mut layers = copy_layers(&self.layers);
        extend_layers(&mut layers, more_layers);
        ResolveContext { method: self.method.clone(), path_segments, params, layers }
    }

    /// Adopts a nested context's final state after its subtree matched.
    pub fn absorb(&mut self, another: ResolveContext)
        ensures
            final(self)@ == another@,
    {
        self.method = another.method;
        self.path_segments = another.path_segments;
        self.params = another.params;
        self.layers = another.layers;
    }
}

} // verus!
