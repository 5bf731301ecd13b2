//! A standalone pattern gate usable in front of a handler: it performs the
//! same chunk matching as a tree node, but commits captures and consumed
//! segments directly onto the context when the whole pattern matches.
//!
//! Known discrepancy, kept on purpose: unlike node matching, this check
//! tests the wildcard only after the literal comparison and so would let a
//! wildcard match mid-pattern; pattern parsing rejects non-final wildcards
//! at construction, so the case is unreachable for parsed patterns.

use vstd::prelude::*;

use crate::params::pairs_view;
use crate::params::push_param;
use crate::pattern::Pattern;
use crate::pattern::chunk_dynamic_name;
use crate::pattern::chunk_is_wildcard;
use crate::pattern::dynamic_name;
use crate::pattern::is_dynamic_chunk;
use crate::pattern::is_wildcard_chunk;
use crate::pattern::spec_parse;
use crate::resolver::ctx::CtxView;
use crate::resolver::ctx::ResolveContext;
use crate::resolver::node::method_allows;
use crate::text::copy_strings_from;
use crate::text::join_from;
use crate::text::join_segments;
use crate::text::str_eq;
use crate::text::views_of;

verus! {

/// A gate that admits a request only when its remaining path matches one
/// pattern.
pub struct PatternGuard {
    pub pattern: Pattern,
}

/// Matches the guard's chunks from index `i` against the leading
/// segments. The order differs from node matching: a dynamic chunk
/// captures, a literal must equal its segment, and only then is the
/// wildcard tested — capturing every remaining segment, the compared one
/// included.
pub open spec fn guard_match(
    chunks: Seq<Seq<char>>,
    i: int,
    segs: Seq<Seq<char>>,
    params: Seq<(Seq<char>, Seq<char>)>,
) -> Option<(Seq<(Seq<char>, Seq<char>)>, Seq<Seq<char>>)>
    decreases chunks.len() - i,
{
    if i < 0 || i >= chunks.len() {
        Some((params, segs))
    } else if segs.len() == 0 {
        None
    } else if is_dynamic_chunk(chunks[i]) {
        guard_match(chunks, i + 1, segs.skip(1), params.push((dynamic_name(chunks[i]), segs[0])))
    } else if chunks[i] == segs[0] {
        guard_match(chunks, i + 1, segs.skip(1), params)
    } else if is_wildcard_chunk(chunks[i]) {
        Some((params.push(("*"@, join_segments(segs))), Seq::empty()))
    } else {
        None
    }
}

/// Appends the captures of `src` to `dst`.
fn append_params(dst: &mut Vec<(String, String)>, src: Vec<(String, String)>)
    ensures
        final(dst)@ == old(dst)@ + src@,
        pairs_view(final(dst)@) == pairs_view(old(dst)@) + pairs_view(src@),
{
    let mut i: usize = 0;
    let n = src.len();
    let rest = src;
    proof {
        assert(dst@ =~= old(dst)@ + rest@.take(0));
    }
    while i < n
        invariant
            n == rest@.len(),
            i <= n,
            dst@ == old(dst)@ + rest@.take(i as int),
        decreases n - i,
    {
        let pair = (rest[i].0.clone(), rest[i].1.clone());
        proof {
            assert(pair == rest@[i as int]);
            assert(old(dst)@ + rest@.take(i + 1) =~= (old(dst)@ + rest@.take(i as int)).push(
                rest@[i as int],
            ));
        }
        dst.push(pair);
        i += 1;
    }
    proof {
        assert(rest@.take(n as int) =~= rest@);
        assert(pairs_view(dst@) =~= pairs_view(old(dst)@) + pairs_view(rest@));
    }
}

impl PatternGuard {
    /// Builds a guard from a pattern string, which must be well-formed —
    /// malformed patterns are rejected at construction, never at check
    /// time.
    pub fn new(pattern: &str) -> (r: PatternGuard)
        requires
            spec_parse(pattern@) is Ok,
        ensures
            r.pattern.method@ == (spec_parse(pattern@)->Ok_0).0,
            r.pattern.full_path@ == (spec_parse(pattern@)->Ok_0).1,
            views_of(r.pattern.chunks@) == (spec_parse(pattern@)->Ok_0).2,
    {
        match Pattern::parse(pattern) {
            Ok(p) => PatternGuard { pattern: p },
            Err(_) => vstd::pervasive::unreached(),
        }
    }

    /// Builds a guard from a pattern string if it is well-formed, and
    /// nothing otherwise.
    pub fn try_new(pattern: &str) -> (r: Option<PatternGuard>)
        ensures
            match r {
                Some(g) => spec_parse(pattern@) is Ok && g.pattern.method@ == (spec_parse(
                    pattern@,
                )->Ok_0).0 && g.pattern.full_path@ == (spec_parse(pattern@)->Ok_0).1 && views_of(
                    g.pattern.chunks@,
                ) == (spec_parse(pattern@)->Ok_0).2,
                None => spec_parse(pattern@) is Err,
            },
    {
        match Pattern::parse(pattern) {
            Ok(_) => Some(PatternGuard::new(pattern)),
            Err(_) => None,
        }
    }

    /// Tests whether the context's remaining path matches this guard's
    /// pattern. On a match the captures are appended to the context's
    /// parameters and the matched segments are consumed; on a mismatch
    /// the context is left exactly as it was. Never an error: pattern
    /// validity was settled at construction.
    pub fn check(&self, ctx: &mut ResolveContext) -> (r: bool)
        ensures
            ({
                let m = guard_match(
                    views_of(self.pattern.chunks@),
                    0,
                    old(ctx)@.segments,
                    Seq::<(Seq<char>, Seq<char>)>::empty(),
                );
                if !method_allows(self.pattern.method@, old(ctx)@.method) {
                    r == false && final(ctx)@ == old(ctx)@
                } else {
                    match m {
                        Some(committed) => r == true && final(ctx)@ == (CtxView {
                            segments: committed.1,
                            params: old(ctx)@.params + committed.0,
                            ..old(ctx)@
                        }),
                        None => r == false && final(ctx)@ == old(ctx)@,
                    }
                }
            }),
    {
        if !(str_eq(ctx.method.as_str(), self.pattern.method.as_str()) || str_eq(
            self.pattern.method.as_str(),
            "ALL",
        )) {
            return false;
        }
        let ghost cs = views_of(self.pattern.chunks@);
        let ghost ss = ctx@.segments;
        let mut params: Vec<(String, String)> = Vec::new();
        let n_ch = self.pattern.chunks.len();
        let segs_len = ctx.path_segments.len();
        let mut i: usize = 0;
        let mut j: usize = 0;
        proof {
            assert(ss.skip(0) =~= ss);
            assert(pairs_view(params@) =~= Seq::<(Seq<char>, Seq<char>)>::empty());
        }
        while i < n_ch
            invariant
                cs == views_of(self.pattern.chunks@),
                ss == ctx@.segments,
                ctx@ == old(ctx)@,
                method_allows(self.pattern.method@, old(ctx)@.method),
                n_ch == cs.len(),
                segs_len == ss.len(),
                i <= n_ch,
                j <= segs_len,
                guard_match(cs, 0, ss, Seq::<(Seq<char>, Seq<char>)>::empty()) == guard_match(
                    cs,
                    i as int,
                    ss.skip(j as int),
                    pairs_view(params@),
                ),
            decreases n_ch - i,
        {
            proof {
                assert(cs[i as int] == self.pattern.chunks@[i as int]@);
            }
            let chunk = &self.pattern.chunks[i];
            if j >= segs_len {
                return false;
            }
            proof {
                assert(ss.skip(j as int)[0] == ss[j as int]);
                assert(ss[j as int] == ctx.path_segments@[j as int]@);
                assert(ss.skip(j as int).skip(1) =~= ss.skip(j + 1));
            }
            match chunk_dynamic_name(chunk.as_str()) {
                Some(name) => {
                    push_param(&mut params, name, ctx.path_segments[j].clone());
                    i += 1;
                    j += 1;
                },
                None => {
                    if str_eq(chunk.as_str(), ctx.path_segments[j].as_str()) {
                        i += 1;
                        j += 1;
                    } else if chunk_is_wildcard(chunk.as_str()) {
                        let captured = join_from(&ctx.path_segments, j);
                        let ghost pv_before = pairs_view(params@);
                        proof {
                            assert(views_of(ctx.path_segments@).skip(j as int) =~= ss.skip(
                                j as int,
                            ));
                            assert(guard_match(cs, i as int, ss.skip(j as int), pv_before)
                                == Some(
                                (
                                    pv_before.push(("*"@, join_segments(ss.skip(j as int)))),
                                    Seq::<Seq<char>>::empty(),
                                ),
                            ));
                        }
                        push_param(&mut params, "*".to_owned(), captured);
                        proof {
                            assert(pairs_view(params@) == pv_before.push(("*"@, captured@)));
                        }
                        let emptied: Vec<String> = Vec::new();
                        proof {
                            assert(views_of(emptied@) =~= Seq::<Seq<char>>::empty());
                            assert(guard_match(cs, 0, ss, Seq::<(Seq<char>, Seq<char>)>::empty())
                                == Some((pairs_view(params@), Seq::<Seq<char>>::empty())));
                        }
                        let ghost committed_params = pairs_view(params@);
                        append_params(&mut ctx.params, params);
                        ctx.path_segments = emptied;
                        proof {
                            assert(ctx@ =~= (CtxView {
                                segments: Seq::<Seq<char>>::empty(),
                                params: old(ctx)@.params + committed_params,
                                ..old(ctx)@
                            }));
                        }
                        return true;
                    } else {
                        return false;
                    }
                },
            }
        }
        let remaining = copy_strings_from(&ctx.path_segments, j);
        proof {
            assert(views_of(remaining@) =~= ss.skip(j as int));
        }
        let ghost committed_params = pairs_view(params@);
        append_params(&mut ctx.params, params);
        ctx.path_segments = remaining;
        proof {
            assert(ctx@ =~= (CtxView {
                segments: ss.skip(j as int),
                params: old(ctx)@.params + committed_params,
                ..old(ctx)@
            }));
        }
        true
    }
}

} // verus!
