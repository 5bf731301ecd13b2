//! Middleware execution order. A middleware may run logic before and after
//! its continuation; the stack compiler folds the registered layers from
//! innermost to outermost around the terminal handler. This module models
//! that fold and proves it yields the onion ordering: layers enter in
//! registration order on the way in and leave in reverse order on the way
//! out. The asynchronous continuations themselves live with the embedding
//! application, which builds them by the same fold.

use vstd::prelude::*;

verus! {

/// One observable step of a middleware stack run: a layer's work before
/// its continuation, the terminal handler, or a layer's work after.
#[derive(Clone, Copy, PartialEq, Eq, Structural, Debug)]
pub enum MwEvent {
    Enter(u64),
    Handler,
    Exit(u64),
}

/// The onion ordering for the given layers: every layer enters in
/// registration order, the handler runs, and every layer exits in reverse
/// registration order.
pub open spec fn onion_trace(layers: Seq<u64>) -> Seq<MwEvent> {
    Seq::new(layers.len(), |i: int| MwEvent::Enter(layers[i])) + seq![MwEvent::Handler] + Seq::new(
        layers.len(),
        |i: int| MwEvent::Exit(layers[layers.len() - 1 - i]),
    )
}

/// Appends the events of `src` to `dst`.
fn push_events(dst: &mut Vec<MwEvent>, src: &Vec<MwEvent>)
    ensures
        final(dst)@ == old(dst)@ + src@,
{
    let mut i: usize = 0;
    while i < src.len()
        invariant
            i <= src@.len(),
            dst@ == old(dst)@ + src@.take(i as int),
        decreases src@.len() - i,
    {
        dst.push(src[i]);
        proof {
            assert(old(dst)@ + src@.take(i + 1) =~= (old(dst)@ + src@.take(i as int)).push(
                src@[i as int],
            ));
        }
        i += 1;
    }
    proof {
        assert(old(dst)@ + src@.take(src@.len() as int) =~= old(dst)@ + src@);
    }
}

/// Law: compiling the middleware stack — starting from the bare handler
/// and, iterating the layers in reverse registration order, wrapping the
/// chain so far in the next layer — produces exactly the onion trace.
pub fn stack_order(layers: &Vec<u64>) -> (r: Vec<MwEvent>)
    ensures
        r@ == onion_trace(layers@),
{
    let n = layers.len();
    let mut trace: Vec<MwEvent> = Vec::new();
    trace.push(MwEvent::Handler);
    proof {
        assert(trace@ =~= onion_trace(layers@.subrange(n as int, n as int)));
    }
    let mut i: usize = n;
    while i > 0
        invariant
            n == layers@.len(),
            i <= n,
            trace@ == onion_trace(layers@.subrange(i as int, n as int)),
        decreases i,
    {
        i = i - 1;
        let mut wrapped: Vec<MwEvent> = Vec::new();
        wrapped.push(MwEvent::Enter(layers[i]));
        push_events(&mut wrapped, &trace);
        wrapped.push(MwEvent::Exit(layers[i]));
        proof {
            assert(wrapped@ =~= onion_trace(layers@.subrange(i as int, n as int)));
        }
        trace = wrapped;
    }
    proof {
        assert(layers@.subrange(0, n as int) =~= layers@);
    }
    trace
}

/// Law: the onion trace for layers [a, b, ...] reads, position by
/// position, as every layer entering in registration order, then the
/// handler, then every layer exiting in reverse order.
pub proof fn lemma_onion_order(layers: Seq<u64>)
    ensures
        onion_trace(layers).len() == 2 * layers.len() + 1,
        forall|i: int|
            0 <= i < layers.len() ==> onion_trace(layers)[i] == MwEvent::Enter(layers[i]),
        onion_trace(layers)[layers.len() as int] == MwEvent::Handler,
        forall|i: int|
            0 <= i < layers.len() ==> onion_trace(layers)[layers.len() + 1 + i] == MwEvent::Exit(
                #[trigger] layers[layers.len() - 1 - i],
            ),
{
}

} // verus!
