//! The pipeline's laws, proved once and for all over the `run_chain` model:
//! onion ordering for both composition strategies, their mirror relation,
//! short-circuiting, single handler execution, error propagation, and the
//! bracketing of every run by its outermost layer.

use vstd::prelude::*;
use crate::http::RequestView;
use crate::middleware::{ActionView, Event, HandlerView, MiddlewareView, PipelineError};
use crate::pipeline::{batch_nesting, run_chain, sequential_nesting, terminal_outcome};

verus! {

/// The before-phase events of a chain, in chain order.
pub open spec fn before_events(chain: Seq<MiddlewareView>) -> Seq<Event> {
    chain.map_values(|m: MiddlewareView| Event::Before(m.id))
}

/// The after-phase events of a chain, in chain order.
pub open spec fn after_events(chain: Seq<MiddlewareView>) -> Seq<Event> {
    chain.map_values(|m: MiddlewareView| Event::After(m.id))
}

/// Whether some middleware of the chain short-circuits.
pub open spec fn has_short_circuit(chain: Seq<MiddlewareView>) -> bool {
    exists|i: int| 0 <= i < chain.len() && (#[trigger] chain[i].action) is ShortCircuit
}

/// Whether every middleware of the chain forwards unchanged.
pub open spec fn all_forward(chain: Seq<MiddlewareView>) -> bool {
    forall|i: int| 0 <= i < chain.len() ==> (#[trigger] chain[i].action) is Forward
}

/// How many times the handler ran, read off the event log.
pub open spec fn exec_count(log: Seq<Event>) -> nat
    decreases log.len(),
{
    if log.len() == 0 {
        0
    } else {
        (if log[0] is Exec {
            1nat
        } else {
            0nat
        }) + exec_count(log.drop_first())
    }
}

proof fn lemma_exec_count_concat(a: Seq<Event>, b: Seq<Event>)
    ensures
        exec_count(a + b) == exec_count(a) + exec_count(b),
    decreases a.len(),
{
    if a.len() == 0 {
        assert(a + b =~= b);
    } else {
        assert((a + b).drop_first() =~= a.drop_first() + b);
        lemma_exec_count_concat(a.drop_first(), b);
    }
}

proof fn lemma_exec_count_single(e: Event)
    ensures
        exec_count(seq![e]) == (if e is Exec {
            1nat
        } else {
            0nat
        }),
{
    assert(seq![e].drop_first() =~= Seq::<Event>::empty());
    assert(exec_count(Seq::<Event>::empty()) == 0);
    assert(seq![e].len() == 1 && seq![e][0] == e);
}

/// Onion execution: when no middleware short-circuits and the handler does
/// not fail, a run logs every layer's before-phase outermost-in, then the
/// handler, then every layer's after-phase innermost-out, and succeeds.
pub proof fn lemma_onion_order(chain: Seq<MiddlewareView>, h: HandlerView, req: RequestView)
    requires
        !has_short_circuit(chain),
        !(h is Fail),
    ensures
        run_chain(chain, h, req).0 == before_events(chain) + seq![Event::Exec] + after_events(
            chain.reverse(),
        ),
        run_chain(chain, h, req).1 is Ok,
    decreases chain.len(),
{
    if chain.len() == 0 {
        assert(run_chain(chain, h, req).0 =~= before_events(chain) + seq![Event::Exec]
            + after_events(chain.reverse()));
    } else {
        let m = chain[0];
        let rest = chain.drop_first();
        assert(!(m.action is ShortCircuit));
        assert forall|i: int| 0 <= i < rest.len() implies !((#[trigger] rest[i].action)
            is ShortCircuit) by {
            assert(rest[i] == chain[i + 1]);
        }
        match m.action {
            ActionView::AddRequestHeader(k, v) => {
                let req2 = (RequestView {
                    method: req.method,
                    path: req.path,
                    headers: req.headers.push((k, v)),
                    body: req.body,
                });
                lemma_onion_order(rest, h, req2);
            },
            _ => {
                lemma_onion_order(rest, h, req);
            },
        }
        assert(before_events(chain) =~= seq![Event::Before(m.id)] + before_events(rest));
        assert(after_events(chain.reverse()) =~= after_events(rest.reverse()) + seq![
            Event::After(m.id),
        ]);
        assert(run_chain(chain, h, req).0 =~= before_events(chain) + seq![Event::Exec]
            + after_events(chain.reverse()));
    }
}

/// A chain of purely forwarding middleware hands the handler's response to
/// the external caller unchanged.
pub proof fn lemma_forward_chain_response(
    chain: Seq<MiddlewareView>,
    h: HandlerView,
    req: RequestView,
)
    requires
        all_forward(chain),
    ensures
        run_chain(chain, h, req).1 == terminal_outcome(h, req),
    decreases chain.len(),
{
    if chain.len() > 0 {
        assert(chain[0].action is Forward);
        lemma_forward_chain_response(chain.drop_first(), h, req);
    }
}

/// Sequential layering (the last declared middleware outermost): the
/// observed before-phase order is the reverse of the declared order, the
/// run succeeds, and the after-phase order is the declared order.
pub proof fn lemma_sequential_ordering(
    declared: Seq<MiddlewareView>,
    h: HandlerView,
    req: RequestView,
)
    requires
        !has_short_circuit(declared),
        !(h is Fail),
    ensures
        run_chain(sequential_nesting(declared), h, req).0 == before_events(declared.reverse())
            + seq![Event::Exec] + after_events(declared),
        run_chain(sequential_nesting(declared), h, req).1 is Ok,
{
    let chain = declared.reverse();
    assert forall|i: int| 0 <= i < chain.len() implies !((#[trigger] chain[i].action)
        is ShortCircuit) by {
        assert(chain[i] == declared[chain.len() - 1 - i]);
    }
    lemma_onion_order(chain, h, req);
    assert(chain.reverse() =~= declared);
}

/// Batch layering (the first declared middleware outermost): the observed
/// before-phase order is the declared order, the run succeeds, and the
/// after-phase order is the reverse of the declared order.
pub proof fn lemma_batch_ordering(declared: Seq<MiddlewareView>, h: HandlerView, req: RequestView)
    requires
        !has_short_circuit(declared),
        !(h is Fail),
    ensures
        run_chain(batch_nesting(declared), h, req).0 == before_events(declared) + seq![
            Event::Exec,
        ] + after_events(declared.reverse()),
        run_chain(batch_nesting(declared), h, req).1 is Ok,
{
    lemma_onion_order(declared, h, req);
}

/// Mirror property: for the same declared list, the nesting order of
/// sequential layering is the exact reverse of the nesting order of batch
/// layering, and vice versa.
pub proof fn lemma_mirror_nesting(declared: Seq<MiddlewareView>)
    requires
        declared.len() >= 2,
    ensures
        sequential_nesting(declared) == batch_nesting(declared).reverse(),
        batch_nesting(declared) == sequential_nesting(declared).reverse(),
{
    assert(declared.reverse().reverse() =~= declared);
}

/// Short-circuit: when the layer at depth `k` answers without delegating
/// (and no outer layer does so earlier), the run succeeds and its log holds
/// exactly the before-phases of the outermost `k + 1` layers and the
/// after-phases of the `k` outer layers - no handler execution and no event
/// of any skipped inner layer.
pub proof fn lemma_short_circuit(
    chain: Seq<MiddlewareView>,
    h: HandlerView,
    req: RequestView,
    k: int,
)
    requires
        0 <= k < chain.len(),
        chain[k].action is ShortCircuit,
        forall|j: int| 0 <= j < k ==> !((#[trigger] chain[j].action) is ShortCircuit),
    ensures
        run_chain(chain, h, req).0 == before_events(chain.take(k + 1)) + after_events(
            chain.take(k).reverse(),
        ),
        !run_chain(chain, h, req).0.contains(Event::Exec),
        run_chain(chain, h, req).1 is Ok,
    decreases k,
{
    let m = chain[0];
    let rest = chain.drop_first();
    if k == 0 {
        assert(run_chain(chain, h, req).0 =~= before_events(chain.take(1)) + after_events(
            chain.take(0).reverse(),
        ));
    } else {
        assert(!(m.action is ShortCircuit));
        assert(rest[k - 1].action is ShortCircuit);
        assert forall|j: int| 0 <= j < k - 1 implies !((#[trigger] rest[j].action)
            is ShortCircuit) by {
            assert(rest[j] == chain[j + 1]);
        }
        match m.action {
            ActionView::AddRequestHeader(kk, vv) => {
                let req2 = (RequestView {
                    method: req.method,
                    path: req.path,
                    headers: req.headers.push((kk, vv)),
                    body: req.body,
                });
                lemma_short_circuit(rest, h, req2, k - 1);
            },
            _ => {
                lemma_short_circuit(rest, h, req, k - 1);
            },
        }
        assert(before_events(chain.take(k + 1)) =~= seq![Event::Before(m.id)] + before_events(
            rest.take(k),
        ));
        assert(after_events(chain.take(k).reverse()) =~= after_events(rest.take(k - 1).reverse())
            + seq![Event::After(m.id)]);
        assert(run_chain(chain, h, req).0 =~= before_events(chain.take(k + 1)) + after_events(
            chain.take(k).reverse(),
        ));
    }
    let log = run_chain(chain, h, req).0;
    let bs = before_events(chain.take(k + 1));
    let afs = after_events(chain.take(k).reverse());
    assert forall|x: int| 0 <= x < log.len() implies !((#[trigger] log[x]) is Exec) by {
        if x < bs.len() {
            assert(log[x] == bs[x]);
        } else {
            assert(log[x] == afs[x - bs.len()]);
        }
    }
}

/// The exact response of a short-circuit behind purely forwarding outer
/// layers: the external caller receives the short-circuiting middleware's
/// own response.
pub proof fn lemma_short_circuit_response(
    chain: Seq<MiddlewareView>,
    h: HandlerView,
    req: RequestView,
    k: int,
    r: crate::http::ResponseView,
)
    requires
        0 <= k < chain.len(),
        chain[k].action == ActionView::ShortCircuit(r),
        forall|j: int| 0 <= j < k ==> (#[trigger] chain[j].action) is Forward,
    ensures
        run_chain(chain, h, req).1 == Ok::<_, PipelineError>(r),
    decreases k,
{
    if k > 0 {
        let rest = chain.drop_first();
        assert(rest[k - 1].action == ActionView::ShortCircuit(r));
        assert forall|j: int| 0 <= j < k - 1 implies (#[trigger] rest[j].action) is Forward by {
            assert(rest[j] == chain[j + 1]);
        }
        lemma_short_circuit_response(rest, h, req, k - 1, r);
    }
}

/// Single invocation: the handler runs exactly once per request when no
/// middleware short-circuits - whatever the chain's length, contents or
/// composition strategy - and not at all when one does.
pub proof fn lemma_handler_runs_once(chain: Seq<MiddlewareView>, h: HandlerView, req: RequestView)
    ensures
        exec_count(run_chain(chain, h, req).0) == (if has_short_circuit(chain) {
            0nat
        } else {
            1nat
        }),
    decreases chain.len(),
{
    if chain.len() == 0 {
        lemma_exec_count_single(Event::Exec);
    } else {
        let m = chain[0];
        let rest = chain.drop_first();
        if m.action is ShortCircuit {
            lemma_exec_count_single(Event::Before(m.id));
            assert(has_short_circuit(chain));
        } else {
            assert(has_short_circuit(chain) == has_short_circuit(rest)) by {
                if has_short_circuit(rest) {
                    let i = choose|i: int|
                        0 <= i < rest.len() && (#[trigger] rest[i].action) is ShortCircuit;
                    assert(chain[i + 1].action is ShortCircuit);
                }
                if has_short_circuit(chain) {
                    let i = choose|i: int|
                        0 <= i < chain.len() && (#[trigger] chain[i].action) is ShortCircuit;
                    assert(i != 0);
                    assert(rest[i - 1].action is ShortCircuit);
                }
            }
            let inner_log = (match m.action {
                ActionView::AddRequestHeader(k, v) => {
                    let req2 = (RequestView {
                        method: req.method,
                        path: req.path,
                        headers: req.headers.push((k, v)),
                        body: req.body,
                    });
                    lemma_handler_runs_once(rest, h, req2);
                    run_chain(rest, h, req2).0
                },
                _ => {
                    lemma_handler_runs_once(rest, h, req);
                    run_chain(rest, h, req).0
                },
            });
            lemma_exec_count_single(Event::Before(m.id));
            lemma_exec_count_single(Event::After(m.id));
            lemma_exec_count_concat(seq![Event::Before(m.id)], inner_log);
            lemma_exec_count_concat(seq![Event::Before(m.id)] + inner_log, seq![
                Event::After(m.id),
            ]);
        }
    }
}

/// Error propagation: through purely forwarding middleware, a handler
/// failure reaches the dispatcher boundary unchanged; every before-phase
/// ran, the handler ran, and no after-phase ran.
pub proof fn lemma_error_propagation(
    chain: Seq<MiddlewareView>,
    code: u64,
    req: RequestView,
)
    requires
        all_forward(chain),
    ensures
        run_chain(chain, HandlerView::Fail(code), req).1 == Err::<crate::http::ResponseView, _>(
            PipelineError::HandlerFailure(code),
        ),
        run_chain(chain, HandlerView::Fail(code), req).0 == before_events(chain) + seq![
            Event::Exec,
        ],
    decreases chain.len(),
{
    let h = HandlerView::Fail(code);
    if chain.len() == 0 {
        assert(run_chain(chain, h, req).0 =~= before_events(chain) + seq![Event::Exec]);
    } else {
        assert(chain[0].action is Forward);
        lemma_error_propagation(chain.drop_first(), code, req);
        assert(before_events(chain) =~= seq![Event::Before(chain[0].id)] + before_events(
            chain.drop_first(),
        ));
        assert(run_chain(chain, h, req).0 =~= before_events(chain) + seq![Event::Exec]);
    }
}

/// Response identity: a successful run is bracketed by its outermost layer.
/// Its first event is that layer's before-phase, and its last event is that
/// layer's after-phase - unless the outermost layer itself short-circuited,
/// in which case its before-phase is the whole log. No layer runs after the
/// outermost layer returns.
pub proof fn lemma_outermost_brackets(chain: Seq<MiddlewareView>, h: HandlerView, req: RequestView)
    requires
        chain.len() > 0,
        run_chain(chain, h, req).1 is Ok,
    ensures
        run_chain(chain, h, req).0.len() > 0,
        run_chain(chain, h, req).0.first() == Event::Before(chain[0].id),
        run_chain(chain, h, req).0.last() == Event::After(chain[0].id) || (chain[0].action
            is ShortCircuit && run_chain(chain, h, req).0 == seq![Event::Before(chain[0].id)]),
{
}

} // verus!
