//! The pipeline builder and dispatcher.
//!
//! A composed pipeline is an ordered middleware chain nested around a
//! terminal handler. The chain is stored outermost-first, and `run_chain`
//! is the mathematical model of one request passing through it: outer
//! layers' before-phases first, the handler innermost, after-phases
//! unwinding in reverse ("onion" execution).
//!
//! Two composition strategies build a chain from the same declared list and
//! deliberately nest it in opposite orders:
//! - sequential layering (`apply_outermost`, `build_sequential`): each
//!   application wraps everything composed so far, so the *last* declared
//!   middleware becomes outermost;
//! - batch layering (`BatchBuilder`, `build_batch`): the whole list is
//!   composed in one pass and the *first* declared middleware becomes
//!   outermost.

use vstd::prelude::*;
use crate::http::{Request, RequestView, Response, ResponseView};
use crate::middleware::{
    Action, ActionView, Event, Handler, HandlerView, Middleware, MiddlewareView, PipelineError,
};

verus! {

/// The views of a middleware list, element by element.
pub open spec fn views_of(s: Seq<Middleware>) -> Seq<MiddlewareView> {
    s.map_values(|m: Middleware| m@)
}

/// Nesting order (outermost first) that sequential layering gives a
/// declared list: the last declared middleware ends up outermost.
pub open spec fn sequential_nesting(declared: Seq<MiddlewareView>) -> Seq<MiddlewareView> {
    declared.reverse()
}

/// Nesting order (outermost first) that batch layering gives a declared
/// list: the first declared middleware ends up outermost.
pub open spec fn batch_nesting(declared: Seq<MiddlewareView>) -> Seq<MiddlewareView> {
    declared
}

/// What the terminal handler makes of the request that reached it.
pub open spec fn terminal_outcome(h: HandlerView, req: RequestView) -> Result<
    ResponseView,
    PipelineError,
> {
    match h {
        HandlerView::Respond(r) => Ok(r),
        HandlerView::Echo(s) => Ok(
            (ResponseView { status: s, headers: req.headers, body: req.body }),
        ),
        HandlerView::Fail(code) => Err(PipelineError::HandlerFailure(code)),
    }
}

/// The model of one request passing through a chain (outermost first)
/// around a handler: the ordered event log and the outcome.
///
/// An empty chain runs the handler alone. Otherwise the outermost
/// middleware logs its before-phase, acts, and - unless it short-circuits -
/// delegates to the rest of the chain. A middleware that receives a
/// successful (or recovered) inner outcome logs its after-phase; an error
/// it does not recover from propagates outward and skips its after-phase.
pub open spec fn run_chain(
    chain: Seq<MiddlewareView>,
    h: HandlerView,
    req: RequestView,
) -> (Seq<Event>, Result<ResponseView, PipelineError>)
    decreases chain.len(),
{
    if chain.len() == 0 {
        (seq![Event::Exec], terminal_outcome(h, req))
    } else {
        let m = chain[0];
        let rest = chain.drop_first();
        match m.action {
            ActionView::Forward => {
                let inner = run_chain(rest, h, req);
                match inner.1 {
                    Ok(r) => (
                        seq![Event::Before(m.id)] + inner.0 + seq![Event::After(m.id)],
                        Ok(r),
                    ),
                    Err(e) => (seq![Event::Before(m.id)] + inner.0, Err(e)),
                }
            },
            ActionView::ShortCircuit(r) => (seq![Event::Before(m.id)], Ok(r)),
            ActionView::AddRequestHeader(k, v) => {
                let req2 = (RequestView {
                    method: req.method,
                    path: req.path,
                    headers: req.headers.push((k, v)),
                    body: req.body,
                });
                let inner = run_chain(rest, h, req2);
                match inner.1 {
                    Ok(r) => (
                        seq![Event::Before(m.id)] + inner.0 + seq![Event::After(m.id)],
                        Ok(r),
                    ),
                    Err(e) => (seq![Event::Before(m.id)] + inner.0, Err(e)),
                }
            },
            ActionView::SetResponseStatus(s) => {
                let inner = run_chain(rest, h, req);
                match inner.1 {
                    Ok(r) => (
                        seq![Event::Before(m.id)] + inner.0 + seq![Event::After(m.id)],
                        Ok(ResponseView { status: s, headers: r.headers, body: r.body }),
                    ),
                    Err(e) => (seq![Event::Before(m.id)] + inner.0, Err(e)),
                }
            },
            ActionView::Recover(sub) => {
                let inner = run_chain(rest, h, req);
                match inner.1 {
                    Ok(r) => (
                        seq![Event::Before(m.id)] + inner.0 + seq![Event::After(m.id)],
                        Ok(r),
                    ),
                    Err(_) => (
                        seq![Event::Before(m.id)] + inner.0 + seq![Event::After(m.id)],
                        Ok(sub),
                    ),
                }
            },
        }
    }
}

/// The view of a concrete outcome, for relating executable results to
/// `run_chain`.
pub open spec fn outcome_view(
    out: Result<Response, PipelineError>,
) -> Result<ResponseView, PipelineError> {
    match out {
        Ok(r) => Ok(r@),
        Err(e) => Err(e),
    }
}

/// The composed pipeline: a middleware chain (outermost first) around a
/// terminal handler. Built once at startup; each dispatch reads it without
/// mutating it, so concurrent requests are independent.
#[derive(Debug)]
pub struct Pipeline {
    chain: Vec<Middleware>,
    handler: Handler,
}

/// Mathematical view of a `Pipeline`.
#[verifier::ext_equal]
pub struct PipelineView {
    pub chain: Seq<MiddlewareView>,
    pub handler: HandlerView,
}

impl View for Pipeline {
    type V = PipelineView;

    closed spec fn view(&self) -> PipelineView {
        PipelineView { chain: views_of(self.chain@), handler: self.handler@ }
    }
}

impl Pipeline {
    /// A pipeline that is just the handler, with no middleware yet.
    pub fn new(handler: Handler) -> (p: Pipeline)
        ensures
            p@.chain == Seq::<MiddlewareView>::empty(),
            p@.handler == handler@,
    {
        let p = Pipeline { chain: Vec::new(), handler };
        proof {
            assert(p@.chain =~= Seq::<MiddlewareView>::empty());
        }
        p
    }

    /// One step of sequential layering: wrap the whole pipeline composed so
    /// far in `m`, making `m` the new outermost layer.
    pub fn apply_outermost(&mut self, m: Middleware)
        ensures
            final(self)@.chain == seq![m@] + old(self)@.chain,
            final(self)@.handler == old(self)@.handler,
    {
        self.chain.insert(0, m);
        proof {
            assert(views_of(self.chain@) =~= seq![m@] + views_of(old(self).chain@));
        }
    }

    /// The dispatcher: the entry point the external server invokes once per
    /// inbound request. Returns the outcome of the composed pipeline -
    /// exactly the value the outermost layer returned - together with the
    /// ordered event log of this request.
    ///
    /// A dispatch runs to completion: there is no cancellation, so every
    /// layer that delegated inward gets its after-phase unless an
    /// unrecovered failure is propagating past it.
    pub fn dispatch(&self, req: Request) -> (out: (Result<Response, PipelineError>, Vec<Event>))
        ensures
            outcome_view(out.0) == run_chain(self@.chain, self@.handler, req@).1,
            out.1@ == run_chain(self@.chain, self@.handler, req@).0,
    {
        let ghost reqv = req@;
        let mut log: Vec<Event> = Vec::new();
        let outcome = run_from(&self.chain, 0, &self.handler, req, &mut log);
        proof {
            assert(views_of(self.chain@).skip(0) =~= views_of(self.chain@));
            assert(log@ =~= run_chain(self@.chain, self@.handler, reqv).0);
        }
        (outcome, log)
    }
}

/// Runs the chain suffix starting at `i` (the layer currently outermost)
/// around the handler, appending this sub-run's events to the log.
fn run_from(
    chain: &Vec<Middleware>,
    i: usize,
    handler: &Handler,
    req: Request,
    log: &mut Vec<Event>,
) -> (out: Result<Response, PipelineError>)
    requires
        i <= chain@.len(),
    ensures
        outcome_view(out) == run_chain(views_of(chain@).skip(i as int), handler@, req@).1,
        final(log)@ == old(log)@ + run_chain(views_of(chain@).skip(i as int), handler@, req@).0,
    decreases chain@.len() - i,
{
    let ghost cv = views_of(chain@);
    let ghost reqv = req@;
    let ghost model = run_chain(cv.skip(i as int), handler@, reqv);
    if i == chain.len() {
        proof {
            assert(cv.skip(i as int) =~= Seq::<MiddlewareView>::empty());
        }
        log.push(Event::Exec);
        proof {
            assert(log@ =~= old(log)@ + model.0);
        }
        match handler {
            Handler::Respond(r) => Ok(crate::http::copy_response(r)),
            Handler::Echo(s) => Ok(Response { status: *s, headers: req.headers, body: req.body }),
            Handler::Fail(code) => Err(PipelineError::HandlerFailure(*code)),
        }
    } else {
        let m = &chain[i];
        proof {
            assert(cv.skip(i as int) =~= seq![chain@[i as int]@] + cv.skip(i as int + 1));
            assert(cv.skip(i as int)[0] == m@);
            assert(cv.skip(i as int).drop_first() =~= cv.skip(i as int + 1));
        }
        match &m.action {
            Action::Forward => {
                log.push(Event::Before(m.id));
                let inner = run_from(chain, i + 1, handler, req, log);
                match inner {
                    Ok(r) => {
                        log.push(Event::After(m.id));
                        proof {
                            assert(log@ =~= old(log)@ + model.0);
                        }
                        Ok(r)
                    },
                    Err(e) => {
                        proof {
                            assert(log@ =~= old(log)@ + model.0);
                        }
                        Err(e)
                    },
                }
            },
            Action::ShortCircuit(r) => {
                log.push(Event::Before(m.id));
                proof {
                    assert(log@ =~= old(log)@ + model.0);
                }
                Ok(crate::http::copy_response(r))
            },
            Action::AddRequestHeader(k, v) => {
                log.push(Event::Before(m.id));
                let kk = crate::http::copy_string(k);
                let vv = crate::http::copy_string(v);
                let mut req2 = req;
                req2.headers.push((kk, vv));
                proof {
                    assert(req2@ =~= (RequestView {
                        method: reqv.method,
                        path: reqv.path,
                        headers: reqv.headers.push((k@, v@)),
                        body: reqv.body,
                    }));
                }
                let inner = run_from(chain, i + 1, handler, req2, log);
                match inner {
                    Ok(r) => {
                        log.push(Event::After(m.id));
                        proof {
                            assert(log@ =~= old(log)@ + model.0);
                        }
                        Ok(r)
                    },
                    Err(e) => {
                        proof {
                            assert(log@ =~= old(log)@ + model.0);
                        }
                        Err(e)
                    },
                }
            },
            Action::SetResponseStatus(s) => {
                log.push(Event::Before(m.id));
                let inner = run_from(chain, i + 1, handler, req, log);
                match inner {
                    Ok(mut r) => {
                        r.status = *s;
                        log.push(Event::After(m.id));
                        proof {
                            assert(log@ =~= old(log)@ + model.0);
                        }
                        Ok(r)
                    },
                    Err(e) => {
                        proof {
                            assert(log@ =~= old(log)@ + model.0);
                        }
                        Err(e)
                    },
                }
            },
            Action::Recover(sub) => {
                log.push(Event::Before(m.id));
                let inner = run_from(chain, i + 1, handler, req, log);
                match inner {
                    Ok(r) => {
                        log.push(Event::After(m.id));
                        proof {
                            assert(log@ =~= old(log)@ + model.0);
                        }
                        Ok(r)
                    },
                    Err(_) => {
                        log.push(Event::After(m.id));
                        proof {
                            assert(log@ =~= old(log)@ + model.0);
                        }
                        Ok(crate::http::copy_response(sub))
                    },
                }
            },
        }
    }
}

/// Sequential layering, whole-list form: applies the declared list in order, each
/// middleware wrapping everything declared before it, so the last declared
/// middleware is outermost. The nesting is the reverse of the declared
/// order.
pub fn build_sequential(declared: Vec<Middleware>, handler: Handler) -> (p: Pipeline)
    ensures
        p@.chain == sequential_nesting(views_of(declared@)),
        p@.handler == handler@,
{
    let ghost dv = views_of(declared@);
    let mut rest = declared;
    let mut p = Pipeline::new(handler);
    let ghost mut j: int = 0;
    while rest.len() > 0
        invariant
            0 <= j <= dv.len(),
            rest@.len() == dv.len() - j,
            views_of(rest@) == dv.skip(j),
            p@.chain == dv.take(j).reverse(),
            p@.handler == handler@,
        decreases rest@.len(),
    {
        let ghost restv = rest@;
        let m = rest.remove(0);
        proof {
            assert(views_of(restv)[0] == m@);
            assert(m@ == dv[j]);
        }
        p.apply_outermost(m);
        proof {
            assert(rest@ =~= restv.skip(1));
            assert forall|x: int| 0 <= x < rest@.len() implies views_of(rest@)[x] == dv.skip(
                j + 1,
            )[x] by {
                assert(views_of(rest@)[x] == rest@[x]@);
                assert(rest@[x] == restv[x + 1]);
                assert(views_of(restv)[x + 1] == restv[x + 1]@);
                assert(views_of(restv)[x + 1] == dv.skip(j)[x + 1]);
            }
            assert(views_of(rest@) =~= dv.skip(j + 1));
            assert(p@.chain =~= dv.take(j + 1).reverse());
            j = j + 1;
        }
    }
    proof {
        assert(dv.take(j) =~= dv);
    }
    p
}

/// Batch layering: an ordered batch of middleware composed in one pass, with
/// the convention that the middleware added first receives the request
/// first - the first declared middleware is outermost. For the same
/// declared list this is deliberately the mirror image of sequential
/// layering.
#[derive(Debug)]
pub struct BatchBuilder {
    list: Vec<Middleware>,
}

impl View for BatchBuilder {
    type V = Seq<MiddlewareView>;

    closed spec fn view(&self) -> Seq<MiddlewareView> {
        views_of(self.list@)
    }
}

impl BatchBuilder {
    /// An empty batch.
    pub fn new() -> (b: BatchBuilder)
        ensures
            b@ == Seq::<MiddlewareView>::empty(),
    {
        let b = BatchBuilder { list: Vec::new() };
        proof {
            assert(b@ =~= Seq::<MiddlewareView>::empty());
        }
        b
    }

    /// Adds the next middleware of the batch; it will sit just inside all
    /// middleware added before it.
    pub fn add(&mut self, m: Middleware)
        ensures
            final(self)@ == old(self)@.push(m@),
    {
        self.list.push(m);
        proof {
            assert(views_of(self.list@) =~= views_of(old(self).list@).push(m@));
        }
    }

    /// Composes the batch around the handler in one pass: the nesting is
    /// exactly the declared order.
    pub fn build(self, handler: Handler) -> (p: Pipeline)
        ensures
            p@.chain == batch_nesting(self@),
            p@.handler == handler@,
    {
        Pipeline { chain: self.list, handler }
    }
}

/// Batch layering, whole-list form: the declared list becomes the nesting
/// order as it stands.
pub fn build_batch(declared: Vec<Middleware>, handler: Handler) -> (p: Pipeline)
    ensures
        p@.chain == batch_nesting(views_of(declared@)),
        p@.handler == handler@,
{
    Pipeline { chain: declared, handler }
}

} // verus!
