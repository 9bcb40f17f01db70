//! Middleware and handler capabilities, the ordered log of observable
//! events, and the pipeline's error taxonomy.
//!
//! A middleware receives the request together with "the rest of the
//! pipeline"; it either delegates inward exactly once (optionally editing
//! the request on the way down or the response on the way up), recovers
//! from an inner failure, or short-circuits with a response of its own.
//! Each unit is a tagged variant, so the composed call chain is a fixed
//! value built once at startup.

use vstd::prelude::*;
use crate::http::{Response, ResponseView};

verus! {

/// One line of the injected, append-only log sink: which layer ran, and in
/// which phase. The exact order of these events is the externally
/// observable proof of the nesting order.
#[derive(Clone, Copy, Debug, PartialEq, Eq, Structural)]
pub enum Event {
    /// A middleware's pre-processing phase, before it delegated inward.
    Before(u64),
    /// The terminal handler ran.
    Exec,
    /// A middleware's post-processing phase, after its delegate returned.
    After(u64),
}

/// Failures intrinsic to the pipeline. Short-circuiting is deliberately not
/// here: a middleware answering without delegating is a valid outcome, not
/// an error. Transport failures belong to the external server.
#[derive(Clone, Copy, Debug, PartialEq, Eq, Structural)]
pub enum PipelineError {
    /// The terminal handler could not produce a response; the code
    /// identifies the failure. It propagates outward through every layer
    /// unless one of them recovers.
    HandlerFailure(u64),
}

/// What a middleware does with the request and with its delegate.
#[derive(Debug)]
pub enum Action {
    /// Delegate inward unchanged and return the inner result unchanged.
    Forward,
    /// Return this response at once; inner layers and the handler never run.
    ShortCircuit(Response),
    /// Append one header to the request, then delegate inward.
    AddRequestHeader(String, String),
    /// Delegate inward, then override the status of a successful response.
    SetResponseStatus(u16),
    /// Delegate inward; if the delegate fails, substitute this response.
    Recover(Response),
}

/// One interceptor: an identity (tagging its log lines) and its behaviour.
#[derive(Debug)]
pub struct Middleware {
    pub id: u64,
    pub action: Action,
}

/// The terminal unit of work: given the request that reached the innermost
/// layer, produces a response, or fails with a code that propagates outward
/// as `PipelineError::HandlerFailure`.
#[derive(Debug)]
pub enum Handler {
    /// Respond with this fixed response, whatever the request.
    Respond(Response),
    /// Respond with this status, echoing the request's headers and body -
    /// so what the middleware passed inward is visible to the caller.
    Echo(u16),
    /// Fail with this code.
    Fail(u64),
}

/// Mathematical view of an `Action`.
pub enum ActionView {
    Forward,
    ShortCircuit(ResponseView),
    AddRequestHeader(Seq<char>, Seq<char>),
    SetResponseStatus(u16),
    Recover(ResponseView),
}

/// Mathematical view of a `Middleware`.
pub struct MiddlewareView {
    pub id: u64,
    pub action: ActionView,
}

/// Mathematical view of a `Handler`.
pub enum HandlerView {
    Respond(ResponseView),
    Echo(u16),
    Fail(u64),
}

impl View for Action {
    type V = ActionView;

    open spec fn view(&self) -> ActionView {
        match self {
            Action::Forward => ActionView::Forward,
            Action::ShortCircuit(r) => ActionView::ShortCircuit(r@),
            Action::AddRequestHeader(k, v) => ActionView::AddRequestHeader(k@, v@),
            Action::SetResponseStatus(s) => ActionView::SetResponseStatus(*s),
            Action::Recover(r) => ActionView::Recover(r@),
        }
    }
}

impl View for Middleware {
    type V = MiddlewareView;

    open spec fn view(&self) -> MiddlewareView {
        MiddlewareView { id: self.id, action: self.action@ }
    }
}

impl View for Handler {
    type V = HandlerView;

    open spec fn view(&self) -> HandlerView {
        match self {
            Handler::Respond(r) => HandlerView::Respond(r@),
            Handler::Echo(s) => HandlerView::Echo(*s),
            Handler::Fail(code) => HandlerView::Fail(*code),
        }
    }
}

} // verus!
