//! A verified HTTP middleware pipeline: an ordered stack of interceptors
//! around a terminal handler, executed in "onion" order - outer layers'
//! pre-processing first, the handler innermost, post-processing unwinding
//! in reverse.
//!
//! Two composition strategies build a pipeline from the same declared
//! middleware list and deliberately nest it in opposite orders: sequential
//! layering makes the last declared middleware outermost, batch layering
//! the first. `laws` proves both orderings, their mirror relation,
//! short-circuiting, single handler execution and error propagation over
//! the dispatch model once and for all.
//!
//! Transport - listening, parsing, delivering responses - belongs to an
//! external server collaborator; the pipeline consumes an already-parsed
//! request value and returns a response value.

pub mod http;
pub mod middleware;
pub mod laws;
pub mod pipeline;

use vstd::prelude::*;

verus! {

} // verus!
