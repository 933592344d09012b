//! A heuristic spam classifier for short texts, with the request counter of the
//! service that exposes it.
use vstd::prelude::*;

pub mod classifier;
pub mod counter;
pub mod service;
pub mod text;

verus! {

} // verus!
