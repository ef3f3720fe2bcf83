//! Orchestration of non-uniform folding proofs: the folding configuration,
//! the sequential fold schedule, the verdict of a verification, and the
//! per-shape cache keys that guard reusable setup parameters.
use vstd::prelude::*;

pub mod cache;
pub mod config;
pub mod error;
pub mod fold;
pub mod verify;

verus! {

} // verus!
