//! Usage tracking engine: per-application usage records, milestone badges,
//! the merge rules of the persisted record file, the application state with
//! its reducer, and the decision steps of the tracker and supervisor loops.
use vstd::prelude::*;

pub mod badges;
pub mod track_log;
pub mod persistence;
pub mod process;
pub mod state;
pub mod store;
pub mod user;
pub mod laws;
pub mod tracker;
pub mod supervisor;
pub mod views;

verus! {

} // verus!
