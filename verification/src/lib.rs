//! Verified core of an issue-automation tool: it models the decisions of a
//! pipeline that reads open issues from a hosted repository, asks a
//! text-generation service for a branch name and a draft fix file, and
//! commits the file back on a per-issue branch.
//!
//! The library holds the logic: slug derivation, response interpretation,
//! status-code decisions, and the orchestration state machine. All network
//! and environment access lives outside, in the surrounding binary.

pub mod chars;
pub mod config;
pub mod errors;
pub mod generation;
pub mod orchestrator;
pub mod slug;
pub mod strutil;
pub mod text;
pub mod tracker;

use vstd::prelude::*;

verus! {

} // verus!
