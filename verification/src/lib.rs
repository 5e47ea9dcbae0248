//! Core logic of a single-guild chat bot: slash-command dispatch,
//! message-trigger handling (suggestion intake and announcement relay),
//! telemetry and presence text assembly, and the one-time guard that
//! protects the background loops. All functions here carry contracts
//! that pin down the text they produce and the decisions they make;
//! the network and runtime plumbing lives outside this crate.

pub mod commands;
pub mod config;
pub mod guard;
pub mod num;
pub mod presence;
pub mod telemetry;
pub mod text;
pub mod triggers;

use vstd::prelude::*;

verus! {

} // verus!
