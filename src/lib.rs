//! Mirrors the messages of one channel into a git repository, one JSON file
//! per message. The library holds the decisions: which payload of an update
//! counts, whether it comes from the target channel, where the cursor stands,
//! and which repository work a fetched batch calls for. The host process
//! performs the network, file and git operations that those decisions name.
use vstd::prelude::*;

pub mod cursor;
pub mod decimal;
pub mod engine;
pub mod envelope;
pub mod git;
pub mod laws;

verus! {

} // verus!
