use vstd::prelude::*;

pub mod directory;
pub mod fingerprint;
pub mod gossip;
pub mod pubsub;
pub mod session;
mod topic;
pub mod ui;

verus! {

/// Largest payload, in bytes, that one gossip frame may carry.
pub const MAX_FRAME_SIZE: usize = 65536;

} // verus!
