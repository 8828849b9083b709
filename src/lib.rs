//! The queue and playback controller of a voice-channel music bot: per-session
//! track queues, the generation-guarded state machine that advances them on
//! skips and end-of-track signals, and the registry of live sessions.
use vstd::prelude::*;

pub mod commands;
pub mod queue;
pub mod registry;
pub mod session;
pub mod track;

verus! {

} // verus!
