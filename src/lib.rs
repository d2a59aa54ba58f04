//! A chat-driven audio playback controller: chat commands are parsed into
//! intents, a single-stream orchestrator decides which pipeline runs, and each
//! pipeline turns raw PCM into compressed frames.
use vstd::prelude::*;

pub mod command;
pub mod orchestrator;
pub mod pipeline;

verus! {

} // verus!
