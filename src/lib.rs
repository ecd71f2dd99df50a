//! Protocol types shared by the LLM response channels: the typed response
//! envelope, the adapter from event-stream frames to envelopes, and the
//! capability that extracts plain text from choice-shaped responses.
use vstd::prelude::*;

pub mod annotated;
pub mod choice;
pub mod frame;
pub mod pipeline;

verus! {

/// Identifier of a single vocabulary token.
pub type TokenIdType = u32;

} // verus!
