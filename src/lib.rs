//! Competitive submission engine for burn registrations.
//!
//! The engine decides; its caller performs. Every decision of the engine is a
//! verified function from a state and an event to a new state and an action:
//! the caller connects, subscribes to heads, polls the pending pool and
//! broadcasts, then reports back what happened as the next event.
use vstd::prelude::*;

pub mod bid;
pub mod endpoint;
pub mod extrinsic;
pub mod mempool;
pub mod outcome;
pub mod engine;
pub mod laws;
