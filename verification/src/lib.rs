//! Verified core of a per-mission chat backend: a registry of broadcast
//! rooms keyed by mission, the per-connection relay decisions that sit
//! between a duplex socket and a room, and the JSON framing of the
//! broadcast envelope.

pub mod channel;
pub mod clock;
pub mod config;
pub mod envelope;
pub mod parse;
pub mod registry;
pub mod relay;
pub mod responses;
pub mod text;
pub mod viewing;

use vstd::prelude::*;

verus! {

} // verus!
