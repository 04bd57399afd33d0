//! Topics: one-way messages, in either direction, sharing the endpoint
//! registry mechanism.
//!
//! This revision defines no active topics; the registry exists so that
//! adding one is a new entry, not a new mechanism, and so that the
//! dispatcher can already refuse one-way opcodes it does not know.

use vstd::prelude::*;

verus! {

/// Which way a one-way message travels.
#[derive(Clone, Copy, PartialEq, Eq, Structural, Debug)]
pub enum TopicDirection {
    /// Client to firmware.
    ToServer,
    /// Firmware to client.
    ToClient,
}

/// The topic a wire opcode resolves to in the given direction. The active
/// list is empty in this revision, so every opcode resolves to nothing, in
/// both directions.
pub fn topic_for_key(direction: TopicDirection, key: u16) -> (t: Option<u16>)
    ensures
        t is None,
{
    match direction {
        TopicDirection::ToServer => None,
        TopicDirection::ToClient => None,
    }
}

} // verus!
