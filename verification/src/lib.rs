//! Verified control-plane core of a keyboard firmware.
//!
//! The crate has two halves. A binary command/response protocol lets host
//! software inspect and mutate live keyboard state (keymap cells, layers,
//! system metadata): the wire types, the error taxonomy, the byte codec,
//! the endpoint registry and the request handlers all live here, with
//! contracts that pin down validation, bounds checking and persistence
//! policy. Independently, a broadcast event bus fans keyboard events out to
//! peripheral controllers (backlight, display), whose reactions are written
//! as verified state machines; the unverifiable edges (USB framing, SPI,
//! GPIO) stay outside and drive these functions.

use vstd::prelude::*;

pub mod backlight;
pub mod bus;
pub mod codec;
pub mod config;
pub mod controller;
pub mod dispatch;
pub mod endpoints;
pub mod errors;
pub mod event;
pub mod handlers;
pub mod keymap;
pub mod mailbox;
pub mod service;
pub mod topics;
pub mod types;

verus! {

/// Protocol version declared by every request frame and answered by the
/// version endpoint.
pub const PROTOCOL_VERSION_MAJOR: u16 = 1;

/// Minor protocol version.
pub const PROTOCOL_VERSION_MINOR: u16 = 0;

/// Patch protocol version.
pub const PROTOCOL_VERSION_PATCH: u16 = 0;

/// Major firmware version.
pub const FIRMWARE_VERSION_MAJOR: u16 = 0;

/// Minor firmware version.
pub const FIRMWARE_VERSION_MINOR: u16 = 7;

/// Patch firmware version.
pub const FIRMWARE_VERSION_PATCH: u16 = 8;

} // verus!
