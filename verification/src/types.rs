//! Core wire data types shared by endpoints, handlers and the event bus.

use vstd::prelude::*;

verus! {

/// Identifies one cell of the keymap grid. A position is only meaningful
/// when `row`, `col` and `layer` are below the configured dimensions; the
/// handlers check this and reject anything else.
#[derive(Clone, Copy, PartialEq, Eq, Structural, Debug)]
pub struct KeyPosition {
    /// Layer number.
    pub layer: u8,
    /// Row number.
    pub row: u8,
    /// Column number.
    pub col: u8,
}

/// What a key does: a tagged value owned by the keymap and copied by value
/// across the protocol boundary.
#[derive(Clone, Copy, PartialEq, Eq, Structural, Debug)]
pub enum Action {
    /// The key does nothing.
    No,
    /// The key falls through to the next lower layer.
    Transparent,
    /// The key sends one keycode.
    Key(u16),
}

/// A semantic version triple.
#[derive(Clone, Copy, PartialEq, Eq, Structural, Debug)]
pub struct Version {
    /// Major version.
    pub major: u16,
    /// Minor version.
    pub minor: u16,
    /// Patch version.
    pub patch: u16,
}

/// Static descriptor of the keyboard: dimensions, versions, lock state.
#[derive(Clone, Copy, PartialEq, Eq, Structural, Debug)]
pub struct KeyboardInfo {
    /// Protocol version the firmware speaks.
    pub protocol_version: Version,
    /// Firmware version.
    pub firmware_version: Version,
    /// Number of matrix rows.
    pub rows: u8,
    /// Number of matrix columns.
    pub cols: u8,
    /// Number of keymap layers.
    pub layers: u8,
    /// Number of rotary encoders.
    pub encoders: u8,
    /// Whether mutation is currently locked.
    pub locked: bool,
}

/// Snapshot of which matrix switches are currently pressed.
#[derive(Clone, PartialEq, Eq, Debug)]
pub struct MatrixState {
    /// One flag per matrix cell, row-major.
    pub pressed: Vec<bool>,
}

/// Request type of endpoints that carry no payload.
#[derive(Clone, Copy, PartialEq, Eq, Structural, Debug)]
pub struct EmptyRequest;

/// Response type of endpoints that answer with no payload.
#[derive(Clone, Copy, PartialEq, Eq, Structural, Debug)]
pub struct EmptyResponse;

} // verus!
