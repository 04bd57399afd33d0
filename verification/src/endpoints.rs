//! Endpoint request/response types and their stable path bindings.
//!
//! Pure data: the only contract of these types is binary stability — any
//! change to a shape or a path is a breaking protocol change. Bulk buffer
//! operations cap at 32 actions per call, with an explicit count field
//! distinguishing valid payload length from buffer capacity.

use vstd::prelude::*;

use crate::types::{Action, KeyPosition, KeyboardInfo, MatrixState, Version};

verus! {

/// Request to get the action at a specific position.
#[derive(Clone, Copy, PartialEq, Eq, Structural, Debug)]
pub struct GetKeycodeRequest {
    /// Position of the key.
    pub position: KeyPosition,
}

/// Response carrying one key action.
#[derive(Clone, Copy, PartialEq, Eq, Structural, Debug)]
pub struct GetKeycodeResponse {
    /// The action at the requested position.
    pub action: Action,
}

/// Request to set the action at a specific position.
#[derive(Clone, Copy, PartialEq, Eq, Structural, Debug)]
pub struct SetKeycodeRequest {
    /// Position of the key.
    pub position: KeyPosition,
    /// New action to set.
    pub action: Action,
}

/// Response carrying the layer count.
#[derive(Clone, Copy, PartialEq, Eq, Structural, Debug)]
pub struct LayerCountResponse {
    /// Number of layers.
    pub count: u8,
}

/// Request for a bulk read of the flattened keymap.
#[derive(Clone, Copy, PartialEq, Eq, Structural, Debug)]
pub struct BufferRequest {
    /// Starting offset in the flattened index space.
    pub offset: u16,
    /// Number of actions to read, at most 32.
    pub size: u16,
}

/// Response carrying a slice of the flattened keymap.
#[derive(Clone, Copy, PartialEq, Eq, Debug)]
pub struct BufferResponse {
    /// Fixed-size payload; entries beyond `count` are padding.
    pub data: [Action; 32],
    /// How many leading entries of `data` are valid.
    pub count: u16,
}

/// Request for a bulk write of the flattened keymap.
#[derive(Clone, Copy, PartialEq, Eq, Debug)]
pub struct BufferUpdateRequest {
    /// Starting offset in the flattened index space.
    pub offset: u16,
    /// Fixed-size payload; entries beyond `count` are ignored.
    pub data: [Action; 32],
    /// How many leading entries of `data` to write, at most 32.
    pub count: u16,
}

/// Response carrying the protocol version.
#[derive(Clone, Copy, PartialEq, Eq, Structural, Debug)]
pub struct VersionResponse {
    /// Protocol version.
    pub version: Version,
}

/// Response carrying the keyboard descriptor.
#[derive(Clone, Copy, PartialEq, Eq, Structural, Debug)]
pub struct KeyboardInfoResponse {
    /// Keyboard information.
    pub info: KeyboardInfo,
}

/// Response carrying the current matrix state.
#[derive(Clone, PartialEq, Eq, Debug)]
pub struct MatrixStateResponse {
    /// Current matrix state.
    pub state: MatrixState,
}

/// Identity of a known endpoint: each binds a request type, a response type
/// and a stable path.
#[derive(Clone, Copy, PartialEq, Eq, Structural, Debug)]
pub enum EndpointId {
    /// `GetKeycode(position) -> action`.
    GetKeycode,
    /// `SetKeycode(position, action) -> ()`.
    SetKeycode,
    /// `GetLayerCount() -> count`.
    GetLayerCount,
    /// `GetKeymapBuffer(offset, size) -> {data, count}`.
    GetKeymapBuffer,
    /// `SetKeymapBuffer(offset, data, count) -> ()`.
    SetKeymapBuffer,
    /// `GetProtocolVersion() -> version`.
    GetProtocolVersion,
    /// `GetKeyboardInfo() -> descriptor`.
    GetKeyboardInfo,
    /// `JumpBootloader() -> (never returns)`.
    JumpBootloader,
    /// `ResetStorage() -> ()`, delivered with the blocking discipline.
    ResetStorage,
}

/// The stable path bound to each endpoint.
pub open spec fn spec_endpoint_path(ep: EndpointId) -> Seq<char> {
    match ep {
        EndpointId::GetKeycode => "rmk/keymap/get_keycode"@,
        EndpointId::SetKeycode => "rmk/keymap/set_keycode"@,
        EndpointId::GetLayerCount => "rmk/keymap/layer_count"@,
        EndpointId::GetKeymapBuffer => "rmk/keymap/get_buffer"@,
        EndpointId::SetKeymapBuffer => "rmk/keymap/set_buffer"@,
        EndpointId::GetProtocolVersion => "rmk/system/version"@,
        EndpointId::GetKeyboardInfo => "rmk/system/info"@,
        EndpointId::JumpBootloader => "rmk/system/bootloader"@,
        EndpointId::ResetStorage => "rmk/system/reset_storage"@,
    }
}

/// The path identifier of an endpoint, for host-side registries.
pub fn endpoint_path(ep: EndpointId) -> (s: &'static str)
    ensures
        s@ == spec_endpoint_path(ep),
{
    match ep {
        EndpointId::GetKeycode => "rmk/keymap/get_keycode",
        EndpointId::SetKeycode => "rmk/keymap/set_keycode",
        EndpointId::GetLayerCount => "rmk/keymap/layer_count",
        EndpointId::GetKeymapBuffer => "rmk/keymap/get_buffer",
        EndpointId::SetKeymapBuffer => "rmk/keymap/set_buffer",
        EndpointId::GetProtocolVersion => "rmk/system/version",
        EndpointId::GetKeyboardInfo => "rmk/system/info",
        EndpointId::JumpBootloader => "rmk/system/bootloader",
        EndpointId::ResetStorage => "rmk/system/reset_storage",
    }
}

/// The stable numeric opcode each request frame carries to name its
/// endpoint.
pub open spec fn spec_endpoint_key(ep: EndpointId) -> u16 {
    match ep {
        EndpointId::GetKeycode => 1,
        EndpointId::SetKeycode => 2,
        EndpointId::GetLayerCount => 3,
        EndpointId::GetKeymapBuffer => 4,
        EndpointId::SetKeymapBuffer => 5,
        EndpointId::GetProtocolVersion => 6,
        EndpointId::GetKeyboardInfo => 7,
        EndpointId::JumpBootloader => 8,
        EndpointId::ResetStorage => 9,
    }
}

/// The endpoint a wire opcode resolves to, if any.
pub open spec fn spec_endpoint_for_key(key: u16) -> Option<EndpointId> {
    if key == 1 {
        Some(EndpointId::GetKeycode)
    } else if key == 2 {
        Some(EndpointId::SetKeycode)
    } else if key == 3 {
        Some(EndpointId::GetLayerCount)
    } else if key == 4 {
        Some(EndpointId::GetKeymapBuffer)
    } else if key == 5 {
        Some(EndpointId::SetKeymapBuffer)
    } else if key == 6 {
        Some(EndpointId::GetProtocolVersion)
    } else if key == 7 {
        Some(EndpointId::GetKeyboardInfo)
    } else if key == 8 {
        Some(EndpointId::JumpBootloader)
    } else if key == 9 {
        Some(EndpointId::ResetStorage)
    } else {
        None
    }
}

/// The numeric opcode of an endpoint.
pub fn endpoint_key(ep: EndpointId) -> (key: u16)
    ensures
        key == spec_endpoint_key(ep),
{
    match ep {
        EndpointId::GetKeycode => 1,
        EndpointId::SetKeycode => 2,
        EndpointId::GetLayerCount => 3,
        EndpointId::GetKeymapBuffer => 4,
        EndpointId::SetKeymapBuffer => 5,
        EndpointId::GetProtocolVersion => 6,
        EndpointId::GetKeyboardInfo => 7,
        EndpointId::JumpBootloader => 8,
        EndpointId::ResetStorage => 9,
    }
}

/// Resolves a wire opcode to its endpoint; unknown opcodes resolve to
/// nothing and the dispatcher answers them with `InvalidEndpoint`.
pub fn endpoint_for_key(key: u16) -> (ep: Option<EndpointId>)
    ensures
        ep == spec_endpoint_for_key(key),
{
    if key == 1 {
        Some(EndpointId::GetKeycode)
    } else if key == 2 {
        Some(EndpointId::SetKeycode)
    } else if key == 3 {
        Some(EndpointId::GetLayerCount)
    } else if key == 4 {
        Some(EndpointId::GetKeymapBuffer)
    } else if key == 5 {
        Some(EndpointId::SetKeymapBuffer)
    } else if key == 6 {
        Some(EndpointId::GetProtocolVersion)
    } else if key == 7 {
        Some(EndpointId::GetKeyboardInfo)
    } else if key == 8 {
        Some(EndpointId::JumpBootloader)
    } else {
        if key == 9 {
            Some(EndpointId::ResetStorage)
        } else {
            None
        }
    }
}

/// The opcode table is consistent: resolving an endpoint's own opcode gives
/// that endpoint back, and an opcode that resolves carries exactly one
/// endpoint.
pub proof fn lemma_endpoint_key_round_trip(ep: EndpointId, key: u16)
    ensures
        spec_endpoint_for_key(spec_endpoint_key(ep)) == Some(ep),
        spec_endpoint_for_key(key) matches Some(e) ==> spec_endpoint_key(e) == key,
{
}

} // verus!
