//! The dispatcher: an explicit registry from wire opcodes to handlers.
//!
//! A request frame declares a protocol version, names an endpoint by opcode
//! and carries the request payload. The dispatcher rejects a version other
//! than the firmware's with `ProtocolVersionMismatch` and an unknown opcode
//! with `InvalidEndpoint`; a payload that does not parse as the endpoint's
//! request type is answered with `TransportError`. Otherwise it decodes,
//! invokes the bound handler against the shared context, and encodes the
//! result: a reply payload starts with `0` for success or `1` followed by
//! the error encoding.

use vstd::prelude::*;

use crate::codec::{
    decode_buffer_request, decode_buffer_update_request, decode_get_keycode_request,
    decode_set_keycode_request, encode_buffer_response, encode_error,
    encode_get_keycode_response, encode_keyboard_info_response, encode_layer_count_response,
    encode_version_response, spec_encode_actions, spec_encode_error,
    spec_encode_keyboard_info_response, spec_encode_varint, spec_encode_version,
    spec_parse_buffer_request, spec_parse_buffer_update_request, spec_parse_get_keycode_request,
    spec_parse_set_keycode_request,
};
use crate::endpoints::{
    endpoint_for_key, BufferRequest, EndpointId, GetKeycodeRequest, KeyboardInfoResponse,
    SetKeycodeRequest,
};
use crate::errors::RmkError;
use crate::handlers::{
    handle_get_keycode, handle_get_keymap_buffer, handle_get_keyboard_info,
    handle_get_layer_count, handle_get_protocol_version, handle_reset_storage, handle_set_keycode,
    handle_set_keymap_buffer, spec_bulk_accepted, spec_bulk_commands,
    spec_invalid_position_error, spec_firmware_version, spec_protocol_version,
};
use crate::keymap::KeyMap;
use crate::mailbox::FlashOperationMessage;
use crate::service::RmkContext;
use crate::types::{Action, KeyboardInfo};
use crate::PROTOCOL_VERSION_MAJOR;

verus! {

/// One framed request as the transport hands it over: the declared protocol
/// version, the endpoint opcode, and the request payload bytes.
#[derive(Clone, Debug)]
pub struct Frame {
    /// Protocol version the client speaks.
    pub version: u16,
    /// Opcode naming the endpoint.
    pub key: u16,
    /// Encoded request payload.
    pub payload: Vec<u8>,
}

/// What one dispatch produces.
#[derive(Clone, Debug)]
pub enum DispatchOutcome {
    /// Reply bytes to send back to the host.
    Reply(Vec<u8>),
    /// The host asked for the bootloader: the caller must reset the device
    /// and never send a response — the connection is terminated.
    JumpBootloader,
    /// A blocking enqueue found the mailbox saturated: the caller must let
    /// the storage consumer drain and dispatch the same frame again; no
    /// response may be sent yet.
    Busy,
}

/// A success reply: a leading `0`, then the response payload.
pub open spec fn spec_ok_reply(payload: Seq<u8>) -> Seq<u8> {
    seq![0u8] + payload
}

/// A failure reply: a leading `1`, then the error encoding.
pub open spec fn spec_err_reply(e: RmkError) -> Seq<u8> {
    seq![1u8] + spec_encode_error(e)
}

/// The reply `GetKeycode` owes for a parsed request.
pub open spec fn spec_get_keycode_reply(km: KeyMap, req: GetKeycodeRequest) -> Seq<u8> {
    if km.spec_valid_pos(req.position) {
        spec_ok_reply(crate::codec::spec_encode_action(km.spec_action_at(req.position)))
    } else {
        spec_err_reply(spec_invalid_position_error(req.position))
    }
}

/// The reply `SetKeycode` owes for a parsed request.
pub open spec fn spec_set_keycode_reply(km: KeyMap, req: SetKeycodeRequest) -> Seq<u8> {
    if km.spec_valid_pos(req.position) {
        spec_ok_reply(Seq::<u8>::empty())
    } else {
        spec_err_reply(spec_invalid_position_error(req.position))
    }
}

/// What a successful bulk read hands back in its 32 slots: the addressed
/// cells in order, then unassigned-key padding.
pub open spec fn spec_buffer_data(km: KeyMap, req: BufferRequest) -> Seq<Action> {
    Seq::new(
        32,
        |j: int|
            if 0 <= j < req.size {
                km.spec_actions()[req.offset + j]
            } else {
                Action::No
            },
    )
}

/// The reply `GetKeymapBuffer` owes for a parsed request.
pub open spec fn spec_buffer_read_reply(km: KeyMap, req: BufferRequest) -> Seq<u8> {
    if req.size > 32 {
        spec_err_reply(RmkError::InsufficientSpace { required: req.size as u32, available: 32u32 })
    } else if req.offset + req.size > km.spec_capacity() {
        spec_err_reply(
            RmkError::InsufficientSpace {
                required: (req.offset + req.size) as u32,
                available: km.spec_capacity() as u32,
            },
        )
    } else {
        spec_ok_reply(
            spec_encode_actions(spec_buffer_data(km, req)) + spec_encode_varint(req.size as nat),
        )
    }
}

/// The reply `SetKeymapBuffer` owes for a parsed request.
pub open spec fn spec_buffer_update_reply(km: KeyMap, offset: u16, count: u16) -> Seq<u8> {
    if count > 32 {
        spec_err_reply(RmkError::InsufficientSpace { required: count as u32, available: 32u32 })
    } else if offset + count > km.spec_capacity() {
        spec_err_reply(
            RmkError::InsufficientSpace {
                required: (offset + count) as u32,
                available: km.spec_capacity() as u32,
            },
        )
    } else {
        spec_ok_reply(Seq::<u8>::empty())
    }
}

/// The reply `GetKeyboardInfo` owes.
pub open spec fn spec_info_reply(km: KeyMap) -> Seq<u8> {
    spec_ok_reply(
        spec_encode_keyboard_info_response(
            KeyboardInfoResponse {
                info: KeyboardInfo {
                    protocol_version: spec_protocol_version(),
                    firmware_version: spec_firmware_version(),
                    rows: km.spec_rows(),
                    cols: km.spec_cols(),
                    layers: km.spec_layers(),
                    encoders: 0u8,
                    locked: false,
                },
            },
        ),
    )
}

/// Builds a success reply around a response payload.
fn ok_reply(payload: Vec<u8>) -> (r: Vec<u8>)
    ensures
        r@ == spec_ok_reply(payload@),
{
    let mut out: Vec<u8> = Vec::new();
    out.push(0);
    let mut p = payload;
    out.append(&mut p);
    assert(out@ =~= spec_ok_reply(payload@));
    out
}

/// Builds a failure reply around an error.
fn err_reply(e: &RmkError) -> (r: Vec<u8>)
    ensures
        r@ == spec_err_reply(*e),
{
    let mut out: Vec<u8> = Vec::new();
    out.push(1);
    let mut enc = encode_error(e);
    out.append(&mut enc);
    assert(out@ =~= spec_err_reply(*e));
    out
}

/// Routes one frame: version check, endpoint resolution, payload decode,
/// handler, reply encode. The contract spells out, for every frame, both the
/// bytes that come back and exactly how the shared context changes; only
/// `SetKeycode`, `SetKeymapBuffer` and `ResetStorage` move it at all.
pub fn dispatch(ctx: &mut RmkContext, frame: &Frame) -> (out: DispatchOutcome)
    requires
        old(ctx).wf(),
    ensures
        final(ctx).wf(),
        final(ctx).keymap.spec_rows() == old(ctx).keymap.spec_rows(),
        final(ctx).keymap.spec_cols() == old(ctx).keymap.spec_cols(),
        final(ctx).keymap.spec_layers() == old(ctx).keymap.spec_layers(),
        final(ctx).mailbox.spec_capacity() == old(ctx).mailbox.spec_capacity(),
        frame.version != PROTOCOL_VERSION_MAJOR ==> *final(ctx) == *old(ctx) && (out matches
        DispatchOutcome::Reply(b) && b@ == spec_err_reply(
            RmkError::ProtocolVersionMismatch {
                expected: PROTOCOL_VERSION_MAJOR,
                actual: frame.version,
            },
        )),
        frame.version == PROTOCOL_VERSION_MAJOR ==> match crate::endpoints::spec_endpoint_for_key(
            frame.key,
        ) {
            Option::None => *final(ctx) == *old(ctx) && (out matches DispatchOutcome::Reply(b)
                && b@ == spec_err_reply(RmkError::InvalidEndpoint)),
            Option::Some(ep) => match ep {
                EndpointId::GetKeycode => match spec_parse_get_keycode_request(frame.payload@) {
                    Option::Some(req) => *final(ctx) == *old(ctx) && (out matches
                    DispatchOutcome::Reply(b) && b@ == spec_get_keycode_reply(
                        old(ctx).keymap,
                        req,
                    )),
                    Option::None => *final(ctx) == *old(ctx) && (out matches
                    DispatchOutcome::Reply(b) && b@ == spec_err_reply(RmkError::TransportError)),
                },
                EndpointId::SetKeycode => match spec_parse_set_keycode_request(frame.payload@) {
                    Option::Some(req) => {
                        &&& out matches DispatchOutcome::Reply(b) && b@ == spec_set_keycode_reply(
                            old(ctx).keymap,
                            req,
                        )
                        &&& !old(ctx).keymap.spec_valid_pos(req.position) ==> *final(ctx) == *old(
                            ctx,
                        )
                        &&& old(ctx).keymap.spec_valid_pos(req.position) ==> {
                            &&& final(ctx).keymap.spec_actions() == old(
                                ctx,
                            ).keymap.spec_actions().update(
                                old(ctx).keymap.spec_flat_index(req.position),
                                req.action,
                            )
                            &&& !old(ctx).mailbox.spec_full() ==> final(ctx).mailbox.spec_queue()
                                == old(ctx).mailbox.spec_queue().push(
                                FlashOperationMessage::KeymapKey {
                                    layer: req.position.layer,
                                    col: req.position.col,
                                    row: req.position.row,
                                    action: req.action,
                                },
                            )
                            &&& old(ctx).mailbox.spec_full() ==> final(ctx).mailbox.spec_queue()
                                == old(ctx).mailbox.spec_queue()
                        }
                    },
                    Option::None => *final(ctx) == *old(ctx) && (out matches
                    DispatchOutcome::Reply(b) && b@ == spec_err_reply(RmkError::TransportError)),
                },
                EndpointId::GetLayerCount => if frame.payload@.len() == 0 {
                    *final(ctx) == *old(ctx) && (out matches DispatchOutcome::Reply(b) && b@
                        == spec_ok_reply(seq![old(ctx).keymap.spec_layers()]))
                } else {
                    *final(ctx) == *old(ctx) && (out matches DispatchOutcome::Reply(b) && b@
                        == spec_err_reply(RmkError::TransportError))
                },
                EndpointId::GetKeymapBuffer => match spec_parse_buffer_request(frame.payload@) {
                    Option::Some(req) => *final(ctx) == *old(ctx) && (out matches
                    DispatchOutcome::Reply(b) && b@ == spec_buffer_read_reply(
                        old(ctx).keymap,
                        req,
                    )),
                    Option::None => *final(ctx) == *old(ctx) && (out matches
                    DispatchOutcome::Reply(b) && b@ == spec_err_reply(RmkError::TransportError)),
                },
                EndpointId::SetKeymapBuffer => match spec_parse_buffer_update_request(
                    frame.payload@,
                ) {
                    Option::Some(parts) => {
                        &&& out matches DispatchOutcome::Reply(b) && b@
                            == spec_buffer_update_reply(old(ctx).keymap, parts.0, parts.2)
                        &&& (parts.2 > 32 || parts.0 + parts.2 > old(
                            ctx,
                        ).keymap.spec_capacity()) ==> *final(ctx) == *old(ctx)
                        &&& parts.2 <= 32 && parts.0 + parts.2 <= old(ctx).keymap.spec_capacity()
                            ==> {
                            &&& forall|j: int|
                                0 <= j < parts.2 ==> final(ctx).keymap.spec_actions()[parts.0 + j]
                                    == parts.1[j]
                            &&& forall|i: int|
                                0 <= i < old(ctx).keymap.spec_capacity() && !(parts.0 <= i < parts.0
                                    + parts.2) ==> final(ctx).keymap.spec_actions()[i] == old(
                                    ctx,
                                ).keymap.spec_actions()[i]
                            &&& final(ctx).mailbox.spec_queue() == old(ctx).mailbox.spec_queue()
                                + spec_bulk_commands(
                                old(ctx).keymap,
                                parts.0,
                                parts.1,
                                parts.2,
                            ).take(spec_bulk_accepted(old(ctx).mailbox, parts.2))
                        }
                    },
                    Option::None => *final(ctx) == *old(ctx) && (out matches
                    DispatchOutcome::Reply(b) && b@ == spec_err_reply(RmkError::TransportError)),
                },
                EndpointId::GetProtocolVersion => if frame.payload@.len() == 0 {
                    *final(ctx) == *old(ctx) && (out matches DispatchOutcome::Reply(b) && b@
                        == spec_ok_reply(spec_encode_version(spec_protocol_version())))
                } else {
                    *final(ctx) == *old(ctx) && (out matches DispatchOutcome::Reply(b) && b@
                        == spec_err_reply(RmkError::TransportError))
                },
                EndpointId::GetKeyboardInfo => if frame.payload@.len() == 0 {
                    *final(ctx) == *old(ctx) && (out matches DispatchOutcome::Reply(b) && b@
                        == spec_info_reply(old(ctx).keymap))
                } else {
                    *final(ctx) == *old(ctx) && (out matches DispatchOutcome::Reply(b) && b@
                        == spec_err_reply(RmkError::TransportError))
                },
                EndpointId::JumpBootloader => if frame.payload@.len() == 0 {
                    *final(ctx) == *old(ctx) && out matches DispatchOutcome::JumpBootloader
                } else {
                    *final(ctx) == *old(ctx) && (out matches DispatchOutcome::Reply(b) && b@
                        == spec_err_reply(RmkError::TransportError))
                },
                EndpointId::ResetStorage => if frame.payload@.len() == 0 {
                    if old(ctx).mailbox.spec_full() {
                        *final(ctx) == *old(ctx) && out matches DispatchOutcome::Busy
                    } else {
                        &&& out matches DispatchOutcome::Reply(b) && b@ == spec_ok_reply(
                            Seq::<u8>::empty(),
                        )
                        &&& final(ctx).keymap == old(ctx).keymap
                        &&& final(ctx).mailbox.spec_queue() == old(ctx).mailbox.spec_queue().push(
                            FlashOperationMessage::Reset,
                        )
                    }
                } else {
                    *final(ctx) == *old(ctx) && (out matches DispatchOutcome::Reply(b) && b@
                        == spec_err_reply(RmkError::TransportError))
                },
            },
        },
{
    if frame.version != PROTOCOL_VERSION_MAJOR {
        return DispatchOutcome::Reply(
            err_reply(
                &RmkError::ProtocolVersionMismatch {
                    expected: PROTOCOL_VERSION_MAJOR,
                    actual: frame.version,
                },
            ),
        );
    }
    let ep = match endpoint_for_key(frame.key) {
        Some(ep) => ep,
        None => {
            return DispatchOutcome::Reply(err_reply(&RmkError::InvalidEndpoint));
        },
    };
    match ep {
        EndpointId::GetKeycode => {
            match decode_get_keycode_request(frame.payload.as_slice()) {
                Some(req) => match handle_get_keycode(req, &ctx.keymap) {
                    Ok(resp) => DispatchOutcome::Reply(
                        ok_reply(encode_get_keycode_response(&resp)),
                    ),
                    Err(e) => DispatchOutcome::Reply(err_reply(&e)),
                },
                None => DispatchOutcome::Reply(err_reply(&RmkError::TransportError)),
            }
        },
        EndpointId::SetKeycode => {
            match decode_set_keycode_request(frame.payload.as_slice()) {
                Some(req) => match handle_set_keycode(req, &mut ctx.keymap, &mut ctx.mailbox) {
                    Ok(_) => DispatchOutcome::Reply(ok_reply(Vec::new())),
                    Err(e) => DispatchOutcome::Reply(err_reply(&e)),
                },
                None => DispatchOutcome::Reply(err_reply(&RmkError::TransportError)),
            }
        },
        EndpointId::GetLayerCount => {
            if frame.payload.len() == 0 {
                let resp = handle_get_layer_count(&ctx.keymap);
                let bytes = encode_layer_count_response(&resp);
                DispatchOutcome::Reply(ok_reply(bytes))
            } else {
                DispatchOutcome::Reply(err_reply(&RmkError::TransportError))
            }
        },
        EndpointId::GetKeymapBuffer => {
            match decode_buffer_request(frame.payload.as_slice()) {
                Some(req) => match handle_get_keymap_buffer(req, &ctx.keymap) {
                    Ok(resp) => {
                        proof {
                            assert(resp.data@ =~= spec_buffer_data(ctx.keymap, req));
                        }
                        DispatchOutcome::Reply(ok_reply(encode_buffer_response(&resp)))
                    },
                    Err(e) => DispatchOutcome::Reply(err_reply(&e)),
                },
                None => DispatchOutcome::Reply(err_reply(&RmkError::TransportError)),
            }
        },
        EndpointId::SetKeymapBuffer => {
            match decode_buffer_update_request(frame.payload.as_slice()) {
                Some(req) => match handle_set_keymap_buffer(
                    req,
                    &mut ctx.keymap,
                    &mut ctx.mailbox,
                ) {
                    Ok(_) => DispatchOutcome::Reply(ok_reply(Vec::new())),
                    Err(e) => DispatchOutcome::Reply(err_reply(&e)),
                },
                None => DispatchOutcome::Reply(err_reply(&RmkError::TransportError)),
            }
        },
        EndpointId::GetProtocolVersion => {
            if frame.payload.len() == 0 {
                let resp = handle_get_protocol_version();
                DispatchOutcome::Reply(ok_reply(encode_version_response(&resp)))
            } else {
                DispatchOutcome::Reply(err_reply(&RmkError::TransportError))
            }
        },
        EndpointId::GetKeyboardInfo => {
            if frame.payload.len() == 0 {
                let resp = handle_get_keyboard_info(&ctx.keymap);
                DispatchOutcome::Reply(ok_reply(encode_keyboard_info_response(&resp)))
            } else {
                DispatchOutcome::Reply(err_reply(&RmkError::TransportError))
            }
        },
        EndpointId::JumpBootloader => {
            if frame.payload.len() == 0 {
                DispatchOutcome::JumpBootloader
            } else {
                DispatchOutcome::Reply(err_reply(&RmkError::TransportError))
            }
        },
        EndpointId::ResetStorage => {
            if frame.payload.len() == 0 {
                match handle_reset_storage(&mut ctx.mailbox) {
                    Some(_) => DispatchOutcome::Reply(ok_reply(Vec::new())),
                    None => DispatchOutcome::Busy,
                }
            } else {
                DispatchOutcome::Reply(err_reply(&RmkError::TransportError))
            }
        },
    }
}

} // verus!
