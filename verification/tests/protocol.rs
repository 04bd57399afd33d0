use rmk_core::codec::{decode_error, encode_error, encode_varint};
use rmk_core::dispatch::{dispatch, DispatchOutcome, Frame};
use rmk_core::endpoints::{
    endpoint_for_key, endpoint_key, endpoint_path, BufferRequest, BufferUpdateRequest, EndpointId,
    GetKeycodeRequest, SetKeycodeRequest,
};
use rmk_core::errors::RmkError;
use rmk_core::handlers::{
    handle_get_keyboard_info, handle_get_keycode, handle_get_keymap_buffer,
    handle_get_layer_count, handle_get_protocol_version, handle_reset_storage, handle_set_keycode,
    handle_set_keymap_buffer,
};
use rmk_core::keymap::KeyMap;
use rmk_core::mailbox::{FlashOperationMessage, StorageMailbox};
use rmk_core::service::RmkContext;
use rmk_core::types::{Action, KeyPosition};
use serde::ser::SerializeStructVariant;

fn pos(layer: u8, row: u8, col: u8) -> KeyPosition {
    KeyPosition { layer, row, col }
}

#[test]
fn set_then_get_round_trips() {
    let mut keymap = KeyMap::new(4, 6, 2);
    let mut mailbox = StorageMailbox::new(8);
    let p = pos(1, 3, 5);
    let action = Action::Key(0x1234);
    let set = handle_set_keycode(
        SetKeycodeRequest { position: p, action },
        &mut keymap,
        &mut mailbox,
    );
    assert!(set.is_ok());
    let got = handle_get_keycode(GetKeycodeRequest { position: p }, &keymap).unwrap();
    assert_eq!(got.action, action);
}

#[test]
fn set_leaves_other_positions_alone() {
    let mut keymap = KeyMap::new(4, 6, 2);
    let mut mailbox = StorageMailbox::new(8);
    handle_set_keycode(
        SetKeycodeRequest { position: pos(0, 0, 0), action: Action::Key(1) },
        &mut keymap,
        &mut mailbox,
    )
    .unwrap();
    handle_set_keycode(
        SetKeycodeRequest { position: pos(1, 3, 5), action: Action::Key(2) },
        &mut keymap,
        &mut mailbox,
    )
    .unwrap();
    assert_eq!(
        handle_get_keycode(GetKeycodeRequest { position: pos(0, 0, 0) }, &keymap)
            .unwrap()
            .action,
        Action::Key(1)
    );
    assert_eq!(
        handle_get_keycode(GetKeycodeRequest { position: pos(0, 0, 1) }, &keymap)
            .unwrap()
            .action,
        Action::No
    );
}

#[test]
fn empty_keymap_accepts_only_the_empty_window() {
    let keymap = KeyMap::new(0, 6, 2);
    // Capacity zero: the zero-length read at offset zero is the boundary
    // case that must succeed.
    let resp = handle_get_keymap_buffer(BufferRequest { offset: 0, size: 0 }, &keymap).unwrap();
    assert_eq!(resp.count, 0);
    let err = handle_get_keymap_buffer(BufferRequest { offset: 0, size: 1 }, &keymap);
    assert_eq!(err.unwrap_err(), RmkError::InsufficientSpace { required: 1, available: 0 });
    // Every position is out of range.
    let err = handle_get_keycode(GetKeycodeRequest { position: pos(0, 0, 0) }, &keymap);
    assert_eq!(
        err.unwrap_err(),
        RmkError::InvalidKeyPosition { layer: 0, row: 0, col: 0 }
    );
}

#[test]
fn bounds_rejected_with_exact_coordinates() {
    let mut keymap = KeyMap::new(4, 6, 2);
    let mut mailbox = StorageMailbox::new(8);
    for p in [pos(0, 4, 0), pos(0, 0, 6), pos(2, 0, 0), pos(2, 4, 6)] {
        let get = handle_get_keycode(GetKeycodeRequest { position: p }, &keymap);
        assert_eq!(
            get.unwrap_err(),
            RmkError::InvalidKeyPosition { layer: p.layer, row: p.row, col: p.col }
        );
        let set = handle_set_keycode(
            SetKeycodeRequest { position: p, action: Action::Key(1) },
            &mut keymap,
            &mut mailbox,
        );
        assert_eq!(
            set.unwrap_err(),
            RmkError::InvalidKeyPosition { layer: p.layer, row: p.row, col: p.col }
        );
    }
}

#[test]
fn buffer_read_boundary() {
    // Capacity 4 * 6 * 2 = 48.
    let keymap = KeyMap::new(4, 6, 2);
    // offset + size == capacity must succeed.
    let ok = handle_get_keymap_buffer(BufferRequest { offset: 16, size: 32 }, &keymap);
    let resp = ok.unwrap();
    assert_eq!(resp.count, 32);
    // One past the capacity must fail.
    let err = handle_get_keymap_buffer(BufferRequest { offset: 17, size: 32 }, &keymap);
    assert_eq!(
        err.unwrap_err(),
        RmkError::InsufficientSpace { required: 49, available: 48 }
    );
    // More than 32 entries in one call is refused outright.
    let err = handle_get_keymap_buffer(BufferRequest { offset: 0, size: 33 }, &keymap);
    assert_eq!(err.unwrap_err(), RmkError::InsufficientSpace { required: 33, available: 32 });
}

#[test]
fn buffer_read_returns_written_cells() {
    let mut keymap = KeyMap::new(2, 3, 2);
    let mut mailbox = StorageMailbox::new(16);
    // Flat index of (layer 1, row 0, col 1) is 1 * 6 + 0 + 1 = 7.
    handle_set_keycode(
        SetKeycodeRequest { position: pos(1, 0, 1), action: Action::Key(7) },
        &mut keymap,
        &mut mailbox,
    )
    .unwrap();
    let resp = handle_get_keymap_buffer(BufferRequest { offset: 6, size: 4 }, &keymap).unwrap();
    assert_eq!(resp.count, 4);
    assert_eq!(resp.data[0], Action::No);
    assert_eq!(resp.data[1], Action::Key(7));
    assert_eq!(resp.data[2], Action::No);
    // Beyond count the slots are padding.
    assert_eq!(resp.data[4], Action::No);
}

#[test]
fn buffer_write_boundary_and_contents() {
    let mut keymap = KeyMap::new(2, 3, 2);
    let mut mailbox = StorageMailbox::new(16);
    let mut data = [Action::No; 32];
    data[0] = Action::Key(11);
    data[1] = Action::Transparent;
    // Capacity is 12; offset 10 + count 2 == 12 must succeed.
    handle_set_keymap_buffer(
        BufferUpdateRequest { offset: 10, data, count: 2 },
        &mut keymap,
        &mut mailbox,
    )
    .unwrap();
    let resp = handle_get_keymap_buffer(BufferRequest { offset: 10, size: 2 }, &keymap).unwrap();
    assert_eq!(resp.data[0], Action::Key(11));
    assert_eq!(resp.data[1], Action::Transparent);
    // offset 11 + count 2 > 12 must fail without touching anything.
    let err = handle_set_keymap_buffer(
        BufferUpdateRequest { offset: 11, data, count: 2 },
        &mut keymap,
        &mut mailbox,
    );
    assert_eq!(err.unwrap_err(), RmkError::InsufficientSpace { required: 13, available: 12 });
    // A count over 32 is refused outright.
    let err = handle_set_keymap_buffer(
        BufferUpdateRequest { offset: 0, data, count: 40 },
        &mut keymap,
        &mut mailbox,
    );
    assert_eq!(err.unwrap_err(), RmkError::InsufficientSpace { required: 40, available: 32 });
}

#[test]
fn bulk_write_enqueues_per_entry_commands() {
    let mut keymap = KeyMap::new(2, 3, 2);
    let mut mailbox = StorageMailbox::new(16);
    let mut data = [Action::No; 32];
    data[0] = Action::Key(1);
    data[1] = Action::Key(2);
    handle_set_keymap_buffer(
        BufferUpdateRequest { offset: 6, data, count: 2 },
        &mut keymap,
        &mut mailbox,
    )
    .unwrap();
    // Flat 6 is (layer 1, row 0, col 0); flat 7 is (layer 1, row 0, col 1).
    assert_eq!(
        mailbox.receive(),
        Some(FlashOperationMessage::KeymapKey { layer: 1, col: 0, row: 0, action: Action::Key(1) })
    );
    assert_eq!(
        mailbox.receive(),
        Some(FlashOperationMessage::KeymapKey { layer: 1, col: 1, row: 0, action: Action::Key(2) })
    );
    assert_eq!(mailbox.receive(), None);
}

#[test]
fn set_keycode_survives_saturated_mailbox() {
    let mut keymap = KeyMap::new(4, 6, 2);
    let mut mailbox = StorageMailbox::new(1);
    // Fill the mailbox to capacity.
    assert!(mailbox.try_send(FlashOperationMessage::Reset));
    assert!(mailbox.is_full());
    let p = pos(0, 2, 2);
    let set = handle_set_keycode(
        SetKeycodeRequest { position: p, action: Action::Key(42) },
        &mut keymap,
        &mut mailbox,
    );
    // The response and the in-memory write are unaffected by the drop.
    assert!(set.is_ok());
    let got = handle_get_keycode(GetKeycodeRequest { position: p }, &keymap).unwrap();
    assert_eq!(got.action, Action::Key(42));
    // The persistence command was silently dropped, not queued.
    assert_eq!(mailbox.len(), 1);
    assert_eq!(mailbox.receive(), Some(FlashOperationMessage::Reset));
    assert_eq!(mailbox.receive(), None);
}

#[test]
fn reset_storage_blocks_until_accepted() {
    let mut mailbox = StorageMailbox::new(1);
    assert!(mailbox.try_send(FlashOperationMessage::KeymapKey {
        layer: 0,
        col: 0,
        row: 0,
        action: Action::No,
    }));
    // Saturated: no response yet, nothing dropped.
    assert_eq!(handle_reset_storage(&mut mailbox), None);
    assert_eq!(mailbox.len(), 1);
    // The consumer makes room; the retry delivers the command.
    mailbox.receive().unwrap();
    assert!(handle_reset_storage(&mut mailbox).is_some());
    assert_eq!(mailbox.receive(), Some(FlashOperationMessage::Reset));
}

#[test]
fn layer_count_and_info_report_configuration() {
    let keymap = KeyMap::new(4, 6, 3);
    assert_eq!(handle_get_layer_count(&keymap).count, 3);
    let info = handle_get_keyboard_info(&keymap).info;
    assert_eq!(info.rows, 4);
    assert_eq!(info.cols, 6);
    assert_eq!(info.layers, 3);
    assert_eq!(info.encoders, 0);
    assert!(!info.locked);
    assert_eq!(info.protocol_version.major, 1);
    assert_eq!(info.firmware_version.minor, 7);
    let version = handle_get_protocol_version();
    assert_eq!(version.version.major, 1);
    assert_eq!(version.version.minor, 0);
    assert_eq!(version.version.patch, 0);
}

fn all_errors() -> Vec<RmkError> {
    vec![
        RmkError::InvalidKeyPosition { layer: 0, row: 0, col: 0 },
        RmkError::InvalidKeyPosition { layer: 255, row: 127, col: 1 },
        RmkError::InvalidKeycode(0),
        RmkError::InvalidKeycode(0x1234),
        RmkError::InvalidKeycode(u16::MAX),
        RmkError::LayerOutOfRange { max: 3, requested: 250 },
        RmkError::StorageError,
        RmkError::ConfigCorrupted,
        RmkError::InsufficientSpace { required: 0, available: 0 },
        RmkError::InsufficientSpace { required: u32::MAX, available: 300 },
        RmkError::MacroTooLong { max_len: 128, actual_len: 129 },
        RmkError::ComboConflict { existing_combo: 9 },
        RmkError::TapDanceInUse { index: 200 },
        RmkError::SystemBusy,
        RmkError::Unauthorized,
        RmkError::HardwareError,
        RmkError::ProtocolVersionMismatch { expected: 1, actual: 65535 },
        RmkError::InvalidEndpoint,
        RmkError::TransportError,
        RmkError::NotImplemented,
    ]
}

/// Serializes an error the way a serde derive would, so that the postcard
/// serializer can be held against the library's own codec.
struct SerdeMirror(RmkError);

impl serde::Serialize for SerdeMirror {
    fn serialize<S: serde::Serializer>(&self, s: S) -> Result<S::Ok, S::Error> {
        let name = "RmkError";
        match self.0 {
            RmkError::InvalidKeyPosition { layer, row, col } => {
                let mut sv = s.serialize_struct_variant(name, 0, "InvalidKeyPosition", 3)?;
                sv.serialize_field("layer", &layer)?;
                sv.serialize_field("row", &row)?;
                sv.serialize_field("col", &col)?;
                sv.end()
            }
            RmkError::InvalidKeycode(code) => {
                s.serialize_newtype_variant(name, 1, "InvalidKeycode", &code)
            }
            RmkError::LayerOutOfRange { max, requested } => {
                let mut sv = s.serialize_struct_variant(name, 2, "LayerOutOfRange", 2)?;
                sv.serialize_field("max", &max)?;
                sv.serialize_field("requested", &requested)?;
                sv.end()
            }
            RmkError::StorageError => s.serialize_unit_variant(name, 3, "StorageError"),
            RmkError::ConfigCorrupted => s.serialize_unit_variant(name, 4, "ConfigCorrupted"),
            RmkError::InsufficientSpace { required, available } => {
                let mut sv = s.serialize_struct_variant(name, 5, "InsufficientSpace", 2)?;
                sv.serialize_field("required", &required)?;
                sv.serialize_field("available", &available)?;
                sv.end()
            }
            RmkError::MacroTooLong { max_len, actual_len } => {
                let mut sv = s.serialize_struct_variant(name, 6, "MacroTooLong", 2)?;
                sv.serialize_field("max_len", &max_len)?;
                sv.serialize_field("actual_len", &actual_len)?;
                sv.end()
            }
            RmkError::ComboConflict { existing_combo } => {
                let mut sv = s.serialize_struct_variant(name, 7, "ComboConflict", 1)?;
                sv.serialize_field("existing_combo", &existing_combo)?;
                sv.end()
            }
            RmkError::TapDanceInUse { index } => {
                let mut sv = s.serialize_struct_variant(name, 8, "TapDanceInUse", 1)?;
                sv.serialize_field("index", &index)?;
                sv.end()
            }
            RmkError::SystemBusy => s.serialize_unit_variant(name, 9, "SystemBusy"),
            RmkError::Unauthorized => s.serialize_unit_variant(name, 10, "Unauthorized"),
            RmkError::HardwareError => s.serialize_unit_variant(name, 11, "HardwareError"),
            RmkError::ProtocolVersionMismatch { expected, actual } => {
                let mut sv = s.serialize_struct_variant(name, 12, "ProtocolVersionMismatch", 2)?;
                sv.serialize_field("expected", &expected)?;
                sv.serialize_field("actual", &actual)?;
                sv.end()
            }
            RmkError::InvalidEndpoint => s.serialize_unit_variant(name, 13, "InvalidEndpoint"),
            RmkError::TransportError => s.serialize_unit_variant(name, 14, "TransportError"),
            RmkError::NotImplemented => s.serialize_unit_variant(name, 15, "NotImplemented"),
        }
    }
}

#[test]
fn error_codec_agrees_with_postcard() {
    for e in all_errors() {
        let reference: Vec<u8> = postcard::to_allocvec(&SerdeMirror(e)).unwrap();
        assert_eq!(encode_error(&e), reference, "codec disagrees with postcard for {:?}", e);
    }
}

#[test]
fn every_error_round_trips_through_the_codec() {
    for e in all_errors() {
        let bytes = encode_error(&e);
        assert_eq!(decode_error(&bytes), Some(e), "round trip failed for {:?}", e);
    }
}

#[test]
fn error_encodings_are_bit_exact() {
    assert_eq!(
        encode_error(&RmkError::InvalidKeyPosition { layer: 2, row: 3, col: 4 }),
        vec![0, 2, 3, 4]
    );
    // 0x1234 = 4660 = 36 * 128 + 52: low seven bits first, high bit marks
    // continuation.
    assert_eq!(encode_error(&RmkError::InvalidKeycode(0x1234)), vec![1, 180, 36]);
    assert_eq!(
        encode_error(&RmkError::InsufficientSpace { required: 300, available: 65 }),
        vec![5, 172, 2, 65]
    );
    assert_eq!(
        encode_error(&RmkError::ProtocolVersionMismatch { expected: 1, actual: 9 }),
        vec![12, 1, 9]
    );
    assert_eq!(encode_error(&RmkError::NotImplemented), vec![15]);
}

#[test]
fn malformed_error_bytes_are_rejected() {
    assert_eq!(decode_error(&[]), None);
    // Unknown tag.
    assert_eq!(decode_error(&[16]), None);
    // Truncated fields.
    assert_eq!(decode_error(&[0, 1, 2]), None);
    assert_eq!(decode_error(&[1, 180]), None);
    // Trailing garbage after a complete error.
    assert_eq!(decode_error(&[15, 0]), None);
}

#[test]
fn varint_encoding_matches_expected_bytes() {
    let mut out = Vec::new();
    encode_varint(0, &mut out);
    assert_eq!(out, vec![0]);
    let mut out = Vec::new();
    encode_varint(127, &mut out);
    assert_eq!(out, vec![127]);
    let mut out = Vec::new();
    encode_varint(128, &mut out);
    assert_eq!(out, vec![128, 1]);
    let mut out = Vec::new();
    encode_varint(u32::MAX, &mut out);
    assert_eq!(out, vec![255, 255, 255, 255, 15]);
}

#[test]
fn error_messages_spell_out_their_fields() {
    assert_eq!(
        RmkError::InvalidKeyPosition { layer: 2, row: 13, col: 4 }.message(),
        "Invalid key position: layer=2, row=13, col=4"
    );
    assert_eq!(RmkError::InvalidKeycode(0x1234).message(), "Invalid keycode: 0x1234");
    assert_eq!(RmkError::InvalidKeycode(0xBEEF).message(), "Invalid keycode: 0xBEEF");
    assert_eq!(
        RmkError::LayerOutOfRange { max: 3, requested: 7 }.message(),
        "Layer 7 out of range (max: 3)"
    );
    assert_eq!(
        RmkError::InsufficientSpace { required: 4294967295, available: 0 }.message(),
        "Insufficient space: required=4294967295, available=0"
    );
    assert_eq!(RmkError::SystemBusy.message(), "System is busy");
    assert_eq!(RmkError::Unauthorized.message(), "Operation requires unlock");
}

#[test]
fn dispatch_rejects_version_mismatch_and_unknown_endpoints() {
    let mut ctx = RmkContext::new(2, 3, 2, 4);
    let out = dispatch(&mut ctx, &Frame { version: 9, key: 6, payload: vec![] });
    match out {
        DispatchOutcome::Reply(b) => assert_eq!(b, vec![1, 12, 1, 9]),
        _ => panic!("expected a reply"),
    }
    let out = dispatch(&mut ctx, &Frame { version: 1, key: 99, payload: vec![] });
    match out {
        DispatchOutcome::Reply(b) => assert_eq!(b, vec![1, 13]),
        _ => panic!("expected a reply"),
    }
}

#[test]
fn dispatch_answers_version_and_routes_writes() {
    let mut ctx = RmkContext::new(2, 3, 2, 4);
    // GetProtocolVersion: success marker, then varints 1.0.0.
    let out = dispatch(&mut ctx, &Frame { version: 1, key: 6, payload: vec![] });
    match out {
        DispatchOutcome::Reply(b) => assert_eq!(b, vec![0, 1, 0, 0]),
        _ => panic!("expected a reply"),
    }
    // SetKeycode at (layer 0, row 1, col 2), action Key(0x1234).
    let out = dispatch(
        &mut ctx,
        &Frame { version: 1, key: 2, payload: vec![0, 1, 2, 2, 180, 36] },
    );
    match out {
        DispatchOutcome::Reply(b) => assert_eq!(b, vec![0]),
        _ => panic!("expected a reply"),
    }
    // GetKeycode reads the same action back.
    let out = dispatch(&mut ctx, &Frame { version: 1, key: 1, payload: vec![0, 1, 2] });
    match out {
        DispatchOutcome::Reply(b) => assert_eq!(b, vec![0, 2, 180, 36]),
        _ => panic!("expected a reply"),
    }
    // An out-of-range position comes back as the exact validation error.
    let out = dispatch(&mut ctx, &Frame { version: 1, key: 1, payload: vec![5, 0, 0] });
    match out {
        DispatchOutcome::Reply(b) => assert_eq!(b, vec![1, 0, 5, 0, 0]),
        _ => panic!("expected a reply"),
    }
    // A payload that does not parse is a transport error.
    let out = dispatch(&mut ctx, &Frame { version: 1, key: 1, payload: vec![5, 0] });
    match out {
        DispatchOutcome::Reply(b) => assert_eq!(b, vec![1, 14]),
        _ => panic!("expected a reply"),
    }
}

#[test]
fn dispatch_bootloader_and_busy_reset() {
    let mut ctx = RmkContext::new(2, 3, 2, 1);
    let out = dispatch(&mut ctx, &Frame { version: 1, key: 8, payload: vec![] });
    assert!(matches!(out, DispatchOutcome::JumpBootloader));
    // Fill the mailbox; the blocking reset reports backpressure.
    assert!(ctx.mailbox.try_send(FlashOperationMessage::KeymapKey {
        layer: 0,
        col: 0,
        row: 0,
        action: Action::No,
    }));
    let out = dispatch(&mut ctx, &Frame { version: 1, key: 9, payload: vec![] });
    assert!(matches!(out, DispatchOutcome::Busy));
    // Drain and retry: now it is delivered and answered.
    ctx.mailbox.receive().unwrap();
    let out = dispatch(&mut ctx, &Frame { version: 1, key: 9, payload: vec![] });
    match out {
        DispatchOutcome::Reply(b) => assert_eq!(b, vec![0]),
        _ => panic!("expected a reply"),
    }
    assert_eq!(ctx.mailbox.receive(), Some(FlashOperationMessage::Reset));
}

#[test]
fn endpoint_registry_is_consistent() {
    let all = [
        EndpointId::GetKeycode,
        EndpointId::SetKeycode,
        EndpointId::GetLayerCount,
        EndpointId::GetKeymapBuffer,
        EndpointId::SetKeymapBuffer,
        EndpointId::GetProtocolVersion,
        EndpointId::GetKeyboardInfo,
        EndpointId::JumpBootloader,
        EndpointId::ResetStorage,
    ];
    for ep in all {
        assert_eq!(endpoint_for_key(endpoint_key(ep)), Some(ep));
    }
    assert_eq!(endpoint_for_key(0), None);
    assert_eq!(endpoint_path(EndpointId::GetProtocolVersion), "rmk/system/version");
}
