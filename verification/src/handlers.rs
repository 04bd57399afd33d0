//! Request handlers: validation, keymap mutation, and persistence policy.
//!
//! Each handler is pure with respect to its inputs except for two side
//! effects, both explicit parameters here: mutation of the shared keymap and
//! enqueueing to the storage mailbox. In-memory correctness is guaranteed;
//! durable persistence of routine key writes is best-effort and may lag
//! under load, while the rare, destructive storage reset uses the blocking
//! discipline and is never silently dropped.

use vstd::prelude::*;

use crate::endpoints::{
    BufferRequest, BufferResponse, BufferUpdateRequest, GetKeycodeRequest, GetKeycodeResponse,
    KeyboardInfoResponse, LayerCountResponse, SetKeycodeRequest, VersionResponse,
};
use crate::errors::RmkError;
use crate::keymap::KeyMap;
use crate::mailbox::{FlashOperationMessage, StorageMailbox};
use crate::types::{Action, EmptyResponse, KeyboardInfo, Version};
use crate::{
    FIRMWARE_VERSION_MAJOR, FIRMWARE_VERSION_MINOR, FIRMWARE_VERSION_PATCH, PROTOCOL_VERSION_MAJOR,
    PROTOCOL_VERSION_MINOR, PROTOCOL_VERSION_PATCH,
};

verus! {

/// The protocol version the firmware speaks.
pub open spec fn spec_protocol_version() -> Version {
    Version {
        major: PROTOCOL_VERSION_MAJOR,
        minor: PROTOCOL_VERSION_MINOR,
        patch: PROTOCOL_VERSION_PATCH,
    }
}

/// The firmware's own version.
pub open spec fn spec_firmware_version() -> Version {
    Version {
        major: FIRMWARE_VERSION_MAJOR,
        minor: FIRMWARE_VERSION_MINOR,
        patch: FIRMWARE_VERSION_PATCH,
    }
}

/// The error a handler reports for an out-of-range position: the exact
/// offending coordinates, not clamped.
pub open spec fn spec_invalid_position_error(req_pos: crate::types::KeyPosition) -> RmkError {
    RmkError::InvalidKeyPosition { layer: req_pos.layer, row: req_pos.row, col: req_pos.col }
}

/// Reads the action at a position. Succeeds exactly on positions inside the
/// configured grid; anything else is answered with `InvalidKeyPosition`
/// carrying the request's own coordinates.
pub fn handle_get_keycode(req: GetKeycodeRequest, keymap: &KeyMap) -> (r: Result<
    GetKeycodeResponse,
    RmkError,
>)
    requires
        keymap.wf(),
    ensures
        keymap.spec_valid_pos(req.position) ==> r == Ok::<GetKeycodeResponse, RmkError>(
            GetKeycodeResponse { action: keymap.spec_action_at(req.position) },
        ),
        !keymap.spec_valid_pos(req.position) ==> r == Err::<GetKeycodeResponse, RmkError>(
            spec_invalid_position_error(req.position),
        ),
{
    let pos = req.position;
    let (rows, cols, layers) = keymap.get_keymap_config();
    if pos.row >= rows || pos.col >= cols || pos.layer >= layers {
        return Err(RmkError::InvalidKeyPosition { layer: pos.layer, row: pos.row, col: pos.col });
    }
    let action = keymap.get_action_at(pos);
    Ok(GetKeycodeResponse { action })
}

/// Writes the action at a position. Validation mirrors `handle_get_keycode`.
/// On success the keymap is mutated synchronously and the response is owed
/// regardless of persistence: the matching persistence command is enqueued
/// best-effort and silently dropped when the mailbox is saturated.
pub fn handle_set_keycode(
    req: SetKeycodeRequest,
    keymap: &mut KeyMap,
    mailbox: &mut StorageMailbox,
) -> (r: Result<EmptyResponse, RmkError>)
    requires
        old(keymap).wf(),
        old(mailbox).wf(),
    ensures
        final(keymap).wf(),
        final(mailbox).wf(),
        final(keymap).spec_rows() == old(keymap).spec_rows(),
        final(keymap).spec_cols() == old(keymap).spec_cols(),
        final(keymap).spec_layers() == old(keymap).spec_layers(),
        final(mailbox).spec_capacity() == old(mailbox).spec_capacity(),
        !old(keymap).spec_valid_pos(req.position) ==> r == Err::<EmptyResponse, RmkError>(
            spec_invalid_position_error(req.position),
        ) && *final(keymap) == *old(keymap) && *final(mailbox) == *old(mailbox),
        old(keymap).spec_valid_pos(req.position) ==> {
            &&& r == Ok::<EmptyResponse, RmkError>(EmptyResponse)
            &&& final(keymap).spec_actions() == old(keymap).spec_actions().update(
                old(keymap).spec_flat_index(req.position),
                req.action,
            )
            &&& final(keymap).spec_action_at(req.position) == req.action
            &&& !old(mailbox).spec_full() ==> final(mailbox).spec_queue() == old(
                mailbox,
            ).spec_queue().push(
                FlashOperationMessage::KeymapKey {
                    layer: req.position.layer,
                    col: req.position.col,
                    row: req.position.row,
                    action: req.action,
                },
            )
            &&& old(mailbox).spec_full() ==> final(mailbox).spec_queue() == old(
                mailbox,
            ).spec_queue()
        },
{
    let pos = req.position;
    let (rows, cols, layers) = keymap.get_keymap_config();
    if pos.row >= rows || pos.col >= cols || pos.layer >= layers {
        return Err(RmkError::InvalidKeyPosition { layer: pos.layer, row: pos.row, col: pos.col });
    }
    keymap.set_action_at(pos, req.action);
    let _ = mailbox.try_send(
        FlashOperationMessage::KeymapKey {
            layer: pos.layer,
            col: pos.col,
            row: pos.row,
            action: req.action,
        },
    );
    Ok(EmptyResponse)
}

/// Reports how many layers the keymap has. Never fails.
pub fn handle_get_layer_count(keymap: &KeyMap) -> (r: LayerCountResponse)
    ensures
        r.count == keymap.spec_layers(),
{
    let (_, _, layers) = keymap.get_keymap_config();
    LayerCountResponse { count: layers }
}

/// Bulk read of the flattened keymap. Succeeds exactly when the request
/// asks for at most 32 entries and `offset + size` stays within the
/// capacity; an over-long or out-of-bounds request fails rather than
/// silently truncating.
pub fn handle_get_keymap_buffer(req: BufferRequest, keymap: &KeyMap) -> (r: Result<
    BufferResponse,
    RmkError,
>)
    requires
        keymap.wf(),
    ensures
        req.size > 32 ==> r == Err::<BufferResponse, RmkError>(
            RmkError::InsufficientSpace { required: req.size as u32, available: 32u32 },
        ),
        req.size <= 32 && req.offset + req.size > keymap.spec_capacity() ==> r == Err::<
            BufferResponse,
            RmkError,
        >(
            RmkError::InsufficientSpace {
                required: (req.offset + req.size) as u32,
                available: keymap.spec_capacity() as u32,
            },
        ),
        req.size <= 32 && req.offset + req.size <= keymap.spec_capacity() ==> (r matches Ok(resp)
            && resp.count == req.size && (forall|j: int|
            0 <= j < req.size ==> resp.data@[j] == keymap.spec_actions()[req.offset + j]) && (
        forall|j: int| req.size <= j < 32 ==> resp.data@[j] == Action::No)),
{
    if req.size > 32 {
        return Err(RmkError::InsufficientSpace { required: req.size as u32, available: 32 });
    }
    let cap = keymap.capacity();
    if req.offset as usize + req.size as usize > cap {
        return Err(
            RmkError::InsufficientSpace {
                required: req.offset as u32 + req.size as u32,
                available: cap as u32,
            },
        );
    }
    let mut data: [Action; 32] = [Action::No;32];
    let mut k: usize = 0;
    while k < req.size as usize
        invariant
            keymap.wf(),
            k <= req.size <= 32,
            req.offset + req.size <= keymap.spec_capacity(),
            data@.len() == 32,
            forall|j: int| 0 <= j < k ==> data@[j] == keymap.spec_actions()[req.offset + j],
            forall|j: int| k <= j < 32 ==> data@[j] == Action::No,
        decreases req.size - k,
    {
        let a = keymap.get_action_flat(req.offset as usize + k);
        data[k] = a;
        k = k + 1;
    }
    Ok(BufferResponse { data, count: req.size })
}

/// The persistence commands a bulk write issues, one per written entry, in
/// entry order.
pub open spec fn spec_bulk_commands(km: KeyMap, offset: u16, data: Seq<Action>, count: u16) -> Seq<
    FlashOperationMessage,
> {
    Seq::new(
        count as nat,
        |j: int|
            {
                let pos = km.spec_unflatten(offset + j);
                FlashOperationMessage::KeymapKey {
                    layer: pos.layer,
                    col: pos.col,
                    row: pos.row,
                    action: data[j],
                }
            },
    )
}

/// How many of a bulk write's persistence commands the mailbox accepts: all
/// of them if there is room, else exactly as many as fill it.
pub open spec fn spec_bulk_accepted(m: StorageMailbox, count: u16) -> int {
    let free = m.spec_capacity() - m.spec_queue().len();
    if count as int <= free {
        count as int
    } else {
        free
    }
}

/// Bulk write of the flattened keymap. Succeeds exactly when the request
/// carries at most 32 entries and `offset + count` stays within the
/// capacity. On success every addressed cell takes its new action and no
/// other cell moves; one persistence command per entry is enqueued
/// best-effort, in entry order, until the mailbox saturates.
pub fn handle_set_keymap_buffer(
    req: BufferUpdateRequest,
    keymap: &mut KeyMap,
    mailbox: &mut StorageMailbox,
) -> (r: Result<EmptyResponse, RmkError>)
    requires
        old(keymap).wf(),
        old(mailbox).wf(),
    ensures
        final(keymap).wf(),
        final(mailbox).wf(),
        final(keymap).spec_rows() == old(keymap).spec_rows(),
        final(keymap).spec_cols() == old(keymap).spec_cols(),
        final(keymap).spec_layers() == old(keymap).spec_layers(),
        final(mailbox).spec_capacity() == old(mailbox).spec_capacity(),
        req.count > 32 ==> r == Err::<EmptyResponse, RmkError>(
            RmkError::InsufficientSpace { required: req.count as u32, available: 32u32 },
        ) && *final(keymap) == *old(keymap) && *final(mailbox) == *old(mailbox),
        req.count <= 32 && req.offset + req.count > old(keymap).spec_capacity() ==> r == Err::<
            EmptyResponse,
            RmkError,
        >(
            RmkError::InsufficientSpace {
                required: (req.offset + req.count) as u32,
                available: old(keymap).spec_capacity() as u32,
            },
        ) && *final(keymap) == *old(keymap) && *final(mailbox) == *old(mailbox),
        req.count <= 32 && req.offset + req.count <= old(keymap).spec_capacity() ==> {
            &&& r == Ok::<EmptyResponse, RmkError>(EmptyResponse)
            &&& forall|j: int|
                0 <= j < req.count ==> final(keymap).spec_actions()[req.offset + j] == req.data@[j]
            &&& forall|i: int|
                0 <= i < old(keymap).spec_capacity() && !(req.offset <= i < req.offset + req.count)
                    ==> final(keymap).spec_actions()[i] == old(keymap).spec_actions()[i]
            &&& final(mailbox).spec_queue() == old(mailbox).spec_queue() + spec_bulk_commands(
                *old(keymap),
                req.offset,
                req.data@,
                req.count,
            ).take(spec_bulk_accepted(*old(mailbox), req.count))
        },
{
    if req.count > 32 {
        return Err(RmkError::InsufficientSpace { required: req.count as u32, available: 32 });
    }
    let cap = keymap.capacity();
    if req.offset as usize + req.count as usize > cap {
        return Err(
            RmkError::InsufficientSpace {
                required: req.offset as u32 + req.count as u32,
                available: cap as u32,
            },
        );
    }
    let ghost commands = spec_bulk_commands(*old(keymap), req.offset, req.data@, req.count);
    let ghost free = old(mailbox).spec_capacity() - old(mailbox).spec_queue().len();
    let mut k: usize = 0;
    while k < req.count as usize
        invariant
            keymap.wf(),
            mailbox.wf(),
            keymap.spec_rows() == old(keymap).spec_rows(),
            keymap.spec_cols() == old(keymap).spec_cols(),
            keymap.spec_layers() == old(keymap).spec_layers(),
            mailbox.spec_capacity() == old(mailbox).spec_capacity(),
            k <= req.count <= 32,
            req.offset + req.count <= keymap.spec_capacity(),
            commands == spec_bulk_commands(*old(keymap), req.offset, req.data@, req.count),
            free == old(mailbox).spec_capacity() - old(mailbox).spec_queue().len(),
            forall|j: int|
                0 <= j < k ==> keymap.spec_actions()[req.offset + j] == req.data@[j],
            forall|i: int|
                0 <= i < keymap.spec_capacity() && !(req.offset <= i < req.offset + k)
                    ==> keymap.spec_actions()[i] == old(keymap).spec_actions()[i],
            mailbox.spec_queue() == old(mailbox).spec_queue() + commands.take(
                if k as int <= free {
                    k as int
                } else {
                    free
                },
            ),
        decreases req.count - k,
    {
        let idx = req.offset as usize + k;
        let pos = keymap.unflatten(idx);
        assert(pos == old(keymap).spec_unflatten(req.offset + k));
        keymap.set_action_flat(idx, req.data[k]);
        let cmd = FlashOperationMessage::KeymapKey {
            layer: pos.layer,
            col: pos.col,
            row: pos.row,
            action: req.data[k],
        };
        let ghost m = if k as int <= free {
            k as int
        } else {
            free
        };
        let accepted = mailbox.try_send(cmd);
        proof {
            assert(cmd == commands[k as int]);
            if accepted {
                assert(m < free);
                assert(m == k as int);
                assert(commands.take(k as int).push(commands[k as int]) =~= commands.take(
                    k as int + 1,
                ));
            } else {
                assert(m == free);
                assert(mailbox.spec_queue() == old(mailbox).spec_queue() + commands.take(free));
            }
        }
        k = k + 1;
    }
    assert(keymap.spec_actions().len() == old(keymap).spec_actions().len());
    Ok(EmptyResponse)
}

/// Answers with the protocol version. A compile-time constant; never fails.
pub fn handle_get_protocol_version() -> (r: VersionResponse)
    ensures
        r == (VersionResponse { version: spec_protocol_version() }),
{
    VersionResponse {
        version: Version {
            major: PROTOCOL_VERSION_MAJOR,
            minor: PROTOCOL_VERSION_MINOR,
            patch: PROTOCOL_VERSION_PATCH,
        },
    }
}

/// Answers with the keyboard descriptor: versions, the keymap's real
/// dimensions, and the lock state. The encoder count and the lock state
/// await their collaborators and are reported as zero and unlocked.
pub fn handle_get_keyboard_info(keymap: &KeyMap) -> (r: KeyboardInfoResponse)
    ensures
        r.info == (KeyboardInfo {
            protocol_version: spec_protocol_version(),
            firmware_version: spec_firmware_version(),
            rows: keymap.spec_rows(),
            cols: keymap.spec_cols(),
            layers: keymap.spec_layers(),
            encoders: 0u8,
            locked: false,
        }),
{
    let (rows, cols, layers) = keymap.get_keymap_config();
    KeyboardInfoResponse {
        info: KeyboardInfo {
            protocol_version: Version {
                major: PROTOCOL_VERSION_MAJOR,
                minor: PROTOCOL_VERSION_MINOR,
                patch: PROTOCOL_VERSION_PATCH,
            },
            firmware_version: Version {
                major: FIRMWARE_VERSION_MAJOR,
                minor: FIRMWARE_VERSION_MINOR,
                patch: FIRMWARE_VERSION_PATCH,
            },
            rows,
            cols,
            layers,
            encoders: 0,
            locked: false,
        },
    }
}

/// One delivery attempt of the storage reset command, under the blocking
/// discipline: the response is produced only once the command has entered
/// the mailbox, so a saturated mailbox yields no response and the dispatch
/// loop suspends the request and retries after the consumer makes room —
/// the command is never silently dropped.
pub fn handle_reset_storage(mailbox: &mut StorageMailbox) -> (r: Option<EmptyResponse>)
    requires
        old(mailbox).wf(),
    ensures
        final(mailbox).wf(),
        final(mailbox).spec_capacity() == old(mailbox).spec_capacity(),
        r is Some <==> !old(mailbox).spec_full(),
        r is Some ==> final(mailbox).spec_queue() == old(mailbox).spec_queue().push(
            FlashOperationMessage::Reset,
        ),
        r is None ==> *final(mailbox) == *old(mailbox),
{
    if mailbox.try_send(FlashOperationMessage::Reset) {
        Some(EmptyResponse)
    } else {
        None
    }
}

/// Setting a key and reading it back: after a successful `SetKeycode` the
/// keymap holds the written action at that position — so `GetKeycode` on the
/// same position answers exactly it — and every other valid position still
/// holds what it held before.
pub proof fn lemma_set_then_get_round_trip(
    before: KeyMap,
    after: KeyMap,
    pos: crate::types::KeyPosition,
    action: Action,
)
    requires
        before.wf(),
        before.spec_valid_pos(pos),
        after.spec_rows() == before.spec_rows(),
        after.spec_cols() == before.spec_cols(),
        after.spec_layers() == before.spec_layers(),
        after.spec_actions() == before.spec_actions().update(
            before.spec_flat_index(pos),
            action,
        ),
    ensures
        after.spec_action_at(pos) == action,
        forall|q: crate::types::KeyPosition|
            before.spec_valid_pos(q) && q != pos ==> #[trigger] after.spec_action_at(q)
                == before.spec_action_at(q),
{
    before.lemma_flat_index_in_range(pos);
    assert forall|q: crate::types::KeyPosition|
        before.spec_valid_pos(q) && q != pos implies #[trigger] after.spec_action_at(q)
        == before.spec_action_at(q) by {
        before.lemma_flat_index_in_range(q);
        if before.spec_flat_index(q) == before.spec_flat_index(pos) {
            before.lemma_flat_index_injective(q, pos);
        }
    }
}

} // verus!
