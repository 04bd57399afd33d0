//! Byte codec for the wire protocol.
//!
//! Integers wider than a byte travel as little-endian base-128 varints; an
//! enum travels as its variant tag (a varint, always below 128 here) followed
//! by its fields in declaration order. The error enum is the part of the
//! schema hosts must decode bit-exactly, so its encoder and decoder are
//! proved to be mutual inverses.

use vstd::arithmetic::div_mod::lemma_fundamental_div_mod;
use vstd::prelude::*;
use vstd::slice::slice_subrange;

use crate::endpoints::{
    BufferRequest, BufferResponse, BufferUpdateRequest, GetKeycodeRequest, GetKeycodeResponse,
    KeyboardInfoResponse, LayerCountResponse, SetKeycodeRequest, VersionResponse,
};
use crate::errors::RmkError;
use crate::types::{Action, KeyPosition, Version};

verus! {

/// The varint encoding of `n`: seven payload bits per byte, least
/// significant first; the high bit marks a continuation.
pub open spec fn spec_encode_varint(n: nat) -> Seq<u8>
    decreases n,
{
    if n < 128 {
        seq![n as u8]
    } else {
        seq![(128 + n % 128) as u8] + spec_encode_varint(n / 128)
    }
}

/// Reads one varint off the front of `s`, yielding the value and the
/// remainder, or nothing when `s` ends inside the varint.
pub open spec fn spec_decode_varint(s: Seq<u8>) -> Option<(nat, Seq<u8>)>
    decreases s.len(),
{
    if s.len() == 0 {
        None
    } else {
        let b = s[0];
        if b < 128 {
            Some((b as nat, s.skip(1)))
        } else {
            match spec_decode_varint(s.skip(1)) {
                Some(pair) => Some(((pair.0 * 128 + (b - 128)) as nat, pair.1)),
                None => None,
            }
        }
    }
}

/// A varint followed by anything decodes back to the value it encoded, with
/// the trailing bytes untouched.
pub proof fn lemma_varint_round_trip(n: nat, rest: Seq<u8>)
    ensures
        spec_decode_varint(spec_encode_varint(n) + rest) == Some((n, rest)),
    decreases n,
{
    if n < 128 {
        assert((seq![n as u8] + rest).skip(1) =~= rest);
    } else {
        lemma_varint_round_trip(n / 128, rest);
        lemma_fundamental_div_mod(n as int, 128);
        let s = spec_encode_varint(n) + rest;
        assert(s.skip(1) =~= spec_encode_varint(n / 128) + rest);
        assert(s[0] == (128 + n % 128) as u8);
        assert((128 + n % 128) as u8 == 128 + n % 128);
        assert(n / 128 * 128 + ((128 + n % 128) - 128) == n);
    }
}

/// Appends the varint encoding of `n` to `out`.
pub fn encode_varint(n: u32, out: &mut Vec<u8>)
    ensures
        final(out)@ == old(out)@ + spec_encode_varint(n as nat),
    decreases n,
{
    if n < 128 {
        out.push(n as u8);
        assert(out@ =~= old(out)@ + spec_encode_varint(n as nat));
    } else {
        let b: u8 = (128 + n % 128) as u8;
        out.push(b);
        encode_varint(n / 128, out);
        assert(out@ =~= old(out)@ + spec_encode_varint(n as nat));
    }
}

/// Reads one varint off the front of `bytes`. Yields the value and the
/// remaining bytes exactly when the bytes begin with a varint whose value
/// fits in `u32`.
pub fn decode_varint<'a>(bytes: &'a [u8]) -> (r: Option<(u32, &'a [u8])>)
    ensures
        match r {
            Some((v, rest)) => spec_decode_varint(bytes@) matches Some(pair) && pair.0 == v as nat
                && pair.1 == rest@,
            None => !(spec_decode_varint(bytes@) matches Some(pair) && pair.0 <= u32::MAX),
        },
    decreases bytes@.len(),
{
    if bytes.len() == 0 {
        return None;
    }
    let b = bytes[0];
    let tail = slice_subrange(bytes, 1, bytes.len());
    assert(tail@ =~= bytes@.skip(1));
    if b < 128 {
        Some((b as u32, tail))
    } else {
        match decode_varint(tail) {
            Some((m, rest)) => {
                let low: u32 = (b - 128) as u32;
                let wide: u64 = m as u64 * 128 + low as u64;
                if wide <= u32::MAX as u64 {
                    Some((wide as u32, rest))
                } else {
                    None
                }
            },
            None => None,
        }
    }
}

/// Reads one varint and insists the value fits in `u16`.
pub fn decode_varint_u16<'a>(bytes: &'a [u8]) -> (r: Option<(u16, &'a [u8])>)
    ensures
        match r {
            Some((v, rest)) => spec_decode_varint(bytes@) matches Some(pair) && pair.0 == v as nat
                && pair.1 == rest@,
            None => !(spec_decode_varint(bytes@) matches Some(pair) && pair.0 <= u16::MAX),
        },
{
    match decode_varint(bytes) {
        Some((v, rest)) => {
            if v <= u16::MAX as u32 {
                Some((v as u16, rest))
            } else {
                None
            }
        },
        None => None,
    }
}

/// A key position travels as its three raw bytes.
pub open spec fn spec_encode_key_position(p: KeyPosition) -> Seq<u8> {
    seq![p.layer, p.row, p.col]
}

/// Reads a key position off the front of `s`.
pub open spec fn spec_decode_key_position(s: Seq<u8>) -> Option<(KeyPosition, Seq<u8>)> {
    if s.len() >= 3 {
        Some((KeyPosition { layer: s[0], row: s[1], col: s[2] }, s.skip(3)))
    } else {
        None
    }
}

/// An action travels as its variant tag; a `Key` carries its keycode as a
/// varint.
pub open spec fn spec_encode_action(a: Action) -> Seq<u8> {
    match a {
        Action::No => seq![0u8],
        Action::Transparent => seq![1u8],
        Action::Key(code) => seq![2u8] + spec_encode_varint(code as nat),
    }
}

/// Reads an action off the front of `s`.
pub open spec fn spec_decode_action(s: Seq<u8>) -> Option<(Action, Seq<u8>)> {
    if s.len() == 0 {
        None
    } else {
        let tag = s[0];
        let r = s.skip(1);
        if tag == 0 {
            Some((Action::No, r))
        } else if tag == 1 {
            Some((Action::Transparent, r))
        } else if tag == 2 {
            match spec_decode_varint(r) {
                Some(pair) => if pair.0 <= u16::MAX {
                    Some((Action::Key(pair.0 as u16), pair.1))
                } else {
                    None
                },
                None => None,
            }
        } else {
            None
        }
    }
}

/// Appends the encoding of an action to `out`.
pub fn encode_action(a: Action, out: &mut Vec<u8>)
    ensures
        final(out)@ == old(out)@ + spec_encode_action(a),
{
    match a {
        Action::No => {
            out.push(0);
        },
        Action::Transparent => {
            out.push(1);
        },
        Action::Key(code) => {
            out.push(2);
            encode_varint(code as u32, out);
        },
    }
    assert(out@ =~= old(out)@ + spec_encode_action(a));
}

/// Reads an action off the front of `bytes`.
pub fn decode_action<'a>(bytes: &'a [u8]) -> (r: Option<(Action, &'a [u8])>)
    ensures
        match r {
            Some((a, rest)) => spec_decode_action(bytes@) matches Some(pair) && pair.0 == a
                && pair.1 == rest@,
            None => spec_decode_action(bytes@) is None,
        },
{
    if bytes.len() == 0 {
        return None;
    }
    let tag = bytes[0];
    let tail = slice_subrange(bytes, 1, bytes.len());
    assert(tail@ =~= bytes@.skip(1));
    if tag == 0 {
        Some((Action::No, tail))
    } else if tag == 1 {
        Some((Action::Transparent, tail))
    } else if tag == 2 {
        match decode_varint_u16(tail) {
            Some((code, rest)) => Some((Action::Key(code), rest)),
            None => None,
        }
    } else {
        None
    }
}

/// A fixed run of actions travels back to back, in order.
pub open spec fn spec_encode_actions(s: Seq<Action>) -> Seq<u8>
    decreases s.len(),
{
    if s.len() == 0 {
        Seq::<u8>::empty()
    } else {
        spec_encode_actions(s.drop_last()) + spec_encode_action(s.last())
    }
}

/// Reads `n` actions off the front of `s`.
pub open spec fn spec_decode_actions(s: Seq<u8>, n: nat) -> Option<(Seq<Action>, Seq<u8>)>
    decreases n,
{
    if n == 0 {
        Some((Seq::<Action>::empty(), s))
    } else {
        match spec_decode_action(s) {
            Some(pair) => match spec_decode_actions(pair.1, (n - 1) as nat) {
                Some(rest) => Some((seq![pair.0] + rest.0, rest.1)),
                None => None,
            },
            None => None,
        }
    }
}

/// Appends the encodings of all 32 buffer slots to `out`.
pub fn encode_actions(data: &[Action; 32], out: &mut Vec<u8>)
    ensures
        final(out)@ == old(out)@ + spec_encode_actions(data@),
{
    let mut k: usize = 0;
    while k < 32
        invariant
            k <= 32,
            out@ == old(out)@ + spec_encode_actions(data@.take(k as int)),
        decreases 32 - k,
    {
        encode_action(data[k], out);
        proof {
            assert(data@.take(k + 1).drop_last() =~= data@.take(k as int));
            assert(data@.take(k + 1).last() == data@[k as int]);
            assert(old(out)@ + spec_encode_actions(data@.take(k as int)) + spec_encode_action(
                data@[k as int],
            ) =~= old(out)@ + spec_encode_actions(data@.take(k + 1)));
        }
        k = k + 1;
    }
    assert(data@.take(32) =~= data@);
}

/// Reads `n` actions off the front of `bytes`.
pub fn decode_actions<'a>(bytes: &'a [u8], n: u16) -> (r: Option<(Vec<Action>, &'a [u8])>)
    ensures
        match r {
            Some((v, rest)) => spec_decode_actions(bytes@, n as nat) matches Some(pair) && pair.0
                == v@ && pair.1 == rest@ && v@.len() == n,
            None => spec_decode_actions(bytes@, n as nat) is None,
        },
    decreases n,
{
    if n == 0 {
        let v: Vec<Action> = Vec::new();
        assert(v@ =~= Seq::<Action>::empty());
        return Some((v, bytes));
    }
    match decode_action(bytes) {
        Some((a, rest)) => {
            match decode_actions(rest, n - 1) {
                Some((mut v, rem)) => {
                    let ghost prev = v@;
                    v.insert(0, a);
                    assert(v@ =~= seq![a] + prev);
                    Some((v, rem))
                },
                None => None,
            }
        },
        None => None,
    }
}

/// The byte stream that stands for `e` on the wire: the variant tag, then
/// the fields in declaration order, bytes raw and wider integers as varints.
pub open spec fn spec_encode_error(e: RmkError) -> Seq<u8> {
    match e {
        RmkError::InvalidKeyPosition { layer, row, col } => seq![0u8, layer, row, col],
        RmkError::InvalidKeycode(code) => seq![1u8] + spec_encode_varint(code as nat),
        RmkError::LayerOutOfRange { max, requested } => seq![2u8, max, requested],
        RmkError::StorageError => seq![3u8],
        RmkError::ConfigCorrupted => seq![4u8],
        RmkError::InsufficientSpace { required, available } => seq![5u8] + spec_encode_varint(
            required as nat,
        ) + spec_encode_varint(available as nat),
        RmkError::MacroTooLong { max_len, actual_len } => seq![6u8] + spec_encode_varint(
            max_len as nat,
        ) + spec_encode_varint(actual_len as nat),
        RmkError::ComboConflict { existing_combo } => seq![7u8, existing_combo],
        RmkError::TapDanceInUse { index } => seq![8u8, index],
        RmkError::SystemBusy => seq![9u8],
        RmkError::Unauthorized => seq![10u8],
        RmkError::HardwareError => seq![11u8],
        RmkError::ProtocolVersionMismatch { expected, actual } => seq![12u8] + spec_encode_varint(
            expected as nat,
        ) + spec_encode_varint(actual as nat),
        RmkError::InvalidEndpoint => seq![13u8],
        RmkError::TransportError => seq![14u8],
        RmkError::NotImplemented => seq![15u8],
    }
}

/// Reads one error off the front of `s`, yielding it and the remainder.
pub open spec fn spec_decode_error(s: Seq<u8>) -> Option<(RmkError, Seq<u8>)> {
    if s.len() == 0 {
        None
    } else {
        let tag = s[0];
        let r = s.skip(1);
        if tag == 0 {
            if r.len() >= 3 {
                Some(
                    (
                        RmkError::InvalidKeyPosition { layer: r[0], row: r[1], col: r[2] },
                        r.skip(3),
                    ),
                )
            } else {
                None
            }
        } else if tag == 1 {
            match spec_decode_varint(r) {
                Some(pair) => if pair.0 <= u16::MAX {
                    Some((RmkError::InvalidKeycode(pair.0 as u16), pair.1))
                } else {
                    None
                },
                None => None,
            }
        } else if tag == 2 {
            if r.len() >= 2 {
                Some((RmkError::LayerOutOfRange { max: r[0], requested: r[1] }, r.skip(2)))
            } else {
                None
            }
        } else if tag == 3 {
            Some((RmkError::StorageError, r))
        } else if tag == 4 {
            Some((RmkError::ConfigCorrupted, r))
        } else if tag == 5 {
            match spec_decode_varint(r) {
                Some(p1) => if p1.0 <= u32::MAX {
                    match spec_decode_varint(p1.1) {
                        Some(p2) => if p2.0 <= u32::MAX {
                            Some(
                                (
                                    RmkError::InsufficientSpace {
                                        required: p1.0 as u32,
                                        available: p2.0 as u32,
                                    },
                                    p2.1,
                                ),
                            )
                        } else {
                            None
                        },
                        None => None,
                    }
                } else {
                    None
                },
                None => None,
            }
        } else if tag == 6 {
            match spec_decode_varint(r) {
                Some(p1) => if p1.0 <= u32::MAX {
                    match spec_decode_varint(p1.1) {
                        Some(p2) => if p2.0 <= u32::MAX {
                            Some(
                                (
                                    RmkError::MacroTooLong {
                                        max_len: p1.0 as u32,
                                        actual_len: p2.0 as u32,
                                    },
                                    p2.1,
                                ),
                            )
                        } else {
                            None
                        },
                        None => None,
                    }
                } else {
                    None
                },
                None => None,
            }
        } else if tag == 7 {
            if r.len() >= 1 {
                Some((RmkError::ComboConflict { existing_combo: r[0] }, r.skip(1)))
            } else {
                None
            }
        } else if tag == 8 {
            if r.len() >= 1 {
                Some((RmkError::TapDanceInUse { index: r[0] }, r.skip(1)))
            } else {
                None
            }
        } else if tag == 9 {
            Some((RmkError::SystemBusy, r))
        } else if tag == 10 {
            Some((RmkError::Unauthorized, r))
        } else if tag == 11 {
            Some((RmkError::HardwareError, r))
        } else if tag == 12 {
            match spec_decode_varint(r) {
                Some(p1) => if p1.0 <= u16::MAX {
                    match spec_decode_varint(p1.1) {
                        Some(p2) => if p2.0 <= u16::MAX {
                            Some(
                                (
                                    RmkError::ProtocolVersionMismatch {
                                        expected: p1.0 as u16,
                                        actual: p2.0 as u16,
                                    },
                                    p2.1,
                                ),
                            )
                        } else {
                            None
                        },
                        None => None,
                    }
                } else {
                    None
                },
                None => None,
            }
        } else if tag == 13 {
            Some((RmkError::InvalidEndpoint, r))
        } else if tag == 14 {
            Some((RmkError::TransportError, r))
        } else if tag == 15 {
            Some((RmkError::NotImplemented, r))
        } else {
            None
        }
    }
}

/// A whole payload parses as an error exactly when one error's encoding
/// fills it with nothing left over.
pub open spec fn spec_parse_error(s: Seq<u8>) -> Option<RmkError> {
    match spec_decode_error(s) {
        Some(pair) => if pair.1.len() == 0 {
            Some(pair.0)
        } else {
            None
        },
        None => None,
    }
}

/// Encodes an error for the wire.
pub fn encode_error(e: &RmkError) -> (r: Vec<u8>)
    ensures
        r@ == spec_encode_error(*e),
{
    let mut out: Vec<u8> = Vec::new();
    match e {
        RmkError::InvalidKeyPosition { layer, row, col } => {
            out.push(0);
            out.push(*layer);
            out.push(*row);
            out.push(*col);
        },
        RmkError::InvalidKeycode(code) => {
            out.push(1);
            encode_varint(*code as u32, &mut out);
        },
        RmkError::LayerOutOfRange { max, requested } => {
            out.push(2);
            out.push(*max);
            out.push(*requested);
        },
        RmkError::StorageError => {
            out.push(3);
        },
        RmkError::ConfigCorrupted => {
            out.push(4);
        },
        RmkError::InsufficientSpace { required, available } => {
            out.push(5);
            encode_varint(*required, &mut out);
            encode_varint(*available, &mut out);
        },
        RmkError::MacroTooLong { max_len, actual_len } => {
            out.push(6);
            encode_varint(*max_len, &mut out);
            encode_varint(*actual_len, &mut out);
        },
        RmkError::ComboConflict { existing_combo } => {
            out.push(7);
            out.push(*existing_combo);
        },
        RmkError::TapDanceInUse { index } => {
            out.push(8);
            out.push(*index);
        },
        RmkError::SystemBusy => {
            out.push(9);
        },
        RmkError::Unauthorized => {
            out.push(10);
        },
        RmkError::HardwareError => {
            out.push(11);
        },
        RmkError::ProtocolVersionMismatch { expected, actual } => {
            out.push(12);
            encode_varint(*expected as u32, &mut out);
            encode_varint(*actual as u32, &mut out);
        },
        RmkError::InvalidEndpoint => {
            out.push(13);
        },
        RmkError::TransportError => {
            out.push(14);
        },
        RmkError::NotImplemented => {
            out.push(15);
        },
    }
    assert(out@ =~= spec_encode_error(*e));
    out
}

/// Decodes a whole payload as an error; trailing bytes or a malformed
/// stream yield nothing.
pub fn decode_error(bytes: &[u8]) -> (r: Option<RmkError>)
    ensures
        r == spec_parse_error(bytes@),
{
    if bytes.len() == 0 {
        return None;
    }
    let tag = bytes[0];
    let r = slice_subrange(bytes, 1, bytes.len());
    assert(r@ =~= bytes@.skip(1));
    let parsed: Option<RmkError> = if tag == 0 {
        if r.len() == 3 {
            Some(RmkError::InvalidKeyPosition { layer: r[0], row: r[1], col: r[2] })
        } else {
            assert(bytes@.skip(1).len() >= 3 ==> bytes@.skip(1).skip(3).len() != 0);
            None
        }
    } else if tag == 1 {
        match decode_varint_u16(r) {
            Some((code, rest)) => if rest.len() == 0 {
                Some(RmkError::InvalidKeycode(code))
            } else {
                None
            },
            None => None,
        }
    } else if tag == 2 {
        if r.len() == 2 {
            Some(RmkError::LayerOutOfRange { max: r[0], requested: r[1] })
        } else {
            assert(bytes@.skip(1).len() >= 2 ==> bytes@.skip(1).skip(2).len() != 0);
            None
        }
    } else if tag == 3 {
        if r.len() == 0 {
            Some(RmkError::StorageError)
        } else {
            None
        }
    } else if tag == 4 {
        if r.len() == 0 {
            Some(RmkError::ConfigCorrupted)
        } else {
            None
        }
    } else if tag == 5 {
        match decode_varint(r) {
            Some((required, r1)) => match decode_varint(r1) {
                Some((available, r2)) => if r2.len() == 0 {
                    Some(RmkError::InsufficientSpace { required, available })
                } else {
                    None
                },
                None => None,
            },
            None => None,
        }
    } else if tag == 6 {
        match decode_varint(r) {
            Some((max_len, r1)) => match decode_varint(r1) {
                Some((actual_len, r2)) => if r2.len() == 0 {
                    Some(RmkError::MacroTooLong { max_len, actual_len })
                } else {
                    None
                },
                None => None,
            },
            None => None,
        }
    } else if tag == 7 {
        if r.len() == 1 {
            Some(RmkError::ComboConflict { existing_combo: r[0] })
        } else {
            assert(bytes@.skip(1).len() >= 1 ==> bytes@.skip(1).skip(1).len() != 0);
            None
        }
    } else if tag == 8 {
        if r.len() == 1 {
            Some(RmkError::TapDanceInUse { index: r[0] })
        } else {
            assert(bytes@.skip(1).len() >= 1 ==> bytes@.skip(1).skip(1).len() != 0);
            None
        }
    } else if tag == 9 {
        if r.len() == 0 {
            Some(RmkError::SystemBusy)
        } else {
            None
        }
    } else if tag == 10 {
        if r.len() == 0 {
            Some(RmkError::Unauthorized)
        } else {
            None
        }
    } else if tag == 11 {
        if r.len() == 0 {
            Some(RmkError::HardwareError)
        } else {
            None
        }
    } else if tag == 12 {
        match decode_varint_u16(r) {
            Some((expected, r1)) => match decode_varint_u16(r1) {
                Some((actual, r2)) => if r2.len() == 0 {
                    Some(RmkError::ProtocolVersionMismatch { expected, actual })
                } else {
                    None
                },
                None => None,
            },
            None => None,
        }
    } else if tag == 13 {
        if r.len() == 0 {
            Some(RmkError::InvalidEndpoint)
        } else {
            None
        }
    } else if tag == 14 {
        if r.len() == 0 {
            Some(RmkError::TransportError)
        } else {
            None
        }
    } else if tag == 15 {
        if r.len() == 0 {
            Some(RmkError::NotImplemented)
        } else {
            None
        }
    } else {
        None
    };
    parsed
}

/// A `GetKeycode` payload: one key position, nothing more.
pub open spec fn spec_parse_get_keycode_request(s: Seq<u8>) -> Option<GetKeycodeRequest> {
    match spec_decode_key_position(s) {
        Some(pair) => if pair.1.len() == 0 {
            Some(GetKeycodeRequest { position: pair.0 })
        } else {
            None
        },
        None => None,
    }
}

/// Decodes a `GetKeycode` payload.
pub fn decode_get_keycode_request(bytes: &[u8]) -> (r: Option<GetKeycodeRequest>)
    ensures
        r == spec_parse_get_keycode_request(bytes@),
{
    if bytes.len() == 3 {
        Some(
            GetKeycodeRequest {
                position: KeyPosition { layer: bytes[0], row: bytes[1], col: bytes[2] },
            },
        )
    } else {
        assert(bytes@.len() >= 3 ==> bytes@.skip(3).len() != 0);
        None
    }
}

/// A `SetKeycode` payload: a key position followed by an action, nothing
/// more.
pub open spec fn spec_parse_set_keycode_request(s: Seq<u8>) -> Option<SetKeycodeRequest> {
    match spec_decode_key_position(s) {
        Some(p1) => match spec_decode_action(p1.1) {
            Some(p2) => if p2.1.len() == 0 {
                Some(SetKeycodeRequest { position: p1.0, action: p2.0 })
            } else {
                None
            },
            None => None,
        },
        None => None,
    }
}

/// Decodes a `SetKeycode` payload.
pub fn decode_set_keycode_request(bytes: &[u8]) -> (r: Option<SetKeycodeRequest>)
    ensures
        r == spec_parse_set_keycode_request(bytes@),
{
    if bytes.len() < 3 {
        return None;
    }
    let position = KeyPosition { layer: bytes[0], row: bytes[1], col: bytes[2] };
    let rest = slice_subrange(bytes, 3, bytes.len());
    assert(rest@ =~= bytes@.skip(3));
    match decode_action(rest) {
        Some((action, rem)) => {
            if rem.len() == 0 {
                Some(SetKeycodeRequest { position, action })
            } else {
                None
            }
        },
        None => None,
    }
}

/// A `GetKeymapBuffer` payload: the offset and size varints, nothing more.
pub open spec fn spec_parse_buffer_request(s: Seq<u8>) -> Option<BufferRequest> {
    match spec_decode_varint(s) {
        Some(p1) => if p1.0 <= u16::MAX {
            match spec_decode_varint(p1.1) {
                Some(p2) => if p2.0 <= u16::MAX && p2.1.len() == 0 {
                    Some(BufferRequest { offset: p1.0 as u16, size: p2.0 as u16 })
                } else {
                    None
                },
                None => None,
            }
        } else {
            None
        },
        None => None,
    }
}

/// Decodes a `GetKeymapBuffer` payload.
pub fn decode_buffer_request(bytes: &[u8]) -> (r: Option<BufferRequest>)
    ensures
        r == spec_parse_buffer_request(bytes@),
{
    match decode_varint_u16(bytes) {
        Some((offset, r1)) => match decode_varint_u16(r1) {
            Some((size, r2)) => if r2.len() == 0 {
                Some(BufferRequest { offset, size })
            } else {
                None
            },
            None => None,
        },
        None => None,
    }
}

/// A `SetKeymapBuffer` payload: the offset varint, all 32 buffer slots, and
/// the count varint, nothing more. Yields the parts (offset, slots, count).
pub open spec fn spec_parse_buffer_update_request(s: Seq<u8>) -> Option<(u16, Seq<Action>, u16)> {
    match spec_decode_varint(s) {
        Some(p1) => if p1.0 <= u16::MAX {
            match spec_decode_actions(p1.1, 32) {
                Some(p2) => match spec_decode_varint(p2.1) {
                    Some(p3) => if p3.0 <= u16::MAX && p3.1.len() == 0 {
                        Some((p1.0 as u16, p2.0, p3.0 as u16))
                    } else {
                        None
                    },
                    None => None,
                },
                None => None,
            }
        } else {
            None
        },
        None => None,
    }
}

/// Decodes a `SetKeymapBuffer` payload.
pub fn decode_buffer_update_request(bytes: &[u8]) -> (r: Option<BufferUpdateRequest>)
    ensures
        r matches Some(req) ==> spec_parse_buffer_update_request(bytes@) matches Some(q) && q.0
            == req.offset && q.1 == req.data@ && q.2 == req.count,
        r is None ==> spec_parse_buffer_update_request(bytes@) is None,
{
    match decode_varint_u16(bytes) {
        Some((offset, r1)) => match decode_actions(r1, 32) {
            Some((v, r2)) => match decode_varint_u16(r2) {
                Some((count, r3)) => {
                    if r3.len() == 0 {
                        let mut data: [Action; 32] = [Action::No;32];
                        let mut k: usize = 0;
                        while k < 32
                            invariant
                                k <= 32,
                                v@.len() == 32,
                                forall|j: int| 0 <= j < k ==> data@[j] == v@[j],
                                data@.len() == 32,
                            decreases 32 - k,
                        {
                            data[k] = v[k];
                            k = k + 1;
                        }
                        assert(data@ =~= v@);
                        Some(BufferUpdateRequest { offset, data, count })
                    } else {
                        None
                    }
                },
                None => None,
            },
            None => None,
        },
        None => None,
    }
}

/// The reply payload of a successful `GetKeycode`.
pub open spec fn spec_encode_get_keycode_response(resp: GetKeycodeResponse) -> Seq<u8> {
    spec_encode_action(resp.action)
}

/// Encodes a `GetKeycode` response.
pub fn encode_get_keycode_response(resp: &GetKeycodeResponse) -> (r: Vec<u8>)
    ensures
        r@ == spec_encode_get_keycode_response(*resp),
{
    let mut out: Vec<u8> = Vec::new();
    encode_action(resp.action, &mut out);
    assert(out@ =~= spec_encode_get_keycode_response(*resp));
    out
}

/// The reply payload of a `GetLayerCount`.
pub open spec fn spec_encode_layer_count_response(resp: LayerCountResponse) -> Seq<u8> {
    seq![resp.count]
}

/// Encodes a `GetLayerCount` response.
pub fn encode_layer_count_response(resp: &LayerCountResponse) -> (r: Vec<u8>)
    ensures
        r@ == spec_encode_layer_count_response(*resp),
{
    let mut out: Vec<u8> = Vec::new();
    out.push(resp.count);
    assert(out@ =~= spec_encode_layer_count_response(*resp));
    out
}

/// The reply payload of a successful `GetKeymapBuffer`: all 32 slots, then
/// the count varint.
pub open spec fn spec_encode_buffer_response(resp: BufferResponse) -> Seq<u8> {
    spec_encode_actions(resp.data@) + spec_encode_varint(resp.count as nat)
}

/// Encodes a `GetKeymapBuffer` response.
pub fn encode_buffer_response(resp: &BufferResponse) -> (r: Vec<u8>)
    ensures
        r@ == spec_encode_buffer_response(*resp),
{
    let mut out: Vec<u8> = Vec::new();
    encode_actions(&resp.data, &mut out);
    encode_varint(resp.count as u32, &mut out);
    assert(out@ =~= spec_encode_buffer_response(*resp));
    out
}

/// A version triple travels as three varints.
pub open spec fn spec_encode_version(v: Version) -> Seq<u8> {
    spec_encode_varint(v.major as nat) + spec_encode_varint(v.minor as nat) + spec_encode_varint(
        v.patch as nat,
    )
}

/// Appends the encoding of a version triple to `out`.
pub fn encode_version(v: Version, out: &mut Vec<u8>)
    ensures
        final(out)@ == old(out)@ + spec_encode_version(v),
{
    encode_varint(v.major as u32, out);
    encode_varint(v.minor as u32, out);
    encode_varint(v.patch as u32, out);
    assert(out@ =~= old(out)@ + spec_encode_version(v));
}

/// The reply payload of a `GetProtocolVersion`.
pub open spec fn spec_encode_version_response(resp: VersionResponse) -> Seq<u8> {
    spec_encode_version(resp.version)
}

/// Encodes a `GetProtocolVersion` response.
pub fn encode_version_response(resp: &VersionResponse) -> (r: Vec<u8>)
    ensures
        r@ == spec_encode_version_response(*resp),
{
    let mut out: Vec<u8> = Vec::new();
    encode_version(resp.version, &mut out);
    assert(out@ =~= spec_encode_version_response(*resp));
    out
}

/// The reply payload of a `GetKeyboardInfo`: both version triples, the four
/// dimension bytes, and the lock flag.
pub open spec fn spec_encode_keyboard_info_response(resp: KeyboardInfoResponse) -> Seq<u8> {
    spec_encode_version(resp.info.protocol_version) + spec_encode_version(
        resp.info.firmware_version,
    ) + seq![
        resp.info.rows,
        resp.info.cols,
        resp.info.layers,
        resp.info.encoders,
        if resp.info.locked {
            1u8
        } else {
            0u8
        },
    ]
}

/// Encodes a `GetKeyboardInfo` response.
pub fn encode_keyboard_info_response(resp: &KeyboardInfoResponse) -> (r: Vec<u8>)
    ensures
        r@ == spec_encode_keyboard_info_response(*resp),
{
    let mut out: Vec<u8> = Vec::new();
    encode_version(resp.info.protocol_version, &mut out);
    encode_version(resp.info.firmware_version, &mut out);
    out.push(resp.info.rows);
    out.push(resp.info.cols);
    out.push(resp.info.layers);
    out.push(resp.info.encoders);
    out.push(
        if resp.info.locked {
            1
        } else {
            0
        },
    );
    assert(out@ =~= spec_encode_keyboard_info_response(*resp));
    out
}

/// Encoding any error and decoding the result gives the error back: the
/// failure vocabulary survives the wire bit-exactly.
pub proof fn lemma_error_round_trip(e: RmkError)
    ensures
        spec_parse_error(spec_encode_error(e)) == Some(e),
{
    let s = spec_encode_error(e);
    match e {
        RmkError::InvalidKeyPosition { layer, row, col } => {
            assert(s.skip(1) =~= seq![layer, row, col]);
            assert(s.skip(1).skip(3) =~= Seq::<u8>::empty());
        },
        RmkError::InvalidKeycode(code) => {
            lemma_varint_round_trip(code as nat, Seq::<u8>::empty());
            assert(s.skip(1) =~= spec_encode_varint(code as nat) + Seq::<u8>::empty());
        },
        RmkError::LayerOutOfRange { max, requested } => {
            assert(s.skip(1) =~= seq![max, requested]);
            assert(s.skip(1).skip(2) =~= Seq::<u8>::empty());
        },
        RmkError::StorageError => {
            assert(s.skip(1) =~= Seq::<u8>::empty());
        },
        RmkError::ConfigCorrupted => {
            assert(s.skip(1) =~= Seq::<u8>::empty());
        },
        RmkError::InsufficientSpace { required, available } => {
            lemma_varint_round_trip(
                required as nat,
                spec_encode_varint(available as nat) + Seq::<u8>::empty(),
            );
            lemma_varint_round_trip(available as nat, Seq::<u8>::empty());
            assert(s.skip(1) =~= spec_encode_varint(required as nat) + (spec_encode_varint(
                available as nat,
            ) + Seq::<u8>::empty()));
        },
        RmkError::MacroTooLong { max_len, actual_len } => {
            lemma_varint_round_trip(
                max_len as nat,
                spec_encode_varint(actual_len as nat) + Seq::<u8>::empty(),
            );
            lemma_varint_round_trip(actual_len as nat, Seq::<u8>::empty());
            assert(s.skip(1) =~= spec_encode_varint(max_len as nat) + (spec_encode_varint(
                actual_len as nat,
            ) + Seq::<u8>::empty()));
        },
        RmkError::ComboConflict { existing_combo } => {
            assert(s.skip(1) =~= seq![existing_combo]);
            assert(s.skip(1).skip(1) =~= Seq::<u8>::empty());
        },
        RmkError::TapDanceInUse { index } => {
            assert(s.skip(1) =~= seq![index]);
            assert(s.skip(1).skip(1) =~= Seq::<u8>::empty());
        },
        RmkError::SystemBusy => {
            assert(s.skip(1) =~= Seq::<u8>::empty());
        },
        RmkError::Unauthorized => {
            assert(s.skip(1) =~= Seq::<u8>::empty());
        },
        RmkError::HardwareError => {
            assert(s.skip(1) =~= Seq::<u8>::empty());
        },
        RmkError::ProtocolVersionMismatch { expected, actual } => {
            lemma_varint_round_trip(
                expected as nat,
                spec_encode_varint(actual as nat) + Seq::<u8>::empty(),
            );
            lemma_varint_round_trip(actual as nat, Seq::<u8>::empty());
            assert(s.skip(1) =~= spec_encode_varint(expected as nat) + (spec_encode_varint(
                actual as nat,
            ) + Seq::<u8>::empty()));
        },
        RmkError::InvalidEndpoint => {
            assert(s.skip(1) =~= Seq::<u8>::empty());
        },
        RmkError::TransportError => {
            assert(s.skip(1) =~= Seq::<u8>::empty());
        },
        RmkError::NotImplemented => {
            assert(s.skip(1) =~= Seq::<u8>::empty());
        },
    }
}

} // verus!
