//! The closed error taxonomy of the protocol.
//!
//! These errors are part of the wire schema: their variant tags and field
//! layout must stay stable across firmware/host version pairs (the codec in
//! `codec` pins the byte layout down and proves it round-trips).

use vstd::prelude::*;
use vstd::string::StringExecFns;

verus! {

/// Every failure the firmware can report to a host, with the fields needed
/// to diagnose it.
///
/// The taxonomy: validation errors (`InvalidKeyPosition`, `InvalidKeycode`,
/// `LayerOutOfRange`) are caused by malformed client input and recoverable by
/// correcting the request; capacity errors (`InsufficientSpace`,
/// `MacroTooLong`, `ComboConflict`, `TapDanceInUse`) describe firmware-side
/// capacity or consistency conflicts; system errors (`StorageError`,
/// `ConfigCorrupted`, `HardwareError`, `SystemBusy`) may be transient and are
/// surfaced without retry; `Unauthorized` gates mutation while locked; and
/// protocol errors (`ProtocolVersionMismatch`, `InvalidEndpoint`,
/// `TransportError`, `NotImplemented`) signal client/firmware incompatibility.
#[derive(Clone, Copy, PartialEq, Eq, Structural, Debug)]
pub enum RmkError {
    /// Invalid key position specified.
    InvalidKeyPosition {
        /// Layer number.
        layer: u8,
        /// Row number.
        row: u8,
        /// Column number.
        col: u8,
    },
    /// Invalid keycode value.
    InvalidKeycode(u16),
    /// Layer index out of range.
    LayerOutOfRange {
        /// Maximum valid layer.
        max: u8,
        /// Requested layer.
        requested: u8,
    },
    /// Storage operation failed.
    StorageError,
    /// Configuration is corrupted.
    ConfigCorrupted,
    /// Not enough space for the operation.
    InsufficientSpace {
        /// Required space in bytes.
        required: u32,
        /// Available space in bytes.
        available: u32,
    },
    /// Macro definition too long.
    MacroTooLong {
        /// Maximum allowed length.
        max_len: u32,
        /// Actual length.
        actual_len: u32,
    },
    /// Combo conflicts with an existing combo.
    ComboConflict {
        /// Index of the conflicting combo.
        existing_combo: u8,
    },
    /// Tap dance is in use and cannot be modified.
    TapDanceInUse {
        /// Index of the tap dance.
        index: u8,
    },
    /// System is busy processing another request.
    SystemBusy,
    /// Operation requires unlock but the keyboard is locked.
    Unauthorized,
    /// Hardware error occurred.
    HardwareError,
    /// Protocol version mismatch.
    ProtocolVersionMismatch {
        /// Expected version.
        expected: u16,
        /// Actual version.
        actual: u16,
    },
    /// Request path matches no known endpoint.
    InvalidEndpoint,
    /// Transport layer error.
    TransportError,
    /// Feature not implemented.
    NotImplemented,
}

/// The character for one decimal digit.
pub open spec fn spec_digit_char(d: nat) -> char {
    if d == 0 {
        '0'
    } else if d == 1 {
        '1'
    } else if d == 2 {
        '2'
    } else if d == 3 {
        '3'
    } else if d == 4 {
        '4'
    } else if d == 5 {
        '5'
    } else if d == 6 {
        '6'
    } else if d == 7 {
        '7'
    } else if d == 8 {
        '8'
    } else {
        '9'
    }
}

/// The decimal rendering of a number, most significant digit first, no
/// leading zeroes.
pub open spec fn spec_dec_digits(n: nat) -> Seq<char>
    decreases n,
{
    if n < 10 {
        seq![spec_digit_char(n)]
    } else {
        spec_dec_digits(n / 10) + seq![spec_digit_char(n % 10)]
    }
}

/// The character for one hexadecimal digit, upper case.
pub open spec fn spec_hex_digit_char(d: nat) -> char {
    if d < 10 {
        spec_digit_char(d)
    } else if d == 10 {
        'A'
    } else if d == 11 {
        'B'
    } else if d == 12 {
        'C'
    } else if d == 13 {
        'D'
    } else if d == 14 {
        'E'
    } else {
        'F'
    }
}

/// The four-digit upper-case hexadecimal rendering of a keycode.
pub open spec fn spec_hex4(code: u16) -> Seq<char> {
    seq![
        spec_hex_digit_char(((code >> 12) & 0xF) as nat),
        spec_hex_digit_char(((code >> 8) & 0xF) as nat),
        spec_hex_digit_char(((code >> 4) & 0xF) as nat),
        spec_hex_digit_char((code & 0xF) as nat),
    ]
}

/// Appends one decimal digit character.
fn append_digit(d: u32, out: &mut String)
    requires
        d < 10,
    ensures
        final(out)@ == old(out)@ + seq![spec_digit_char(d as nat)],
{
    proof {
        reveal_strlit("0");
        reveal_strlit("1");
        reveal_strlit("2");
        reveal_strlit("3");
        reveal_strlit("4");
        reveal_strlit("5");
        reveal_strlit("6");
        reveal_strlit("7");
        reveal_strlit("8");
        reveal_strlit("9");
    }
    match d {
        0 => out.append("0"),
        1 => out.append("1"),
        2 => out.append("2"),
        3 => out.append("3"),
        4 => out.append("4"),
        5 => out.append("5"),
        6 => out.append("6"),
        7 => out.append("7"),
        8 => out.append("8"),
        _ => out.append("9"),
    }
    assert(out@ =~= old(out)@ + seq![spec_digit_char(d as nat)]);
}

/// Appends the decimal rendering of a number.
fn append_dec(n: u32, out: &mut String)
    ensures
        final(out)@ == old(out)@ + spec_dec_digits(n as nat),
    decreases n,
{
    if n < 10 {
        append_digit(n, out);
    } else {
        append_dec(n / 10, out);
        append_digit(n % 10, out);
        assert(out@ =~= old(out)@ + spec_dec_digits(n as nat));
    }
}

/// Appends one hexadecimal digit character, upper case.
fn append_hex_digit(d: u16, out: &mut String)
    requires
        d < 16,
    ensures
        final(out)@ == old(out)@ + seq![spec_hex_digit_char(d as nat)],
{
    if d < 10 {
        append_digit(d as u32, out);
    } else {
        proof {
            reveal_strlit("A");
            reveal_strlit("B");
            reveal_strlit("C");
            reveal_strlit("D");
            reveal_strlit("E");
            reveal_strlit("F");
        }
        match d {
            10 => out.append("A"),
            11 => out.append("B"),
            12 => out.append("C"),
            13 => out.append("D"),
            14 => out.append("E"),
            _ => out.append("F"),
        }
        assert(out@ =~= old(out)@ + seq![spec_hex_digit_char(d as nat)]);
    }
}

/// Appends the four-digit hexadecimal rendering of a keycode.
fn append_hex4(code: u16, out: &mut String)
    ensures
        final(out)@ == old(out)@ + spec_hex4(code),
{
    assert((code >> 12) & 0xF < 16 && (code >> 8) & 0xF < 16 && (code >> 4) & 0xF < 16 && code
        & 0xF < 16) by (bit_vector);
    append_hex_digit((code >> 12) & 0xF, out);
    append_hex_digit((code >> 8) & 0xF, out);
    append_hex_digit((code >> 4) & 0xF, out);
    append_hex_digit(code & 0xF, out);
    assert(out@ =~= old(out)@ + spec_hex4(code));
}

/// The diagnostic text of each error, with its fields written out.
pub open spec fn spec_error_message(e: RmkError) -> Seq<char> {
    match e {
        RmkError::InvalidKeyPosition { layer, row, col } => "Invalid key position: layer="@
            + spec_dec_digits(layer as nat) + ", row="@ + spec_dec_digits(row as nat) + ", col="@
            + spec_dec_digits(col as nat),
        RmkError::InvalidKeycode(code) => "Invalid keycode: 0x"@ + spec_hex4(code),
        RmkError::LayerOutOfRange { max, requested } => "Layer "@ + spec_dec_digits(
            requested as nat,
        ) + " out of range (max: "@ + spec_dec_digits(max as nat) + ")"@,
        RmkError::StorageError => "Storage operation failed"@,
        RmkError::ConfigCorrupted => "Configuration is corrupted"@,
        RmkError::InsufficientSpace { required, available } => "Insufficient space: required="@
            + spec_dec_digits(required as nat) + ", available="@ + spec_dec_digits(
            available as nat,
        ),
        RmkError::MacroTooLong { max_len, actual_len } => "Macro too long: max="@
            + spec_dec_digits(max_len as nat) + ", actual="@ + spec_dec_digits(actual_len as nat),
        RmkError::ComboConflict { existing_combo } => "Combo conflicts with existing combo "@
            + spec_dec_digits(existing_combo as nat),
        RmkError::TapDanceInUse { index } => "Tap dance "@ + spec_dec_digits(index as nat)
            + " is in use"@,
        RmkError::SystemBusy => "System is busy"@,
        RmkError::Unauthorized => "Operation requires unlock"@,
        RmkError::HardwareError => "Hardware error occurred"@,
        RmkError::ProtocolVersionMismatch { expected, actual } => {
            "Protocol version mismatch: expected="@ + spec_dec_digits(expected as nat)
                + ", actual="@ + spec_dec_digits(actual as nat)
        },
        RmkError::InvalidEndpoint => "Invalid endpoint"@,
        RmkError::TransportError => "Transport layer error"@,
        RmkError::NotImplemented => "Feature not implemented"@,
    }
}

impl RmkError {
    /// Renders the error as its diagnostic text, for logs and tests.
    pub fn message(&self) -> (s: String)
        ensures
            s@ == spec_error_message(*self),
    {
        let mut out = String::new();
        match self {
            RmkError::InvalidKeyPosition { layer, row, col } => {
                out.append("Invalid key position: layer=");
                append_dec(*layer as u32, &mut out);
                out.append(", row=");
                append_dec(*row as u32, &mut out);
                out.append(", col=");
                append_dec(*col as u32, &mut out);
            },
            RmkError::InvalidKeycode(code) => {
                out.append("Invalid keycode: 0x");
                append_hex4(*code, &mut out);
            },
            RmkError::LayerOutOfRange { max, requested } => {
                out.append("Layer ");
                append_dec(*requested as u32, &mut out);
                out.append(" out of range (max: ");
                append_dec(*max as u32, &mut out);
                out.append(")");
            },
            RmkError::StorageError => {
                out.append("Storage operation failed");
            },
            RmkError::ConfigCorrupted => {
                out.append("Configuration is corrupted");
            },
            RmkError::InsufficientSpace { required, available } => {
                out.append("Insufficient space: required=");
                append_dec(*required, &mut out);
                out.append(", available=");
                append_dec(*available, &mut out);
            },
            RmkError::MacroTooLong { max_len, actual_len } => {
                out.append("Macro too long: max=");
                append_dec(*max_len, &mut out);
                out.append(", actual=");
                append_dec(*actual_len, &mut out);
            },
            RmkError::ComboConflict { existing_combo } => {
                out.append("Combo conflicts with existing combo ");
                append_dec(*existing_combo as u32, &mut out);
            },
            RmkError::TapDanceInUse { index } => {
                out.append("Tap dance ");
                append_dec(*index as u32, &mut out);
                out.append(" is in use");
            },
            RmkError::SystemBusy => {
                out.append("System is busy");
            },
            RmkError::Unauthorized => {
                out.append("Operation requires unlock");
            },
            RmkError::HardwareError => {
                out.append("Hardware error occurred");
            },
            RmkError::ProtocolVersionMismatch { expected, actual } => {
                out.append("Protocol version mismatch: expected=");
                append_dec(*expected as u32, &mut out);
                out.append(", actual=");
                append_dec(*actual as u32, &mut out);
            },
            RmkError::InvalidEndpoint => {
                out.append("Invalid endpoint");
            },
            RmkError::TransportError => {
                out.append("Transport layer error");
            },
            RmkError::NotImplemented => {
                out.append("Feature not implemented");
            },
        }
        assert(out@ =~= spec_error_message(*self));
        out
    }
}

} // verus!
