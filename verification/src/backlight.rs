//! Backlight state: the mode enumeration and the indicator record.
//!
//! The indicator is kept as an ordinary record with explicit bounds; the
//! packed register-style byte the hardware wants is produced and read only
//! through the `into_bits`/`from_bits` pair at the hardware boundary, which
//! is proved to round-trip.

use vstd::prelude::*;

verus! {

/// How the backlight animates.
#[derive(Clone, Copy, PartialEq, Eq, Structural, Debug)]
pub enum BacklightMode {
    /// Steady on.
    CONSTANT,
    /// Slow fade in and out.
    BREATHING,
    /// Colour cycle.
    RAINBOW,
    /// Moving gradient.
    SCROLLING,
}

impl BacklightMode {
    /// What `into_bits` yields for each mode.
    pub open spec fn spec_into_bits(self) -> u8 {
        match self {
            BacklightMode::CONSTANT => 0b00,
            BacklightMode::BREATHING => 0b01,
            BacklightMode::RAINBOW => 0b10,
            BacklightMode::SCROLLING => 0b11,
        }
    }

    /// What `from_bits` yields: only the low two bits select the mode.
    pub open spec fn spec_from_bits(bits: u8) -> BacklightMode {
        if bits & 0b11 == 0b00 {
            BacklightMode::CONSTANT
        } else if bits & 0b11 == 0b01 {
            BacklightMode::BREATHING
        } else if bits & 0b11 == 0b10 {
            BacklightMode::RAINBOW
        } else {
            BacklightMode::SCROLLING
        }
    }

    /// Reads a mode out of the low two bits of a packed byte.
    pub fn from_bits(bits: u8) -> (m: BacklightMode)
        ensures
            m == BacklightMode::spec_from_bits(bits),
    {
        match bits & 0b11 {
            0b00 => BacklightMode::CONSTANT,
            0b01 => BacklightMode::BREATHING,
            0b10 => BacklightMode::RAINBOW,
            _ => BacklightMode::SCROLLING,
        }
    }

    /// Packs a mode into its two-bit encoding.
    pub fn into_bits(self) -> (bits: u8)
        ensures
            bits == self.spec_into_bits(),
            bits < 4,
    {
        match self {
            BacklightMode::CONSTANT => 0b00,
            BacklightMode::BREATHING => 0b01,
            BacklightMode::RAINBOW => 0b10,
            BacklightMode::SCROLLING => 0b11,
        }
    }
}

/// The two-bit mode encoding is lossless: unpacking what was packed gives
/// the mode back, and packing what was unpacked reproduces the low two bits.
pub proof fn lemma_backlight_mode_round_trip(m: BacklightMode, bits: u8)
    ensures
        BacklightMode::spec_from_bits(m.spec_into_bits()) == m,
        BacklightMode::spec_from_bits(bits).spec_into_bits() == bits & 0b11,
{
    assert(bits & 0b11 == 0b00 || bits & 0b11 == 0b01 || bits & 0b11 == 0b10 || bits & 0b11
        == 0b11) by (bit_vector);
    assert(0b00u8 & 0b11 == 0b00 && 0b01u8 & 0b11 == 0b01 && 0b10u8 & 0b11 == 0b10 && 0b11u8 & 0b11
        == 0b11) by (bit_vector);
}

/// Backlight indicator state, as the hardware register models it: an enable
/// flag, a PWM flag, a two-bit mode and a four-bit brightness.
#[derive(Clone, Copy, PartialEq, Eq, Structural, Debug)]
pub struct BacklightIndicator {
    /// Whether the backlight is on.
    pub backlight_en: bool,
    /// Whether brightness is PWM-driven.
    pub pwm: bool,
    /// Animation mode, as its two-bit encoding.
    pub mode: u8,
    /// Brightness level, four bits.
    pub brightness: u8,
}

impl BacklightIndicator {
    /// The record stays inside the widths the packed byte can hold.
    pub open spec fn wf(self) -> bool {
        self.mode < 4 && self.brightness < 16
    }

    /// The packed byte: bit 0 enable, bit 1 PWM, bits 2..=3 mode,
    /// bits 4..=7 brightness.
    pub open spec fn spec_into_bits(self) -> u8 {
        (if self.backlight_en {
            1u8
        } else {
            0u8
        }) | ((if self.pwm {
            1u8
        } else {
            0u8
        }) << 1) | ((self.mode & 0b11) << 2) | ((self.brightness & 0b1111) << 4)
    }

    /// The record a packed byte denotes.
    pub open spec fn spec_from_bits(bits: u8) -> BacklightIndicator {
        BacklightIndicator {
            backlight_en: bits & 1 == 1,
            pwm: (bits >> 1) & 1 == 1,
            mode: (bits >> 2) & 0b11,
            brightness: (bits >> 4) & 0b1111,
        }
    }

    /// Unpacks a hardware byte into the record.
    pub fn from_bits(bits: u8) -> (r: BacklightIndicator)
        ensures
            r == BacklightIndicator::spec_from_bits(bits),
            r.wf(),
    {
        let r = BacklightIndicator {
            backlight_en: bits & 1 == 1,
            pwm: (bits >> 1) & 1 == 1,
            mode: (bits >> 2) & 0b11,
            brightness: (bits >> 4) & 0b1111,
        };
        assert((bits >> 2) & 0b11 < 4 && (bits >> 4) & 0b1111 < 16) by (bit_vector);
        r
    }

    /// Packs the record into the hardware byte.
    pub fn into_bits(self) -> (bits: u8)
        ensures
            bits == self.spec_into_bits(),
    {
        let en: u8 = if self.backlight_en {
            1
        } else {
            0
        };
        let pwm: u8 = if self.pwm {
            1
        } else {
            0
        };
        en | (pwm << 1) | ((self.mode & 0b11) << 2) | ((self.brightness & 0b1111) << 4)
    }

    /// Builds an indicator from its parts; out-of-width brightness is masked
    /// to its low four bits.
    pub fn new_from(backlight_en: bool, pwm: bool, mode: BacklightMode, brightness: u8) -> (r:
        BacklightIndicator)
        ensures
            r.backlight_en == backlight_en,
            r.pwm == pwm,
            r.mode == mode.spec_into_bits(),
            r.brightness == brightness & 0b1111,
            r.wf(),
    {
        let r = BacklightIndicator {
            backlight_en,
            pwm,
            mode: mode.into_bits(),
            brightness: brightness & 0b1111,
        };
        assert(brightness & 0b1111 < 16) by (bit_vector);
        r
    }
}

/// Packing an in-width indicator and unpacking it gives the indicator back,
/// and unpacking any byte and repacking reproduces the byte: the packed
/// hardware byte loses nothing.
pub proof fn lemma_backlight_indicator_round_trip(x: BacklightIndicator, bits: u8)
    requires
        x.wf(),
    ensures
        BacklightIndicator::spec_from_bits(x.spec_into_bits()) == x,
        BacklightIndicator::spec_from_bits(bits).spec_into_bits() == bits,
{
    let e: u8 = if x.backlight_en {
        1
    } else {
        0
    };
    let p: u8 = if x.pwm {
        1
    } else {
        0
    };
    let m = x.mode;
    let b = x.brightness;
    let packed = e | (p << 1) | ((m & 0b11) << 2) | ((b & 0b1111) << 4);
    assert((packed & 1 == 1) == (e == 1) && ((packed >> 1) & 1 == 1) == (p == 1) && (packed >> 2)
        & 0b11 == m && (packed >> 4) & 0b1111 == b) by (bit_vector)
        requires
            e <= 1,
            p <= 1,
            m < 4,
            b < 16,
            packed == e | (p << 1) | ((m & 0b11) << 2) | ((b & 0b1111) << 4),
    ;
    let e2: u8 = if bits & 1 == 1 {
        1
    } else {
        0
    };
    let p2: u8 = if (bits >> 1) & 1 == 1 {
        1
    } else {
        0
    };
    assert(e2 == (bits & 1) && p2 == ((bits >> 1) & 1)) by (bit_vector)
        requires
            e2 == (if bits & 1 == 1 {
                1u8
            } else {
                0u8
            }),
            p2 == (if (bits >> 1) & 1 == 1 {
                1u8
            } else {
                0u8
            }),
    ;
    assert((bits & 1) | (((bits >> 1) & 1) << 1) | ((((bits >> 2) & 0b11) & 0b11) << 2) | ((((bits
        >> 4) & 0b1111) & 0b1111) << 4) == bits) by (bit_vector);
}

} // verus!
