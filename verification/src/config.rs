//! Keyboard configuration: the backlight section and its default overlay.

use vstd::prelude::*;

verus! {

/// Settings of one backlight strip.
#[derive(Clone, Copy, PartialEq, Eq, Structural, Debug)]
pub struct BacklightSetting {
    /// Whether the backlight comes on at boot.
    pub enabled_on_boot: bool,
    /// Initial brightness level.
    pub brightness: u8,
    /// Initial animation mode, as its two-bit encoding.
    pub mode_bits: u8,
}

/// The backlight section of the keyboard configuration.
#[derive(Clone, Copy, PartialEq, Eq, Structural, Debug)]
pub struct BacklightConfig {
    /// The configured strip, if the section names one.
    pub backlight: Option<BacklightSetting>,
}

/// The backlight configuration used when the keyboard file has none: no
/// strip configured.
pub open spec fn spec_default_backlight_config() -> BacklightConfig {
    BacklightConfig { backlight: None }
}

impl Default for BacklightConfig {
    /// The default backlight section.
    fn default() -> (c: BacklightConfig)
        ensures
            c == spec_default_backlight_config(),
    {
        BacklightConfig { backlight: None }
    }
}

/// The parsed keyboard configuration file, as far as the backlight cares.
#[derive(Clone, Copy, PartialEq, Eq, Structural, Debug)]
pub struct KeyboardTomlConfig {
    /// The backlight section, if the file has one.
    pub backlight: Option<BacklightConfig>,
}

impl KeyboardTomlConfig {
    /// Resolves the backlight section against the default: a file without
    /// the section gets the default whole; a file with the section keeps its
    /// own strip setting, falling back to the default's where it names none.
    pub fn get_backlight_config(&self) -> (c: BacklightConfig)
        ensures
            self.backlight matches Some(user) ==> c == (BacklightConfig {
                backlight: if user.backlight is Some {
                    user.backlight
                } else {
                    spec_default_backlight_config().backlight
                },
            }),
            self.backlight is None ==> c == spec_default_backlight_config(),
    {
        let default = BacklightConfig::default();
        match self.backlight {
            Some(mut user) => {
                user.backlight = match user.backlight {
                    Some(setting) => Some(setting),
                    None => default.backlight,
                };
                user
            },
            None => default,
        }
    }
}

} // verus!
