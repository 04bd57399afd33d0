//! Events the input path publishes for the peripheral controllers.

use vstd::prelude::*;

use crate::types::Action;

verus! {

/// A peripheral-relevant occurrence, produced by the input-scanning path and
/// consumed uniformly by every controller. Subscribers never mutate a
/// published event; each receives its own copy.
#[derive(Clone, Copy, PartialEq, Eq, Structural, Debug)]
pub enum ControllerEvent {
    /// Key activity, with the action the keymap resolved for the key.
    Key {
        /// Whether the key went down (`true`) or up (`false`).
        pressed: bool,
        /// The resolved action of the key.
        action: Action,
    },
    /// Battery level report, in percent.
    Battery(u8),
    /// The backlight was toggled on or off.
    BacklightToggle(bool),
}

} // verus!
