//! Peripheral controllers as verified state machines.
//!
//! Each controller reacts to one event at a time: it dispatches on the tag,
//! updates its own state, and returns the peripheral side effect it wants
//! performed — a pin level, a list of text draws. The unverifiable edges
//! (the GPIO write, the SPI transfer, the suspend-until-next-event loop)
//! live outside and feed these functions; a draw failure there is treated
//! as fatal by design, so the functions here never see one.

use vstd::prelude::*;

use crate::backlight::BacklightIndicator;
use crate::event::ControllerEvent;
use crate::types::Action;

verus! {

/// The backlight controller: an indicator record and the pin it drives.
pub struct BacklightController {
    /// Current indicator state.
    pub state: BacklightIndicator,
}

impl BacklightController {
    /// A controller with the backlight off and everything zeroed.
    pub fn new() -> (c: BacklightController)
        ensures
            c.state == (BacklightIndicator {
                backlight_en: false,
                pwm: false,
                mode: 0u8,
                brightness: 0u8,
            }),
    {
        BacklightController {
            state: BacklightIndicator { backlight_en: false, pwm: false, mode: 0, brightness: 0 },
        }
    }

    /// Reacts to one event. A backlight toggle records the new enable flag
    /// and asks the driver to set the pin to it; every other event leaves
    /// the controller untouched and drives nothing.
    pub fn process_event(&mut self, event: ControllerEvent) -> (pin: Option<bool>)
        ensures
            match event {
                ControllerEvent::BacklightToggle(on) => final(self).state == (BacklightIndicator {
                    backlight_en: on,
                    pwm: old(self).state.pwm,
                    mode: old(self).state.mode,
                    brightness: old(self).state.brightness,
                }) && pin == Some(on),
                _ => *final(self) == *old(self) && pin is None,
            },
    {
        match event {
            ControllerEvent::BacklightToggle(on) => {
                self.state.backlight_en = on;
                Some(on)
            },
            _ => None,
        }
    }
}

/// What a draw command writes: a fixed label or a single glyph.
#[derive(Clone, Copy, PartialEq, Eq, Structural, Debug)]
pub enum DisplayText {
    /// The "pressed key" caption.
    PressedKeyLabel,
    /// The "battery level" caption.
    BatteryLabel,
    /// One character cell, as its byte.
    Glyph(u8),
}

/// One text draw the display controller asks its driver to perform.
#[derive(Clone, Copy, PartialEq, Eq, Structural, Debug)]
pub struct DrawCommand {
    /// What to write.
    pub text: DisplayText,
    /// Horizontal pixel position.
    pub x: i32,
    /// Vertical pixel position.
    pub y: i32,
}

/// The printable byte a keycode stands for, under the usage-page layout:
/// codes 4 through 29 are the letters, 30 through 38 the digits one to
/// nine, 39 the zero; anything else renders as a question mark.
pub open spec fn spec_key_ascii(code: u16) -> u8 {
    if 4 <= code <= 29 {
        (97 + (code - 4)) as u8
    } else if 30 <= code <= 38 {
        (49 + (code - 30)) as u8
    } else if code == 39 {
        48u8
    } else {
        63u8
    }
}

/// Renders a keycode as its printable byte.
pub fn key_to_ascii(code: u16) -> (b: u8)
    ensures
        b == spec_key_ascii(code),
{
    if 4 <= code && code <= 29 {
        97 + (code - 4) as u8
    } else if 30 <= code && code <= 38 {
        49 + (code - 30) as u8
    } else if code == 39 {
        48
    } else {
        63
    }
}

/// The draws one event asks of the display: a battery report redraws both
/// captions and the battery glyph; a key press draws the key's glyph; a key
/// release and every other tag draw nothing. The display is refreshed after
/// every event regardless.
pub open spec fn spec_display_plan(event: ControllerEvent) -> Seq<DrawCommand> {
    match event {
        ControllerEvent::Battery(level) => seq![
            DrawCommand { text: DisplayText::PressedKeyLabel, x: 4, y: 62 },
            DrawCommand { text: DisplayText::BatteryLabel, x: 4, y: 102 },
            DrawCommand { text: DisplayText::Glyph(level), x: 4, y: 122 },
        ],
        ControllerEvent::Key { pressed, action } => if pressed && action matches Action::Key(code) {
            seq![
                DrawCommand {
                    text: DisplayText::Glyph(spec_key_ascii(action->Key_0)),
                    x: 4,
                    y: 82,
                },
            ]
        } else {
            Seq::<DrawCommand>::empty()
        },
        _ => Seq::<DrawCommand>::empty(),
    }
}

/// The display controller: stateless decisions from events to draw
/// commands; its driver, subscription and redraw loop live outside.
pub struct DisplayController {}

impl DisplayController {
    /// Creates the display controller.
    pub fn new() -> (c: DisplayController) {
        DisplayController {  }
    }

    /// Decides what one event draws.
    pub fn process_event(&self, event: ControllerEvent) -> (cmds: Vec<DrawCommand>)
        ensures
            cmds@ == spec_display_plan(event),
    {
        let mut cmds: Vec<DrawCommand> = Vec::new();
        match event {
            ControllerEvent::Battery(level) => {
                cmds.push(DrawCommand { text: DisplayText::PressedKeyLabel, x: 4, y: 62 });
                cmds.push(DrawCommand { text: DisplayText::BatteryLabel, x: 4, y: 102 });
                cmds.push(DrawCommand { text: DisplayText::Glyph(level), x: 4, y: 122 });
            },
            ControllerEvent::Key { pressed, action } => {
                if pressed {
                    match action {
                        Action::Key(code) => {
                            cmds.push(
                                DrawCommand {
                                    text: DisplayText::Glyph(key_to_ascii(code)),
                                    x: 4,
                                    y: 82,
                                },
                            );
                        },
                        _ => {},
                    }
                }
            },
            _ => {},
        }
        assert(cmds@ =~= spec_display_plan(event));
        cmds
    }
}

} // verus!
