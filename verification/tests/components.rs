use rmk_core::backlight::{BacklightIndicator, BacklightMode};
use rmk_core::bus::EventBus;
use rmk_core::config::{BacklightConfig, BacklightSetting, KeyboardTomlConfig};
use rmk_core::controller::{BacklightController, DisplayController, DisplayText};
use rmk_core::event::ControllerEvent;
use rmk_core::mailbox::{FlashOperationMessage, StorageMailbox};
use rmk_core::topics::{topic_for_key, TopicDirection};
use rmk_core::types::Action;

#[test]
fn bus_delivers_one_ordered_stream_to_every_subscriber() {
    let mut bus = EventBus::new(8, 4);
    let fast = bus.subscribe().unwrap();
    let slow = bus.subscribe().unwrap();
    let e1 = ControllerEvent::BacklightToggle(true);
    let e2 = ControllerEvent::Battery(80);
    let e3 = ControllerEvent::Key { pressed: true, action: Action::Key(4) };
    assert!(bus.try_publish(e1));
    assert!(bus.try_publish(e2));
    assert!(bus.try_publish(e3));
    // The fast subscriber drains everything first.
    assert_eq!(bus.recv(fast), Some(e1));
    assert_eq!(bus.recv(fast), Some(e2));
    assert_eq!(bus.recv(fast), Some(e3));
    assert_eq!(bus.recv(fast), None);
    // The slow subscriber still sees the identical sequence, in order.
    assert_eq!(bus.recv(slow), Some(e1));
    assert_eq!(bus.recv(slow), Some(e2));
    assert_eq!(bus.recv(slow), Some(e3));
    assert_eq!(bus.recv(slow), None);
}

#[test]
fn bus_backpressure_and_slot_exhaustion() {
    let mut bus = EventBus::new(2, 1);
    let id = bus.subscribe().unwrap();
    assert_eq!(id, 0);
    // Subscriber slots are fixed at construction: the second acquisition
    // fails fast.
    assert_eq!(bus.subscribe(), None);
    assert!(bus.try_publish(ControllerEvent::Battery(1)));
    assert!(bus.try_publish(ControllerEvent::Battery(2)));
    // The one subscriber now trails by a full buffer: publishing is refused.
    assert!(!bus.try_publish(ControllerEvent::Battery(3)));
    assert_eq!(bus.recv(id), Some(ControllerEvent::Battery(1)));
    assert!(bus.try_publish(ControllerEvent::Battery(3)));
    assert_eq!(bus.recv(id), Some(ControllerEvent::Battery(2)));
    assert_eq!(bus.recv(id), Some(ControllerEvent::Battery(3)));
}

#[test]
fn mailbox_is_fifo_and_bounded() {
    let mut mailbox = StorageMailbox::new(2);
    let a = FlashOperationMessage::KeymapKey { layer: 0, col: 1, row: 2, action: Action::Key(3) };
    let b = FlashOperationMessage::Reset;
    assert!(mailbox.try_send(a));
    assert!(mailbox.try_send(b));
    assert!(!mailbox.try_send(b));
    assert_eq!(mailbox.receive(), Some(a));
    assert_eq!(mailbox.receive(), Some(b));
    assert_eq!(mailbox.receive(), None);
}

#[test]
fn backlight_mode_bits_round_trip() {
    for (mode, bits) in [
        (BacklightMode::CONSTANT, 0b00u8),
        (BacklightMode::BREATHING, 0b01),
        (BacklightMode::RAINBOW, 0b10),
        (BacklightMode::SCROLLING, 0b11),
    ] {
        assert_eq!(mode.into_bits(), bits);
        assert_eq!(BacklightMode::from_bits(bits), mode);
    }
    // Only the low two bits select the mode.
    assert_eq!(BacklightMode::from_bits(0b0111), BacklightMode::SCROLLING);
}

#[test]
fn backlight_indicator_packs_and_unpacks() {
    let x = BacklightIndicator::new_from(true, false, BacklightMode::RAINBOW, 0b1010);
    assert!(x.backlight_en);
    assert!(!x.pwm);
    assert_eq!(x.mode, 0b10);
    assert_eq!(x.brightness, 0b1010);
    // Bit 0 enable, bit 1 PWM, bits 2..=3 mode, bits 4..=7 brightness.
    assert_eq!(x.into_bits(), 0b1010_10_0_1);
    assert_eq!(BacklightIndicator::from_bits(0b1010_10_0_1), x);
    // Out-of-width brightness is masked, as the packed field would.
    let y = BacklightIndicator::new_from(false, true, BacklightMode::CONSTANT, 0xFF);
    assert_eq!(y.brightness, 0x0F);
}

#[test]
fn backlight_controller_follows_toggles_and_ignores_the_rest() {
    let mut c = BacklightController::new();
    assert!(!c.state.backlight_en);
    assert_eq!(c.process_event(ControllerEvent::BacklightToggle(true)), Some(true));
    assert!(c.state.backlight_en);
    assert_eq!(c.process_event(ControllerEvent::Battery(50)), None);
    assert!(c.state.backlight_en);
    assert_eq!(c.process_event(ControllerEvent::BacklightToggle(false)), Some(false));
    assert!(!c.state.backlight_en);
}

#[test]
fn display_controller_plans_battery_and_key_draws() {
    let c = DisplayController::new();
    let battery = c.process_event(ControllerEvent::Battery(65));
    assert_eq!(battery.len(), 3);
    assert_eq!(battery[0].text, DisplayText::PressedKeyLabel);
    assert_eq!((battery[0].x, battery[0].y), (4, 62));
    assert_eq!(battery[1].text, DisplayText::BatteryLabel);
    assert_eq!((battery[1].x, battery[1].y), (4, 102));
    assert_eq!(battery[2].text, DisplayText::Glyph(65));
    assert_eq!((battery[2].x, battery[2].y), (4, 122));
    // A pressed letter key draws its glyph; keycode 4 is the first letter.
    let key = c.process_event(ControllerEvent::Key { pressed: true, action: Action::Key(4) });
    assert_eq!(key.len(), 1);
    assert_eq!(key[0].text, DisplayText::Glyph(b'a'));
    assert_eq!((key[0].x, key[0].y), (4, 82));
    // Releases and non-key actions draw nothing.
    let up = c.process_event(ControllerEvent::Key { pressed: false, action: Action::Key(4) });
    assert!(up.is_empty());
    let none = c.process_event(ControllerEvent::Key { pressed: true, action: Action::No });
    assert!(none.is_empty());
    // Unmapped keycodes render as a placeholder.
    let odd = c.process_event(ControllerEvent::Key { pressed: true, action: Action::Key(500) });
    assert_eq!(odd[0].text, DisplayText::Glyph(b'?'));
}

#[test]
fn no_topics_are_active_in_this_revision() {
    assert_eq!(topic_for_key(TopicDirection::ToServer, 1), None);
    assert_eq!(topic_for_key(TopicDirection::ToClient, 42), None);
}

#[test]
fn backlight_config_overlays_the_default() {
    // No section at all: the default, which names no strip.
    let cfg = KeyboardTomlConfig { backlight: None };
    assert_eq!(cfg.get_backlight_config(), BacklightConfig { backlight: None });
    // A section without a strip falls back to the default's.
    let cfg = KeyboardTomlConfig { backlight: Some(BacklightConfig { backlight: None }) };
    assert_eq!(cfg.get_backlight_config(), BacklightConfig { backlight: None });
    // A section with its own strip keeps it.
    let setting = BacklightSetting { enabled_on_boot: true, brightness: 7, mode_bits: 2 };
    let cfg = KeyboardTomlConfig { backlight: Some(BacklightConfig { backlight: Some(setting) }) };
    assert_eq!(cfg.get_backlight_config().backlight, Some(setting));
}
