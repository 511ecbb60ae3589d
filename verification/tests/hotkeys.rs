//! Hotkeys and configuration defaults.

use route_tracker::config::Config;
use route_tracker::config::Hotkey;
use route_tracker::config::KeyBindings;
use route_tracker::config::Modifiers;
use route_tracker::config::default_auto_reconnect;
use route_tracker::config::keycode_to_name;
use route_tracker::config::name_to_keycode;
use route_tracker::config::parse_hotkey;

#[test]
fn key_names_map_both_ways() {
    assert_eq!(name_to_keycode("a"), Some(0x41));
    assert_eq!(name_to_keycode("A"), Some(0x41));
    assert_eq!(name_to_keycode("F9"), Some(0x78));
    assert_eq!(name_to_keycode("numpad5"), Some(0x65));
    assert_eq!(name_to_keycode("no-such-key"), None);
    assert_eq!(keycode_to_name(0x41), "A");
    assert_eq!(keycode_to_name(0x78), "F9");
    assert_eq!(keycode_to_name(0x12345), "Unknown");
}

#[test]
fn parse_simple_and_modified_hotkeys() {
    let h = parse_hotkey("f9").unwrap();
    assert_eq!(h.key, 0x78);
    assert!(!h.modifiers.ctrl && !h.modifiers.shift && !h.modifiers.alt);

    let h2 = parse_hotkey("ctrl+shift+f9").unwrap();
    assert_eq!(h2.key, 0x78);
    assert!(h2.modifiers.ctrl && h2.modifiers.shift && !h2.modifiers.alt);

    let h3 = parse_hotkey(" CONTROL + Alt + s ").unwrap();
    assert_eq!(h3.key, 0x53);
    assert!(h3.modifiers.ctrl && h3.modifiers.alt);
}

#[test]
fn parse_errors_name_the_offending_part() {
    assert_eq!(
        parse_hotkey("ctrl+wat").unwrap_err(),
        "Unknown key name: 'wat'. See config file for valid key names."
    );
    assert_eq!(
        parse_hotkey("a+b").unwrap_err(),
        "Multiple main keys specified: already have one, found 'b'"
    );
    assert_eq!(parse_hotkey("ctrl+shift").unwrap_err(), "No main key specified in hotkey");
}

#[test]
fn display_and_config_round_trip() {
    let h = Hotkey {
        key: 0x53,
        modifiers: Modifiers { ctrl: true, shift: false, alt: false },
    };
    assert_eq!(h.name(), "Ctrl+S");
    assert_eq!(h.to_config_string(), "ctrl+s");
    let back = parse_hotkey(&h.to_config_string()).unwrap();
    assert_eq!(back.key, h.key);
    assert_eq!(back.modifiers, h.modifiers);
}

#[test]
fn modifiers_gate_on_held_keys() {
    let m = Modifiers { ctrl: true, shift: false, alt: false };
    assert!(m.are_held(true, false, false));
    assert!(m.are_held(true, true, true));
    assert!(!m.are_held(false, true, true));
    assert_eq!(m.display_prefix(), "Ctrl+");
    let none = Modifiers::default();
    assert!(none.are_held(false, false, false));
    assert_eq!(none.display_prefix(), "");
}

#[test]
fn stock_configuration() {
    let c = Config::default();
    assert_eq!(c.keybindings.toggle_ui.name(), "F9");
    assert_eq!(c.keybindings.toggle_recording.name(), "F8");
    assert_eq!(c.keybindings.clear_route.name(), "F7");
    assert_eq!(c.keybindings.save_route.name(), "Ctrl+S");
    assert_eq!(c.recording.record_interval_ms, 100);
    assert_eq!(c.output.routes_directory, "routes");
    assert!(!c.server.enabled);
    assert!(c.server.auto_reconnect);
    assert!(default_auto_reconnect());
    let kb = KeyBindings::default();
    assert_eq!(kb.toggle_ui.key, 0x78);
    assert_eq!(Config::config_filename(), "route_tracker_config.toml");
}
