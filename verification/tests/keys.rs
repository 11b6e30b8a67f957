use mywm::config::{default_keybinds, Config, Keybind, Modifiers};
use mywm::input::KeyEvent;
use mywm::keys::{
    action_string_to_key_action, keysym_to_key_name, keysym_to_workspace_index, KeyAction,
};
use mywm::state::{Effect, State};
use xkeysym::key;

fn name(sym: u32) -> Option<String> {
    keysym_to_key_name(sym)
}

fn mods(logo: bool, shift: bool, ctrl: bool, alt: bool) -> Modifiers {
    Modifiers { logo, shift, ctrl, alt }
}

fn press(m: Modifiers, sym: u32, raw: Option<u32>) -> KeyEvent {
    KeyEvent { pressed: true, modifiers: m, sym, raw_sym: raw, focused_popup: false }
}

fn state() -> State {
    State::new(Config::default(), 0)
}

#[test]
fn named_keys_have_their_names() {
    let expected = [
        (key::Return, "return"),
        (key::Escape, "escape"),
        (key::space, "space"),
        (key::Left, "left"),
        (key::Right, "right"),
        (key::Up, "up"),
        (key::Down, "down"),
        (key::_1, "1"),
        (key::_5, "5"),
        (key::_9, "9"),
        (key::F1, "f1"),
        (key::F9, "f9"),
        (key::F10, "f10"),
        (key::F12, "f12"),
        (key::XF86_AudioRaiseVolume, "xf86audioraisevolume"),
        (key::XF86_AudioLowerVolume, "xf86audiolowervolume"),
        (key::XF86_AudioMute, "xf86audiomute"),
        (key::XF86_AudioMicMute, "xf86audiomicmute"),
        (key::XF86_AudioPlay, "xf86audioplay"),
        (key::XF86_AudioPause, "xf86audiopause"),
        (key::XF86_AudioNext, "xf86audionext"),
        (key::XF86_AudioPrev, "xf86audioprev"),
        (key::XF86_MonBrightnessUp, "xf86monbrightnessup"),
        (key::XF86_MonBrightnessDown, "xf86monbrightnessdown"),
    ];
    for (sym, text) in expected {
        assert_eq!(name(sym).as_deref(), Some(text));
    }
}

#[test]
fn other_keys_are_named_after_their_character() {
    assert_eq!(name(key::q).as_deref(), Some("q"));
    assert_eq!(name(key::Q).as_deref(), Some("q"));
    assert_eq!(name(key::exclam).as_deref(), Some("!"));
    assert_eq!(name(key::_0).as_deref(), Some("0"));
    assert_eq!(name(key::Adiaeresis).as_deref(), Some("ä"));
    assert_eq!(name(key::Cyrillic_EM).as_deref(), Some("м"));
    assert_eq!(name(0x0100_0130).as_deref(), Some("i\u{307}"));
    assert_eq!(name(key::Shift_L), None);
    assert_eq!(name(key::F13), None);
}

#[test]
fn number_keys_stand_for_workspaces() {
    assert_eq!(keysym_to_workspace_index(key::_1), Some(0));
    assert_eq!(keysym_to_workspace_index(key::_9), Some(8));
    assert_eq!(keysym_to_workspace_index(key::_0), None);
    assert_eq!(keysym_to_workspace_index(key::colon), None);
    assert_eq!(keysym_to_workspace_index(key::a), None);
}

#[test]
fn fixed_names_stand_for_actions() {
    let names = [
        ("quit", "Quit"),
        ("reload_config", "ReloadConfig"),
        ("spawn_terminal", "SpawnTerminal"),
        ("spawn_launcher", "SpawnLauncher"),
        ("close_focused", "CloseFocused"),
        ("toggle_fullscreen", "ToggleFullscreen"),
        ("cycle_layout", "CycleLayout"),
        ("toggle_floating", "ToggleFloating"),
        ("focus_left", "FocusLeft"),
        ("focus_right", "FocusRight"),
        ("move_window_left", "MoveWindowLeft"),
        ("move_window_right", "MoveWindowRight"),
        ("cycle_theme", "CycleTheme"),
        ("toggle_navbar", "ToggleNavbar"),
        ("toggle_wallpaper_menu", "ToggleWallpaperMenu"),
        ("volume_up", "VolumeUp"),
        ("volume_down", "VolumeDown"),
        ("volume_mute", "VolumeMute"),
        ("brightness_up", "BrightnessUp"),
        ("brightness_down", "BrightnessDown"),
    ];
    for (text, action) in names {
        let got = action_string_to_key_action(text).map(|a| format!("{:?}", a));
        assert_eq!(got.as_deref(), Some(action));
    }
}

#[test]
fn workspaces_are_counted_from_one() {
    assert!(matches!(
        action_string_to_key_action("workspace_1"),
        Some(KeyAction::SwitchWorkspace(0))
    ));
    assert!(matches!(
        action_string_to_key_action("workspace_12"),
        Some(KeyAction::SwitchWorkspace(11))
    ));
    assert!(matches!(
        action_string_to_key_action("workspace_0"),
        Some(KeyAction::SwitchWorkspace(0))
    ));
    assert!(matches!(
        action_string_to_key_action("workspace_+3"),
        Some(KeyAction::SwitchWorkspace(2))
    ));
    assert!(matches!(
        action_string_to_key_action("move_to_workspace_9"),
        Some(KeyAction::MoveToWorkspace(8))
    ));
    assert!(action_string_to_key_action("workspace_").is_none());
    assert!(action_string_to_key_action("workspace_x").is_none());
    assert!(action_string_to_key_action("move_to_workspace_-1").is_none());
}

#[test]
fn commands_are_trimmed_and_must_not_be_blank() {
    match action_string_to_key_action("exec:  foot -e htop ") {
        Some(KeyAction::Exec(command)) => assert_eq!(command, "foot -e htop"),
        other => panic!("{:?}", other),
    }
    assert!(action_string_to_key_action("exec:   ").is_none());
    assert!(action_string_to_key_action("exec:").is_none());
    assert!(action_string_to_key_action("no_such_action").is_none());
    assert!(action_string_to_key_action("").is_none());
}

#[test]
fn default_bindings_all_stand_for_actions() {
    let binds = default_keybinds();
    assert_eq!(binds.len(), 33);
    for b in &binds {
        assert!(action_string_to_key_action(&b.action).is_some(), "{}", b.action);
        assert!(b.modifiers.logo && !b.modifiers.ctrl && !b.modifiers.alt);
    }
    let map = Config::default().keybind_map();
    assert_eq!(map.entries.len(), 33);
}

#[test]
fn keys_are_bound_in_lower_case() {
    let map = Config::default().keybind_map();
    assert_eq!(
        map.get(mods(true, true, false, false), "escape").map(|s| s.as_str()),
        Some("quit")
    );
    assert!(map.get(mods(true, true, false, false), "Escape").is_none());
    assert!(map.get(mods(true, false, false, false), "escape").is_none());
    let mut config = Config::default();
    config.keybinds = vec![Keybind {
        modifiers: Modifiers::default(),
        key: "ÄB".to_string(),
        action: "quit".to_string(),
    }];
    assert_eq!(
        config.keybind_map().get(Modifiers::default(), "äb").map(|s| s.as_str()),
        Some("quit")
    );
}

#[test]
fn later_binding_holds() {
    let mut config = Config::default();
    config.keybinds.push(Keybind {
        modifiers: Modifiers::default(),
        key: "Q".to_string(),
        action: "quit".to_string(),
    });
    let map = config.keybind_map();
    assert_eq!(map.get(Modifiers::default(), "q").map(|s| s.as_str()), Some("quit"));
    assert_eq!(map.entries.len(), 33);
}

#[test]
fn bound_key_is_intercepted() {
    let mut s = state();
    let (effects, action) = s.handle_keybinding(press(mods(true, false, false, false), key::q, Some(key::q)));
    assert!(effects.is_empty());
    assert!(matches!(action, Some(KeyAction::CloseFocused)));
    let (_, action) = s.handle_keybinding(press(mods(true, false, false, false), key::z, Some(key::z)));
    assert!(action.is_none());
}

#[test]
fn shifted_key_is_found_by_its_plain_symbol() {
    let mut s = state();
    let (_, action) =
        s.handle_keybinding(press(mods(true, true, false, false), key::exclam, Some(key::_1)));
    assert!(matches!(action, Some(KeyAction::MoveToWorkspace(0))));
}

#[test]
fn released_key_is_forwarded() {
    let mut s = state();
    let mut k = press(mods(true, false, false, false), key::q, Some(key::q));
    k.pressed = false;
    let (effects, action) = s.handle_keybinding(k);
    assert!(effects.is_empty() && action.is_none());
}

#[test]
fn terminals_are_switched_with_ctrl_and_alt() {
    let mut s = state();
    let ctrl_alt = mods(false, false, true, true);
    let (_, a) = s.handle_keybinding(press(ctrl_alt, key::F3, None));
    assert!(matches!(a, Some(KeyAction::SwitchVt(3))));
    let (_, a) = s.handle_keybinding(press(ctrl_alt, key::XF86_Switch_VT_12, None));
    assert!(matches!(a, Some(KeyAction::SwitchVt(12))));
    let (_, a) = s.handle_keybinding(press(mods(true, false, true, true), key::F3, None));
    assert!(a.is_none());
    let (_, a) = s.handle_keybinding(press(ctrl_alt, key::F13, None));
    assert!(a.is_none());
}

#[test]
fn escape_leaves_a_layer_surface() {
    let plain = mods(false, false, false, false);
    let mut s = state();
    s.new_toplevel(7, 0);
    s.layers.push(50);
    s.focus = Some(50);
    s.needs_redraw = false;
    let mut k = press(plain, key::Escape, None);
    k.focused_popup = true;
    let (effects, action) = s.handle_keybinding(k);
    assert_eq!(effects, vec![Effect::CloseLayer(50), Effect::SetFocus(Some(7))]);
    assert!(matches!(action, Some(KeyAction::NoOp)));
    assert_eq!(s.focus, Some(7));
    assert!(s.needs_redraw);

    s.focus = Some(50);
    let (effects, action) = s.handle_keybinding(press(plain, key::Escape, None));
    assert_eq!(effects, vec![Effect::SetFocus(Some(7))]);
    assert!(matches!(action, Some(KeyAction::NoOp)));

    let (effects, action) = s.handle_keybinding(press(plain, key::Escape, None));
    assert!(effects.is_empty() && action.is_none());
}
