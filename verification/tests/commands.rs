use mywm::actions::{control_command, control_kind, lua_chunk, Control, IpcCommand, LuaCall, Task};
use mywm::bits::Single;
use mywm::config::{Config, Modifiers};
use mywm::geometry::Size;
use mywm::input::{Forward, InputEvent, KeyEvent};
use mywm::keys::KeyAction;
use mywm::state::{Effect, Osd, OsdKind, State, WindowGeometry};
use mywm::workspace::LayoutType;

fn s(v: f32) -> Single {
    Single { bits: v.to_bits() }
}

fn unknown() -> WindowGeometry {
    WindowGeometry { location: None, size: Size { w: 0, h: 0 }, pending: None }
}

fn with_windows(list: &[u64]) -> State {
    let mut state = State::new(Config::default(), 0);
    for w in list {
        state.new_toplevel(*w, 0);
    }
    state
}

fn task_of(action: KeyAction) -> String {
    let mut state = with_windows(&[1]);
    let (effects, task) = state.dispatch_action(action, unknown(), 0);
    assert!(effects.is_empty());
    format!("{:?}", task)
}

#[test]
fn actions_ask_for_work() {
    assert_eq!(task_of(KeyAction::Quit), "Quit");
    assert_eq!(task_of(KeyAction::SpawnTerminal), "Terminal");
    assert_eq!(task_of(KeyAction::SpawnLauncher), "Launcher");
    assert_eq!(task_of(KeyAction::ReloadConfig), "Reload");
    assert_eq!(task_of(KeyAction::CycleTheme), "Lua(CycleTheme)");
    assert_eq!(task_of(KeyAction::ToggleNavbar), "Lua(ToggleNavbar)");
    assert_eq!(task_of(KeyAction::ToggleWallpaperMenu), "Lua(ToggleWallpaperMenu)");
    assert_eq!(task_of(KeyAction::SwitchVt(4)), "SwitchVt(4)");
    assert_eq!(task_of(KeyAction::Exec("ls".to_string())), "Shell(\"ls\")");
    assert_eq!(task_of(KeyAction::VolumeUp), "Adjust(VolumeUp)");
    assert_eq!(task_of(KeyAction::VolumeDown), "Adjust(VolumeDown)");
    assert_eq!(task_of(KeyAction::VolumeMute), "Adjust(VolumeMute)");
    assert_eq!(task_of(KeyAction::BrightnessUp), "Adjust(BrightnessUp)");
    assert_eq!(task_of(KeyAction::BrightnessDown), "Adjust(BrightnessDown)");
    assert_eq!(task_of(KeyAction::ToggleFullscreen), "Nothing");
    assert_eq!(task_of(KeyAction::MoveWindowLeft), "Nothing");
    assert_eq!(task_of(KeyAction::MoveWindowRight), "Nothing");
    assert_eq!(task_of(KeyAction::NoOp), "Nothing");
}

#[test]
fn actions_change_the_state() {
    let mut state = with_windows(&[1, 2]);
    state.dispatch_action(KeyAction::FocusRight, unknown(), 0);
    assert_eq!(state.focus, Some(1));
    state.dispatch_action(KeyAction::FocusLeft, unknown(), 0);
    assert_eq!(state.focus, Some(2));
    state.dispatch_action(KeyAction::ToggleFloating, unknown(), 0);
    assert!(state.workspaces[0].floating.contains(&2));
    state.dispatch_action(KeyAction::MoveToWorkspace(2), unknown(), 0);
    assert_eq!(state.workspaces[2].windows, vec![2]);
    state.dispatch_action(KeyAction::SwitchWorkspace(2), unknown(), 0);
    assert_eq!(state.active_workspace, 2);
    state.dispatch_action(KeyAction::CloseFocused, unknown(), 0);
    assert!(state.workspaces[2].windows.is_empty());
}

#[test]
fn layouts_take_turns() {
    let mut state = with_windows(&[1]);
    let (effects, _) = state.dispatch_action(KeyAction::CycleLayout, unknown(), 0);
    assert_eq!(effects, vec![Effect::Retile(0)]);
    assert_eq!(state.workspaces[0].layout, LayoutType::Monocle);
    state.cycle_layout();
    assert_eq!(state.workspaces[0].layout, LayoutType::MasterStack);
}

#[test]
fn commands_from_outside_are_obeyed() {
    let mut state = with_windows(&[1]);
    let (_, task) = state.handle_ipc_command(IpcCommand::Quit, unknown(), s(0.0), 0);
    assert!(matches!(task, Task::Quit));
    let (_, task) = state.handle_ipc_command(IpcCommand::SpawnTerminal, unknown(), s(0.0), 0);
    assert!(matches!(task, Task::Terminal));
    let (effects, task) =
        state.handle_ipc_command(IpcCommand::CloseFocused, unknown(), s(0.0), 0);
    assert_eq!(effects[0], Effect::CloseWindow(1));
    assert!(matches!(task, Task::Nothing));
}

#[test]
fn opacity_stays_within_bounds() {
    let mut state = with_windows(&[]);
    let set = |v: f32| IpcCommand::SetOpacity { value: s(v) };
    let (effects, _) = state.handle_ipc_command(set(0.5), unknown(), s(0.0), 0);
    assert_eq!(effects, vec![Effect::BroadcastOpacity]);
    assert_eq!(state.window_opacity, s(0.5));
    state.handle_ipc_command(set(0.0), unknown(), s(0.0), 0);
    assert_eq!(state.window_opacity, s(0.1));
    state.handle_ipc_command(set(7.0), unknown(), s(0.0), 0);
    assert_eq!(state.window_opacity, s(1.0));
    let adjust = IpcCommand::AdjustOpacity { value: s(-0.05) };
    let (effects, _) = state.handle_ipc_command(adjust, unknown(), s(0.95), 0);
    assert_eq!(effects, vec![Effect::BroadcastOpacity]);
    assert_eq!(state.window_opacity, s(0.95));
}

#[test]
fn nearly_opaque_windows_are_opaque() {
    let mut state = with_windows(&[]);
    state.set_window_opacity(s(0.99));
    assert_eq!(state.effective_window_alpha(s(0.4)), s(1.0));
    state.set_window_opacity(s(0.5));
    assert_eq!(state.effective_window_alpha(s(0.71)), s(0.71));
    assert_eq!(state.effective_window_alpha(s(0.01)), s(0.35));
    assert_eq!(state.effective_window_alpha(s(1.01)), s(1.0));
}

#[test]
fn levels_are_changed_by_their_programs() {
    assert_eq!(
        control_command(Control::VolumeUp),
        vec!["wpctl", "set-volume", "@DEFAULT_AUDIO_SINK@", "5%+"]
    );
    assert_eq!(
        control_command(Control::VolumeDown),
        vec!["wpctl", "set-volume", "@DEFAULT_AUDIO_SINK@", "5%-"]
    );
    assert_eq!(
        control_command(Control::VolumeMute),
        vec!["wpctl", "set-mute", "@DEFAULT_AUDIO_SINK@", "toggle"]
    );
    assert_eq!(control_command(Control::BrightnessUp), vec!["brightnessctl", "set", "+5%"]);
    assert_eq!(control_command(Control::BrightnessDown), vec!["brightnessctl", "set", "5%-"]);
    assert_eq!(control_kind(Control::VolumeMute), OsdKind::Volume);
    assert_eq!(control_kind(Control::BrightnessUp), OsdKind::Brightness);
}

#[test]
fn level_is_shown() {
    let mut state = with_windows(&[]);
    state.needs_redraw = false;
    let osd = Osd { kind: OsdKind::Volume, level: s(0.5), muted: true };
    state.show_osd(osd);
    assert_eq!(state.osd, Some(osd));
    assert!(state.needs_redraw);
}

#[test]
fn script_functions_are_called_if_they_are_there() {
    assert_eq!(
        lua_chunk(LuaCall::CycleTheme),
        "if type(cycle_theme) == 'function' then cycle_theme() else print('rc.lua: cycle_theme is not defined') end"
    );
    assert_eq!(
        lua_chunk(LuaCall::ToggleNavbar),
        "if type(toggle_navbar) == 'function' then toggle_navbar() else print('rc.lua: toggle_navbar is not defined') end"
    );
    assert_eq!(
        lua_chunk(LuaCall::ToggleWallpaperMenu),
        "if type(toggle_wallpaper_menu) == 'function' then toggle_wallpaper_menu() else print('rc.lua: toggle_wallpaper_menu is not defined') end"
    );
}

#[test]
fn failed_script_changes_nothing() {
    let mut state = with_windows(&[]);
    state.needs_redraw = false;
    let mut other = Config::default();
    other.border_width = 9;
    other.keybinds.clear();
    state.cycle_theme(false, Some(other.clone()));
    state.toggle_navbar(false);
    state.toggle_wallpaper_menu(false);
    assert!(!state.needs_redraw);
    assert_eq!(state.config.border_width, 2);
    state.cycle_theme(true, None);
    assert!(state.needs_redraw);
    assert_eq!(state.config.border_width, 2);
    state.cycle_theme(true, Some(other));
    assert_eq!(state.config.border_width, 9);
    assert_eq!(state.config.keybinds.len(), 33);
    state.needs_redraw = false;
    state.toggle_navbar(true);
    assert!(state.needs_redraw);
}

#[test]
fn reloading_arranges_all_workspaces() {
    let mut state = with_windows(&[]);
    let mut other = Config::default();
    other.outer_gaps = 1;
    let effects = state.reload_config(other);
    assert_eq!(effects, (0..9).map(Effect::Retile).collect::<Vec<_>>());
    assert_eq!(state.gaps().outer, 1);
}

#[test]
fn bound_key_acts_through_the_dispatcher() {
    let mut state = with_windows(&[1, 2]);
    let key = KeyEvent {
        pressed: true,
        modifiers: Modifiers::default(),
        sym: xkeysym::key::Left,
        raw_sym: None,
        focused_popup: false,
    };
    let event = InputEvent::Keyboard { key, geometry: unknown() };
    let reply = state.handle_libinput_event(event, 0);
    assert_eq!(reply.forward, Forward::Nothing);
    assert_eq!(state.focus, Some(1));
    let mut plain = key;
    plain.modifiers = Modifiers { logo: false, shift: false, ctrl: false, alt: false };
    let event = InputEvent::Keyboard { key: plain, geometry: unknown() };
    let reply = state.handle_libinput_event(event, 0);
    assert_eq!(reply.forward, Forward::Key);
    assert_eq!(state.focus, Some(1));
}
