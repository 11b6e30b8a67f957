//! What keys, actions and commands lead to.
use crate::actions::{Control, IpcCommand, LuaCall, Task};
use crate::bits::{Double, Single};
use crate::input::{Forward, InputEvent, KeyEvent};
use crate::keys::KeyAction;
use crate::pointer::PressOutcome;
use crate::state::{Effect, WindowGeometry};
use crate::text;
use vstd::prelude::*;

verus! {

/// Whether a key comes without any modifier.
pub open spec fn bare(key: KeyEvent) -> bool {
    !key.modifiers.logo && !key.modifiers.shift && !key.modifiers.ctrl && !key.modifiers.alt
}

/// A key that goes up goes to the focused surface, and changes nothing.
pub proof fn released_keys_do_nothing(s: crate::state::StateView, key: KeyEvent)
    requires
        !key.pressed,
    ensures
        s.key_handled(key).0 == s,
        s.key_handled(key).1.len() == 0,
        s.key_handled(key).2 is None,
{
}

/// Escape alone takes the keyboard from a layer surface and gives it to the last window
/// of the active workspace, and closes the surface if it is a popup. While no layer
/// surface has the keyboard it goes to the focused surface.
pub proof fn escape_leaves_layer_surfaces(s: crate::state::StateView, key: KeyEvent)
    requires
        0 <= s.active_workspace < s.workspaces.len(),
        key.pressed,
        key.sym == 0xFF1B,
        bare(key),
    ensures
        ({
            let (t, effects, action) = s.key_handled(key);
            let held = s.focus is Some && s.layers.contains(s.focus->0);
            let windows = s.workspaces[s.active_workspace].windows;
            &&& !held ==> t == s && effects.len() == 0 && action is None
            &&& held ==> {
                &&& windows.len() == 0 ==> t.focus is None
                &&& windows.len() > 0 ==> t.focus == Some(windows[windows.len() - 1])
                &&& t == (crate::state::StateView { focus: t.focus, needs_redraw: true, ..s })
                &&& key.focused_popup ==> effects == seq![
                    Effect::CloseLayer(s.focus->0),
                    Effect::SetFocus(t.focus),
                ]
                &&& !key.focused_popup ==> effects == seq![Effect::SetFocus(t.focus)]
                &&& action == Some(crate::keys::ActionView::Other(KeyAction::NoOp))
            }
        }),
{
}

/// With control and alt, and without the logo key, the twelve function keys and the
/// twelve keys made for it switch to the virtual terminal of their number.
pub proof fn terminals_are_switched_to(s: crate::state::StateView, key: KeyEvent, n: int)
    requires
        key.pressed,
        key.modifiers.ctrl,
        key.modifiers.alt,
        !key.modifiers.logo,
        1 <= n <= 12,
        key.sym == 0xFFBD + n || key.sym == 0x1008_FE00 + n,
    ensures
        s.key_handled(key).0 == s,
        s.key_handled(key).1.len() == 0,
        s.key_handled(key).2 == Some(crate::keys::ActionView::Other(KeyAction::SwitchVt(n as i32))),
{
}

/// Any other key does what its name is bound to, together with its modifiers: the name
/// of the symbol with the modifiers applied, or else of the one without. A key that is
/// not bound goes to the focused surface.
pub proof fn bound_keys_act(s: crate::state::StateView, key: KeyEvent)
    requires
        key.pressed,
        !(key.sym == 0xFF1B && bare(key)),
        !(key.modifiers.ctrl && key.modifiers.alt && !key.modifiers.logo && (0xFFBE <= key.sym
            <= 0xFFC9 || 0x1008_FE01 <= key.sym <= 0x1008_FE0C)),
    ensures
        ({
            let (t, effects, action) = s.key_handled(key);
            let map = crate::keybinds::bindings(s.config.keybinds);
            let name = crate::keys::key_name(key.sym);
            let first = name is Some && map.dom().contains((key.modifiers, name->0));
            let raw = if key.raw_sym is Some {
                crate::keys::key_name(key.raw_sym->0)
            } else {
                None
            };
            let second = raw is Some && map.dom().contains((key.modifiers, raw->0));
            &&& t == s && effects.len() == 0
            &&& first ==> action == crate::keys::action_named(map[(key.modifiers, name->0)])
            &&& !first && second ==> action == crate::keys::action_named(
                map[(key.modifiers, raw->0)],
            )
            &&& !first && !second ==> action is None
        }),
{
}

/// Of the bindings of a key the last one holds; upper and lower case are one, and a key
/// that no binding names is not bound.
pub proof fn last_matching_binding_holds(
    list: Seq<crate::config::KeybindView>,
    q: crate::keybinds::KeyView,
)
    ensures
        ({
            let map = crate::keybinds::bindings(list);
            &&& map.dom().contains(q) <==> exists|i: int|
                0 <= i < list.len() && (#[trigger] list[i]).modifiers == q.0 && text::lowered(
                    list[i].key,
                ) == q.1
            &&& forall|i: int|
                0 <= i < list.len() && (#[trigger] list[i]).modifiers == q.0 && text::lowered(
                    list[i].key,
                ) == q.1 && (forall|j: int|
                    i < j < list.len() ==> !((#[trigger] list[j]).modifiers == q.0
                        && text::lowered(list[j].key) == q.1)) ==> map[q] == list[i].action
        }),
    decreases list.len(),
{
    if list.len() > 0 {
        let rest = list.drop_last();
        let last = list.last();
        last_matching_binding_holds(rest, q);
        crate::keybinds::last_binding_holds(rest, last);
        assert(rest.push(last) =~= list);
        let map = crate::keybinds::bindings(list);
        let before = crate::keybinds::bindings(rest);
        if q == (last.modifiers, text::lowered(last.key)) {
            assert(list[list.len() - 1] == last);
        } else {
            assert(forall|i: int| 0 <= i < rest.len() ==> #[trigger] list[i] == rest[i]);
            assert(list[list.len() - 1] == last);
            if before.dom().contains(q) {
                let i = choose|i: int|
                    0 <= i < rest.len() && (#[trigger] rest[i]).modifiers == q.0 && text::lowered(
                        rest[i].key,
                    ) == q.1;
                assert(list[i] == rest[i]);
            }
            assert forall|i: int|
                0 <= i < list.len() && (#[trigger] list[i]).modifiers == q.0 && text::lowered(
                    list[i].key,
                ) == q.1 && (forall|j: int|
                    i < j < list.len() ==> !((#[trigger] list[j]).modifiers == q.0
                        && text::lowered(list[j].key) == q.1)) implies map[q] == list[i].action by {
                assert(i < rest.len());
                assert(rest[i] == list[i]);
                assert forall|j: int| i < j < rest.len() implies !((#[trigger] rest[j]).modifiers
                    == q.0 && text::lowered(rest[j].key) == q.1) by {
                    assert(list[j] == rest[j]);
                }
            }
        }
    } else {
        assert(list.map_values(
            |k: crate::config::KeybindView| crate::keybinds::lowered_bind(k),
        ).len() == 0);
    }
}

/// Actions on windows and workspaces do what their names say: the focus goes one window
/// to the right or to the left, the focused window is closed, made to float or sent to
/// another workspace, and the workspaces and layouts are switched.
pub proof fn actions_on_windows(
    s: crate::state::StateView,
    idx: usize,
    geometry: WindowGeometry,
    now: u64,
)
    requires
        0 <= s.active_workspace < s.workspaces.len() <= usize::MAX,
    ensures
        ({
            let act = |a: KeyAction| s.acted(crate::keys::ActionView::Other(a), geometry, now);
            let none = crate::actions::TaskView::Other(Task::Nothing);
            let here = s.active_workspace as usize;
            &&& act(KeyAction::CloseFocused) == (
                s.focus_closed(geometry, now).0,
                s.focus_closed(geometry, now).1,
                none,
            )
            &&& act(KeyAction::FocusRight) == (s.focus_moved(1).0, s.focus_moved(1).1, none)
            &&& act(KeyAction::FocusLeft) == (s.focus_moved(-1).0, s.focus_moved(-1).1, none)
            &&& act(KeyAction::CycleLayout) == (
                s.layout_cycled(),
                seq![Effect::Retile(here)],
                none,
            )
            &&& act(KeyAction::ToggleFloating) == (
                s.floating_toggled(geometry).0,
                s.floating_toggled(geometry).1,
                none,
            )
            &&& act(KeyAction::SwitchWorkspace(idx)) == (
                s.workspace_switched(idx, now).0,
                s.workspace_switched(idx, now).1,
                none,
            )
            &&& act(KeyAction::MoveToWorkspace(idx)) == (
                s.window_moved(idx).0,
                s.window_moved(idx).1,
                none,
            )
        }),
{
}

/// Every other action leaves the windows alone, and asks for the work that its name
/// says, if for any.
pub proof fn actions_that_ask_for_work(
    s: crate::state::StateView,
    command: Seq<char>,
    vt: i32,
    geometry: WindowGeometry,
    now: u64,
)
    ensures
        ({
            let asks = |a: KeyAction, task: Task|
                s.acted(crate::keys::ActionView::Other(a), geometry, now) == (
                    s,
                    Seq::<Effect>::empty(),
                    crate::actions::TaskView::Other(task),
                );
            &&& asks(KeyAction::Quit, Task::Quit)
            &&& asks(KeyAction::SpawnTerminal, Task::Terminal)
            &&& asks(KeyAction::SpawnLauncher, Task::Launcher)
            &&& asks(KeyAction::ReloadConfig, Task::Reload)
            &&& asks(KeyAction::CycleTheme, Task::Lua(LuaCall::CycleTheme))
            &&& asks(KeyAction::ToggleNavbar, Task::Lua(LuaCall::ToggleNavbar))
            &&& asks(KeyAction::ToggleWallpaperMenu, Task::Lua(LuaCall::ToggleWallpaperMenu))
            &&& asks(KeyAction::SwitchVt(vt), Task::SwitchVt(vt))
            &&& asks(KeyAction::VolumeUp, Task::Adjust(Control::VolumeUp))
            &&& asks(KeyAction::VolumeDown, Task::Adjust(Control::VolumeDown))
            &&& asks(KeyAction::VolumeMute, Task::Adjust(Control::VolumeMute))
            &&& asks(KeyAction::BrightnessUp, Task::Adjust(Control::BrightnessUp))
            &&& asks(KeyAction::BrightnessDown, Task::Adjust(Control::BrightnessDown))
            &&& asks(KeyAction::ToggleFullscreen, Task::Nothing)
            &&& asks(KeyAction::MoveWindowLeft, Task::Nothing)
            &&& asks(KeyAction::MoveWindowRight, Task::Nothing)
            &&& asks(KeyAction::NoOp, Task::Nothing)
        }),
        s.acted(crate::keys::ActionView::Exec(command), geometry, now) == (
            s,
            Seq::<Effect>::empty(),
            crate::actions::TaskView::Shell(command),
        ),
{
}

/// Commands from outside quit, start a terminal, close the focused surface like the
/// action of that name, or set the opacity: to the value that was given, or to the sum.
pub proof fn commands_from_outside(
    s: crate::state::StateView,
    value: Single,
    geometry: WindowGeometry,
    sum: Single,
    now: u64,
)
    ensures
        ({
            let none = crate::actions::TaskView::Other(Task::Nothing);
            let told = seq![Effect::BroadcastOpacity];
            &&& s.commanded(IpcCommand::Quit, geometry, sum, now) == (
                s,
                Seq::<Effect>::empty(),
                crate::actions::TaskView::Other(Task::Quit),
            )
            &&& s.commanded(IpcCommand::SpawnTerminal, geometry, sum, now) == (
                s,
                Seq::<Effect>::empty(),
                crate::actions::TaskView::Other(Task::Terminal),
            )
            &&& s.commanded(IpcCommand::CloseFocused, geometry, sum, now) == (
                s.focus_closed(geometry, now).0,
                s.focus_closed(geometry, now).1,
                none,
            )
            &&& s.commanded(IpcCommand::SetOpacity { value }, geometry, sum, now) == (
                s.with_opacity(value),
                told,
                none,
            )
            &&& s.commanded(IpcCommand::AdjustOpacity { value }, geometry, sum, now) == (
                s.with_opacity(sum),
                told,
                none,
            )
        }),
{
}

/// The opacity is set to the value that was asked for, between a tenth and one, and
/// nothing else changes.
pub proof fn opacity_is_set(s: crate::state::StateView, value: Single)
    ensures
        ({
            let t = s.with_opacity(value);
            let least = Single { bits: 0x3DCC_CCCD };
            let most = Single { bits: 0x3F80_0000 };
            &&& value.below(least) ==> t.window_opacity == least
            &&& most.below(value) ==> t.window_opacity == most
            &&& !value.below(least) && !most.below(value) ==> t.window_opacity == value
            &&& t == (crate::state::StateView {
                window_opacity: t.window_opacity,
                needs_redraw: true,
                ..s
            })
        }),
{
}

/// Windows are shown fully from an opacity of 0.99 on, and otherwise as the curve of
/// readable opacities tells, between 0.35 and one.
pub proof fn opacity_is_shown(opacity: Single, curved: Single)
    ensures
        ({
            let alpha = crate::actions::shown_alpha(opacity, curved);
            let least = Single { bits: 0x3EB3_3333 };
            let most = Single { bits: 0x3F80_0000 };
            let opaque = (Single { bits: 0x3F7D_70A4 }).at_most(opacity);
            &&& opaque ==> alpha == most
            &&& !opaque && curved.below(least) ==> alpha == least
            &&& !opaque && most.below(curved) ==> alpha == most
            &&& !opaque && !curved.below(least) && !most.below(curved) ==> alpha == curved
        }),
{
}

/// A key that stands for an action does it, and no client hears of it; any other key
/// goes to the focused surface.
pub proof fn keys_act_or_are_forwarded(
    s: crate::state::StateView,
    key: KeyEvent,
    geometry: WindowGeometry,
    now: u64,
)
    ensures
        ({
            let (t, r) = s.input_handled(InputEvent::Keyboard { key, geometry }, now);
            let (held, effects, action) = s.key_handled(key);
            let (acted, more, task) = held.acted(action->0, geometry, now);
            &&& action is None ==> t == held && r.effects == effects && r.forward == Forward::Key
                && r.task == crate::actions::TaskView::Other(Task::Nothing)
            &&& action is Some ==> t == acted && r.effects == effects + more && r.forward
                == Forward::Nothing && r.task == task
            &&& r.tiled_grab is None && !r.enable_tap
        }),
{
}

/// The motion of the pointer, and a button that was let go, are told to the clients.
pub proof fn pointer_events_are_forwarded(
    s: crate::state::StateView,
    dx: i32,
    dy: i32,
    split: Single,
    ratios: Vec<Single>,
    drop_target: Option<u64>,
    now: u64,
)
    ensures
        ({
            let (t, r) = s.input_handled(InputEvent::PointerMotion { dx, dy, split, ratios }, now);
            let (u, q) = s.input_handled(InputEvent::ButtonReleased { drop_target }, now);
            let moved = s.pointer_moved(dx as int, dy as int, split, ratios@);
            let released = s.grab_released(drop_target);
            &&& (t, r.effects) == moved
            &&& r.forward == Forward::Motion && r.tiled_grab is None && !r.enable_tap
            &&& r.task == crate::actions::TaskView::Other(Task::Nothing)
            &&& (u, q.effects) == released
            &&& q.forward == Forward::Button && q.tiled_grab is None && !q.enable_tap
            &&& q.task == crate::actions::TaskView::Other(Task::Nothing)
        }),
{
}

/// A press that takes hold of a window is kept from the clients, and one that does not
/// is told to them; a grab of a tiled window is asked for where the window is tiled.
pub proof fn presses_are_kept_or_forwarded(
    s: crate::state::StateView,
    press: crate::pointer::Press,
    now: u64,
)
    ensures
        ({
            let (t, r) = s.input_handled(InputEvent::ButtonPressed { press }, now);
            let (pressed, effects, outcome) = s.pressed(press);
            &&& t == pressed && r.effects == effects
            &&& outcome == PressOutcome::Clicked <==> r.forward == Forward::Button
            &&& outcome != PressOutcome::Clicked <==> r.forward == Forward::Frame
            &&& match outcome {
                PressOutcome::TiledGrab(mode) => r.tiled_grab == Some((mode, press.hit->0)),
                _ => r.tiled_grab is None,
            }
            &&& !r.enable_tap
            &&& r.task == crate::actions::TaskView::Other(Task::Nothing)
        }),
{
}

/// Whether nothing is to be done about an event, and no client hears of it.
pub open spec fn quiet(r: crate::input::ReplyView) -> bool {
    &&& r.effects.len() == 0
    &&& r.forward == Forward::Nothing
    &&& r.tiled_grab is None
    &&& r.task == crate::actions::TaskView::Other(Task::Nothing)
}

/// Devices that come and go are not told to the clients, and change nothing. Taps are
/// switched on for a device that tells fingers apart.
pub proof fn devices_come_and_go(s: crate::state::StateView, tap_fingers: u32, now: u64)
    ensures
        ({
            let added = s.input_handled(InputEvent::DeviceAdded { tap_fingers }, now);
            let removed = s.input_handled(InputEvent::DeviceRemoved, now);
            let other = s.input_handled(InputEvent::Other, now);
            &&& added.0 == s && quiet(added.1) && (added.1.enable_tap <==> tap_fingers > 0)
            &&& removed.0 == s && quiet(removed.1) && !removed.1.enable_tap
            &&& other.0 == s && quiet(other.1) && !other.1.enable_tap
        }),
{
}

/// Swipes drag the workspaces along, and are not told to the clients.
#[verifier::rlimit(50)]
pub proof fn swipes_are_kept(
    s: crate::state::StateView,
    fingers: u32,
    screen_width: Option<Double>,
    a: Double,
    b: Double,
    cancelled: bool,
    now: u64,
)
    ensures
        ({
            let begun = s.input_handled(InputEvent::SwipeBegin { fingers, screen_width }, now);
            let moved = s.input_handled(
                InputEvent::SwipeUpdate { new_offset: a, damped: b },
                now,
            );
            let ended = s.input_handled(
                InputEvent::SwipeEnd { cancelled, fraction: a, velocity: b },
                now,
            );
            &&& begun.0 == s.swipe_begun(fingers, screen_width, now) && quiet(begun.1)
                && !begun.1.enable_tap
            &&& moved.0 == s.swipe_moved(a, b) && quiet(moved.1) && !moved.1.enable_tap
            &&& ended.0 == s.swipe_ended(cancelled, a, b, now) && quiet(ended.1)
                && !ended.1.enable_tap
        }),
{
    assert(s.input_handled(InputEvent::SwipeBegin { fingers, screen_width }, now).0
        == s.swipe_begun(fingers, screen_width, now));
}

/// The letters are named by themselves in lower case, the figures from one to nine by
/// themselves, and the function keys by their number.
pub proof fn keys_are_named(n: int)
    ensures
        0 <= n < 26 ==> crate::keys::key_name((0x61 + n) as u32) == Some(
            seq![(0x61 + n) as char],
        ),
        0 <= n < 26 ==> crate::keys::key_name((0x41 + n) as u32) == Some(
            seq![(0x61 + n) as char],
        ),
        1 <= n <= 9 ==> crate::keys::key_name((0x30 + n) as u32) == Some(seq![(0x30 + n) as char]),
        1 <= n <= 9 ==> crate::keys::key_name((0xFFBD + n) as u32) == Some(
            seq!['f', (0x30 + n) as char],
        ),
        10 <= n <= 12 ==> crate::keys::key_name((0xFFBD + n) as u32) == Some(
            seq!['f', '1', (0x26 + n) as char],
        ),
{
    reveal_strlit("f");
    reveal_with_fuel(text::decimal, 3);
    if 1 <= n <= 9 {
        assert("f"@ + text::decimal(n as nat) =~= seq!['f', (0x30 + n) as char]);
    }
    if 10 <= n <= 12 {
        assert("f"@ + text::decimal(n as nat) =~= seq!['f', '1', (0x26 + n) as char]);
    }
}

/// A number that is written after the prefix of a workspace leads to that workspace,
/// counted from one, and zero to the first; where there is no number, the name stands
/// for nothing.
pub proof fn numbers_of_workspaces(digits: Seq<char>)
    ensures
        ({
            let n = text::number(digits, 10, usize::MAX as int);
            let switch = crate::keys::action_named("workspace_"@ + digits);
            let send = crate::keys::action_named("move_to_workspace_"@ + digits);
            &&& n is None ==> switch is None && send is None
            &&& n is Some && 0 <= n->0 <= usize::MAX ==> {
                let place = if n->0 == 0 {
                    0usize
                } else {
                    (n->0 - 1) as usize
                };
                &&& switch == Some(
                    crate::keys::ActionView::Other(KeyAction::SwitchWorkspace(place)),
                )
                &&& send == Some(crate::keys::ActionView::Other(KeyAction::MoveToWorkspace(place)))
            }
        }),
{
    let a = "workspace_"@;
    let b = "move_to_workspace_"@;
    assert((a + digits).subrange(0, a.len() as int) == a);
    assert((a + digits).skip(a.len() as int) == digits);
    assert((b + digits).subrange(0, b.len() as int) == b);
    assert((b + digits).skip(b.len() as int) == digits);
    crate::keys::numbered_is_not_fixed(a + digits);
    crate::keys::numbered_is_not_fixed(b + digits);
    reveal_strlit("workspace_");
    reveal_strlit("move_to_workspace_");
    assert((b + digits)[0] == 'm');
    assert((b + digits).subrange(0, 10)[0] == 'm');
}

/// A command of nothing but white space stands for nothing.
pub proof fn blank_commands_are_nothing(command: Seq<char>)
    requires
        text::trimmed(command).len() == 0,
    ensures
        crate::keys::action_named("exec:"@ + command) is None,
{
    let a = "exec:"@;
    let s = a + command;
    assert(s.skip(a.len() as int) == command);
    reveal_strlit("exec:");
    reveal_strlit("workspace_");
    reveal_strlit("move_to_workspace_");
    assert(s[0] == 'e');
    assert(text::begins(s, "workspace_"@) ==> s.subrange(0, 10)[0] == 'w');
    assert(text::begins(s, "move_to_workspace_"@) ==> s.subrange(0, 18)[0] == 'm');
    if crate::keys::fixed_action(s) is Some {
        crate::keys::fixed_names_begin(s);
    }
}

/// A script that has changed the configuration leaves the keybindings, and nothing else,
/// as they were.
pub proof fn scripts_leave_the_keybindings(
    c: crate::config::ConfigView,
    read: crate::config::ConfigView,
)
    ensures
        ({
            let t = c.overridden_by(read);
            &&& t.keybinds == c.keybinds
            &&& t == (crate::config::ConfigView { keybinds: t.keybinds, ..read })
        }),
{
}

/// The default bindings: each with the logo key, some with shift, and none with any other
/// modifier.
pub proof fn default_bindings_are_as_documented()
    ensures
        ({
            let list = crate::config::default_bindings();
            let binds = |i: int, shift: bool, key: Seq<char>, action: Seq<char>|
                {
                    &&& list[i].modifiers.logo && list[i].modifiers.shift == shift
                    &&& !list[i].modifiers.ctrl && !list[i].modifiers.alt
                    &&& list[i].key == key
                    &&& list[i].action == action
                };
            &&& list.len() == 33
            &&& binds(0, true, "Escape"@, "quit"@)
            &&& binds(1, true, "r"@, "reload_config"@)
            &&& binds(2, false, "Return"@, "spawn_terminal"@)
            &&& binds(3, false, "d"@, "spawn_launcher"@)
            &&& binds(4, false, "q"@, "close_focused"@)
            &&& binds(5, false, "f"@, "toggle_fullscreen"@)
            &&& binds(6, false, "space"@, "cycle_layout"@)
            &&& binds(7, true, "space"@, "toggle_floating"@)
            &&& binds(8, false, "t"@, "cycle_theme"@)
            &&& binds(9, false, "b"@, "toggle_navbar"@)
            &&& binds(10, false, "w"@, "toggle_wallpaper_menu"@)
            &&& binds(11, false, "Left"@, "focus_left"@)
            &&& binds(12, false, "Right"@, "focus_right"@)
            &&& binds(13, true, "Left"@, "move_window_left"@)
            &&& binds(14, true, "Right"@, "move_window_right"@)
            &&& binds(15, false, "1"@, "workspace_1"@)
            &&& binds(16, false, "2"@, "workspace_2"@)
            &&& binds(17, false, "3"@, "workspace_3"@)
            &&& binds(18, false, "4"@, "workspace_4"@)
            &&& binds(19, false, "5"@, "workspace_5"@)
            &&& binds(20, false, "6"@, "workspace_6"@)
            &&& binds(21, false, "7"@, "workspace_7"@)
            &&& binds(22, false, "8"@, "workspace_8"@)
            &&& binds(23, false, "9"@, "workspace_9"@)
            &&& binds(24, true, "1"@, "move_to_workspace_1"@)
            &&& binds(25, true, "2"@, "move_to_workspace_2"@)
            &&& binds(26, true, "3"@, "move_to_workspace_3"@)
            &&& binds(27, true, "4"@, "move_to_workspace_4"@)
            &&& binds(28, true, "5"@, "move_to_workspace_5"@)
            &&& binds(29, true, "6"@, "move_to_workspace_6"@)
            &&& binds(30, true, "7"@, "move_to_workspace_7"@)
            &&& binds(31, true, "8"@, "move_to_workspace_8"@)
            &&& binds(32, true, "9"@, "move_to_workspace_9"@)
        }),
{
}

/// Every event can be handled, but for a motion that leads out of the coordinates, and a
/// swipe on a screen without a width.
pub proof fn events_that_can_be_handled(s: crate::state::StateView, event: InputEvent)
    ensures
        match event {
            InputEvent::PointerMotion { dx, dy, .. } => s.admits(event) == s.motion_fits(
                dx as int,
                dy as int,
            ),
            InputEvent::SwipeBegin { screen_width, .. } => s.admits(event) == (screen_width is None
                || (Double { bits: 0 }).at_most(screen_width->0)),
            _ => s.admits(event),
        },
{
}

/// A fixed name that stands for an action is the name of that action, and no other name
/// does.
pub proof fn fixed_names_are_those_of_their_actions(s: Seq<char>)
    requires
        crate::keys::fixed_action(s) is Some,
    ensures
        match crate::keys::fixed_action(s)->0 {
            KeyAction::Quit => s == "quit"@,
            KeyAction::ReloadConfig => s == "reload_config"@,
            KeyAction::SpawnTerminal => s == "spawn_terminal"@,
            KeyAction::SpawnLauncher => s == "spawn_launcher"@,
            KeyAction::CloseFocused => s == "close_focused"@,
            KeyAction::ToggleFullscreen => s == "toggle_fullscreen"@,
            KeyAction::CycleLayout => s == "cycle_layout"@,
            KeyAction::ToggleFloating => s == "toggle_floating"@,
            KeyAction::FocusLeft => s == "focus_left"@,
            KeyAction::FocusRight => s == "focus_right"@,
            KeyAction::MoveWindowLeft => s == "move_window_left"@,
            KeyAction::MoveWindowRight => s == "move_window_right"@,
            KeyAction::CycleTheme => s == "cycle_theme"@,
            KeyAction::ToggleNavbar => s == "toggle_navbar"@,
            KeyAction::ToggleWallpaperMenu => s == "toggle_wallpaper_menu"@,
            KeyAction::VolumeUp => s == "volume_up"@,
            KeyAction::VolumeDown => s == "volume_down"@,
            KeyAction::VolumeMute => s == "volume_mute"@,
            KeyAction::BrightnessUp => s == "brightness_up"@,
            KeyAction::BrightnessDown => s == "brightness_down"@,
            _ => false,
        },
{
}

/// A name that is not fixed, and has none of the three prefixes, stands for nothing.
pub proof fn other_names_stand_for_nothing(s: Seq<char>)
    requires
        crate::keys::fixed_action(s) is None,
        !text::begins(s, "workspace_"@),
        !text::begins(s, "move_to_workspace_"@),
        !text::begins(s, "exec:"@),
    ensures
        crate::keys::action_named(s) is None,
{
}

/// A fixed name stands for its action, whatever else could be read from it.
pub proof fn fixed_names_come_first(s: Seq<char>)
    requires
        crate::keys::fixed_action(s) is Some,
    ensures
        crate::keys::action_named(s) == Some(
            crate::keys::ActionView::Other(crate::keys::fixed_action(s)->0),
        ),
{
}

/// Every other key of the ASCII range is named by its character, in lower case; and a key
/// outside Latin-1 that has no name of its own by the character that it writes, if any.
pub proof fn other_keys_are_named_by_their_character(sym: u32)
    ensures
        0x21 <= sym <= 0x7E && !(0x31 <= sym <= 0x39) && !(0x41 <= sym <= 0x5A)
            ==> crate::keys::key_name(sym) == Some(seq![sym as char]),
        sym > 0xFF && !(0xFF0D <= sym <= 0xFFC9) && !(0x1008_FF02 <= sym <= 0x1008_FFB2) ==> {
            let c = crate::keys::key_char_of(sym);
            &&& c is None ==> crate::keys::key_name(sym) is None
            &&& c is Some ==> crate::keys::key_name(sym) == Some(text::char_lowered(c->0))
        },
{
}

} // verus!
