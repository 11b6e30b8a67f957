//! Keys: their names, and the actions that they stand for.
use crate::text;
use vstd::prelude::*;

verus! {

// The symbols of the keys that have a name of their own.
pub const RETURN: u32 = 0xFF0D;

pub const ESCAPE: u32 = 0xFF1B;

pub const SPACE: u32 = 0x20;

pub const LEFT: u32 = 0xFF51;

pub const RIGHT: u32 = 0xFF53;

pub const UP: u32 = 0xFF52;

pub const DOWN: u32 = 0xFF54;

pub const RAISE_VOLUME: u32 = 0x1008_FF13;

pub const LOWER_VOLUME: u32 = 0x1008_FF11;

pub const MUTE: u32 = 0x1008_FF12;

pub const MIC_MUTE: u32 = 0x1008_FFB2;

pub const PLAY: u32 = 0x1008_FF14;

pub const PAUSE: u32 = 0x1008_FF31;

pub const NEXT: u32 = 0x1008_FF17;

pub const PREV: u32 = 0x1008_FF16;

pub const BRIGHTNESS_UP: u32 = 0x1008_FF02;

pub const BRIGHTNESS_DOWN: u32 = 0x1008_FF03;

/// The symbol of the first of the twelve function keys.
pub const F1: u32 = 0xFFBE;

/// The symbol of the first of the twelve keys that switch to a terminal.
pub const SWITCH_VT_1: u32 = 0x1008_FE01;

/// The symbol of the key `1`.
pub const ONE: u32 = 0x31;

#[derive(Clone, Debug)]
pub enum KeyAction {
    Quit,
    ReloadConfig,
    SpawnTerminal,
    SpawnLauncher,
    CloseFocused,
    ToggleFullscreen,
    CycleLayout,
    ToggleFloating,
    FocusLeft,
    FocusRight,
    MoveWindowLeft,
    MoveWindowRight,
    SwitchWorkspace(usize),
    MoveToWorkspace(usize),
    CycleTheme,
    ToggleNavbar,
    ToggleWallpaperMenu,
    /// Switch to a virtual terminal.
    SwitchVt(i32),
    /// Run a command in a shell.
    Exec(String),
    VolumeUp,
    VolumeDown,
    VolumeMute,
    BrightnessUp,
    BrightnessDown,
    /// Nothing is left to do.
    NoOp,
}

/// An action: a command to run, or any other.
pub ghost enum ActionView {
    Exec(Seq<char>),
    Other(KeyAction),
}

impl View for KeyAction {
    type V = ActionView;

    open spec fn view(&self) -> ActionView {
        match *self {
            KeyAction::Exec(command) => ActionView::Exec(command@),
            action => ActionView::Other(action),
        }
    }
}

/// What an action that may be none holds.
pub open spec fn action_view(action: Option<KeyAction>) -> Option<ActionView> {
    match action {
        Some(a) => Some(a@),
        None => None,
    }
}

/// The workspace that a number key stands for.
pub fn keysym_to_workspace_index(sym: u32) -> (r: Option<usize>)
    ensures
        r == (if ONE <= sym < ONE + 9 {
            Some((sym - ONE) as usize)
        } else {
            None
        }),
{
    if ONE <= sym && sym < ONE + 9 {
        Some((sym - ONE) as usize)
    } else {
        None
    }
}

/// What `Keysym::key_char` makes of a symbol outside Latin-1.
pub uninterp spec fn key_char_of(raw: u32) -> Option<char>;

/// The character that a key writes.
pub open spec fn key_char(raw: u32) -> Option<char> {
    if 0x20 <= raw <= 0x7E || 0xA0 <= raw <= 0xFF {
        Some(raw as char)
    } else {
        key_char_of(raw)
    }
}

/// Calls `xkeysym::Keysym::key_char`. A symbol of the printable part of
/// Latin-1 is the character itself; what is written by any other key has a
/// name and is a function of the symbol.
#[verifier::external_body]
fn keysym_char(raw: u32) -> (r: Option<char>)
    ensures
        r == (if 0x20 <= raw <= 0x7E || 0xA0 <= raw <= 0xFF {
            Some(raw as char)
        } else {
            key_char_of(raw)
        }),
{
    xkeysym::Keysym::new(raw).key_char()
}

/// The name of a key that has one of its own.
pub open spec fn own_name(sym: u32) -> Option<Seq<char>> {
    if sym == RETURN {
        Some("return"@)
    } else if sym == ESCAPE {
        Some("escape"@)
    } else if sym == SPACE {
        Some("space"@)
    } else if sym == LEFT {
        Some("left"@)
    } else if sym == RIGHT {
        Some("right"@)
    } else if sym == UP {
        Some("up"@)
    } else if sym == DOWN {
        Some("down"@)
    } else if sym == RAISE_VOLUME {
        Some("xf86audioraisevolume"@)
    } else if sym == LOWER_VOLUME {
        Some("xf86audiolowervolume"@)
    } else if sym == MUTE {
        Some("xf86audiomute"@)
    } else if sym == MIC_MUTE {
        Some("xf86audiomicmute"@)
    } else if sym == PLAY {
        Some("xf86audioplay"@)
    } else if sym == PAUSE {
        Some("xf86audiopause"@)
    } else if sym == NEXT {
        Some("xf86audionext"@)
    } else if sym == PREV {
        Some("xf86audioprev"@)
    } else if sym == BRIGHTNESS_UP {
        Some("xf86monbrightnessup"@)
    } else if sym == BRIGHTNESS_DOWN {
        Some("xf86monbrightnessdown"@)
    } else if ONE <= sym < ONE + 9 {
        Some(text::decimal((sym - ONE + 1) as nat))
    } else if F1 <= sym < F1 + 12 {
        Some("f"@ + text::decimal((sym - F1 + 1) as nat))
    } else {
        None
    }
}

/// The name of a key: its own, or else the character that it writes, in lower
/// case.
pub open spec fn key_name(sym: u32) -> Option<Seq<char>> {
    match own_name(sym) {
        Some(name) => Some(name),
        None => match key_char(sym) {
            Some(c) => Some(text::char_lowered(c)),
            None => None,
        },
    }
}

/// What a text that may be missing holds.
pub open spec fn text_view(s: Option<String>) -> Option<Seq<char>> {
    match s {
        Some(t) => Some(t@),
        None => None,
    }
}

pub fn keysym_to_key_name(sym: u32) -> (r: Option<String>)
    ensures
        text_view(r) == key_name(sym),
{
    if ONE <= sym && sym < ONE + 9 {
        return Some(text::decimal_text((sym - ONE + 1) as u64));
    }
    if F1 <= sym && sym < F1 + 12 {
        let number = text::decimal_text((sym - F1 + 1) as u64);
        return Some(text::joined("f", number.as_str()));
    }
    let name = if sym == RETURN {
        "return"
    } else if sym == ESCAPE {
        "escape"
    } else if sym == SPACE {
        "space"
    } else if sym == LEFT {
        "left"
    } else if sym == RIGHT {
        "right"
    } else if sym == UP {
        "up"
    } else if sym == DOWN {
        "down"
    } else if sym == RAISE_VOLUME {
        "xf86audioraisevolume"
    } else if sym == LOWER_VOLUME {
        "xf86audiolowervolume"
    } else if sym == MUTE {
        "xf86audiomute"
    } else if sym == MIC_MUTE {
        "xf86audiomicmute"
    } else if sym == PLAY {
        "xf86audioplay"
    } else if sym == PAUSE {
        "xf86audiopause"
    } else if sym == NEXT {
        "xf86audionext"
    } else if sym == PREV {
        "xf86audioprev"
    } else if sym == BRIGHTNESS_UP {
        "xf86monbrightnessup"
    } else if sym == BRIGHTNESS_DOWN {
        "xf86monbrightnessdown"
    } else {
        return match keysym_char(sym) {
            Some(c) => Some(text::char_to_lowercase(c)),
            None => None,
        };
    };
    Some(name.to_owned())
}

/// The action that a fixed name stands for.
pub open spec fn fixed_action(s: Seq<char>) -> Option<KeyAction> {
    if s == "quit"@ {
        Some(KeyAction::Quit)
    } else if s == "reload_config"@ {
        Some(KeyAction::ReloadConfig)
    } else if s == "spawn_terminal"@ {
        Some(KeyAction::SpawnTerminal)
    } else if s == "spawn_launcher"@ {
        Some(KeyAction::SpawnLauncher)
    } else if s == "close_focused"@ {
        Some(KeyAction::CloseFocused)
    } else if s == "toggle_fullscreen"@ {
        Some(KeyAction::ToggleFullscreen)
    } else if s == "cycle_layout"@ {
        Some(KeyAction::CycleLayout)
    } else if s == "toggle_floating"@ {
        Some(KeyAction::ToggleFloating)
    } else if s == "focus_left"@ {
        Some(KeyAction::FocusLeft)
    } else if s == "focus_right"@ {
        Some(KeyAction::FocusRight)
    } else if s == "move_window_left"@ {
        Some(KeyAction::MoveWindowLeft)
    } else if s == "move_window_right"@ {
        Some(KeyAction::MoveWindowRight)
    } else if s == "cycle_theme"@ {
        Some(KeyAction::CycleTheme)
    } else if s == "toggle_navbar"@ {
        Some(KeyAction::ToggleNavbar)
    } else if s == "toggle_wallpaper_menu"@ {
        Some(KeyAction::ToggleWallpaperMenu)
    } else if s == "volume_up"@ {
        Some(KeyAction::VolumeUp)
    } else if s == "volume_down"@ {
        Some(KeyAction::VolumeDown)
    } else if s == "volume_mute"@ {
        Some(KeyAction::VolumeMute)
    } else if s == "brightness_up"@ {
        Some(KeyAction::BrightnessUp)
    } else if s == "brightness_down"@ {
        Some(KeyAction::BrightnessDown)
    } else {
        None
    }
}

/// The place of the workspace with a number; there is none before the first.
pub open spec fn workspace_place(number: int) -> usize {
    if number > 0 {
        (number - 1) as usize
    } else {
        0
    }
}

/// The action that a name stands for. The workspaces are counted from one; a
/// command has to hold something.
pub open spec fn action_named(s: Seq<char>) -> Option<ActionView> {
    let switch = "workspace_"@;
    let send = "move_to_workspace_"@;
    let exec = "exec:"@;
    if fixed_action(s) is Some {
        Some(ActionView::Other(fixed_action(s)->0))
    } else if text::begins(s, switch) {
        match text::number(s.skip(switch.len() as int), 10, usize::MAX as int) {
            Some(n) => Some(ActionView::Other(KeyAction::SwitchWorkspace(workspace_place(n)))),
            None => None,
        }
    } else if text::begins(s, send) {
        match text::number(s.skip(send.len() as int), 10, usize::MAX as int) {
            Some(n) => Some(ActionView::Other(KeyAction::MoveToWorkspace(workspace_place(n)))),
            None => None,
        }
    } else if text::begins(s, exec) && text::trimmed(s.skip(exec.len() as int)).len() > 0 {
        Some(ActionView::Exec(text::trimmed(s.skip(exec.len() as int))))
    } else {
        None
    }
}

fn fixed(s: &str) -> (r: Option<KeyAction>)
    ensures
        r == fixed_action(s@),
{
    if text::same_text(s, "quit") {
        Some(KeyAction::Quit)
    } else if text::same_text(s, "reload_config") {
        Some(KeyAction::ReloadConfig)
    } else if text::same_text(s, "spawn_terminal") {
        Some(KeyAction::SpawnTerminal)
    } else if text::same_text(s, "spawn_launcher") {
        Some(KeyAction::SpawnLauncher)
    } else if text::same_text(s, "close_focused") {
        Some(KeyAction::CloseFocused)
    } else if text::same_text(s, "toggle_fullscreen") {
        Some(KeyAction::ToggleFullscreen)
    } else if text::same_text(s, "cycle_layout") {
        Some(KeyAction::CycleLayout)
    } else if text::same_text(s, "toggle_floating") {
        Some(KeyAction::ToggleFloating)
    } else if text::same_text(s, "focus_left") {
        Some(KeyAction::FocusLeft)
    } else if text::same_text(s, "focus_right") {
        Some(KeyAction::FocusRight)
    } else if text::same_text(s, "move_window_left") {
        Some(KeyAction::MoveWindowLeft)
    } else if text::same_text(s, "move_window_right") {
        Some(KeyAction::MoveWindowRight)
    } else if text::same_text(s, "cycle_theme") {
        Some(KeyAction::CycleTheme)
    } else if text::same_text(s, "toggle_navbar") {
        Some(KeyAction::ToggleNavbar)
    } else if text::same_text(s, "toggle_wallpaper_menu") {
        Some(KeyAction::ToggleWallpaperMenu)
    } else if text::same_text(s, "volume_up") {
        Some(KeyAction::VolumeUp)
    } else if text::same_text(s, "volume_down") {
        Some(KeyAction::VolumeDown)
    } else if text::same_text(s, "volume_mute") {
        Some(KeyAction::VolumeMute)
    } else if text::same_text(s, "brightness_up") {
        Some(KeyAction::BrightnessUp)
    } else if text::same_text(s, "brightness_down") {
        Some(KeyAction::BrightnessDown)
    } else {
        None
    }
}

/// The place of the workspace with a number that is written out.
fn numbered_workspace(digits: &str) -> (r: Option<usize>)
    ensures
        match r {
            Some(i) => text::number(digits@, 10, usize::MAX as int) is Some && i
                == workspace_place(text::number(digits@, 10, usize::MAX as int)->0),
            None => text::number(digits@, 10, usize::MAX as int) is None,
        },
{
    match text::parse_number(digits, 10, usize::MAX as u64) {
        Some(n) => if n > 0 {
            Some((n - 1) as usize)
        } else {
            Some(0)
        },
        None => None,
    }
}

pub fn action_string_to_key_action(action: &str) -> (r: Option<KeyAction>)
    ensures
        action_view(r) == action_named(action@),
{
    if let Some(a) = fixed(action) {
        return Some(a);
    }
    if let Some(digits) = text::strip_prefix(action, "workspace_") {
        return match numbered_workspace(digits) {
            Some(i) => Some(KeyAction::SwitchWorkspace(i)),
            None => None,
        };
    }
    if let Some(digits) = text::strip_prefix(action, "move_to_workspace_") {
        return match numbered_workspace(digits) {
            Some(i) => Some(KeyAction::MoveToWorkspace(i)),
            None => None,
        };
    }
    if let Some(rest) = text::strip_prefix(action, "exec:") {
        let command = text::trim(rest);
        if !command.is_empty() {
            return Some(KeyAction::Exec(command.to_owned()));
        }
    }
    None
}

/// The fixed names begin with neither of the letters that numbered names and
/// commands begin with, but for those of moving a window.
pub proof fn fixed_names_begin(s: Seq<char>)
    requires
        fixed_action(s) is Some,
    ensures
        s.len() > 0,
        s[0] != 'w',
        s[0] != 'e',
        s[0] == 'm' ==> s.len() > 5 && s[5] == 'w',
{
    reveal_strlit("quit");
    reveal_strlit("reload_config");
    reveal_strlit("spawn_terminal");
    reveal_strlit("spawn_launcher");
    reveal_strlit("close_focused");
    reveal_strlit("toggle_fullscreen");
    reveal_strlit("cycle_layout");
    reveal_strlit("toggle_floating");
    reveal_strlit("focus_left");
    reveal_strlit("focus_right");
    reveal_strlit("move_window_left");
    reveal_strlit("move_window_right");
    reveal_strlit("cycle_theme");
    reveal_strlit("toggle_navbar");
    reveal_strlit("toggle_wallpaper_menu");
    reveal_strlit("volume_up");
    reveal_strlit("volume_down");
    reveal_strlit("volume_mute");
    reveal_strlit("brightness_up");
    reveal_strlit("brightness_down");
}

/// A name that begins like the numbered ones is none of the fixed ones.
pub proof fn numbered_is_not_fixed(s: Seq<char>)
    requires
        text::begins(s, "workspace_"@) || text::begins(s, "move_to_workspace_"@),
    ensures
        fixed_action(s) is None,
{
    reveal_strlit("workspace_");
    reveal_strlit("move_to_workspace_");
    if text::begins(s, "workspace_"@) {
        assert(s.subrange(0, 10)[0] == 'w');
    } else {
        assert(s.subrange(0, 18)[0] == 'm');
        assert(s.subrange(0, 18)[5] == 't');
    }
    if fixed_action(s) is Some {
        fixed_names_begin(s);
    }
}

/// The name of a workspace, counted from one, switches to it, and with the
/// prefix of moving sends a window to it.
pub proof fn numbered_names(n: nat)
    requires
        1 <= n <= usize::MAX,
    ensures
        action_named("workspace_"@ + text::decimal(n)) == Some(
            ActionView::Other(KeyAction::SwitchWorkspace((n - 1) as usize)),
        ),
        action_named("move_to_workspace_"@ + text::decimal(n)) == Some(
            ActionView::Other(KeyAction::MoveToWorkspace((n - 1) as usize)),
        ),
{
    text::decimal_is_read_back(n, usize::MAX as int);
    let a = "workspace_"@;
    let b = "move_to_workspace_"@;
    let digits = text::decimal(n);
    assert((a + digits).subrange(0, a.len() as int) == a);
    assert((a + digits).skip(a.len() as int) == digits);
    assert((b + digits).subrange(0, b.len() as int) == b);
    assert((b + digits).skip(b.len() as int) == digits);
    numbered_is_not_fixed(a + digits);
    numbered_is_not_fixed(b + digits);
    reveal_strlit("workspace_");
    reveal_strlit("move_to_workspace_");
    assert((b + digits)[0] == 'm');
    assert((b + digits).subrange(0, 10)[0] == 'm');
}

/// A command that is written out behind its prefix is run as it stands, but
/// for the white space at its ends.
pub proof fn commands_are_run(command: Seq<char>)
    requires
        text::trimmed(command).len() > 0,
    ensures
        action_named("exec:"@ + command) == Some(ActionView::Exec(text::trimmed(command))),
{
    let a = "exec:"@;
    let s = a + command;
    assert(s.subrange(0, a.len() as int) == a);
    assert(s.skip(a.len() as int) == command);
    reveal_strlit("exec:");
    reveal_strlit("workspace_");
    reveal_strlit("move_to_workspace_");
    assert(s[0] == 'e');
    assert(text::begins(s, "workspace_"@) ==> s.subrange(0, 10)[0] == 'w');
    assert(text::begins(s, "move_to_workspace_"@) ==> s.subrange(0, 18)[0] == 'm');
    if fixed_action(s) is Some {
        fixed_names_begin(s);
    }
}

} // verus!
