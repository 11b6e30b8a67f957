//! Runtime configuration: defaults, keybindings, and the values that a TOML
//! file and a Lua script put over them.
use crate::bits::Double;
use crate::text;
use vstd::prelude::*;

verus! {

#[derive(Clone, Copy, Debug, PartialEq, Eq, Hash, Structural)]
pub struct Modifiers {
    pub logo: bool,
    pub shift: bool,
    pub ctrl: bool,
    pub alt: bool,
}

impl Default for Modifiers {
    fn default() -> (r: Self)
        ensures
            r == (Modifiers { logo: true, shift: false, ctrl: false, alt: false }),
    {
        Modifiers { logo: true, shift: false, ctrl: false, alt: false }
    }
}

/// A key with its modifiers, and the name of the action it stands for.
#[derive(Clone, Debug)]
pub struct Keybind {
    pub modifiers: Modifiers,
    pub key: String,
    pub action: String,
}

pub ghost struct KeybindView {
    pub modifiers: Modifiers,
    pub key: Seq<char>,
    pub action: Seq<char>,
}

impl View for Keybind {
    type V = KeybindView;

    open spec fn view(&self) -> KeybindView {
        KeybindView { modifiers: self.modifiers, key: self.key@, action: self.action@ }
    }
}

/// What the keybinds of a list hold.
pub open spec fn keybind_views(list: Seq<Keybind>) -> Seq<KeybindView> {
    list.map_values(|k: Keybind| k@)
}

/// The configuration. `swipe_threshold` is a number of pixels.
#[derive(Clone, Debug)]
pub struct Config {
    pub terminal: String,
    pub launcher: String,
    pub outer_gaps: i32,
    pub inner_gaps: i32,
    pub border_width: i32,
    pub active_border_color: String,
    pub inactive_border_color: String,
    pub clear_color: String,
    pub workspace_names: Vec<String>,
    pub keybinds: Vec<Keybind>,
    pub swipe_threshold: Double,
}

#[verifier::ext_equal]
pub ghost struct ConfigView {
    pub terminal: Seq<char>,
    pub launcher: Seq<char>,
    pub outer_gaps: int,
    pub inner_gaps: int,
    pub border_width: int,
    pub active_border_color: Seq<char>,
    pub inactive_border_color: Seq<char>,
    pub clear_color: Seq<char>,
    pub workspace_names: Seq<Seq<char>>,
    pub keybinds: Seq<KeybindView>,
    pub swipe_threshold: Double,
}

impl View for Config {
    type V = ConfigView;

    open spec fn view(&self) -> ConfigView {
        ConfigView {
            terminal: self.terminal@,
            launcher: self.launcher@,
            outer_gaps: self.outer_gaps as int,
            inner_gaps: self.inner_gaps as int,
            border_width: self.border_width as int,
            active_border_color: self.active_border_color@,
            inactive_border_color: self.inactive_border_color@,
            clear_color: self.clear_color@,
            workspace_names: text::texts(self.workspace_names@),
            keybinds: keybind_views(self.keybinds@),
            swipe_threshold: self.swipe_threshold,
        }
    }
}

impl ConfigView {
    /// The configuration once the script has run on top of it: what the script
    /// knows of is as it left it, the keybindings stay.
    pub open spec fn overridden_by(self, read: ConfigView) -> ConfigView {
        ConfigView { keybinds: self.keybinds, ..read }
    }
}

/// The pattern of 100.0, the default swipe threshold.
pub const SWIPE_THRESHOLD: u64 = 0x4059_0000_0000_0000;

/// A binding of the logo key, with shift or without, and no other modifier.
pub open spec fn logo_bind(shift: bool, key: Seq<char>, action: Seq<char>) -> KeybindView {
    KeybindView {
        modifiers: Modifiers { logo: true, shift, ctrl: false, alt: false },
        key,
        action,
    }
}

/// The bindings that hold where the configuration names none.
pub open spec fn default_bindings() -> Seq<KeybindView> {
    seq![
        logo_bind(true, "Escape"@, "quit"@),
        logo_bind(true, "r"@, "reload_config"@),
        logo_bind(false, "Return"@, "spawn_terminal"@),
        logo_bind(false, "d"@, "spawn_launcher"@),
        logo_bind(false, "q"@, "close_focused"@),
        logo_bind(false, "f"@, "toggle_fullscreen"@),
        logo_bind(false, "space"@, "cycle_layout"@),
        logo_bind(true, "space"@, "toggle_floating"@),
        logo_bind(false, "t"@, "cycle_theme"@),
        logo_bind(false, "b"@, "toggle_navbar"@),
        logo_bind(false, "w"@, "toggle_wallpaper_menu"@),
        logo_bind(false, "Left"@, "focus_left"@),
        logo_bind(false, "Right"@, "focus_right"@),
        logo_bind(true, "Left"@, "move_window_left"@),
        logo_bind(true, "Right"@, "move_window_right"@),
        logo_bind(false, "1"@, "workspace_1"@),
        logo_bind(false, "2"@, "workspace_2"@),
        logo_bind(false, "3"@, "workspace_3"@),
        logo_bind(false, "4"@, "workspace_4"@),
        logo_bind(false, "5"@, "workspace_5"@),
        logo_bind(false, "6"@, "workspace_6"@),
        logo_bind(false, "7"@, "workspace_7"@),
        logo_bind(false, "8"@, "workspace_8"@),
        logo_bind(false, "9"@, "workspace_9"@),
        logo_bind(true, "1"@, "move_to_workspace_1"@),
        logo_bind(true, "2"@, "move_to_workspace_2"@),
        logo_bind(true, "3"@, "move_to_workspace_3"@),
        logo_bind(true, "4"@, "move_to_workspace_4"@),
        logo_bind(true, "5"@, "move_to_workspace_5"@),
        logo_bind(true, "6"@, "move_to_workspace_6"@),
        logo_bind(true, "7"@, "move_to_workspace_7"@),
        logo_bind(true, "8"@, "move_to_workspace_8"@),
        logo_bind(true, "9"@, "move_to_workspace_9"@),
    ]
}

/// The configuration that holds where nothing else is said.
pub open spec fn default_config() -> ConfigView {
    ConfigView {
        terminal: "alacritty"@,
        launcher: "fuzzel"@,
        outer_gaps: 15,
        inner_gaps: 10,
        border_width: 2,
        active_border_color: "#7aa2f7"@,
        inactive_border_color: "#1a1b26"@,
        clear_color: "#14101e"@,
        workspace_names: seq!["1"@, "2"@, "3"@, "4"@, "5"@, "6"@, "7"@, "8"@, "9"@],
        keybinds: default_bindings(),
        swipe_threshold: Double { bits: SWIPE_THRESHOLD },
    }
}

fn bind(shift: bool, key: &str, action: &str) -> (r: Keybind)
    ensures
        r@ == logo_bind(shift, key@, action@),
{
    Keybind {
        modifiers: Modifiers { logo: true, shift, ctrl: false, alt: false },
        key: key.to_owned(),
        action: action.to_owned(),
    }
}

pub fn default_keybinds() -> (r: Vec<Keybind>)
    ensures
        keybind_views(r@) == default_bindings(),
{
    vec![
        bind(true, "Escape", "quit"),
        bind(true, "r", "reload_config"),
        bind(false, "Return", "spawn_terminal"),
        bind(false, "d", "spawn_launcher"),
        bind(false, "q", "close_focused"),
        bind(false, "f", "toggle_fullscreen"),
        bind(false, "space", "cycle_layout"),
        bind(true, "space", "toggle_floating"),
        bind(false, "t", "cycle_theme"),
        bind(false, "b", "toggle_navbar"),
        bind(false, "w", "toggle_wallpaper_menu"),
        bind(false, "Left", "focus_left"),
        bind(false, "Right", "focus_right"),
        bind(true, "Left", "move_window_left"),
        bind(true, "Right", "move_window_right"),
        bind(false, "1", "workspace_1"),
        bind(false, "2", "workspace_2"),
        bind(false, "3", "workspace_3"),
        bind(false, "4", "workspace_4"),
        bind(false, "5", "workspace_5"),
        bind(false, "6", "workspace_6"),
        bind(false, "7", "workspace_7"),
        bind(false, "8", "workspace_8"),
        bind(false, "9", "workspace_9"),
        bind(true, "1", "move_to_workspace_1"),
        bind(true, "2", "move_to_workspace_2"),
        bind(true, "3", "move_to_workspace_3"),
        bind(true, "4", "move_to_workspace_4"),
        bind(true, "5", "move_to_workspace_5"),
        bind(true, "6", "move_to_workspace_6"),
        bind(true, "7", "move_to_workspace_7"),
        bind(true, "8", "move_to_workspace_8"),
        bind(true, "9", "move_to_workspace_9"),
    ]
}

impl Default for Config {
    fn default() -> (r: Self)
        ensures
            r@ == default_config(),
    {
        Config {
            terminal: "alacritty".to_owned(),
            launcher: "fuzzel".to_owned(),
            outer_gaps: 15,
            inner_gaps: 10,
            border_width: 2,
            active_border_color: "#7aa2f7".to_owned(),
            inactive_border_color: "#1a1b26".to_owned(),
            clear_color: "#14101e".to_owned(),
            workspace_names: vec![
                "1".to_owned(),
                "2".to_owned(),
                "3".to_owned(),
                "4".to_owned(),
                "5".to_owned(),
                "6".to_owned(),
                "7".to_owned(),
                "8".to_owned(),
                "9".to_owned(),
            ],
            keybinds: default_keybinds(),
            swipe_threshold: Double { bits: SWIPE_THRESHOLD },
        }
    }
}

/// What became of the configuration file.
#[derive(Clone, Debug)]
pub enum FileOutcome {
    /// There is none.
    Missing,
    /// It could not be read.
    Unreadable,
    /// It does not hold a configuration.
    Malformed,
    /// It was read.
    Read(Config),
}

/// What became of the configuration script.
#[derive(Clone, Copy, Debug, PartialEq, Eq, Structural)]
pub enum ScriptOutcome {
    /// There is none.
    Missing,
    /// It could not be read.
    Unreadable,
    /// It failed.
    Failed,
    /// It ran to its end.
    Ran,
}

impl Config {
    /// The configuration that comes with the program: `parsed`, where it could
    /// be read, or else the default one.
    pub fn from_asset(parsed: Option<Config>) -> (r: Self)
        ensures
            r@ == (match parsed {
                Some(config) => config@,
                None => default_config(),
            }),
    {
        match parsed {
            Some(config) => config,
            None => Config::default(),
        }
    }

    /// Takes the configuration of the file, where there is one.
    pub fn load_file(&mut self, file: FileOutcome)
        ensures
            final(self)@ == (match file {
                FileOutcome::Read(config) => config@,
                _ => old(self)@,
            }),
    {
        if let FileOutcome::Read(config) = file {
            *self = config;
        }
    }

    /// Takes what a script has left, and keeps the keybindings, of which scripts
    /// do not know.
    pub fn take_over(&mut self, read: Config)
        ensures
            final(self)@ == old(self)@.overridden_by(read@),
    {
        let mut new = read;
        std::mem::swap(&mut new.keybinds, &mut self.keybinds);
        *self = new;
    }

    pub fn workspace_count(&self) -> (r: usize)
        ensures
            r == self@.workspace_names.len(),
    {
        self.workspace_names.len()
    }
}

} // verus!
