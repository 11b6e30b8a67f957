//! What is done for an action of a key or a command from outside.
use crate::bits::{Single, ONE32};
use crate::config::Config;
use crate::keys::KeyAction;
use crate::state::{push_retile_all, Effect, Osd, OsdKind, State, WindowGeometry};
use crate::text;
use crate::workspace::LayoutType;
use vstd::prelude::*;

verus! {

/// A command from outside.
#[derive(Clone, Copy, Debug, PartialEq, Eq, Structural)]
pub enum IpcCommand {
    Quit,
    SpawnTerminal,
    CloseFocused,
    /// Set the opacity of the windows.
    SetOpacity { value: Single },
    /// Change the opacity of the windows by some amount.
    AdjustOpacity { value: Single },
}

/// A function of the configuration script.
#[derive(Clone, Copy, Debug, PartialEq, Eq, Structural)]
pub enum LuaCall {
    CycleTheme,
    ToggleNavbar,
    ToggleWallpaperMenu,
}

/// A level of the machine that is changed in steps.
#[derive(Clone, Copy, Debug, PartialEq, Eq, Structural)]
pub enum Control {
    VolumeUp,
    VolumeDown,
    VolumeMute,
    BrightnessUp,
    BrightnessDown,
}

/// Work outside the state that an action asks for.
#[derive(Clone, Debug)]
pub enum Task {
    /// Leave the event loop.
    Quit,
    /// Start the terminal of the configuration.
    Terminal,
    /// Start the launcher of the configuration.
    Launcher,
    /// Read the configuration anew.
    Reload,
    /// Call a function of the configuration script.
    Lua(LuaCall),
    /// Switch to a virtual terminal.
    SwitchVt(i32),
    /// Run a command in a shell.
    Shell(String),
    /// Change a level, then read and show it.
    Adjust(Control),
    /// Nothing.
    Nothing,
}

/// Work: a command to run in a shell, or any other.
pub ghost enum TaskView {
    Shell(Seq<char>),
    Other(Task),
}

impl View for Task {
    type V = TaskView;

    open spec fn view(&self) -> TaskView {
        match *self {
            Task::Shell(command) => TaskView::Shell(command@),
            task => TaskView::Other(task),
        }
    }
}

/// The pattern of 0.1, the least opacity of the windows.
pub const MIN_OPACITY: u32 = 0x3DCC_CCCD;

/// The pattern of 0.99, from which on the windows are opaque.
pub const OPAQUE: u32 = 0x3F7D_70A4;

/// The pattern of 0.35, the least opacity that windows are shown with.
pub const MIN_ALPHA: u32 = 0x3EB3_3333;

/// The opacity that windows are shown with, where theirs is `opacity` and the
/// curve of readable opacities gives `curved` for it.
pub open spec fn shown_alpha(opacity: Single, curved: Single) -> Single {
    if (Single { bits: OPAQUE }).at_most(opacity) {
        Single { bits: ONE32 }
    } else {
        curved.clamped(Single { bits: MIN_ALPHA }, Single { bits: ONE32 })
    }
}

/// Windows are shown readably, whatever their opacity, and fully where they are
/// as good as opaque. Windows of a greater opacity are not shown fainter.
pub proof fn shown_alpha_grows(p: Single, q: Single, curved_p: Single, curved_q: Single)
    requires
        p.at_most(q),
        curved_p.at_most(curved_q),
    ensures
        (Single { bits: MIN_ALPHA }).at_most(shown_alpha(p, curved_p)),
        shown_alpha(q, curved_q).at_most(Single { bits: ONE32 }),
        shown_alpha(p, curved_p).at_most(shown_alpha(q, curved_q)),
        (Single { bits: OPAQUE }).at_most(q) ==> shown_alpha(q, curved_q) == (Single {
            bits: ONE32,
        }),
{
}

/// An opacity within its bounds.
pub open spec fn bounded_opacity(value: Single) -> Single {
    value.clamped(Single { bits: MIN_OPACITY }, Single { bits: ONE32 })
}

impl crate::state::StateView {
    /// The windows have an opacity, within bounds.
    pub open spec fn with_opacity(self, value: Single) -> crate::state::StateView {
        crate::state::StateView { window_opacity: bounded_opacity(value), ..self }.redrawn()
    }

    /// The other of the two layouts takes its turn on the active workspace.
    pub open spec fn layout_cycled(self) -> crate::state::StateView {
        let ws = self.active();
        self.with_active(
            crate::workspace::WorkspaceView {
                layout: match ws.layout {
                    LayoutType::MasterStack => LayoutType::Monocle,
                    LayoutType::Monocle => LayoutType::MasterStack,
                },
                ..ws
            },
        ).redrawn()
    }

    /// The state, the effects and the work once an action was asked for.
    /// `geometry` tells of the focused window.
    pub open spec fn acted(
        self,
        action: crate::keys::ActionView,
        geometry: WindowGeometry,
        now: u64,
    ) -> (crate::state::StateView, Seq<Effect>, TaskView) {
        let nothing = TaskView::Other(Task::Nothing);
        match action {
            crate::keys::ActionView::Exec(command) => (self, seq![], TaskView::Shell(command)),
            crate::keys::ActionView::Other(a) => match a {
                KeyAction::Quit => (self, seq![], TaskView::Other(Task::Quit)),
                KeyAction::SpawnTerminal => (self, seq![], TaskView::Other(Task::Terminal)),
                KeyAction::SpawnLauncher => (self, seq![], TaskView::Other(Task::Launcher)),
                KeyAction::ReloadConfig => (self, seq![], TaskView::Other(Task::Reload)),
                KeyAction::CloseFocused => {
                    let (s, effects) = self.focus_closed(geometry, now);
                    (s, effects, nothing)
                },
                KeyAction::FocusRight => {
                    let (s, effects) = self.focus_moved(1);
                    (s, effects, nothing)
                },
                KeyAction::FocusLeft => {
                    let (s, effects) = self.focus_moved(-1);
                    (s, effects, nothing)
                },
                KeyAction::CycleLayout => (
                    self.layout_cycled(),
                    seq![Effect::Retile(self.active_workspace as usize)],
                    nothing,
                ),
                KeyAction::ToggleFloating => {
                    let (s, effects) = self.floating_toggled(geometry);
                    (s, effects, nothing)
                },
                KeyAction::SwitchWorkspace(idx) => {
                    let (s, effects) = self.workspace_switched(idx, now);
                    (s, effects, nothing)
                },
                KeyAction::MoveToWorkspace(idx) => {
                    let (s, effects) = self.window_moved(idx);
                    (s, effects, nothing)
                },
                KeyAction::CycleTheme => (
                    self,
                    seq![],
                    TaskView::Other(Task::Lua(LuaCall::CycleTheme)),
                ),
                KeyAction::ToggleNavbar => (
                    self,
                    seq![],
                    TaskView::Other(Task::Lua(LuaCall::ToggleNavbar)),
                ),
                KeyAction::ToggleWallpaperMenu => (
                    self,
                    seq![],
                    TaskView::Other(Task::Lua(LuaCall::ToggleWallpaperMenu)),
                ),
                KeyAction::SwitchVt(vt) => (self, seq![], TaskView::Other(Task::SwitchVt(vt))),
                KeyAction::VolumeUp => (
                    self,
                    seq![],
                    TaskView::Other(Task::Adjust(Control::VolumeUp)),
                ),
                KeyAction::VolumeDown => (
                    self,
                    seq![],
                    TaskView::Other(Task::Adjust(Control::VolumeDown)),
                ),
                KeyAction::VolumeMute => (
                    self,
                    seq![],
                    TaskView::Other(Task::Adjust(Control::VolumeMute)),
                ),
                KeyAction::BrightnessUp => (
                    self,
                    seq![],
                    TaskView::Other(Task::Adjust(Control::BrightnessUp)),
                ),
                KeyAction::BrightnessDown => (
                    self,
                    seq![],
                    TaskView::Other(Task::Adjust(Control::BrightnessDown)),
                ),
                KeyAction::ToggleFullscreen
                | KeyAction::MoveWindowLeft
                | KeyAction::MoveWindowRight
                | KeyAction::NoOp
                | KeyAction::Exec(_) => (self, seq![], nothing),
            },
        }
    }

    /// The state, the effects and the work once a command came from outside.
    /// `sum` is the opacity with the amount of the command added.
    pub open spec fn commanded(
        self,
        cmd: IpcCommand,
        geometry: WindowGeometry,
        sum: Single,
        now: u64,
    ) -> (crate::state::StateView, Seq<Effect>, TaskView) {
        let nothing = TaskView::Other(Task::Nothing);
        match cmd {
            IpcCommand::Quit => (self, seq![], TaskView::Other(Task::Quit)),
            IpcCommand::SpawnTerminal => (self, seq![], TaskView::Other(Task::Terminal)),
            IpcCommand::CloseFocused => {
                let (s, effects) = self.focus_closed(geometry, now);
                (s, effects, nothing)
            },
            IpcCommand::SetOpacity { value } => (
                self.with_opacity(value),
                seq![Effect::BroadcastOpacity],
                nothing,
            ),
            IpcCommand::AdjustOpacity { .. } => (
                self.with_opacity(sum),
                seq![Effect::BroadcastOpacity],
                nothing,
            ),
        }
    }
}

/// The program, the first argument and the rest that change a level.
pub open spec fn control_words(control: Control) -> Seq<Seq<char>> {
    match control {
        Control::VolumeUp => seq!["wpctl"@, "set-volume"@, "@DEFAULT_AUDIO_SINK@"@, "5%+"@],
        Control::VolumeDown => seq!["wpctl"@, "set-volume"@, "@DEFAULT_AUDIO_SINK@"@, "5%-"@],
        Control::VolumeMute => seq!["wpctl"@, "set-mute"@, "@DEFAULT_AUDIO_SINK@"@, "toggle"@],
        Control::BrightnessUp => seq!["brightnessctl"@, "set"@, "+5%"@],
        Control::BrightnessDown => seq!["brightnessctl"@, "set"@, "5%-"@],
    }
}

/// The command that changes a level: the program and its arguments.
pub fn control_command(control: Control) -> (r: Vec<String>)
    ensures
        text::texts(r@) == control_words(control),
{
    match control {
        Control::VolumeUp => vec![
            "wpctl".to_owned(),
            "set-volume".to_owned(),
            "@DEFAULT_AUDIO_SINK@".to_owned(),
            "5%+".to_owned(),
        ],
        Control::VolumeDown => vec![
            "wpctl".to_owned(),
            "set-volume".to_owned(),
            "@DEFAULT_AUDIO_SINK@".to_owned(),
            "5%-".to_owned(),
        ],
        Control::VolumeMute => vec![
            "wpctl".to_owned(),
            "set-mute".to_owned(),
            "@DEFAULT_AUDIO_SINK@".to_owned(),
            "toggle".to_owned(),
        ],
        Control::BrightnessUp => vec![
            "brightnessctl".to_owned(),
            "set".to_owned(),
            "+5%".to_owned(),
        ],
        Control::BrightnessDown => vec![
            "brightnessctl".to_owned(),
            "set".to_owned(),
            "5%-".to_owned(),
        ],
    }
}

/// Which display a level is shown on.
pub fn control_kind(control: Control) -> (r: OsdKind)
    ensures
        r == (match control {
            Control::BrightnessUp | Control::BrightnessDown => OsdKind::Brightness,
            _ => OsdKind::Volume,
        }),
{
    match control {
        Control::BrightnessUp | Control::BrightnessDown => OsdKind::Brightness,
        _ => OsdKind::Volume,
    }
}

/// The name of a function of the configuration script.
pub open spec fn call_name(call: LuaCall) -> Seq<char> {
    match call {
        LuaCall::CycleTheme => "cycle_theme"@,
        LuaCall::ToggleNavbar => "toggle_navbar"@,
        LuaCall::ToggleWallpaperMenu => "toggle_wallpaper_menu"@,
    }
}

/// The chunk that calls a function of the configuration script, if it is
/// there, and says so where it is not.
pub fn lua_chunk(call: LuaCall) -> (r: String)
    ensures
        r@ == "if type("@ + call_name(call) + ") == 'function' then "@ + call_name(call)
            + "() else print('rc.lua: "@ + call_name(call) + " is not defined') end"@,
{
    let name = match call {
        LuaCall::CycleTheme => "cycle_theme",
        LuaCall::ToggleNavbar => "toggle_navbar",
        LuaCall::ToggleWallpaperMenu => "toggle_wallpaper_menu",
    };
    let mut chunk = text::joined("if type(", name);
    chunk = text::joined(chunk.as_str(), ") == 'function' then ");
    chunk = text::joined(chunk.as_str(), name);
    chunk = text::joined(chunk.as_str(), "() else print('rc.lua: ");
    chunk = text::joined(chunk.as_str(), name);
    text::joined(chunk.as_str(), " is not defined') end")
}

impl State {
    pub fn set_window_opacity(&mut self, opacity: Single)
        ensures
            final(self)@ == old(self)@.with_opacity(opacity),
    {
        self.window_opacity = opacity.clamp(Single { bits: MIN_OPACITY }, Single { bits: ONE32 });
        self.needs_redraw = true;
    }

    /// Sets the opacity to `sum`, which is the present one with some amount
    /// added.
    pub fn adjust_window_opacity(&mut self, sum: Single) -> (r: Effect)
        ensures
            final(self)@ == old(self)@.with_opacity(sum),
            r == Effect::BroadcastOpacity,
    {
        self.set_window_opacity(sum);
        Effect::BroadcastOpacity
    }

    /// The opacity that windows are shown with. `curved` is what the curve of
    /// readable opacities gives for the present one.
    pub fn effective_window_alpha(&self, curved: Single) -> (r: Single)
        ensures
            r == shown_alpha(self@.window_opacity, curved),
    {
        if (Single { bits: OPAQUE }).le(self.window_opacity) {
            return Single { bits: ONE32 };
        }
        curved.clamp(Single { bits: MIN_ALPHA }, Single { bits: ONE32 })
    }

    /// Lets the on-screen display show a level.
    pub fn show_osd(&mut self, osd: Osd)
        ensures
            final(self)@ == (crate::state::StateView { osd: Some(osd), ..old(self)@ }).redrawn(),
    {
        self.osd = Some(osd);
        self.needs_redraw = true;
    }

    /// Gives the active workspace the other layout.
    pub fn cycle_layout(&mut self) -> (r: Effect)
        requires
            old(self)@.wf(),
        ensures
            final(self)@ == old(self)@.layout_cycled(),
            r == Effect::Retile(old(self)@.active_workspace as usize),
    {
        let here: usize = self.active_workspace;
        self.workspaces[here].layout = match self.workspaces[here].layout {
            LayoutType::MasterStack => LayoutType::Monocle,
            LayoutType::Monocle => LayoutType::MasterStack,
        };
        self.needs_redraw = true;
        assert(self@.workspaces == old(self)@.layout_cycled().workspaces);
        Effect::Retile(here)
    }

    /// Takes a configuration that was read anew. All workspaces are arranged
    /// after it.
    pub fn reload_config(&mut self, config: Config) -> (r: Vec<Effect>)
        ensures
            final(self)@ == (crate::state::StateView {
                config: config@,
                ..old(self)@
            }).redrawn(),
            r@ == crate::state::retile_all(old(self)@.workspaces.len()),
    {
        self.config = config;
        self.needs_redraw = true;
        let mut effects: Vec<Effect> = Vec::new();
        push_retile_all(&mut effects, self.workspaces.len());
        effects
    }

    /// The configuration script has changed the theme. `read` is the
    /// configuration that it left, where one could be read.
    pub fn cycle_theme(&mut self, succeeded: bool, read: Option<Config>)
        ensures
            final(self)@ == (if succeeded {
                match read {
                    Some(config) => crate::state::StateView {
                        config: old(self)@.config.overridden_by(config@),
                        ..old(self)@
                    },
                    None => old(self)@,
                }.redrawn()
            } else {
                old(self)@
            }),
    {
        if !succeeded {
            return;
        }
        if let Some(config) = read {
            self.config.take_over(config);
        }
        self.needs_redraw = true;
    }

    /// The configuration script has shown or hidden the bar.
    pub fn toggle_navbar(&mut self, succeeded: bool)
        ensures
            final(self)@ == (if succeeded {
                old(self)@.redrawn()
            } else {
                old(self)@
            }),
    {
        if succeeded {
            self.needs_redraw = true;
        }
    }

    /// The configuration script has shown or hidden the menu of wallpapers.
    pub fn toggle_wallpaper_menu(&mut self, succeeded: bool)
        ensures
            final(self)@ == (if succeeded {
                old(self)@.redrawn()
            } else {
                old(self)@
            }),
    {
        if succeeded {
            self.needs_redraw = true;
        }
    }

    /// Does what an action asks for. Returns the effects, and what work is left
    /// to be done. `geometry` tells of the focused window.
    pub fn dispatch_action(
        &mut self,
        action: KeyAction,
        geometry: WindowGeometry,
        now: u64,
    ) -> (r: (Vec<Effect>, Task))
        requires
            old(self)@.wf(),
        ensures
            final(self)@ == old(self)@.acted(action@, geometry, now).0,
            r.0@ == old(self)@.acted(action@, geometry, now).1,
            r.1@ == old(self)@.acted(action@, geometry, now).2,
    {
        match action {
            KeyAction::Quit => (Vec::new(), Task::Quit),
            KeyAction::SpawnTerminal => (Vec::new(), Task::Terminal),
            KeyAction::SpawnLauncher => (Vec::new(), Task::Launcher),
            KeyAction::ReloadConfig => (Vec::new(), Task::Reload),
            KeyAction::CloseFocused => (self.close_focused(geometry, now), Task::Nothing),
            KeyAction::FocusRight => (self.focus_relative(1), Task::Nothing),
            KeyAction::FocusLeft => (self.focus_relative(-1), Task::Nothing),
            KeyAction::CycleLayout => (vec![self.cycle_layout()], Task::Nothing),
            KeyAction::ToggleFloating => (self.toggle_floating(geometry), Task::Nothing),
            KeyAction::SwitchWorkspace(idx) => (self.switch_workspace(idx, now), Task::Nothing),
            KeyAction::MoveToWorkspace(idx) => (self.move_to_workspace(idx), Task::Nothing),
            KeyAction::CycleTheme => (Vec::new(), Task::Lua(LuaCall::CycleTheme)),
            KeyAction::ToggleNavbar => (Vec::new(), Task::Lua(LuaCall::ToggleNavbar)),
            KeyAction::ToggleWallpaperMenu => (
                Vec::new(),
                Task::Lua(LuaCall::ToggleWallpaperMenu),
            ),
            KeyAction::SwitchVt(vt) => (Vec::new(), Task::SwitchVt(vt)),
            KeyAction::Exec(command) => (Vec::new(), Task::Shell(command)),
            KeyAction::VolumeUp => (Vec::new(), Task::Adjust(Control::VolumeUp)),
            KeyAction::VolumeDown => (Vec::new(), Task::Adjust(Control::VolumeDown)),
            KeyAction::VolumeMute => (Vec::new(), Task::Adjust(Control::VolumeMute)),
            KeyAction::BrightnessUp => (Vec::new(), Task::Adjust(Control::BrightnessUp)),
            KeyAction::BrightnessDown => (Vec::new(), Task::Adjust(Control::BrightnessDown)),
            KeyAction::ToggleFullscreen
            | KeyAction::MoveWindowLeft
            | KeyAction::MoveWindowRight
            | KeyAction::NoOp => (Vec::new(), Task::Nothing),
        }
    }

    /// Does what a command from outside asks for. `sum` is the opacity with the
    /// amount of the command added.
    pub fn handle_ipc_command(
        &mut self,
        cmd: IpcCommand,
        geometry: WindowGeometry,
        sum: Single,
        now: u64,
    ) -> (r: (Vec<Effect>, Task))
        requires
            old(self)@.wf(),
        ensures
            final(self)@ == old(self)@.commanded(cmd, geometry, sum, now).0,
            r.0@ == old(self)@.commanded(cmd, geometry, sum, now).1,
            r.1@ == old(self)@.commanded(cmd, geometry, sum, now).2,
    {
        match cmd {
            IpcCommand::Quit => (Vec::new(), Task::Quit),
            IpcCommand::SpawnTerminal => (Vec::new(), Task::Terminal),
            IpcCommand::CloseFocused => (self.close_focused(geometry, now), Task::Nothing),
            IpcCommand::SetOpacity { value } => {
                self.set_window_opacity(value);
                (vec![Effect::BroadcastOpacity], Task::Nothing)
            },
            IpcCommand::AdjustOpacity { .. } => {
                (vec![self.adjust_window_opacity(sum)], Task::Nothing)
            },
        }
    }
}

} // verus!
