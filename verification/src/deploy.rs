//! The files that are put in place before the compositor starts.
use crate::paths::{self, copy_bytes, join};
use crate::text;
use vstd::prelude::*;

verus! {

/// A file that comes with the program.
#[derive(Clone, Copy, Debug, PartialEq, Eq, Structural)]
pub enum Asset {
    ConfigToml,
    RcLua,
    WorkspacesScript,
    WallpaperPicker,
    WallpaperRestore,
    OpacityScript,
    OpacityControlScript,
    WaybarConfig,
    WaybarStyle,
    WaybarColors,
}

/// A step on the file system.
#[derive(Clone, Debug)]
pub enum Step {
    /// Make a directory, with those above it; where that fails, no step
    /// follows.
    RequireDir(Vec<u8>),
    /// Make a directory, with those above it.
    MakeDir(Vec<u8>),
    /// Write a file that comes with the program, and let it be run if that
    /// succeeds and it is `executable`.
    Write { path: Vec<u8>, asset: Asset, executable: bool },
    /// Let a file be run, if it is there.
    MakeExecutable(Vec<u8>),
    /// Remove what is there, if it is a symbolic link.
    RemoveLink(Vec<u8>),
    /// Remove what is there, if it is a directory, with all that it holds.
    RemoveDir(Vec<u8>),
}

pub ghost enum StepView {
    RequireDir(Seq<u8>),
    MakeDir(Seq<u8>),
    Write { path: Seq<u8>, asset: Asset, executable: bool },
    MakeExecutable(Seq<u8>),
    RemoveLink(Seq<u8>),
    RemoveDir(Seq<u8>),
}

impl View for Step {
    type V = StepView;

    open spec fn view(&self) -> StepView {
        match *self {
            Step::RequireDir(path) => StepView::RequireDir(path@),
            Step::MakeDir(path) => StepView::MakeDir(path@),
            Step::Write { path, asset, executable } => StepView::Write {
                path: path@,
                asset,
                executable,
            },
            Step::MakeExecutable(path) => StepView::MakeExecutable(path@),
            Step::RemoveLink(path) => StepView::RemoveLink(path@),
            Step::RemoveDir(path) => StepView::RemoveDir(path@),
        }
    }
}

/// What the steps of a list are.
pub open spec fn step_views(list: Seq<Step>) -> Seq<StepView> {
    list.map_values(|s: Step| s@)
}

/// A name in a directory.
pub open spec fn named(dir: Seq<u8>, name: Seq<char>) -> Seq<u8> {
    paths::in_dir(dir, paths::bytes_of(name))
}

/// The step that writes a file.
pub open spec fn written(path: Seq<u8>, asset: Asset, executable: bool) -> StepView {
    StepView::Write { path, asset, executable }
}

/// The themes that have a directory for wallpapers.
pub open spec fn themes() -> Seq<Seq<char>> {
    seq![
        "tokyonight"@,
        "gruvbox"@,
        "everforest"@,
        "rosepine"@,
        "kanagawa"@,
        "catppuccin"@,
        "dracula"@,
        "nord"@,
    ]
}

/// What is put into the directory of the configuration: the two configuration
/// files, the scripts, and a directory for the wallpapers of each theme.
pub open spec fn config_steps(dir: Seq<u8>) -> Seq<StepView> {
    let scripts = named(dir, "scripts"@);
    let wallpapers = named(dir, "wallpapers"@);
    seq![
        StepView::RequireDir(dir),
        written(named(dir, "config.toml"@), Asset::ConfigToml, false),
        written(named(dir, "rc.lua"@), Asset::RcLua, false),
        StepView::MakeDir(scripts),
        written(named(scripts, "mywm-workspaces.sh"@), Asset::WorkspacesScript, true),
        written(named(scripts, "wallpaper-picker.sh"@), Asset::WallpaperPicker, true),
        written(named(scripts, "wallpaper-restore.sh"@), Asset::WallpaperRestore, true),
    ] + themes().map_values(|t: Seq<char>| StepView::MakeDir(named(wallpapers, t)))
}

fn write_step(path: Vec<u8>, asset: Asset, executable: bool) -> (r: Step)
    ensures
        r@ == written(path@, asset, executable),
{
    Step::Write { path, asset, executable }
}

/// The steps that put the configuration in place.
pub fn deploy_assets(dir: &Vec<u8>) -> (r: Vec<Step>)
    ensures
        step_views(r@) == config_steps(dir@),
{
    let scripts = join(dir, "scripts");
    let wallpapers = join(dir, "wallpapers");
    let steps = vec![
        Step::RequireDir(copy_bytes(dir.as_slice())),
        write_step(join(dir, "config.toml"), Asset::ConfigToml, false),
        write_step(join(dir, "rc.lua"), Asset::RcLua, false),
        Step::MakeDir(copy_bytes(scripts.as_slice())),
        write_step(join(&scripts, "mywm-workspaces.sh"), Asset::WorkspacesScript, true),
        write_step(join(&scripts, "wallpaper-picker.sh"), Asset::WallpaperPicker, true),
        write_step(join(&scripts, "wallpaper-restore.sh"), Asset::WallpaperRestore, true),
        Step::MakeDir(join(&wallpapers, "tokyonight")),
        Step::MakeDir(join(&wallpapers, "gruvbox")),
        Step::MakeDir(join(&wallpapers, "everforest")),
        Step::MakeDir(join(&wallpapers, "rosepine")),
        Step::MakeDir(join(&wallpapers, "kanagawa")),
        Step::MakeDir(join(&wallpapers, "catppuccin")),
        Step::MakeDir(join(&wallpapers, "dracula")),
        Step::MakeDir(join(&wallpapers, "nord")),
    ];
    assert(step_views(steps@) =~= config_steps(dir@));
    steps
}

/// A path that begins with a text.
pub open spec fn under(base: Seq<char>, rest: Seq<char>) -> Seq<u8> {
    paths::bytes_of(base + rest)
}

fn path_under(base: &str, rest: &str) -> (r: Vec<u8>)
    ensures
        r@ == under(base@, rest@),
{
    let whole = text::joined(base, rest);
    copy_bytes(whole.as_str().as_bytes())
}

/// What is put in place for the status bar in the home of the session: the
/// directory of the bar is emptied, its files and the scripts are written, the
/// scripts that are there are made executable, and an old directory in the real
/// home goes.
pub open spec fn waybar_steps(home: Seq<char>, real_home: Option<Seq<char>>) -> Seq<StepView> {
    let bar = under(home, "/.config/waybar"@);
    if home.len() == 0 {
        seq![]
    } else {
        seq![
            StepView::RemoveLink(bar),
            StepView::RemoveDir(bar),
            StepView::RequireDir(bar),
            written(under(home, "/.config/waybar/config"@), Asset::WaybarConfig, false),
            written(under(home, "/.config/waybar/style.css"@), Asset::WaybarStyle, false),
            written(under(home, "/.config/waybar/colors.css"@), Asset::WaybarColors, false),
            StepView::RequireDir(under(home, "/.config/mywm/scripts"@)),
            written(
                under(home, "/.config/mywm/scripts/mywm-opacity.sh"@),
                Asset::OpacityScript,
                false,
            ),
            StepView::MakeExecutable(under(home, "/.config/mywm/scripts/mywm-opacity.sh"@)),
            written(
                under(home, "/.config/mywm/scripts/mywm-opacity-control.sh"@),
                Asset::OpacityControlScript,
                false,
            ),
            StepView::MakeExecutable(under(home, "/.config/mywm/scripts/mywm-opacity-control.sh"@)),
            written(
                under(home, "/.config/mywm/scripts/mywm-workspaces.sh"@),
                Asset::WorkspacesScript,
                false,
            ),
            StepView::MakeExecutable(under(home, "/.config/mywm/scripts/mywm-workspaces.sh"@)),
        ] + (match real_home {
            Some(theirs) => seq![StepView::RemoveDir(under(theirs, "/.config/waybar"@))],
            None => seq![],
        })
    }
}

/// The steps that put the status bar in place. `real_home` is the home of the
/// user, where the session has one of its own.
pub fn ensure_waybar_config(home: &str, real_home: &Option<String>) -> (r: Vec<Step>)
    ensures
        step_views(r@) == waybar_steps(home@, crate::keys::text_view(*real_home)),
{
    if home.is_empty() {
        return Vec::new();
    }
    let mut steps = vec![
        Step::RemoveLink(path_under(home, "/.config/waybar")),
        Step::RemoveDir(path_under(home, "/.config/waybar")),
        Step::RequireDir(path_under(home, "/.config/waybar")),
        write_step(path_under(home, "/.config/waybar/config"), Asset::WaybarConfig, false),
        write_step(path_under(home, "/.config/waybar/style.css"), Asset::WaybarStyle, false),
        write_step(path_under(home, "/.config/waybar/colors.css"), Asset::WaybarColors, false),
        Step::RequireDir(path_under(home, "/.config/mywm/scripts")),
        write_step(
            path_under(home, "/.config/mywm/scripts/mywm-opacity.sh"),
            Asset::OpacityScript,
            false,
        ),
        Step::MakeExecutable(path_under(home, "/.config/mywm/scripts/mywm-opacity.sh")),
        write_step(
            path_under(home, "/.config/mywm/scripts/mywm-opacity-control.sh"),
            Asset::OpacityControlScript,
            false,
        ),
        Step::MakeExecutable(path_under(home, "/.config/mywm/scripts/mywm-opacity-control.sh")),
        write_step(
            path_under(home, "/.config/mywm/scripts/mywm-workspaces.sh"),
            Asset::WorkspacesScript,
            false,
        ),
        Step::MakeExecutable(path_under(home, "/.config/mywm/scripts/mywm-workspaces.sh")),
    ];
    if let Some(theirs) = real_home {
        steps.push(Step::RemoveDir(path_under(theirs.as_str(), "/.config/waybar")));
    }
    assert(step_views(steps@) =~= waybar_steps(home@, crate::keys::text_view(*real_home)));
    steps
}

} // verus!
