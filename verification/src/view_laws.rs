//! What the models of the types show of them.
use crate::actions::Task;
use crate::config::{Config, Keybind};
use crate::deploy::Step;
use crate::grab::GrabState;
use crate::input::InputReply;
use crate::ipc::WorkspaceInfo;
use crate::keys::KeyAction;
use crate::lua::{Seed, SeedEntry};
use crate::session::EnvChange;
use crate::state::State;
use crate::workspace::Workspace;
use vstd::prelude::*;

verus! {

/// The model of the compositor shows each of its fields.
pub proof fn state_shows_its_fields(s: State, i: int)
    ensures
        s@.workspaces.len() == s.workspaces@.len(),
        0 <= i < s.workspaces@.len() ==> s@.workspaces[i] == s.workspaces@[i]@,
        s@.active_workspace == s.active_workspace,
        s@.config == s.config@,
        s@.focus == s.focus,
        s@.layers == s.layers@,
        s@.needs_redraw == s.needs_redraw,
        s.pointer_grab is Some <==> s@.pointer_grab is Some,
        s.pointer_grab is Some ==> s@.pointer_grab->0 == s.pointer_grab->0@,
        s@.gesture_swipe == s.gesture_swipe,
        s@.gesture_start_time == s.gesture_start_time,
        s@.gesture_pending_switch == s.gesture_pending_switch,
        s@.workspace_transition == s.workspace_transition,
        s@.window_opacity == s.window_opacity,
        s@.osd == s.osd,
{
}

/// The model of a workspace shows each of its fields.
pub proof fn workspace_shows_its_fields(ws: Workspace)
    ensures
        ws@.windows == ws.windows@,
        ws@.spawn_times == ws.spawn_times@,
        ws@.configured_sizes == ws.configured_sizes@,
        ws@.layout == ws.layout,
        ws@.floating == ws.floating@,
        ws@.floating_geo == ws.floating_geo@,
        ws@.split_ratio == ws.split_ratio,
        ws@.stack_ratios == ws.stack_ratios@,
        ws@.dying_windows == ws.dying_windows@,
{
}

/// The model of a grab shows each of its fields.
pub proof fn grab_shows_its_fields(g: GrabState)
    ensures
        g@.mode == g.mode,
        g@.window == g.window,
        g@.start_pointer == g.start_pointer,
        g@.start_geo == g.start_geo,
        g@.start_split_ratio == g.start_split_ratio,
        g@.start_stack_ratios == g.start_stack_ratios@,
        g@.screen_width == g.screen_width,
        g@.screen_height == g.screen_height,
        g@.tiled_index == g.tiled_index,
        g@.tiled_count == g.tiled_count,
{
}

/// The model of a configuration shows each of its fields.
pub proof fn config_shows_its_fields(c: Config, i: int)
    ensures
        c@.terminal == c.terminal@,
        c@.launcher == c.launcher@,
        c@.outer_gaps == c.outer_gaps,
        c@.inner_gaps == c.inner_gaps,
        c@.border_width == c.border_width,
        c@.active_border_color == c.active_border_color@,
        c@.inactive_border_color == c.inactive_border_color@,
        c@.clear_color == c.clear_color@,
        c@.workspace_names.len() == c.workspace_names@.len(),
        0 <= i < c.workspace_names@.len() ==> c@.workspace_names[i] == c.workspace_names@[i]@,
        c@.keybinds.len() == c.keybinds@.len(),
        0 <= i < c.keybinds@.len() ==> c@.keybinds[i] == c.keybinds@[i]@,
        c@.swipe_threshold == c.swipe_threshold,
{
}

/// The model of a binding shows each of its fields.
pub proof fn keybind_shows_its_fields(k: Keybind)
    ensures
        k@.modifiers == k.modifiers,
        k@.key == k.key@,
        k@.action == k.action@,
{
}

/// The models of actions, and of the work that they ask for, show the command that is to
/// be run, and any other as it is.
pub proof fn actions_and_work_are_shown(action: KeyAction, task: Task)
    ensures
        match action {
            KeyAction::Exec(command) => action@ == crate::keys::ActionView::Exec(command@),
            _ => action@ == crate::keys::ActionView::Other(action),
        },
        crate::keys::action_view(Some(action)) == Some(action@),
        crate::keys::action_view(None) is None,
        match task {
            Task::Shell(command) => task@ == crate::actions::TaskView::Shell(command@),
            _ => task@ == crate::actions::TaskView::Other(task),
        },
{
}

/// The model of a reply shows each of its fields.
pub proof fn reply_shows_its_fields(r: InputReply)
    ensures
        r@.effects == r.effects@,
        r@.task == r.task@,
        r@.forward == r.forward,
        r@.tiled_grab == r.tiled_grab,
        r@.enable_tap == r.enable_tap,
{
}

/// What the status bar is told shows each of its fields.
pub proof fn info_shows_its_fields(w: WorkspaceInfo, all: crate::ipc::WorkspaceIpcState, i: int)
    ensures
        w@.index == w.index,
        w@.name == w.name@,
        w@.active == w.active,
        w@.occupied == w.occupied,
        w@.window_count == w.window_count,
        w@.layout == w.layout@,
        all@.len() == all.workspaces@.len(),
        0 <= i < all.workspaces@.len() ==> all@[i] == all.workspaces@[i]@,
{
}

/// The models of steps and of changes of the environment show their paths, names and
/// values.
pub proof fn steps_and_changes_are_shown(step: Step, change: EnvChange)
    ensures
        match step {
            Step::RequireDir(path) => step@ == crate::deploy::StepView::RequireDir(path@),
            Step::MakeDir(path) => step@ == crate::deploy::StepView::MakeDir(path@),
            Step::Write { path, asset, executable } => step@ == (crate::deploy::StepView::Write {
                path: path@,
                asset,
                executable,
            }),
            Step::MakeExecutable(path) => step@ == crate::deploy::StepView::MakeExecutable(path@),
            Step::RemoveLink(path) => step@ == crate::deploy::StepView::RemoveLink(path@),
            Step::RemoveDir(path) => step@ == crate::deploy::StepView::RemoveDir(path@),
        },
        change@.name == change.name@,
        change.value is Some <==> change@.value is Some,
        change.value is Some ==> change@.value->0 == change.value->0@,
{
}

/// What a script is told is shown as it is.
pub proof fn seeds_are_shown(seed: Seed)
    ensures
        match seed {
            Seed::Text(s) => seed@ == crate::lua::SeedView::Text(s@),
            Seed::Integer(n) => seed@ == crate::lua::SeedView::Integer(n as int),
            Seed::Number(v) => seed@ == crate::lua::SeedView::Number(v),
            Seed::Texts(list) => seed@ == crate::lua::SeedView::Texts(crate::text::texts(list@)),
        },
{
}

/// The models of lists show the models of their elements, one by one.
pub proof fn lists_are_shown_one_by_one(
    workspaces: Seq<Workspace>,
    binds: Seq<Keybind>,
    steps: Seq<Step>,
    changes: Seq<EnvChange>,
    entries: Seq<SeedEntry>,
    texts: Seq<String>,
    i: int,
)
    ensures
        crate::state::workspace_views(workspaces).len() == workspaces.len(),
        0 <= i < workspaces.len() ==> crate::state::workspace_views(workspaces)[i] == workspaces[i]@,
        crate::config::keybind_views(binds).len() == binds.len(),
        0 <= i < binds.len() ==> crate::config::keybind_views(binds)[i] == binds[i]@,
        crate::deploy::step_views(steps).len() == steps.len(),
        0 <= i < steps.len() ==> crate::deploy::step_views(steps)[i] == steps[i]@,
        crate::session::env_views(changes).len() == changes.len(),
        0 <= i < changes.len() ==> crate::session::env_views(changes)[i] == changes[i]@,
        crate::lua::entry_views(entries).len() == entries.len(),
        0 <= i < entries.len() ==> crate::lua::entry_views(entries)[i] == (
            entries[i].key@,
            entries[i].value@,
        ),
        crate::text::texts(texts).len() == texts.len(),
        0 <= i < texts.len() ==> crate::text::texts(texts)[i] == texts[i]@,
{
}

/// What may be missing is shown where it is there.
pub proof fn what_is_there_is_shown(text: Option<String>, part: Option<&str>, bytes: Option<Vec<u8>>)
    ensures
        text is Some <==> crate::keys::text_view(text) is Some,
        text is Some ==> crate::keys::text_view(text)->0 == text->0@,
        part is Some <==> crate::ipc::str_view(part) is Some,
        part is Some ==> crate::ipc::str_view(part)->0 == part->0@,
        bytes is Some <==> crate::paths::bytes_view(bytes) is Some,
        bytes is Some ==> crate::paths::bytes_view(bytes)->0 == bytes->0@,
{
}

} // verus!
