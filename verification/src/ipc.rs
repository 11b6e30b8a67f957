//! What the status bar is told, and what comes in from outside.
use crate::state::State;
use crate::text;
use crate::workspace::LayoutType;
use vstd::prelude::*;

verus! {

/// All workspaces, as the status bar is told of them.
#[derive(Clone, Debug)]
pub struct WorkspaceIpcState {
    pub workspaces: Vec<WorkspaceInfo>,
}

/// A workspace, as the status bar is told of it.
#[derive(Clone, Debug)]
pub struct WorkspaceInfo {
    pub index: usize,
    pub name: String,
    pub active: bool,
    pub occupied: bool,
    pub window_count: usize,
    pub layout: String,
}

#[verifier::ext_equal]
pub ghost struct InfoView {
    pub index: int,
    pub name: Seq<char>,
    pub active: bool,
    pub occupied: bool,
    pub window_count: int,
    pub layout: Seq<char>,
}

impl View for WorkspaceInfo {
    type V = InfoView;

    open spec fn view(&self) -> InfoView {
        InfoView {
            index: self.index as int,
            name: self.name@,
            active: self.active,
            occupied: self.occupied,
            window_count: self.window_count as int,
            layout: self.layout@,
        }
    }
}

impl View for WorkspaceIpcState {
    type V = Seq<InfoView>;

    open spec fn view(&self) -> Seq<InfoView> {
        self.workspaces@.map_values(|w: WorkspaceInfo| w@)
    }
}

/// The name of a layout.
pub open spec fn layout_text(layout: LayoutType) -> Seq<char> {
    match layout {
        LayoutType::MasterStack => "master-stack"@,
        LayoutType::Monocle => "monocle"@,
    }
}

pub fn layout_name(layout: LayoutType) -> (r: &'static str)
    ensures
        r@ == layout_text(layout),
{
    match layout {
        LayoutType::MasterStack => "master-stack",
        LayoutType::Monocle => "monocle",
    }
}

impl crate::state::StateView {
    /// What is told of workspace `i`: its number, counted from one, its name,
    /// which is the number where the configuration names none, and what is on
    /// it.
    pub open spec fn info(self, i: int) -> InfoView {
        let names = self.config.workspace_names;
        let ws = self.workspaces[i];
        InfoView {
            index: i + 1,
            name: if i < names.len() {
                names[i]
            } else {
                text::decimal((i + 1) as nat)
            },
            active: i == self.active_workspace,
            occupied: ws.windows.len() > 0,
            window_count: ws.windows.len() as int,
            layout: layout_text(ws.layout),
        }
    }

    /// What is told of all workspaces.
    pub open spec fn infos(self) -> Seq<InfoView> {
        Seq::new(self.workspaces.len(), |i: int| self.info(i))
    }
}

impl State {
    pub fn workspace_ipc_state(&self) -> (r: WorkspaceIpcState)
        ensures
            r@ == self@.infos(),
    {
        let mut workspaces: Vec<WorkspaceInfo> = Vec::new();
        let mut i: usize = 0;
        while i < self.workspaces.len()
            invariant
                i <= self.workspaces.len(),
                (WorkspaceIpcState { workspaces })@ == self@.infos().take(i as int),
            decreases self.workspaces.len() - i,
        {
            let ws = &self.workspaces[i];
            let name = if i < self.config.workspace_names.len() {
                self.config.workspace_names[i].clone()
            } else {
                text::decimal_text((i + 1) as u64)
            };
            let ghost before = workspaces@;
            let info = WorkspaceInfo {
                index: i + 1,
                name,
                active: i == self.active_workspace,
                occupied: ws.windows.len() > 0,
                window_count: ws.windows.len(),
                layout: layout_name(ws.layout).to_owned(),
            };
            assert(info@ == self@.info(i as int));
            workspaces.push(info);
            assert(workspaces@.map_values(|w: WorkspaceInfo| w@) == before.map_values(
                |w: WorkspaceInfo| w@,
            ).push(self@.info(i as int)));
            assert(self@.infos().take(i + 1) == self@.infos().take(i as int).push(
                self@.info(i as int),
            ));
            i = i + 1;
        }
        assert(self@.infos().take(self@.infos().len() as int) == self@.infos());
        WorkspaceIpcState { workspaces }
    }
}

/// Where a file for the status bar lies: in the runtime directory of the
/// session, or else in the one for temporary files.
pub open spec fn runtime_file(runtime: Option<Seq<char>>, name: Seq<char>) -> Seq<char> {
    match runtime {
        Some(dir) => dir + "/"@ + name,
        None => "/tmp/"@ + name,
    }
}

/// What a text that may be missing holds.
pub open spec fn str_view(s: Option<&str>) -> Option<Seq<char>> {
    match s {
        Some(t) => Some(t@),
        None => None,
    }
}

fn in_runtime_dir(runtime: Option<&str>, name: &str) -> (r: String)
    ensures
        r@ == runtime_file(str_view(runtime), name@),
{
    match runtime {
        Some(dir) => {
            let base = text::joined(dir, "/");
            text::joined(base.as_str(), name)
        },
        None => text::joined("/tmp/", name),
    }
}

/// The file that tells of the workspaces.
pub fn workspace_ipc_path(runtime: Option<&str>) -> (r: String)
    ensures
        r@ == runtime_file(str_view(runtime), "lumie-workspaces.json"@),
{
    in_runtime_dir(runtime, "lumie-workspaces.json")
}

/// The socket of those who listen for changes of the workspaces.
pub fn workspace_ipc_stream_path(runtime: Option<&str>) -> (r: String)
    ensures
        r@ == runtime_file(str_view(runtime), "lumie-workspaces.sock"@),
{
    in_runtime_dir(runtime, "lumie-workspaces.sock")
}

/// The file that tells of the opacity.
pub fn opacity_ipc_path(runtime: Option<&str>) -> (r: String)
    ensures
        r@ == runtime_file(str_view(runtime), "lumie-opacity.json"@),
{
    in_runtime_dir(runtime, "lumie-opacity.json")
}

/// The file that a file is written to before it takes its place.
pub fn temporary_path(path: &str) -> (r: String)
    ensures
        r@ == path@ + ".tmp"@,
{
    text::joined(path, ".tmp")
}

/// A number in decimal, with a sign where it is below zero.
pub open spec fn signed_decimal(n: int) -> Seq<char> {
    if n < 0 {
        "-"@ + text::decimal((-n) as nat)
    } else {
        text::decimal(n as nat)
    }
}

fn signed_text(n: i32) -> (r: String)
    ensures
        r@ == signed_decimal(n as int),
{
    if n < 0 {
        let digits = text::decimal_text((-(n as i64)) as u64);
        text::joined("-", digits.as_str())
    } else {
        text::decimal_text(n as u64)
    }
}

/// The line that tells of an opacity of so many percent.
pub open spec fn opacity_line(percent: int) -> Seq<char> {
    let p = signed_decimal(percent);
    "{\"text\":\""@ + p + "%\",\"tooltip\":\"Window Opacity: "@ + p
        + "%\\nClick: slider | Scroll: adjust | Right-click: reset\",\"class\":\"opacity\",\"percentage\":"@
        + p + "}\n"@
}

pub fn opacity_json(percent: i32) -> (r: String)
    ensures
        r@ == opacity_line(percent as int),
{
    let p = signed_text(percent);
    let mut line = text::joined("{\"text\":\"", p.as_str());
    line = text::joined(line.as_str(), "%\",\"tooltip\":\"Window Opacity: ");
    line = text::joined(line.as_str(), p.as_str());
    line =
    text::joined(
        line.as_str(),
        "%\\nClick: slider | Scroll: adjust | Right-click: reset\",\"class\":\"opacity\",\"percentage\":",
    );
    line = text::joined(line.as_str(), p.as_str());
    text::joined(line.as_str(), "}\n")
}

/// What came in from outside.
#[derive(Clone, Debug)]
pub enum Payload {
    /// Nothing, or nothing but white space.
    Empty,
    /// Bytes that are not UTF-8.
    NotText,
    /// A text, without the white space around it.
    Text(String),
}

pub fn ipc_payload(bytes: &Vec<u8>) -> (r: Payload)
    ensures
        ({
            let content = text::trimmed(vstd::utf8::decode_utf8(bytes@));
            match r {
                Payload::Empty => bytes@.len() == 0 || (vstd::utf8::valid_utf8(bytes@)
                    && content.len() == 0),
                Payload::NotText => bytes@.len() > 0 && !vstd::utf8::valid_utf8(bytes@),
                Payload::Text(payload) => bytes@.len() > 0 && vstd::utf8::valid_utf8(bytes@)
                    && content.len() > 0 && payload@ == content,
            }
        }),
{
    if bytes.len() == 0 {
        return Payload::Empty;
    }
    match text::from_utf8(bytes) {
        Some(content) => {
            let payload = text::trim(content.as_str());
            if payload.is_empty() {
                Payload::Empty
            } else {
                Payload::Text(payload.to_owned())
            }
        },
        None => Payload::NotText,
    }
}

/// The status bar is told of one active workspace, and of all in order.
pub proof fn one_workspace_is_active(s: crate::state::StateView, i: int)
    requires
        s.wf(),
        0 <= i < s.workspaces.len(),
    ensures
        s.infos().len() == s.workspaces.len(),
        s.infos()[i].index == i + 1,
        s.infos()[i].active == (i == s.active_workspace),
        s.infos()[s.active_workspace].active,
        s.infos()[i].occupied == (s.infos()[i].window_count > 0),
{
}

} // verus!
