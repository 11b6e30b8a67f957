//! The session that clients are started in.
use crate::paths::{self, copy_bytes};
use crate::text;
use vstd::prelude::*;

verus! {

/// A change of the environment: a variable is set, or removed.
#[derive(Clone, Debug)]
pub struct EnvChange {
    pub name: String,
    pub value: Option<Vec<u8>>,
}

#[verifier::ext_equal]
pub ghost struct EnvView {
    pub name: Seq<char>,
    pub value: Option<Seq<u8>>,
}

impl View for EnvChange {
    type V = EnvView;

    open spec fn view(&self) -> EnvView {
        EnvView { name: self.name@, value: paths::bytes_view(self.value) }
    }
}

/// What the changes of a list are.
pub open spec fn env_views(list: Seq<EnvChange>) -> Seq<EnvView> {
    list.map_values(|c: EnvChange| c@)
}

/// A variable is set to a text.
pub open spec fn set_to(name: Seq<char>, value: Seq<char>) -> EnvView {
    EnvView { name, value: Some(paths::bytes_of(value)) }
}

/// A variable is removed.
pub open spec fn removed(name: Seq<char>) -> EnvView {
    EnvView { name, value: None }
}

/// The environment that leads clients to the compositor, whose socket goes by
/// some name, and away from any other display.
pub open spec fn session_env(socket: Seq<u8>) -> Seq<EnvView> {
    seq![
        EnvView { name: "WAYLAND_DISPLAY"@, value: Some(socket) },
        removed("WAYLAND_DEBUG"@),
        set_to("XDG_SESSION_TYPE"@, "wayland"@),
        set_to("XDG_CURRENT_DESKTOP"@, "mywm"@),
        set_to("XDG_SESSION_DESKTOP"@, "mywm"@),
        removed("DISPLAY"@),
        set_to("MOZ_ENABLE_WAYLAND"@, "1"@),
        set_to("GDK_BACKEND"@, "wayland"@),
        set_to("QT_QPA_PLATFORM"@, "wayland"@),
        set_to("QT_WAYLAND_DISABLE_WINDOWDECORATION"@, "1"@),
        set_to("SDL_VIDEODRIVER"@, "wayland"@),
        set_to("WINIT_UNIX_BACKEND"@, "wayland"@),
        set_to("CLUTTER_BACKEND"@, "wayland"@),
        set_to("ELECTRON_OZONE_PLATFORM_HINT"@, "wayland"@),
        set_to("NO_AT_BRIDGE"@, "1"@),
        set_to("GTK_A11Y"@, "none"@),
    ]
}

fn set(name: &str, value: &str) -> (r: EnvChange)
    ensures
        r@ == set_to(name@, value@),
{
    EnvChange { name: name.to_owned(), value: Some(copy_bytes(value.as_bytes())) }
}

fn unset(name: &str) -> (r: EnvChange)
    ensures
        r@ == removed(name@),
{
    EnvChange { name: name.to_owned(), value: None }
}

/// The changes that lead clients to the compositor.
pub fn isolate_session_environment(socket: &Vec<u8>) -> (r: Vec<EnvChange>)
    ensures
        env_views(r@) == session_env(socket@),
{
    let changes = vec![
        EnvChange {
            name: "WAYLAND_DISPLAY".to_owned(),
            value: Some(copy_bytes(socket.as_slice())),
        },
        unset("WAYLAND_DEBUG"),
        set("XDG_SESSION_TYPE", "wayland"),
        set("XDG_CURRENT_DESKTOP", "mywm"),
        set("XDG_SESSION_DESKTOP", "mywm"),
        unset("DISPLAY"),
        set("MOZ_ENABLE_WAYLAND", "1"),
        set("GDK_BACKEND", "wayland"),
        set("QT_QPA_PLATFORM", "wayland"),
        set("QT_WAYLAND_DISABLE_WINDOWDECORATION", "1"),
        set("SDL_VIDEODRIVER", "wayland"),
        set("WINIT_UNIX_BACKEND", "wayland"),
        set("CLUTTER_BACKEND", "wayland"),
        set("ELECTRON_OZONE_PLATFORM_HINT", "wayland"),
        set("NO_AT_BRIDGE", "1"),
        set("GTK_A11Y", "none"),
    ];
    assert(env_views(changes@) =~= session_env(socket@));
    changes
}

/// The directory of a session: under the runtime directory, named after the
/// process.
pub open spec fn session_root(runtime: Seq<char>, pid: nat) -> Seq<char> {
    runtime + "/mywm-"@ + text::decimal(pid)
}

/// The directories of a session.
#[derive(Clone, Debug)]
pub struct SessionDirs {
    pub root: String,
    pub mozilla: String,
    pub thunderbird: String,
    pub home: String,
}

pub fn session_dirs(runtime: &str, pid: u32) -> (r: SessionDirs)
    ensures
        r.root@ == session_root(runtime@, pid as nat),
        r.mozilla@ == session_root(runtime@, pid as nat) + "/mozilla"@,
        r.thunderbird@ == session_root(runtime@, pid as nat) + "/thunderbird"@,
        r.home@ == session_root(runtime@, pid as nat) + "/home"@,
{
    let number = text::decimal_text(pid as u64);
    let prefix = text::joined(runtime, "/mywm-");
    let root = text::joined(prefix.as_str(), number.as_str());
    SessionDirs {
        mozilla: text::joined(root.as_str(), "/mozilla"),
        thunderbird: text::joined(root.as_str(), "/thunderbird"),
        home: text::joined(root.as_str(), "/home"),
        root,
    }
}

/// The environment of a session with a home of its own.
pub open spec fn home_env(home: Seq<char>, real_home: Seq<char>) -> Seq<EnvView> {
    seq![
        set_to("MOZ_LEGACY_PROFILES"@, "0"@),
        set_to("MOZ_NO_REMOTE"@, "1"@),
        set_to("MOZ_DBUS_REMOTE"@, "0"@),
        set_to("HOME"@, home),
        set_to("MYWM_REAL_HOME"@, real_home),
    ]
}

/// The changes that give the session a home of its own.
pub fn isolated_home_environment(home: &str, real_home: &str) -> (r: Vec<EnvChange>)
    ensures
        env_views(r@) == home_env(home@, real_home@),
{
    let changes = vec![
        set("MOZ_LEGACY_PROFILES", "0"),
        set("MOZ_NO_REMOTE", "1"),
        set("MOZ_DBUS_REMOTE", "0"),
        set("HOME", home),
        set("MYWM_REAL_HOME", real_home),
    ];
    assert(env_views(changes@) =~= home_env(home@, real_home@));
    changes
}

/// What becomes of an entry of the real home in the home of the session.
#[derive(Clone, Copy, Debug, PartialEq, Eq, Structural)]
pub enum HomeEntry {
    /// It has no counterpart, or has one already.
    Skip,
    /// It is a directory of its own, whose entries are links.
    LinkContents,
    /// It is a link.
    Link,
}

/// What becomes of an entry: the directories of programs that run only once are
/// left out, and the one of configurations is made anew.
pub open spec fn entry_of(name: Seq<u8>, taken: bool) -> HomeEntry {
    if taken || name == paths::bytes_of(".mozilla"@) || name == paths::bytes_of(".thunderbird"@) {
        HomeEntry::Skip
    } else if name == paths::bytes_of(".config"@) {
        HomeEntry::LinkContents
    } else {
        HomeEntry::Link
    }
}

fn same_bytes(a: &[u8], b: &[u8]) -> (r: bool)
    ensures
        r == (a@ == b@),
{
    if a.len() != b.len() {
        return false;
    }
    let mut i: usize = 0;
    while i < a.len()
        invariant
            i <= a.len(),
            a.len() == b.len(),
            forall|k: int| 0 <= k < i ==> a@[k] == b@[k],
        decreases a.len() - i,
    {
        if a[i] != b[i] {
            return false;
        }
        i = i + 1;
    }
    assert(a@ =~= b@);
    true
}

/// What becomes of an entry of the real home. `taken` says whether the home of
/// the session has an entry of that name.
pub fn home_entry(name: &Vec<u8>, taken: bool) -> (r: HomeEntry)
    ensures
        r == entry_of(name@, taken),
{
    let n = name.as_slice();
    if taken || same_bytes(n, ".mozilla".as_bytes()) || same_bytes(n, ".thunderbird".as_bytes()) {
        HomeEntry::Skip
    } else if same_bytes(n, ".config".as_bytes()) {
        HomeEntry::LinkContents
    } else {
        HomeEntry::Link
    }
}

/// What becomes of an entry of the directory of configurations: a link, unless
/// the home of the session has an entry of that name, which is `taken`.
pub fn config_entry(taken: bool) -> (r: HomeEntry)
    ensures
        r == (if taken {
            HomeEntry::Skip
        } else {
            HomeEntry::Link
        }),
{
    if taken {
        HomeEntry::Skip
    } else {
        HomeEntry::Link
    }
}

/// The address of a message bus that a line gives, without quotes around it.
pub open spec fn address_in(line: Seq<char>) -> Option<Seq<char>> {
    let key = "DBUS_SESSION_BUS_ADDRESS="@;
    let rest = text::stripped_end(line.skip(key.len() as int), ';');
    let single = text::stripped_end(text::stripped_start(rest, '\''), '\'');
    let address = text::stripped_end(text::stripped_start(single, '"'), '"');
    if text::begins(line, key) && address.len() > 0 {
        Some(address)
    } else {
        None
    }
}

/// The first address that any line gives.
pub open spec fn first_address(lines: Seq<Seq<char>>) -> Option<Seq<char>>
    decreases lines.len(),
{
    if lines.len() == 0 {
        None
    } else if address_in(lines[0]) is Some {
        address_in(lines[0])
    } else {
        first_address(lines.skip(1))
    }
}

/// The process of a message bus that a line gives.
pub open spec fn pid_in(line: Seq<char>) -> Option<int> {
    let key = "DBUS_SESSION_BUS_PID="@;
    if text::begins(line, key) {
        text::number(
            text::stripped_end(line.skip(key.len() as int), ';'),
            10,
            u32::MAX as int,
        )
    } else {
        None
    }
}

/// The last process that any line gives.
pub open spec fn last_pid(lines: Seq<Seq<char>>) -> Option<int>
    decreases lines.len(),
{
    if lines.len() == 0 {
        None
    } else if pid_in(lines.last()) is Some {
        pid_in(lines.last())
    } else {
        last_pid(lines.drop_last())
    }
}

/// A message bus: where it is reached, and its process, where that is known.
#[derive(Clone, Debug)]
pub struct Bus {
    pub address: String,
    pub pid: Option<u32>,
}

fn address_of(line: &str) -> (r: Option<String>)
    ensures
        crate::keys::text_view(r) == address_in(line@),
{
    match text::strip_prefix(line, "DBUS_SESSION_BUS_ADDRESS=") {
        Some(rest) => {
            let unended = text::trim_end_matches(rest, ';');
            let address = text::trim_matches(text::trim_matches(unended, '\''), '"');
            if address.is_empty() {
                None
            } else {
                Some(address.to_owned())
            }
        },
        None => None,
    }
}

fn pid_of(line: &str) -> (r: Option<u32>)
    ensures
        match r {
            Some(pid) => pid_in(line@) == Some(pid as int),
            None => pid_in(line@) is None,
        },
{
    match text::strip_prefix(line, "DBUS_SESSION_BUS_PID=") {
        Some(rest) => match text::parse_number(
            text::trim_end_matches(rest, ';'),
            10,
            u32::MAX as u64,
        ) {
            Some(pid) => Some(pid as u32),
            None => None,
        },
        None => None,
    }
}

/// The message bus that the launcher of the bus has told of.
pub fn parse_dbus_launch(stdout: &Vec<u8>) -> (r: Option<Bus>)
    ensures
        ({
            let lines = text::lines_from(text::lossy(stdout@), 0);
            match r {
                Some(bus) => first_address(lines) == Some(bus.address@) && match bus.pid {
                    Some(pid) => last_pid(lines) == Some(pid as int),
                    None => last_pid(lines) is None,
                },
                None => first_address(lines) is None,
            }
        }),
{
    let output = text::from_utf8_lossy(stdout);
    let lines = text::trimmed_lines(output.as_str());
    let ghost all = text::texts(lines@);
    let mut pid: Option<u32> = None;
    let mut i: usize = 0;
    while i < lines.len()
        invariant
            i <= lines.len(),
            all == text::texts(lines@),
            match pid {
                Some(p) => last_pid(all.take(i as int)) == Some(p as int),
                None => last_pid(all.take(i as int)) is None,
            },
        decreases lines.len() - i,
    {
        assert(all.take(i + 1).drop_last() == all.take(i as int));
        assert(all.take(i + 1).last() == lines@[i as int]@);
        if let Some(p) = pid_of(lines[i].as_str()) {
            pid = Some(p);
        }
        i = i + 1;
    }
    assert(all.take(all.len() as int) == all);
    let mut j: usize = 0;
    assert(all.skip(0) == all);
    while j < lines.len()
        invariant
            j <= lines.len(),
            all == text::texts(lines@),
            all == text::lines_from(text::lossy(stdout@), 0),
            first_address(all) == first_address(all.skip(j as int)),
            match pid {
                Some(p) => last_pid(all) == Some(p as int),
                None => last_pid(all) is None,
            },
        decreases lines.len() - j,
    {
        assert(all.skip(j as int)[0] == lines@[j as int]@);
        assert(all.skip(j as int).skip(1) == all.skip(j + 1));
        if let Some(address) = address_of(lines[j].as_str()) {
            return Some(Bus { address, pid });
        }
        j = j + 1;
    }
    None
}

} // verus!
