//! What is read from outside, and what is told there.
use crate::colors::Color;
use crate::deploy::Asset;
use crate::lua::WmTable;
use crate::session::HomeEntry;
use crate::text;
use vstd::prelude::*;

verus! {

/// A hexadecimal digit stands for its value, in either case, and nothing else does.
pub proof fn hexadecimal_digits(b: u8)
    ensures
        0x30 <= b <= 0x39 ==> crate::colors::hex_value(b) == Some(b - 0x30),
        0x61 <= b <= 0x66 ==> crate::colors::hex_value(b) == Some(b - 0x57),
        0x41 <= b <= 0x46 ==> crate::colors::hex_value(b) == Some(b - 0x37),
        !(0x30 <= b <= 0x39) && !(0x61 <= b <= 0x66) && !(0x41 <= b <= 0x46)
            ==> crate::colors::hex_value(b) is None,
        crate::colors::hex_value(b) is Some ==> 0 <= crate::colors::hex_value(b)->0 < 16,
{
}

/// Two digits stand for sixteen times the first and the second, a plus sign and a digit
/// for the digit, and anything else for a full channel.
pub proof fn channels_are_read(high: u8, low: u8)
    ensures
        ({
            let h = crate::colors::hex_value(high);
            let l = crate::colors::hex_value(low);
            let c = crate::colors::channel(high, low);
            &&& h is Some && l is Some ==> c == 16 * h->0 + l->0
            &&& high == 0x2B && l is Some ==> c == l->0
            &&& l is None ==> c == 255
            &&& h is None && high != 0x2B ==> c == 255
        }),
{
}

/// The colour of a text has its red, green and blue in the first, second and third pair
/// of bytes behind the signs, and its alpha in the fourth; a colour without alpha is
/// opaque, and too short a text is white.
pub proof fn colours_are_read_in_pairs(hex: Seq<char>)
    ensures
        ({
            let c = crate::colors::color_of(hex);
            let b = vstd::utf8::encode_utf8(text::stripped_start(hex, '#'));
            &&& b.len() < 6 ==> c == (Color { red: 255, green: 255, blue: 255, alpha: 255 })
            &&& b.len() >= 6 ==> {
                &&& c.red == crate::colors::channel(b[0], b[1])
                &&& c.green == crate::colors::channel(b[2], b[3])
                &&& c.blue == crate::colors::channel(b[4], b[5])
            }
            &&& 6 <= b.len() < 8 ==> c.alpha == 255
            &&& b.len() >= 8 ==> c.alpha == crate::colors::channel(b[6], b[7])
        }),
{
}

/// The signs in front of a colour do not matter.
pub proof fn signs_before_colours_do_not_matter(hex: Seq<char>)
    ensures
        crate::colors::color_of(seq!['#'] + hex) == crate::colors::color_of(hex),
{
    assert((seq!['#'] + hex).skip(1) =~= hex);
}

/// A name in a directory is the directory, one slash, and the name; the slash is not
/// repeated, and an empty directory adds nothing.
pub proof fn names_lie_in_directories(dir: Seq<u8>, name: Seq<u8>)
    ensures
        ({
            let path = crate::paths::in_dir(dir, name);
            let slash = dir.len() > 0 && dir[dir.len() - 1] != 0x2F;
            let from = dir.len() + (if slash {
                1int
            } else {
                0int
            });
            &&& path.len() == from + name.len()
            &&& path.take(dir.len() as int) == dir
            &&& slash ==> path[dir.len() as int] == 0x2F
            &&& path.skip(from) == name
        }),
{
    let path = crate::paths::in_dir(dir, name);
    let slash = dir.len() > 0 && dir[dir.len() - 1] != 0x2F;
    let from = dir.len() + (if slash {
        1int
    } else {
        0int
    });
    assert(path.take(dir.len() as int) =~= dir);
    assert(path.skip(from) =~= name);
}

/// The configuration lies in the directory `mywm` of the one for configurations, which
/// is `.config` of the home where none is set, or an empty one.
pub proof fn configuration_has_a_directory(
    xdg: Option<Seq<u8>>,
    home: Option<Seq<u8>>,
    name: Seq<char>,
)
    ensures
        ({
            let dir = crate::paths::config_dir_of(xdg, home);
            let mywm = vstd::utf8::encode_utf8("mywm"@);
            let config = vstd::utf8::encode_utf8(".config"@);
            let set = xdg is Some && xdg->0.len() > 0;
            &&& set ==> dir == Some(crate::paths::in_dir(xdg->0, mywm))
            &&& !set && home is Some ==> dir == Some(
                crate::paths::in_dir(crate::paths::in_dir(home->0, config), mywm),
            )
            &&& !set && home is None ==> dir is None
            &&& crate::paths::file_in(dir, name) is Some <==> dir is Some
            &&& dir is Some ==> crate::paths::file_in(dir, name) == Some(
                crate::paths::in_dir(dir->0, vstd::utf8::encode_utf8(name)),
            )
        }),
{
}

/// The first preferred mode is one that is preferred, with none before it.
pub proof fn first_preferred_mode(list: Seq<bool>)
    ensures
        match crate::drm::first_true(list) {
            Some(i) => 0 <= i < list.len() && list[i] && forall|j: int| 0 <= j < i ==> !list[j],
            None => forall|j: int| 0 <= j < list.len() ==> !list[j],
        },
    decreases list.len(),
{
    if list.len() > 0 && !list[0] {
        let rest = list.skip(1);
        first_preferred_mode(rest);
        let end = match crate::drm::first_true(rest) {
            Some(i) => i + 1,
            None => list.len() as int,
        };
        assert forall|j: int| 0 <= j < end implies !list[j] by {
            if j > 0 {
                assert(rest[j - 1] == list[j]);
            }
        }
    }
}

/// The controllers of the encoders are those of the first, then those of the others;
/// an encoder that could not be read has none.
pub proof fn controllers_of_encoders(first: Option<Vec<u32>>, others: Seq<Option<Vec<u32>>>)
    ensures
        crate::drm::all_crtcs(Seq::<Option<Vec<u32>>>::empty()).len() == 0,
        first is Some ==> crate::drm::all_crtcs(seq![first] + others) == first->0@
            + crate::drm::all_crtcs(others),
        first is None ==> crate::drm::all_crtcs(seq![first] + others) == crate::drm::all_crtcs(
            others,
        ),
{
    let all = seq![first] + others;
    assert(all.skip(1) =~= others);
    assert(all[0] == first);
    assert(Seq::<u32>::empty() + crate::drm::all_crtcs(others) =~= crate::drm::all_crtcs(others));
}

/// The status bar is told of every workspace how many windows it has, how they are
/// arranged, and its name, or its number where it has none.
pub proof fn workspaces_are_told_of(s: crate::state::StateView, i: int)
    requires
        0 <= i < s.workspaces.len(),
    ensures
        ({
            let r = s.infos()[i];
            let names = s.config.workspace_names;
            &&& s.infos().len() == s.workspaces.len()
            &&& r.index == i + 1
            &&& r.active <==> i == s.active_workspace
            &&& r.window_count == s.workspaces[i].windows.len()
            &&& r.occupied <==> s.workspaces[i].windows.len() > 0
            &&& i < names.len() ==> r.name == names[i]
            &&& i >= names.len() ==> r.name == text::decimal((i + 1) as nat)
            &&& s.workspaces[i].layout == crate::workspace::LayoutType::MasterStack ==> r.layout
                == "master-stack"@
            &&& s.workspaces[i].layout == crate::workspace::LayoutType::Monocle ==> r.layout
                == "monocle"@
        }),
{
}

/// A file for the status bar lies in the runtime directory, or else in the one for
/// temporary files.
pub proof fn files_for_the_status_bar(dir: Seq<char>, name: Seq<char>)
    ensures
        crate::ipc::runtime_file(Some(dir), name) == dir + seq!['/'] + name,
        crate::ipc::runtime_file(None, name) == seq!['/', 't', 'm', 'p', '/'] + name,
{
    reveal_strlit("/");
    reveal_strlit("/tmp/");
    assert("/"@ =~= seq!['/']);
    assert("/tmp/"@ =~= seq!['/', 't', 'm', 'p', '/']);
}

/// A percentage is written with a sign where it is below zero, and stands three times in
/// the line that tells of the opacity.
pub proof fn percentages_are_written(n: int)
    ensures
        n >= 0 ==> crate::ipc::signed_decimal(n) == text::decimal(n as nat),
        n < 0 ==> crate::ipc::signed_decimal(n) == seq!['-'] + text::decimal((-n) as nat),
        ({
            let p = crate::ipc::signed_decimal(n);
            let line = crate::ipc::opacity_line(n);
            let a = "{\"text\":\""@;
            let b = "%\",\"tooltip\":\"Window Opacity: "@;
            let c =
                "%\\nClick: slider | Scroll: adjust | Right-click: reset\",\"class\":\"opacity\",\"percentage\":"@;
            &&& text::begins(line, a + p + b + p + c + p)
            &&& text::ends(line, c + p + "}\n"@)
            &&& line.len() == a.len() + b.len() + c.len() + "}\n"@.len() + 3 * p.len()
        }),
{
    reveal_strlit("-");
    assert("-"@ =~= seq!['-']);
    let p = crate::ipc::signed_decimal(n);
    let line = crate::ipc::opacity_line(n);
    let a = "{\"text\":\""@;
    let b = "%\",\"tooltip\":\"Window Opacity: "@;
    let c =
        "%\\nClick: slider | Scroll: adjust | Right-click: reset\",\"class\":\"opacity\",\"percentage\":"@;
    let head = a + p + b + p + c + p;
    assert(line =~= head + "}\n"@);
    assert(line.subrange(0, head.len() as int) =~= head);
    let tail = c + p + "}\n"@;
    assert(line =~= a + p + b + p + tail);
    assert(line.subrange(line.len() - tail.len(), line.len() as int) =~= tail);
}

/// What is told to a launcher comes behind its command: to leave its configuration
/// aside, in the words of each of the three that understand it, if it has not been told
/// so. Any other command stays as it is.
pub proof fn launchers_are_told(line: Seq<char>)
    ensures
        ({
            let words = text::words(line);
            let base = if words.len() > 0 {
                words[0]
            } else {
                Seq::<char>::empty()
            };
            let fuzzel = text::ends(base, "fuzzel"@) && !text::found(line, "--config"@)
                && !text::found(line, "-C"@);
            let wofi = text::ends(base, "wofi"@) && !text::found(line, "--conf"@);
            let rofi = text::ends(base, "rofi"@) && !text::found(line, "-no-config"@);
            let r = crate::launch::bypassed(line);
            &&& fuzzel ==> r == line + " --config /dev/null"@
            &&& !fuzzel && wofi ==> r == line + " --conf /dev/null"@
            &&& !fuzzel && !wofi && rofi ==> r == line + " -no-config"@
            &&& !fuzzel && !wofi && !rofi ==> r == line
        }),
{
}

/// A level is kept between zero and one, and what is no number is zero.
pub proof fn levels_are_kept(value: crate::bits::Single)
    ensures
        ({
            let r = crate::launch::level_of(value);
            let zero = crate::bits::Single { bits: 0 };
            let one = crate::bits::Single { bits: 0x3F80_0000 };
            &&& value.nan() ==> r == zero
            &&& value.below(zero) ==> r == zero
            &&& one.below(value) ==> r == one
            &&& zero.at_most(value) && value.at_most(one) ==> r == value
        }),
{
}

/// The first address of a message bus is the one of the first line that gives any.
pub proof fn first_line_gives_the_address(lines: Seq<Seq<char>>)
    ensures
        match crate::session::first_address(lines) {
            Some(a) => exists|i: int|
                0 <= i < lines.len() && crate::session::address_in(#[trigger] lines[i]) == Some(a)
                    && forall|j: int|
                    0 <= j < i ==> crate::session::address_in(#[trigger] lines[j]) is None,
            None => forall|j: int|
                0 <= j < lines.len() ==> crate::session::address_in(#[trigger] lines[j]) is None,
        },
    decreases lines.len(),
{
    if lines.len() > 0 {
        if crate::session::address_in(lines[0]) is None {
            let rest = lines.skip(1);
            first_line_gives_the_address(rest);
            assert(forall|j: int| 0 <= j < rest.len() ==> #[trigger] rest[j] == lines[j + 1]);
            match crate::session::first_address(lines) {
                Some(a) => {
                    let i = choose|i: int|
                        0 <= i < rest.len() && crate::session::address_in(#[trigger] rest[i])
                            == Some(a) && forall|j: int|
                            0 <= j < i ==> crate::session::address_in(#[trigger] rest[j]) is None;
                    assert forall|j: int|
                        0 <= j < i + 1 implies crate::session::address_in(
                        #[trigger] lines[j],
                    ) is None by {
                        if j > 0 {
                            assert(crate::session::address_in(rest[j - 1]) is None);
                        }
                    }
                    assert(crate::session::address_in(lines[i + 1]) == Some(a));
                },
                None => {
                    assert forall|j: int|
                        0 <= j < lines.len() implies crate::session::address_in(
                        #[trigger] lines[j],
                    ) is None by {
                        if j > 0 {
                            assert(crate::session::address_in(rest[j - 1]) is None);
                        }
                    }
                },
            }
        } else {
            assert(crate::session::address_in(lines[0]) == crate::session::first_address(lines));
        }
    }
}

/// The process of a message bus is the one of the last line that gives any.
pub proof fn last_line_gives_the_process(lines: Seq<Seq<char>>)
    ensures
        match crate::session::last_pid(lines) {
            Some(p) => exists|i: int|
                0 <= i < lines.len() && crate::session::pid_in(#[trigger] lines[i]) == Some(p)
                    && forall|j: int|
                    i < j < lines.len() ==> crate::session::pid_in(#[trigger] lines[j]) is None,
            None => forall|j: int|
                0 <= j < lines.len() ==> crate::session::pid_in(#[trigger] lines[j]) is None,
        },
    decreases lines.len(),
{
    if lines.len() > 0 {
        let n = lines.len() - 1;
        assert(lines[n] == lines.last());
        if crate::session::pid_in(lines.last()) is None {
            let rest = lines.drop_last();
            last_line_gives_the_process(rest);
            assert(forall|j: int| 0 <= j < rest.len() ==> #[trigger] rest[j] == lines[j]);
            match crate::session::last_pid(lines) {
                Some(p) => {
                    let i = choose|i: int|
                        0 <= i < rest.len() && crate::session::pid_in(#[trigger] rest[i]) == Some(p)
                            && forall|j: int|
                            i < j < rest.len() ==> crate::session::pid_in(#[trigger] rest[j]) is None;
                    assert forall|j: int|
                        i < j < lines.len() implies crate::session::pid_in(
                        #[trigger] lines[j],
                    ) is None by {
                        if j < n {
                            assert(crate::session::pid_in(rest[j]) is None);
                        }
                    }
                    assert(crate::session::pid_in(lines[i]) == Some(p));
                },
                None => {
                    assert forall|j: int|
                        0 <= j < lines.len() implies crate::session::pid_in(
                        #[trigger] lines[j],
                    ) is None by {
                        if j < n {
                            assert(crate::session::pid_in(rest[j]) is None);
                        }
                    }
                },
            }
        } else {
            assert(crate::session::pid_in(lines[n]) == crate::session::last_pid(lines));
        }
    }
}

/// An address is read as it stands, bare or between quotes of either sort, with a
/// semicolon behind it or without. A line that begins otherwise gives none.
pub proof fn addresses_are_read(a: Seq<char>)
    requires
        a.len() > 0,
        a[0] != '\'' && a[0] != '"',
        a[a.len() - 1] != '\'' && a[a.len() - 1] != '"' && a[a.len() - 1] != ';',
    ensures
        ({
            let key = "DBUS_SESSION_BUS_ADDRESS="@;
            let single = seq!['\''] + a.push('\'');
            let double = seq!['"'] + a.push('"');
            &&& crate::session::address_in(key + a) == Some(a)
            &&& crate::session::address_in(key + a.push(';')) == Some(a)
            &&& crate::session::address_in(key + single) == Some(a)
            &&& crate::session::address_in(key + single.push(';')) == Some(a)
            &&& crate::session::address_in(key + double) == Some(a)
            &&& crate::session::address_in(key + double.push(';')) == Some(a)
        }),
{
    let single = seq!['\''] + a.push('\'');
    let double = seq!['"'] + a.push('"');
    address_of_body(a);
    address_of_body(a.push(';'));
    address_of_body(single);
    address_of_body(single.push(';'));
    address_of_body(double);
    address_of_body(double.push(';'));
    reveal_with_fuel(text::stripped_end, 3);
    reveal_with_fuel(text::stripped_start, 3);
    assert(a.push(';').drop_last() =~= a);
    assert(single.push(';').drop_last() =~= single);
    assert(double.push(';').drop_last() =~= double);
    assert(single.skip(1) =~= a.push('\''));
    assert(double.skip(1) =~= a.push('"'));
    assert(a.push('\'').drop_last() =~= a);
    assert(a.push('"').drop_last() =~= a);
    assert(single.last() == '\'');
    assert(double.last() == '"');
    assert(a.push('\'')[0] == a[0]);
    assert(a.push('"')[0] == a[0]);
}

proof fn address_of_body(body: Seq<char>)
    ensures
        ({
            let rest = text::stripped_end(body, ';');
            let single = text::stripped_end(text::stripped_start(rest, '\''), '\'');
            let address = text::stripped_end(text::stripped_start(single, '"'), '"');
            crate::session::address_in("DBUS_SESSION_BUS_ADDRESS="@ + body) == (if address.len()
                > 0 {
                Some(address)
            } else {
                None
            })
        }),
{
    let key = "DBUS_SESSION_BUS_ADDRESS="@;
    let line = key + body;
    assert(line.subrange(0, key.len() as int) =~= key);
    assert(line.skip(key.len() as int) =~= body);
}

/// A process is read as the number that stands behind its name, with a semicolon or
/// without; a line that begins otherwise gives none.
pub proof fn processes_are_read(digits: Seq<char>)
    requires
        digits.len() > 0,
        digits[digits.len() - 1] != ';',
    ensures
        ({
            let key = "DBUS_SESSION_BUS_PID="@;
            let n = text::number(digits, 10, 0xFFFF_FFFF);
            &&& crate::session::pid_in(key + digits) == n
            &&& crate::session::pid_in(key + digits.push(';')) == n
        }),
{
    let key = "DBUS_SESSION_BUS_PID="@;
    reveal_with_fuel(text::stripped_end, 2);
    let a = key + digits;
    let b = key + digits.push(';');
    assert(a.subrange(0, key.len() as int) =~= key);
    assert(a.skip(key.len() as int) =~= digits);
    assert(b.subrange(0, key.len() as int) =~= key);
    assert(b.skip(key.len() as int) =~= digits.push(';'));
    assert(digits.push(';').drop_last() =~= digits);
}

/// Lines that begin with neither name tell of no message bus.
pub proof fn other_lines_tell_of_no_bus(line: Seq<char>)
    ensures
        !text::begins(line, "DBUS_SESSION_BUS_ADDRESS="@) ==> crate::session::address_in(
            line,
        ) is None,
        !text::begins(line, "DBUS_SESSION_BUS_PID="@) ==> crate::session::pid_in(line) is None,
{
}

/// The directory of a session lies in the runtime directory, and is named after the
/// process.
pub proof fn sessions_have_a_directory(runtime: Seq<char>, pid: nat)
    ensures
        crate::session::session_root(runtime, pid) == runtime + "/mywm-"@ + text::decimal(pid),
{
}

/// An entry of the home that is taken, or that belongs to a program that runs only once,
/// is skipped; the directory of configurations is made anew, and all else is linked.
pub proof fn entries_of_the_home(name: Seq<u8>, taken: bool)
    ensures
        ({
            let r = crate::session::entry_of(name, taken);
            let once = name == vstd::utf8::encode_utf8(".mozilla"@) || name
                == vstd::utf8::encode_utf8(".thunderbird"@);
            let configs = name == vstd::utf8::encode_utf8(".config"@);
            &&& r == HomeEntry::Skip <==> taken || once
            &&& !taken && !once && configs ==> r == HomeEntry::LinkContents
            &&& !taken && !once && !configs ==> r == HomeEntry::Link
        }),
{
}

/// Every variable that leads clients to the compositor is set to what it is to hold, or
/// is removed.
pub proof fn clients_hear_of_the_compositor(socket: Seq<u8>, i: int)
    requires
        0 <= i < 16,
    ensures
        ({
            let env = crate::session::session_env(socket);
            let names = seq![
                "WAYLAND_DISPLAY"@,
                "WAYLAND_DEBUG"@,
                "XDG_SESSION_TYPE"@,
                "XDG_CURRENT_DESKTOP"@,
                "XDG_SESSION_DESKTOP"@,
                "DISPLAY"@,
                "MOZ_ENABLE_WAYLAND"@,
                "GDK_BACKEND"@,
                "QT_QPA_PLATFORM"@,
                "QT_WAYLAND_DISABLE_WINDOWDECORATION"@,
                "SDL_VIDEODRIVER"@,
                "WINIT_UNIX_BACKEND"@,
                "CLUTTER_BACKEND"@,
                "ELECTRON_OZONE_PLATFORM_HINT"@,
                "NO_AT_BRIDGE"@,
                "GTK_A11Y"@,
            ];
            let value = env[i].value;
            let utf8 = |s: Seq<char>| vstd::utf8::encode_utf8(s);
            &&& env.len() == 16
            &&& env[i].name == names[i]
            &&& i == 0 ==> value == Some(socket)
            &&& i == 1 || i == 5 ==> value is None
            &&& i == 3 || i == 4 ==> value == Some(utf8("mywm"@))
            &&& i == 6 || i == 9 || i == 14 ==> value == Some(utf8("1"@))
            &&& i == 15 ==> value == Some(utf8("none"@))
            &&& i == 2 || i == 7 || i == 8 || 10 <= i <= 13 ==> value == Some(utf8("wayland"@))
        }),
{
}

/// A session with a home of its own has that home, and knows the real one.
pub proof fn sessions_have_a_home(home: Seq<char>, real_home: Seq<char>)
    ensures
        ({
            let env = crate::session::home_env(home, real_home);
            let utf8 = |s: Seq<char>| vstd::utf8::encode_utf8(s);
            &&& env.len() == 5
            &&& env[0].name == "MOZ_LEGACY_PROFILES"@ && env[0].value == Some(utf8("0"@))
            &&& env[1].name == "MOZ_NO_REMOTE"@ && env[1].value == Some(utf8("1"@))
            &&& env[2].name == "MOZ_DBUS_REMOTE"@ && env[2].value == Some(utf8("0"@))
            &&& env[3].name == "HOME"@ && env[3].value == Some(utf8(home))
            &&& env[4].name == "MYWM_REAL_HOME"@ && env[4].value == Some(utf8(real_home))
        }),
{
}

/// In the directory of the configuration the two configuration files are written, the
/// scripts so that they can be run, and a directory is made for the wallpapers of each
/// theme.
pub proof fn configuration_is_put_in_place(dir: Seq<u8>)
    ensures
        ({
            let steps = crate::deploy::config_steps(dir);
            let at = |d: Seq<u8>, name: Seq<char>|
                crate::paths::in_dir(d, vstd::utf8::encode_utf8(name));
            let scripts = at(dir, "scripts"@);
            let walls = at(dir, "wallpapers"@);
            let file = |path: Seq<u8>, asset: Asset, executable: bool|
                crate::deploy::StepView::Write { path, asset, executable };
            &&& steps.len() == 15
            &&& steps[0] == crate::deploy::StepView::RequireDir(dir)
            &&& steps[1] == file(at(dir, "config.toml"@), Asset::ConfigToml, false)
            &&& steps[2] == file(at(dir, "rc.lua"@), Asset::RcLua, false)
            &&& steps[3] == crate::deploy::StepView::MakeDir(scripts)
            &&& steps[4] == file(at(scripts, "mywm-workspaces.sh"@), Asset::WorkspacesScript, true)
            &&& steps[5] == file(at(scripts, "wallpaper-picker.sh"@), Asset::WallpaperPicker, true)
            &&& steps[6] == file(
                at(scripts, "wallpaper-restore.sh"@),
                Asset::WallpaperRestore,
                true,
            )
            &&& steps[7] == crate::deploy::StepView::MakeDir(at(walls, "tokyonight"@))
            &&& steps[8] == crate::deploy::StepView::MakeDir(at(walls, "gruvbox"@))
            &&& steps[9] == crate::deploy::StepView::MakeDir(at(walls, "everforest"@))
            &&& steps[10] == crate::deploy::StepView::MakeDir(at(walls, "rosepine"@))
            &&& steps[11] == crate::deploy::StepView::MakeDir(at(walls, "kanagawa"@))
            &&& steps[12] == crate::deploy::StepView::MakeDir(at(walls, "catppuccin"@))
            &&& steps[13] == crate::deploy::StepView::MakeDir(at(walls, "dracula"@))
            &&& steps[14] == crate::deploy::StepView::MakeDir(at(walls, "nord"@))
        }),
{
}

/// For the status bar its directory is emptied before its files are written, every
/// script is made executable after it was written, and the old directory in the real
/// home goes last, if there is a real home.
pub proof fn status_bar_is_put_in_place(home: Seq<char>, real_home: Option<Seq<char>>)
    requires
        home.len() > 0,
    ensures
        ({
            let steps = crate::deploy::waybar_steps(home, real_home);
            let at = |name: Seq<char>| vstd::utf8::encode_utf8(home + name);
            let file = |name: Seq<char>, asset: Asset|
                crate::deploy::StepView::Write { path: at(name), asset, executable: false };
            let bar = at("/.config/waybar"@);
            let opacity = "/.config/mywm/scripts/mywm-opacity.sh"@;
            let control = "/.config/mywm/scripts/mywm-opacity-control.sh"@;
            let spaces = "/.config/mywm/scripts/mywm-workspaces.sh"@;
            &&& steps[0] == crate::deploy::StepView::RemoveLink(bar)
            &&& steps[1] == crate::deploy::StepView::RemoveDir(bar)
            &&& steps[2] == crate::deploy::StepView::RequireDir(bar)
            &&& steps[3] == file("/.config/waybar/config"@, Asset::WaybarConfig)
            &&& steps[4] == file("/.config/waybar/style.css"@, Asset::WaybarStyle)
            &&& steps[5] == file("/.config/waybar/colors.css"@, Asset::WaybarColors)
            &&& steps[6] == crate::deploy::StepView::RequireDir(at("/.config/mywm/scripts"@))
            &&& steps[7] == file(opacity, Asset::OpacityScript)
            &&& steps[8] == crate::deploy::StepView::MakeExecutable(at(opacity))
            &&& steps[9] == file(control, Asset::OpacityControlScript)
            &&& steps[10] == crate::deploy::StepView::MakeExecutable(at(control))
            &&& steps[11] == file(spaces, Asset::WorkspacesScript)
            &&& steps[12] == crate::deploy::StepView::MakeExecutable(at(spaces))
            &&& real_home is None ==> steps.len() == 13
            &&& real_home is Some ==> steps.len() == 14 && steps[13]
                == crate::deploy::StepView::RemoveDir(
                vstd::utf8::encode_utf8(real_home->0 + "/.config/waybar"@),
            )
        }),
        crate::deploy::waybar_steps(Seq::empty(), real_home).len() == 0,
{
}

/// A configuration that is read from a table has what the table holds, and the default
/// for each part that the table does not hold.
pub proof fn tables_are_read_part_by_part(t: WmTable)
    ensures
        ({
            let r = crate::lua::config_of(t);
            let d = crate::config::default_config();
            let names = crate::lua::present(t.workspace_names->0@);
            &&& t.terminal is Some ==> r.terminal == t.terminal->0@
            &&& t.terminal is None ==> r.terminal == d.terminal
            &&& t.launcher is Some ==> r.launcher == t.launcher->0@
            &&& t.launcher is None ==> r.launcher == d.launcher
            &&& t.outer_gaps is Some ==> r.outer_gaps == t.outer_gaps->0
            &&& t.outer_gaps is None ==> r.outer_gaps == d.outer_gaps
            &&& t.inner_gaps is Some ==> r.inner_gaps == t.inner_gaps->0
            &&& t.inner_gaps is None ==> r.inner_gaps == d.inner_gaps
            &&& t.border_width is Some ==> r.border_width == t.border_width->0
            &&& t.border_width is None ==> r.border_width == d.border_width
            &&& t.active_border_color is Some ==> r.active_border_color
                == t.active_border_color->0@
            &&& t.active_border_color is None ==> r.active_border_color == d.active_border_color
            &&& t.inactive_border_color is Some ==> r.inactive_border_color
                == t.inactive_border_color->0@
            &&& t.inactive_border_color is None ==> r.inactive_border_color
                == d.inactive_border_color
            &&& t.clear_color is Some ==> r.clear_color == t.clear_color->0@
            &&& t.clear_color is None ==> r.clear_color == d.clear_color
            &&& t.swipe_threshold is Some ==> r.swipe_threshold == t.swipe_threshold->0
            &&& t.swipe_threshold is None ==> r.swipe_threshold == d.swipe_threshold
            &&& t.workspace_names is Some && names.len() > 0 ==> r.workspace_names == names
            &&& t.workspace_names is None || names.len() == 0 ==> r.workspace_names
                == d.workspace_names
            &&& r.keybinds == d.keybinds
        }),
{
}

/// Of a list with gaps the texts are left, in their order.
pub proof fn gaps_are_left_out(list: Seq<Option<String>>, next: Option<String>)
    ensures
        crate::lua::present(Seq::<Option<String>>::empty()).len() == 0,
        next is Some ==> crate::lua::present(list.push(next)) == crate::lua::present(list).push(
            next->0@,
        ),
        next is None ==> crate::lua::present(list.push(next)) == crate::lua::present(list),
{
    assert(list.push(next).drop_last() =~= list);
}

/// The functions of the script go by the names of the actions that call them.
pub proof fn script_functions_have_names(call: crate::actions::LuaCall)
    ensures
        call == crate::actions::LuaCall::CycleTheme ==> crate::actions::call_name(call)
            == "cycle_theme"@,
        call == crate::actions::LuaCall::ToggleNavbar ==> crate::actions::call_name(call)
            == "toggle_navbar"@,
        call == crate::actions::LuaCall::ToggleWallpaperMenu ==> crate::actions::call_name(call)
            == "toggle_wallpaper_menu"@,
{
}

/// Levels go up and down in steps of five percent, and the sound is muted in turns.
pub proof fn levels_change_in_steps(control: crate::actions::Control)
    ensures
        ({
            let words = crate::actions::control_words(control);
            let volume = words.len() == 4 && words[0] == "wpctl"@ && words[2]
                == "@DEFAULT_AUDIO_SINK@"@;
            let light = words.len() == 3 && words[0] == "brightnessctl"@ && words[1] == "set"@;
            match control {
                crate::actions::Control::VolumeUp => volume && words[1] == "set-volume"@
                    && words[3] == "5%+"@,
                crate::actions::Control::VolumeDown => volume && words[1] == "set-volume"@
                    && words[3] == "5%-"@,
                crate::actions::Control::VolumeMute => volume && words[1] == "set-mute"@
                    && words[3] == "toggle"@,
                crate::actions::Control::BrightnessUp => light && words[2] == "+5%"@,
                crate::actions::Control::BrightnessDown => light && words[2] == "5%-"@,
            }
        }),
{
}

/// A colour can be read just where no character lies across two of its channels.
pub proof fn colours_that_can_be_read(hex: Seq<char>)
    ensures
        ({
            let b = vstd::utf8::encode_utf8(text::stripped_start(hex, '#'));
            let parted = |n: int| vstd::utf8::is_char_boundary(b, n);
            crate::colors::channels_apart(hex) <==> (b.len() < 6 || parted(2) && parted(4)
                && parted(6) && (b.len() < 8 || parted(8)))
        }),
{
}

} // verus!
