use mlua::Lua;
use mywm::bits::Double;
use mywm::colors::{is_parted, parse_hex_color, Color};
use mywm::config::{default_keybinds, Config, FileOutcome, Modifiers, ScriptOutcome};
use mywm::deploy::{deploy_assets, ensure_waybar_config, Asset, Step};
use mywm::lua::{
    autostart_commands, config_from_table, present_texts, read_config_from_lua, seed_entries,
    seed_wm_table, told_table, LuaError, WmTable,
};
use mywm::paths::{config_dir, join, rc_path, toml_path};

fn bytes(t: &str) -> Option<Vec<u8>> {
    Some(t.as_bytes().to_vec())
}

fn shown(c: &Config) -> String {
    format!("{:?}", c)
}

fn empty_table() -> WmTable {
    WmTable {
        terminal: None,
        launcher: None,
        outer_gaps: None,
        inner_gaps: None,
        border_width: None,
        active_border_color: None,
        inactive_border_color: None,
        clear_color: None,
        swipe_threshold: None,
        workspace_names: None,
    }
}

#[test]
fn defaults_are_as_documented() {
    let c = Config::default();
    assert_eq!(c.terminal, "alacritty");
    assert_eq!(c.launcher, "fuzzel");
    assert_eq!((c.outer_gaps, c.inner_gaps, c.border_width), (15, 10, 2));
    assert_eq!(c.active_border_color, "#7aa2f7");
    assert_eq!(c.inactive_border_color, "#1a1b26");
    assert_eq!(c.clear_color, "#14101e");
    assert_eq!(c.workspace_names, vec!["1", "2", "3", "4", "5", "6", "7", "8", "9"]);
    assert_eq!(c.workspace_count(), 9);
    assert_eq!(c.swipe_threshold, Double { bits: 100.0f64.to_bits() });
    let m = Modifiers::default();
    assert!(m.logo && !m.shift && !m.ctrl && !m.alt);
    let binds = default_keybinds();
    assert_eq!(binds[0].key, "Escape");
    assert!(binds[0].modifiers.shift);
    assert_eq!(binds[32].action, "move_to_workspace_9");
}

#[test]
fn colours_are_read_channel_by_channel() {
    let c = |r, g, b, a| Color { red: r, green: g, blue: b, alpha: a };
    assert_eq!(parse_hex_color("#7aa2f7"), c(0x7a, 0xa2, 0xf7, 255));
    assert_eq!(parse_hex_color("7AA2F780"), c(0x7a, 0xa2, 0xf7, 0x80));
    assert_eq!(parse_hex_color("##112233"), c(0x11, 0x22, 0x33, 255));
    assert_eq!(parse_hex_color("#12345"), c(255, 255, 255, 255));
    assert_eq!(parse_hex_color(""), c(255, 255, 255, 255));
    assert_eq!(parse_hex_color("zz1122"), c(255, 0x11, 0x22, 255));
    assert_eq!(parse_hex_color("+f0011"), c(15, 0x00, 0x11, 255));
    assert_eq!(parse_hex_color("11223344556677"), c(0x11, 0x22, 0x33, 0x44));
    assert_eq!(parse_hex_color("1122337"), c(0x11, 0x22, 0x33, 255));
    assert_eq!(parse_hex_color("é1122"), c(255, 0x11, 0x22, 255));
    assert_eq!(Config::default().clear_color_f32(), c(0x14, 0x10, 0x1e, 255));
}

#[test]
fn characters_across_channels_are_noticed() {
    assert!(is_parted("#7aa2f7"));
    assert!(is_parted("é1122"));
    assert!(!is_parted("1é122"));
    assert!(is_parted("1é"));
    assert!(!is_parted("1122337é"));
}

#[test]
fn colour_channels_are_read_like_std_reads_them() {
    for text in ["00", "7f", "FF", "+1", "++", "-1", "g0", "0g", " 1"] {
        let read = u8::from_str_radix(text, 16).unwrap_or(255);
        assert_eq!(parse_hex_color(&format!("{}0000", text)).red, read);
    }
}

#[test]
fn configuration_lies_under_the_configuration_home() {
    let dir = |x: Option<Vec<u8>>, h: Option<Vec<u8>>| config_dir(&x, &h);
    assert_eq!(dir(bytes("/x"), bytes("/h")), bytes("/x/mywm"));
    assert_eq!(dir(bytes("/x/"), None), bytes("/x/mywm"));
    assert_eq!(dir(bytes(""), bytes("/h")), bytes("/h/.config/mywm"));
    assert_eq!(dir(None, bytes("")), bytes(".config/mywm"));
    assert_eq!(dir(None, None), None);
    assert_eq!(rc_path(&None, &bytes("/h")), bytes("/h/.config/mywm/rc.lua"));
    assert_eq!(toml_path(&bytes("/x"), &None), bytes("/x/mywm/config.toml"));
    assert_eq!(rc_path(&None, &None), None);
    assert_eq!(toml_path(&None, &None), None);
}

#[test]
fn paths_are_joined_like_std_joins_them() {
    for dir in ["", "/", "a", "a/", "/a/b"] {
        let expected = std::path::Path::new(dir).join("name");
        assert_eq!(join(&dir.as_bytes().to_vec(), "name"), expected.to_str().unwrap().as_bytes());
    }
}

#[test]
fn assets_are_put_in_place() {
    let steps = deploy_assets(&b"/c".to_vec());
    assert_eq!(steps.len(), 15);
    assert!(matches!(&steps[0], Step::RequireDir(p) if p == b"/c"));
    assert!(matches!(
        &steps[1],
        Step::Write { path, asset: Asset::ConfigToml, executable: false } if path == b"/c/config.toml"
    ));
    assert!(matches!(
        &steps[4],
        Step::Write { path, asset: Asset::WorkspacesScript, executable: true }
            if path == b"/c/scripts/mywm-workspaces.sh"
    ));
    assert!(matches!(&steps[14], Step::MakeDir(p) if p == b"/c/wallpapers/nord"));
}

#[test]
fn status_bar_is_put_in_place() {
    assert!(ensure_waybar_config("", &None).is_empty());
    let steps = ensure_waybar_config("/h", &Some("/real".to_string()));
    assert_eq!(steps.len(), 14);
    assert!(matches!(&steps[0], Step::RemoveLink(p) if p == b"/h/.config/waybar"));
    assert!(matches!(&steps[2], Step::RequireDir(p) if p == b"/h/.config/waybar"));
    assert!(matches!(
        &steps[5],
        Step::Write { path, asset: Asset::WaybarColors, executable: false }
            if path == b"/h/.config/waybar/colors.css"
    ));
    assert!(matches!(
        &steps[7],
        Step::Write { path, asset: Asset::OpacityScript, executable: false }
            if path == b"/h/.config/mywm/scripts/mywm-opacity.sh"
    ));
    assert!(matches!(
        &steps[8],
        Step::MakeExecutable(p) if p == b"/h/.config/mywm/scripts/mywm-opacity.sh"
    ));
    assert!(matches!(&steps[13], Step::RemoveDir(p) if p == b"/real/.config/waybar"));
    assert_eq!(ensure_waybar_config("/h", &None).len(), 13);
}

#[test]
fn file_goes_over_the_asset() {
    let mut other = Config::default();
    other.border_width = 7;
    assert_eq!(Config::from_asset(Some(other.clone())).border_width, 7);
    assert_eq!(shown(&Config::from_asset(None)), shown(&Config::default()));
    let mut c = Config::default();
    c.load_file(FileOutcome::Missing);
    c.load_file(FileOutcome::Unreadable);
    c.load_file(FileOutcome::Malformed);
    assert_eq!(c.border_width, 2);
    c.load_file(FileOutcome::Read(other));
    assert_eq!(c.border_width, 7);
}

#[test]
fn missing_entries_have_defaults() {
    assert_eq!(shown(&config_from_table(empty_table())), shown(&Config::default()));
    let mut t = empty_table();
    t.terminal = Some("foot".to_string());
    t.inner_gaps = Some(-3);
    t.workspace_names = Some(vec![Some("a".to_string()), None, Some("b".to_string())]);
    let c = config_from_table(t);
    assert_eq!(c.terminal, "foot");
    assert_eq!(c.inner_gaps, -3);
    assert_eq!(c.workspace_names, vec!["a", "b"]);
    assert_eq!(c.launcher, "fuzzel");
    let mut t = empty_table();
    t.workspace_names = Some(vec![None]);
    assert_eq!(config_from_table(t).workspace_names.len(), 9);
    assert!(present_texts(&vec![None, None]).is_empty());
}

#[test]
fn script_is_told_of_the_configuration() {
    let entries = seed_entries(&Config::default());
    let keys: Vec<&str> = entries.iter().map(|e| e.key.as_str()).collect();
    assert_eq!(
        keys,
        vec![
            "terminal",
            "launcher",
            "outer_gaps",
            "inner_gaps",
            "border_width",
            "active_border_color",
            "inactive_border_color",
            "clear_color",
            "swipe_threshold",
            "workspace_names",
            "autostart",
        ]
    );
}

#[test]
fn told_configuration_is_read_back() {
    let lua = Lua::new();
    let mut c = Config::default();
    c.terminal = "foot".to_string();
    c.launcher = "wofi".to_string();
    c.outer_gaps = 3;
    c.inner_gaps = 4;
    c.border_width = 5;
    c.active_border_color = "#1".to_string();
    c.inactive_border_color = "#2".to_string();
    c.clear_color = "#3".to_string();
    c.swipe_threshold = Double { bits: 12.5f64.to_bits() };
    c.workspace_names = vec!["x".to_string(), "y".to_string()];
    c.keybinds.clear();
    assert_eq!(seed_wm_table(&lua, &c), Ok(()));
    let read = read_config_from_lua(&lua).unwrap();
    assert_eq!(read.keybinds.len(), 33);
    c.keybinds = default_keybinds();
    assert_eq!(shown(&read), shown(&c));
    assert!(autostart_commands(&lua).is_empty());
}

#[test]
fn script_changes_the_configuration() {
    let lua = Lua::new();
    let mut c = Config::default();
    seed_wm_table(&lua, &c).unwrap();
    lua.load(
        "wm.border_width = 9; wm.terminal = {}; wm.workspace_names = {'a', {}, 'b'}; \
         wm.autostart = {'one', {}, 'two'}; wm.swipe_threshold = 2.5",
    )
    .exec()
    .unwrap();
    assert_eq!(c.load_script(ScriptOutcome::Failed, &lua), Ok(()));
    assert_eq!(c.load_script(ScriptOutcome::Missing, &lua), Ok(()));
    assert_eq!(c.load_script(ScriptOutcome::Unreadable, &lua), Ok(()));
    assert_eq!(c.border_width, 2);
    assert_eq!(c.load_script(ScriptOutcome::Ran, &lua), Ok(()));
    assert_eq!(c.border_width, 9);
    assert_eq!(c.terminal, "alacritty");
    assert_eq!(c.workspace_names, vec!["a", "b"]);
    assert_eq!(c.swipe_threshold, Double { bits: 2.5f64.to_bits() });
    assert_eq!(autostart_commands(&lua), vec!["one", "two"]);
}

#[test]
fn parts_that_were_not_written_to_are_read_back() {
    let lua = Lua::new();
    let mut c = Config::default();
    c.terminal = "foot".to_string();
    c.outer_gaps = 3;
    c.clear_color = "#3".to_string();
    c.swipe_threshold = Double { bits: 12.5f64.to_bits() };
    c.workspace_names = vec!["x".to_string()];
    seed_wm_table(&lua, &c).unwrap();
    lua.load("wm.border_width = 9; setmetatable(wm, {__index = function() return 'late' end})")
        .exec()
        .unwrap();
    assert_eq!(c.refresh_from_lua(&lua), Ok(()));
    assert_eq!(c.border_width, 9);
    assert_eq!(c.terminal, "foot");
    assert_eq!(c.outer_gaps, 3);
    assert_eq!(c.clear_color, "#3");
    assert_eq!(c.swipe_threshold, Double { bits: 12.5f64.to_bits() });
    assert_eq!(c.workspace_names, vec!["x"]);
    assert!(autostart_commands(&lua).is_empty());
}

#[test]
fn autostart_is_what_the_name_evaluates_to() {
    let lua = Lua::new();
    lua.load(
        "getmetatable('').__index = function(s, key) return {key .. ' of ' .. s} end; \
         wm = 'text'",
    )
    .exec()
    .unwrap();
    assert_eq!(autostart_commands(&lua), vec!["autostart of text"]);
    assert!(matches!(read_config_from_lua(&lua), Err(LuaError::NoTable)));
    lua.load("wm = setmetatable({}, {__index = {autostart = {'one'}}})").exec().unwrap();
    assert_eq!(autostart_commands(&lua), vec!["one"]);
    lua.load("wm = {autostart = 'one'}").exec().unwrap();
    assert!(autostart_commands(&lua).is_empty());
    lua.load("wm = setmetatable({}, {__index = function() error('no') end})").exec().unwrap();
    assert!(autostart_commands(&lua).is_empty());
}

#[test]
fn missing_table_is_reported() {
    let lua = Lua::new();
    assert!(matches!(read_config_from_lua(&lua), Err(LuaError::NoTable)));
    assert!(autostart_commands(&lua).is_empty());
    let mut c = Config::default();
    c.border_width = 8;
    assert_eq!(c.refresh_from_lua(&lua), Err(LuaError::NoTable));
    assert_eq!(c.load_script(ScriptOutcome::Ran, &lua), Err(LuaError::NoTable));
    assert_eq!(c.load_script(ScriptOutcome::Missing, &lua), Ok(()));
    assert_eq!(c.border_width, 8);
}

#[test]
fn full_interpreter_is_not_written_to() {
    let lua = Lua::new();
    lua.set_memory_limit(1).unwrap();
    let told = seed_wm_table(&lua, &Config::default());
    lua.set_memory_limit(0).unwrap();
    assert_eq!(told, Err(LuaError::NotWritten));
    assert!(matches!(read_config_from_lua(&lua), Err(LuaError::NoTable)));
}

#[test]
fn table_holds_what_the_script_is_told() {
    let lua = Lua::new();
    let table = told_table(&lua, &Config::default()).unwrap();
    assert_eq!(table.get::<_, String>("terminal").unwrap(), "alacritty");
    assert_eq!(table.get::<_, i32>("outer_gaps").unwrap(), 15);
    assert_eq!(table.get::<_, f64>("swipe_threshold").unwrap(), 100.0);
    assert_eq!(table.get::<_, Vec<String>>("workspace_names").unwrap().len(), 9);
    assert!(table.get::<_, Vec<String>>("autostart").unwrap().is_empty());
    assert!(matches!(read_config_from_lua(&lua), Err(LuaError::NoTable)));
}

#[test]
fn configuration_that_was_read_is_taken() {
    let mut c = Config::default();
    let mut read = Config::default();
    read.border_width = 7;
    assert_eq!(c.refresh(Err(LuaError::NoTable)), Err(LuaError::NoTable));
    assert_eq!(c.border_width, 2);
    assert_eq!(c.refresh(Ok(read)), Ok(()));
    assert_eq!(c.border_width, 7);
}

#[test]
fn keybindings_of_the_file_stay() {
    let lua = Lua::new();
    let mut file = Config::default();
    file.terminal = "foot".to_string();
    file.keybinds.truncate(1);
    file.keybinds[0].action = "exec:one".to_string();
    let expected = shown(&file);
    let mut c = Config::default();
    assert_eq!(c.tell_script(FileOutcome::Read(file), &lua), Ok(()));
    assert_eq!(shown(&c), expected);
    assert_eq!(c.load_script(ScriptOutcome::Ran, &lua), Ok(()));
    assert_eq!(shown(&c), expected);
    lua.load("wm.border_width = 6").exec().unwrap();
    assert_eq!(c.refresh_from_lua(&lua), Ok(()));
    assert_eq!(c.border_width, 6);
    assert_eq!(c.keybinds.len(), 1);
    assert_eq!(c.keybinds[0].action, "exec:one");
    assert_eq!(c.tell_script(FileOutcome::Malformed, &lua), Ok(()));
    assert_eq!(c.border_width, 6);
}
