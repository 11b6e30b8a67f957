use mywm::bits::Single;
use mywm::config::Config;
use mywm::ipc::{
    ipc_payload, layout_name, opacity_ipc_path, opacity_json, temporary_path, workspace_ipc_path,
    workspace_ipc_stream_path, Payload,
};
use mywm::launch::{
    brightness_answer, brightness_level, build_config_bypass, launcher_command, launcher_retry,
    terminal_command, volume_answer, volume_level, QUICK_FAILURE,
};
use mywm::session::{
    config_entry, home_entry, isolate_session_environment, isolated_home_environment,
    parse_dbus_launch, session_dirs, HomeEntry,
};
use mywm::state::State;
use mywm::workspace::LayoutType;

fn s(v: f32) -> Single {
    Single { bits: v.to_bits() }
}

#[test]
fn terminal_is_split_into_words() {
    let line = terminal_command("  foot  -e htop ").unwrap();
    assert_eq!(line.program, "foot");
    assert_eq!(line.args, vec!["-e", "htop"]);
    assert_eq!(terminal_command("alacritty").unwrap().args.len(), 0);
    assert!(terminal_command("  ").is_none());
}

#[test]
fn launcher_is_trimmed() {
    assert_eq!(launcher_command(" fuzzel --x \n").as_deref(), Some("fuzzel --x"));
    assert!(launcher_command(" \t ").is_none());
}

#[test]
fn launchers_are_told_to_leave_their_configuration() {
    assert_eq!(build_config_bypass("fuzzel"), "fuzzel --config /dev/null");
    assert_eq!(build_config_bypass("/usr/bin/fuzzel -w 3"), "/usr/bin/fuzzel -w 3 --config /dev/null");
    assert_eq!(build_config_bypass("fuzzel --config=x"), "fuzzel --config=x");
    assert_eq!(build_config_bypass("fuzzel -C x"), "fuzzel -C x");
    assert_eq!(build_config_bypass("wofi --show run"), "wofi --show run --conf /dev/null");
    assert_eq!(build_config_bypass("wofi --conf a"), "wofi --conf a");
    assert_eq!(build_config_bypass("rofi -show run"), "rofi -show run -no-config");
    assert_eq!(build_config_bypass("rofi -no-config"), "rofi -no-config");
    assert_eq!(build_config_bypass("dmenu"), "dmenu");
    assert_eq!(build_config_bypass("sh -c fuzzel"), "sh -c fuzzel");
    assert_eq!(build_config_bypass(""), "");
}

#[test]
fn bypass_is_not_added_twice() {
    for c in ["fuzzel", "wofi -a", "rofi", "dmenu", ""] {
        let once = build_config_bypass(c);
        assert_eq!(build_config_bypass(&once), once);
    }
}

#[test]
fn launcher_is_retried_if_it_failed_at_once() {
    assert_eq!(launcher_retry("rofi", false, 0).as_deref(), Some("rofi -no-config"));
    assert!(launcher_retry("rofi", true, 0).is_none());
    assert!(launcher_retry("rofi", false, QUICK_FAILURE).is_none());
    assert!(launcher_retry("dmenu", false, 0).is_none());
}

#[test]
fn volume_is_read_from_the_answer() {
    let answer = |t: &str| volume_answer(&t.as_bytes().to_vec());
    assert_eq!(answer("Volume: 0.50\n"), (Some("0.50".to_string()), false));
    assert_eq!(answer("Volume: 0.50 [MUTED]\n"), (Some("0.50".to_string()), true));
    assert_eq!(answer("Volume:"), (None, false));
    assert_eq!(
        volume_answer(&vec![b'a', b' ', 0xFF, b'x']),
        (Some("\u{FFFD}x".to_string()), false)
    );
    assert_eq!(volume_level(Some(s(0.5))), s(0.5));
    assert_eq!(volume_level(Some(s(1.5))), s(1.0));
    assert_eq!(volume_level(None), s(0.0));
    assert_eq!(volume_level(Some(s(f32::NAN))), s(0.0));
}

#[test]
fn brightness_is_read_from_the_answer() {
    assert_eq!(brightness_answer(&b" 1200\n".to_vec()), "1200");
    assert_eq!(brightness_level(s(2400.0), s(0.5)), s(0.5));
    assert_eq!(brightness_level(s(2400.0), s(1.5)), s(1.0));
    assert_eq!(brightness_level(s(0.0), s(0.5)), s(0.0));
    assert_eq!(brightness_level(s(2400.0), s(f32::NAN)), s(0.0));
}

#[test]
fn status_bar_is_told_of_all_workspaces() {
    let mut config = Config::default();
    config.workspace_names = vec!["web".to_string()];
    let mut state = State::new(config, 0);
    state.workspaces.push(mywm::workspace::Workspace::new());
    state.new_toplevel(4, 0);
    state.workspaces[1].layout = LayoutType::Monocle;
    let told = state.workspace_ipc_state().workspaces;
    assert_eq!(told.len(), 2);
    assert_eq!((told[0].index, told[0].name.as_str()), (1, "web"));
    assert!(told[0].active && told[0].occupied);
    assert_eq!(told[0].window_count, 1);
    assert_eq!(told[0].layout, layout_name(LayoutType::MasterStack));
    assert_eq!((told[1].index, told[1].name.as_str()), (2, "2"));
    assert!(!told[1].active && !told[1].occupied);
    assert_eq!(told[1].layout, layout_name(LayoutType::Monocle));
}

#[test]
fn files_for_the_status_bar_lie_in_the_runtime_directory() {
    assert_eq!(workspace_ipc_path(Some("/run/user/7")), "/run/user/7/lumie-workspaces.json");
    assert_eq!(workspace_ipc_path(None), "/tmp/lumie-workspaces.json");
    assert_eq!(workspace_ipc_stream_path(Some("/r")), "/r/lumie-workspaces.sock");
    assert_eq!(workspace_ipc_stream_path(None), "/tmp/lumie-workspaces.sock");
    assert_eq!(opacity_ipc_path(Some("/r")), "/r/lumie-opacity.json");
    assert_eq!(opacity_ipc_path(None), "/tmp/lumie-opacity.json");
    assert_eq!(temporary_path("/r/x.json"), "/r/x.json.tmp");
}

#[test]
fn opacity_is_told_in_percent() {
    let expected = r#"{"text":"85%","tooltip":"Window Opacity: 85%\nClick: slider | Scroll: adjust | Right-click: reset","class":"opacity","percentage":85}"#;
    assert_eq!(opacity_json(85), format!("{}\n", expected));
    assert!(opacity_json(-3).contains("\"text\":\"-3%\""));
}

#[test]
fn payloads_are_trimmed_texts() {
    assert!(matches!(ipc_payload(&vec![]), Payload::Empty));
    assert!(matches!(ipc_payload(&b" \n".to_vec()), Payload::Empty));
    assert!(matches!(ipc_payload(&vec![0xC3, 0x28]), Payload::NotText));
    match ipc_payload(&" \"Quit\" é\n".as_bytes().to_vec()) {
        Payload::Text(text) => assert_eq!(text, "\"Quit\" é"),
        other => panic!("{:?}", other),
    }
}

#[test]
fn clients_are_led_to_the_compositor() {
    let changes = isolate_session_environment(&b"wayland-1".to_vec());
    assert_eq!(changes.len(), 16);
    assert_eq!(changes[0].name, "WAYLAND_DISPLAY");
    assert_eq!(changes[0].value.as_deref(), Some(b"wayland-1".as_slice()));
    let get = |name: &str| changes.iter().find(|c| c.name == name).unwrap().value.clone();
    assert_eq!(get("DISPLAY"), None);
    assert_eq!(get("WAYLAND_DEBUG"), None);
    assert_eq!(get("GDK_BACKEND"), Some(b"wayland".to_vec()));
    assert_eq!(get("XDG_CURRENT_DESKTOP"), Some(b"mywm".to_vec()));
    assert_eq!(get("GTK_A11Y"), Some(b"none".to_vec()));
}

#[test]
fn session_has_directories_of_its_own() {
    let dirs = session_dirs("/run/user/7", 321);
    assert_eq!(dirs.root, "/run/user/7/mywm-321");
    assert_eq!(dirs.mozilla, "/run/user/7/mywm-321/mozilla");
    assert_eq!(dirs.thunderbird, "/run/user/7/mywm-321/thunderbird");
    assert_eq!(dirs.home, "/run/user/7/mywm-321/home");
    let changes = isolated_home_environment(&dirs.home, "/home/me");
    let pairs: Vec<(String, Vec<u8>)> =
        changes.into_iter().map(|c| (c.name, c.value.unwrap())).collect();
    assert_eq!(pairs[3], ("HOME".to_string(), dirs.home.into_bytes()));
    assert_eq!(pairs[4], ("MYWM_REAL_HOME".to_string(), b"/home/me".to_vec()));
    assert_eq!(pairs[0], ("MOZ_LEGACY_PROFILES".to_string(), b"0".to_vec()));
}

#[test]
fn entries_of_the_home_are_linked() {
    assert_eq!(home_entry(&b".bashrc".to_vec(), false), HomeEntry::Link);
    assert_eq!(home_entry(&b".bashrc".to_vec(), true), HomeEntry::Skip);
    assert_eq!(home_entry(&b".mozilla".to_vec(), false), HomeEntry::Skip);
    assert_eq!(config_entry(false), HomeEntry::Link);
    assert_eq!(config_entry(true), HomeEntry::Skip);
    assert_eq!(home_entry(&b".thunderbird".to_vec(), false), HomeEntry::Skip);
    assert_eq!(home_entry(&b".config".to_vec(), false), HomeEntry::LinkContents);
    assert_eq!(home_entry(&vec![0xFF], false), HomeEntry::Link);
}

#[test]
fn bus_is_read_from_what_its_launcher_says() {
    let parse = |t: &str| parse_dbus_launch(&t.as_bytes().to_vec());
    let bus = parse(
        "DBUS_SESSION_BUS_ADDRESS='unix:path=/tmp/dbus-x,guid=1';\nexport DBUS_SESSION_BUS_ADDRESS;\nDBUS_SESSION_BUS_PID=4321;\n",
    )
    .unwrap();
    assert_eq!(bus.address, "unix:path=/tmp/dbus-x,guid=1");
    assert_eq!(bus.pid, Some(4321));
    let bus = parse("  DBUS_SESSION_BUS_ADDRESS=\"a\"\r\nDBUS_SESSION_BUS_PID=x;").unwrap();
    assert_eq!(bus.address, "a");
    assert_eq!(bus.pid, None);
    assert!(parse("DBUS_SESSION_BUS_ADDRESS='';").is_none());
    assert!(parse("DBUS_SESSION_BUS_PID=5;").is_none());
    let bus = parse("DBUS_SESSION_BUS_ADDRESS=;\nDBUS_SESSION_BUS_ADDRESS=b;\n").unwrap();
    assert_eq!(bus.address, "b");
    let bus = parse("DBUS_SESSION_BUS_PID=1\nDBUS_SESSION_BUS_ADDRESS=b\nDBUS_SESSION_BUS_PID=2").unwrap();
    assert_eq!(bus.pid, Some(2));
}
