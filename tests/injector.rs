use vocalinux::injector::{DisplayServer, InjectionError, TextInjector, ToolAvailability, WaylandTool};

const NONE: ToolAvailability = ToolAvailability { wtype: false, ydotool: false, xdotool: false };
const ALL: ToolAvailability = ToolAvailability { wtype: true, ydotool: true, xdotool: true };

fn args(v: &[&str]) -> Vec<String> {
    v.iter().map(|s| s.to_string()).collect()
}

#[test]
fn display_server_detection() {
    assert_eq!(DisplayServer::detect(Some("WAYLAND"), false), DisplayServer::Wayland);
    assert_eq!(DisplayServer::detect(Some("x11"), true), DisplayServer::X11);
    assert_eq!(DisplayServer::detect(Some("tty"), true), DisplayServer::Wayland);
    assert_eq!(DisplayServer::detect(None, false), DisplayServer::X11);
}

#[test]
fn tool_preference() {
    assert_eq!(TextInjector::detect_wayland_tool(ALL), Some(WaylandTool::Wtype));
    let y = ToolAvailability { wtype: false, ydotool: true, xdotool: true };
    assert_eq!(TextInjector::detect_wayland_tool(y), Some(WaylandTool::Ydotool));
    assert_eq!(TextInjector::detect_wayland_tool(NONE), None);
    let inj = TextInjector::new(Some("x11"), false, ALL);
    assert_eq!(inj.display_server(), DisplayServer::X11);
}

#[test]
fn typing_commands() {
    let x = TextInjector::with_display_server(DisplayServer::X11, NONE);
    let c = x.type_text("hi there").unwrap().unwrap();
    assert_eq!(c.program, "xdotool");
    assert_eq!(c.args, args(&["type", "--clearmodifiers", "--", "hi there"]));
    assert!(x.type_text("").unwrap().is_none());
    let w = TextInjector::with_display_server(DisplayServer::Wayland, ALL);
    let c = w.type_text("hi").unwrap().unwrap();
    assert_eq!((c.program.as_str(), c.args), ("wtype", args(&["--", "hi"])));
    let none = TextInjector::with_display_server(DisplayServer::Wayland, NONE);
    assert_eq!(none.type_text("hi").unwrap_err(), InjectionError::NoWaylandTool);
}

#[test]
fn key_commands() {
    let w = TextInjector::with_display_server(DisplayServer::Wayland, ALL);
    let c = w.send_keys("Ctrl+Shift+z").unwrap();
    assert_eq!(c.program, "wtype");
    assert_eq!(c.args, args(&["-M", "ctrl", "-M", "shift", "-k", "z", "-m", "shift", "-m", "ctrl"]));
    let y = TextInjector::with_display_server(
        DisplayServer::Wayland,
        ToolAvailability { wtype: false, ydotool: true, xdotool: false },
    );
    assert_eq!(y.send_keys("ctrl+a").unwrap().args, args(&["key", "ctrl+a"]));
    let (mods, key) = TextInjector::parse_key_combo("BackSpace");
    assert!(mods.is_empty());
    assert_eq!(key, "BackSpace");
}

#[test]
fn actions_map_to_keys() {
    let x = TextInjector::with_display_server(DisplayServer::X11, NONE);
    let c = x.execute_action("undo_that").unwrap().unwrap();
    assert_eq!(c.args, args(&["key", "--clearmodifiers", "ctrl+z"]));
    let d = x.execute_action("scratch_that").unwrap().unwrap();
    assert_eq!(d.args, args(&["key", "--clearmodifiers", "BackSpace"]));
    assert!(x.execute_action("capitalize").unwrap().is_none());
    let none = TextInjector::with_display_server(DisplayServer::Wayland, NONE);
    assert_eq!(none.execute_action("paste").unwrap_err(), InjectionError::NoWaylandTool);
}
