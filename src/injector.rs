//! Text injection planning: which tool types text or sends keys on the
//! current display server, and with which command line. Running the
//! command is the caller's work.

use vstd::prelude::*;
use crate::command_processor::{lower_of, lowercase, strings_view};
use crate::text::{chars_equal, chars_of, split, split_on, string_of};

verus! {

/// Display server type.
#[derive(Debug, Clone, Copy, PartialEq, Eq, Structural)]
pub enum DisplayServer {
    X11,
    Wayland,
}

/// Tool used to inject input under Wayland.
#[derive(Debug, Clone, Copy, PartialEq, Eq, Structural)]
pub enum WaylandTool {
    Wtype,
    Ydotool,
    /// xdotool through XWayland.
    XdotoolFallback,
}

/// Which injection tools are installed.
#[derive(Debug, Clone, Copy, PartialEq, Eq, Structural)]
pub struct ToolAvailability {
    pub wtype: bool,
    pub ydotool: bool,
    pub xdotool: bool,
}

/// Why no command could be planned.
#[derive(Debug, Clone, Copy, PartialEq, Eq, Structural)]
pub enum InjectionError {
    /// Under Wayland with none of wtype, ydotool or xdotool installed.
    NoWaylandTool,
}

/// A command to run: program and arguments.
#[derive(Debug, Clone, PartialEq)]
pub struct InjectCommand {
    pub program: String,
    pub args: Vec<String>,
}

/// A command as characters.
pub struct CommandView {
    pub program: Seq<char>,
    pub args: Seq<Seq<char>>,
}

impl View for InjectCommand {
    type V = CommandView;

    open spec fn view(&self) -> CommandView {
        CommandView { program: self.program@, args: strings_view(self.args@) }
    }
}

/// The display server named by `XDG_SESSION_TYPE` (any case), else Wayland
/// when `WAYLAND_DISPLAY` is set, else X11.
pub open spec fn display_server_from(session_type: Option<Seq<char>>, wayland_display_set: bool) -> DisplayServer {
    match session_type {
        Some(t) if lower_of(t) == "wayland"@ => DisplayServer::Wayland,
        Some(t) if lower_of(t) == "x11"@ => DisplayServer::X11,
        _ => if wayland_display_set { DisplayServer::Wayland } else { DisplayServer::X11 },
    }
}

/// The preferred Wayland tool among those installed: wtype, then ydotool,
/// then xdotool.
pub open spec fn preferred_tool(t: ToolAvailability) -> Option<WaylandTool> {
    if t.wtype {
        Some(WaylandTool::Wtype)
    } else if t.ydotool {
        Some(WaylandTool::Ydotool)
    } else if t.xdotool {
        Some(WaylandTool::XdotoolFallback)
    } else {
        None
    }
}

/// Modifier names of a key combination (before the last `+`, lower case)
/// and its key (after the last `+`).
pub open spec fn key_combo(keys: Seq<char>) -> (Seq<Seq<char>>, Seq<char>) {
    let parts = split_on(keys, '+');
    if parts.len() == 1 {
        (Seq::empty(), parts[0])
    } else {
        (parts.drop_last().map_values(|p: Seq<char>| lower_of(p)), parts.last())
    }
}

/// `flag m` for each modifier, in order.
pub open spec fn press_flags(mods: Seq<Seq<char>>) -> Seq<Seq<char>>
    decreases mods.len(),
{
    if mods.len() == 0 {
        Seq::empty()
    } else {
        press_flags(mods.drop_last()) + seq!["-M"@, mods.last()]
    }
}

/// `-m m` for each modifier, in reverse order.
pub open spec fn release_flags(mods: Seq<Seq<char>>) -> Seq<Seq<char>>
    decreases mods.len(),
{
    if mods.len() == 0 {
        Seq::empty()
    } else {
        release_flags(mods.drop_first()) + seq!["-m"@, mods[0]]
    }
}

/// The xdotool command that types `text`.
pub open spec fn xdotool_type(text: Seq<char>) -> CommandView {
    CommandView { program: "xdotool"@, args: seq!["type"@, "--clearmodifiers"@, "--"@, text] }
}

/// The xdotool command that sends `keys`.
pub open spec fn xdotool_key(keys: Seq<char>) -> CommandView {
    CommandView { program: "xdotool"@, args: seq!["key"@, "--clearmodifiers"@, keys] }
}

/// The key combination an action sends, if the action is known.
pub open spec fn action_keys(action: Seq<char>) -> Option<Seq<char>> {
    if action == "delete_that"@ || action == "scratch_that"@ {
        Some("BackSpace"@)
    } else if action == "undo"@ || action == "undo_that"@ {
        Some("ctrl+z"@)
    } else if action == "redo"@ || action == "redo_that"@ {
        Some("ctrl+y"@)
    } else if action == "select_all"@ {
        Some("ctrl+a"@)
    } else if action == "copy"@ || action == "copy_that"@ {
        Some("ctrl+c"@)
    } else if action == "cut"@ || action == "cut_that"@ {
        Some("ctrl+x"@)
    } else if action == "paste"@ || action == "paste_that"@ {
        Some("ctrl+v"@)
    } else {
        None
    }
}

/// Text injector for typing text into applications.
pub struct TextInjector {
    display_server: DisplayServer,
    wayland_tool: Option<WaylandTool>,
}

pub struct InjectorView {
    pub display_server: DisplayServer,
    pub wayland_tool: Option<WaylandTool>,
}

impl View for TextInjector {
    type V = InjectorView;

    closed spec fn view(&self) -> InjectorView {
        InjectorView { display_server: self.display_server, wayland_tool: self.wayland_tool }
    }
}

/// The command that types `text` with this injector.
pub open spec fn type_command(v: InjectorView, text: Seq<char>) -> Option<CommandView> {
    if v.display_server == DisplayServer::X11 {
        Some(xdotool_type(text))
    } else {
        match v.wayland_tool {
            Some(WaylandTool::Wtype) => Some(CommandView { program: "wtype"@, args: seq!["--"@, text] }),
            Some(WaylandTool::Ydotool) => Some(CommandView { program: "ydotool"@, args: seq!["type"@, "--"@, text] }),
            Some(WaylandTool::XdotoolFallback) => Some(xdotool_type(text)),
            None => None,
        }
    }
}

/// The command that sends `keys` with this injector.
pub open spec fn key_command(v: InjectorView, keys: Seq<char>) -> Option<CommandView> {
    if v.display_server == DisplayServer::X11 {
        Some(xdotool_key(keys))
    } else {
        match v.wayland_tool {
            Some(WaylandTool::Wtype) => {
                let (mods, key) = key_combo(keys);
                Some(CommandView {
                    program: "wtype"@,
                    args: press_flags(mods) + seq!["-k"@, key] + release_flags(mods),
                })
            },
            Some(WaylandTool::Ydotool) => Some(CommandView { program: "ydotool"@, args: seq!["key"@, keys] }),
            Some(WaylandTool::XdotoolFallback) => Some(xdotool_key(keys)),
            None => None,
        }
    }
}

fn strs(a: &'static str, b: &'static str) -> (r: Vec<String>)
    ensures
        strings_view(r@) == seq![a@, b@],
{
    let mut v: Vec<String> = Vec::new();
    v.push(String::from_str(a));
    v.push(String::from_str(b));
    proof {
        assert(strings_view(v@) =~= seq![a@, b@]);
    }
    v
}

fn command(program: &'static str, args: Vec<String>) -> (r: InjectCommand)
    ensures
        r@ == (CommandView { program: program@, args: strings_view(args@) }),
{
    InjectCommand { program: String::from_str(program), args }
}

fn push_arg(v: &mut Vec<String>, s: String)
    ensures
        strings_view(final(v)@) == strings_view(old(v)@).push(s@),
{
    let ghost before = v@;
    v.push(s);
    proof {
        assert(strings_view(v@) =~= strings_view(before).push(s@));
    }
}

fn xdotool_type_command(t: String) -> (r: InjectCommand)
    ensures
        r@ == xdotool_type(t@),
{
    let mut a = strs("type", "--clearmodifiers");
    push_arg(&mut a, String::from_str("--"));
    push_arg(&mut a, t);
    let r = command("xdotool", a);
    proof {
        assert(r@.args =~= xdotool_type(t@).args);
    }
    r
}

fn xdotool_key_command(k: &str) -> (r: InjectCommand)
    ensures
        r@ == xdotool_key(k@),
{
    let mut a = strs("key", "--clearmodifiers");
    push_arg(&mut a, String::from_str(k));
    let r = command("xdotool", a);
    proof {
        assert(r@.args =~= xdotool_key(k@).args);
    }
    r
}

fn same(a: &str, b: &'static str) -> (r: bool)
    ensures
        r == (a@ == b@),
{
    chars_equal(&chars_of(a), &chars_of(b))
}

impl DisplayServer {
    /// The display server named by the session type, as
    /// `display_server_from` states.
    pub fn detect(session_type: Option<&str>, wayland_display_set: bool) -> (r: Self)
        ensures
            r == display_server_from(
                match session_type { Some(t) => Some(t@), None => None },
                wayland_display_set,
            ),
    {
        if let Some(t) = session_type {
            let lower = lowercase(t);
            if same(lower.as_str(), "wayland") {
                return DisplayServer::Wayland;
            }
            if same(lower.as_str(), "x11") {
                return DisplayServer::X11;
            }
        }
        if wayland_display_set { DisplayServer::Wayland } else { DisplayServer::X11 }
    }
}

impl TextInjector {
    /// An injector for the detected display server, using the preferred
    /// Wayland tool under Wayland.
    pub fn new(session_type: Option<&str>, wayland_display_set: bool, tools: ToolAvailability) -> (r: Self)
        ensures
            r@.display_server == display_server_from(
                match session_type { Some(t) => Some(t@), None => None },
                wayland_display_set,
            ),
            r@.wayland_tool == (if r@.display_server == DisplayServer::Wayland {
                preferred_tool(tools)
            } else {
                None
            }),
    {
        Self::with_display_server(DisplayServer::detect(session_type, wayland_display_set), tools)
    }

    /// An injector for the given display server.
    pub fn with_display_server(display_server: DisplayServer, tools: ToolAvailability) -> (r: Self)
        ensures
            r@.display_server == display_server,
            r@.wayland_tool == (if display_server == DisplayServer::Wayland {
                preferred_tool(tools)
            } else {
                None
            }),
    {
        let wayland_tool = if display_server == DisplayServer::Wayland {
            Self::detect_wayland_tool(tools)
        } else {
            None
        };
        TextInjector { display_server, wayland_tool }
    }

    /// The preferred Wayland tool among those installed.
    pub fn detect_wayland_tool(tools: ToolAvailability) -> (r: Option<WaylandTool>)
        ensures
            r == preferred_tool(tools),
    {
        if tools.wtype {
            Some(WaylandTool::Wtype)
        } else if tools.ydotool {
            Some(WaylandTool::Ydotool)
        } else if tools.xdotool {
            Some(WaylandTool::XdotoolFallback)
        } else {
            None
        }
    }

    /// The command that types `text`: none for empty text, an error under
    /// Wayland without a tool.
    pub fn type_text(&self, text: &str) -> (r: Result<Option<InjectCommand>, InjectionError>)
        ensures
            text@.len() == 0 ==> r matches Ok(None),
            text@.len() > 0 ==> match type_command(self@, text@) {
                Some(c) => r matches Ok(Some(x)) && x@ == c,
                None => r == Err::<Option<InjectCommand>, InjectionError>(InjectionError::NoWaylandTool),
            },
    {
        if text.is_empty() {
            return Ok(None);
        }
        let t = String::from_str(text);
        match self.display_server {
            DisplayServer::X11 => Ok(Some(xdotool_type_command(t))),
            DisplayServer::Wayland => match self.wayland_tool {
                Some(WaylandTool::Wtype) => {
                    let mut a: Vec<String> = Vec::new();
                    push_arg(&mut a, String::from_str("--"));
                    push_arg(&mut a, t);
                    let c = command("wtype", a);
                    proof {
                        assert(c@.args =~= seq!["--"@, text@]);
                    }
                    Ok(Some(c))
                },
                Some(WaylandTool::Ydotool) => {
                    let mut a = strs("type", "--");
                    push_arg(&mut a, t);
                    let c = command("ydotool", a);
                    proof {
                        assert(c@.args =~= seq!["type"@, "--"@, text@]);
                    }
                    Ok(Some(c))
                },
                Some(WaylandTool::XdotoolFallback) => Ok(Some(xdotool_type_command(t))),
                None => Err(InjectionError::NoWaylandTool),
            },
        }
    }

    /// Modifiers and key of a combination such as `ctrl+shift+z`, as
    /// `key_combo` states.
    pub fn parse_key_combo(keys: &str) -> (r: (Vec<String>, String))
        ensures
            strings_view(r.0@) == key_combo(keys@).0,
            r.1@ == key_combo(keys@).1,
    {
        let parts = split(&chars_of(keys), '+');
        let ghost pv = parts@.map_values(|p: Vec<char>| p@);
        let n = parts.len();
        proof {
            assert(pv.len() == n);
            assert(pv[n - 1] == parts@[n - 1]@);
        }
        if n == 1 {
            let mods: Vec<String> = Vec::new();
            proof {
                assert(strings_view(mods@) =~= Seq::<Seq<char>>::empty());
            }
            return (mods, string_of(&parts[0]));
        }
        let mut mods: Vec<String> = Vec::new();
        let mut i: usize = 0;
        while i < n - 1
            invariant
                n == parts@.len(),
                n > 1,
                pv == parts@.map_values(|p: Vec<char>| p@),
                i <= n - 1,
                strings_view(mods@) == pv.drop_last().subrange(0, i as int).map_values(
                    |p: Seq<char>| lower_of(p),
                ),
            decreases n - 1 - i,
        {
            let piece = string_of(&parts[i]);
            let low = lowercase(piece.as_str());
            proof {
                assert(pv.drop_last()[i as int] == parts@[i as int]@);
                assert(pv.drop_last().subrange(0, i as int + 1).map_values(|p: Seq<char>| lower_of(p))
                    =~= pv.drop_last().subrange(0, i as int).map_values(|p: Seq<char>| lower_of(p)).push(
                    lower_of(pv.drop_last()[i as int]),
                ));
            }
            push_arg(&mut mods, low);
            i = i + 1;
        }
        proof {
            assert(pv.drop_last().subrange(0, n - 1) =~= pv.drop_last());
        }
        (mods, string_of(&parts[n - 1]))
    }

    /// The command that sends a key combination such as `ctrl+z`; an error
    /// under Wayland without a tool.
    pub fn send_keys(&self, keys: &str) -> (r: Result<InjectCommand, InjectionError>)
        ensures
            match key_command(self@, keys@) {
                Some(c) => r matches Ok(x) && x@ == c,
                None => r == Err::<InjectCommand, InjectionError>(InjectionError::NoWaylandTool),
            },
    {
        match self.display_server {
            DisplayServer::X11 => Ok(xdotool_key_command(keys)),
            DisplayServer::Wayland => match self.wayland_tool {
                Some(WaylandTool::Wtype) => {
                    let (mods, key) = Self::parse_key_combo(keys);
                    let ghost mv = strings_view(mods@);
                    let mut a: Vec<String> = Vec::new();
                    let mut i: usize = 0;
                    while i < mods.len()
                        invariant
                            i <= mods@.len(),
                            mv == strings_view(mods@),
                            strings_view(a@) == press_flags(mv.subrange(0, i as int)),
                        decreases mods@.len() - i,
                    {
                        proof {
                            let t = mv.subrange(0, i as int + 1);
                            assert(t.drop_last() =~= mv.subrange(0, i as int));
                            assert(t.last() == mods@[i as int]@);
                        }
                        push_arg(&mut a, String::from_str("-M"));
                        push_arg(&mut a, mods[i].clone());
                        proof {
                            assert(strings_view(a@) =~= press_flags(mv.subrange(0, i as int + 1)));
                        }
                        i = i + 1;
                    }
                    proof {
                        assert(mv.subrange(0, mods@.len() as int) =~= mv);
                    }
                    push_arg(&mut a, String::from_str("-k"));
                    push_arg(&mut a, key);
                    let ghost head = strings_view(a@);
                    let n = mods.len();
                    let mut j: usize = n;
                    proof {
                        assert(mv.subrange(n as int, n as int) =~= Seq::<Seq<char>>::empty());
                        assert(strings_view(a@) =~= head + release_flags(mv.subrange(n as int, n as int)));
                    }
                    while j > 0
                        invariant
                            j <= n,
                            n == mods@.len(),
                            mv == strings_view(mods@),
                            strings_view(a@) == head + release_flags(mv.subrange(j as int, n as int)),
                        decreases j,
                    {
                        proof {
                            let t = mv.subrange(j - 1, n as int);
                            assert(t.drop_first() =~= mv.subrange(j as int, n as int));
                            assert(t[0] == mods@[j - 1]@);
                        }
                        push_arg(&mut a, String::from_str("-m"));
                        push_arg(&mut a, mods[j - 1].clone());
                        j = j - 1;
                        proof {
                            assert(strings_view(a@) =~= head + release_flags(mv.subrange(j as int, n as int)));
                        }
                    }
                    proof {
                        assert(mv.subrange(0, n as int) =~= mv);
                        assert(head =~= press_flags(mv) + seq!["-k"@, key@]);
                        assert(strings_view(a@) =~= press_flags(mv) + seq!["-k"@, key@] + release_flags(mv));
                    }
                    Ok(command("wtype", a))
                },
                Some(WaylandTool::Ydotool) => {
                    let mut a: Vec<String> = Vec::new();
                    push_arg(&mut a, String::from_str("key"));
                    push_arg(&mut a, String::from_str(keys));
                    let c = command("ydotool", a);
                    proof {
                        assert(c@.args =~= seq!["key"@, keys@]);
                    }
                    Ok(c)
                },
                Some(WaylandTool::XdotoolFallback) => Ok(xdotool_key_command(keys)),
                None => Err(InjectionError::NoWaylandTool),
            },
        }
    }

    /// The command for an action name: the key combination of
    /// `action_keys`, none for an unknown action.
    pub fn execute_action(&self, action: &str) -> (r: Result<Option<InjectCommand>, InjectionError>)
        ensures
            match action_keys(action@) {
                None => r matches Ok(None),
                Some(k) => match key_command(self@, k) {
                    Some(c) => r matches Ok(Some(x)) && x@ == c,
                    None => r == Err::<Option<InjectCommand>, InjectionError>(InjectionError::NoWaylandTool),
                },
            },
    {
        let keys: &'static str = if same(action, "delete_that") || same(action, "scratch_that") {
            "BackSpace"
        } else if same(action, "undo") || same(action, "undo_that") {
            "ctrl+z"
        } else if same(action, "redo") || same(action, "redo_that") {
            "ctrl+y"
        } else if same(action, "select_all") {
            "ctrl+a"
        } else if same(action, "copy") || same(action, "copy_that") {
            "ctrl+c"
        } else if same(action, "cut") || same(action, "cut_that") {
            "ctrl+x"
        } else if same(action, "paste") || same(action, "paste_that") {
            "ctrl+v"
        } else {
            return Ok(None);
        };
        match self.send_keys(keys) {
            Ok(c) => Ok(Some(c)),
            Err(e) => Err(e),
        }
    }

    pub fn display_server(&self) -> (r: DisplayServer)
        ensures
            r == self@.display_server,
    {
        self.display_server
    }
}

} // verus!
