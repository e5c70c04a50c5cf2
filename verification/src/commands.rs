use vstd::prelude::*;
use crate::text::text_equals;

verus! {

/// The program that the shell line of a command runs under.
pub const WINDOWS_SHELL: &'static str = "cmd";
/// The flag that hands a line to the Windows shell.
pub const WINDOWS_SHELL_FLAG: &'static str = "/C";
/// The shell used elsewhere.
pub const UNIX_SHELL: &'static str = "/bin/zsh";
/// The flags that hand a line to the login shell.
pub const UNIX_SHELL_FLAG: &'static str = "-lc";

/// The Windows shell line that runs the gateway, after checking that `openclaw` is on the path.
pub const WINDOWS_GATEWAY_LINE: &'static str = "where openclaw >nul 2>nul || (echo openclaw command not found in PATH 1>&2 & exit /b 127) && openclaw gateway";
/// The Windows shell line that runs the dashboard.
pub const WINDOWS_DASHBOARD_LINE: &'static str = "where openclaw >nul 2>nul || (echo openclaw command not found in PATH 1>&2 & exit /b 127) && openclaw dashboard";
/// The login-shell line that runs the gateway, after checking that `openclaw` is on the path.
pub const UNIX_GATEWAY_LINE: &'static str = "command -v openclaw >/dev/null 2>&1 || { echo 'openclaw command not found in PATH' >&2; exit 127; }; exec openclaw gateway";
/// The login-shell line that runs the dashboard.
pub const UNIX_DASHBOARD_LINE: &'static str = "command -v openclaw >/dev/null 2>&1 || { echo 'openclaw command not found in PATH' >&2; exit 127; }; exec openclaw dashboard";

/// How to run a command: the program, its arguments, and whether its
/// standard output and error are piped back (else they are discarded).
/// Its standard input is always empty.
#[derive(Debug)]
pub struct CommandLine {
    pub program: &'static str,
    pub args: Vec<&'static str>,
    pub capture_output: bool,
}

/// The mathematical value of a command line.
pub struct CommandLineView {
    pub program: Seq<char>,
    pub args: Seq<Seq<char>>,
    pub capture_output: bool,
}

impl View for CommandLine {
    type V = CommandLineView;

    open spec fn view(&self) -> CommandLineView {
        CommandLineView {
            program: self.program@,
            args: self.args@.map_values(|a: &'static str| a@),
            capture_output: self.capture_output,
        }
    }
}

/// The shell invocation of `line` on the given platform.
pub open spec fn shell_line(windows: bool, line: Seq<char>, capture_output: bool) -> CommandLineView {
    if windows {
        CommandLineView {
            program: WINDOWS_SHELL@,
            args: seq![WINDOWS_SHELL_FLAG@, line],
            capture_output,
        }
    } else {
        CommandLineView {
            program: UNIX_SHELL@,
            args: seq![UNIX_SHELL_FLAG@, line],
            capture_output,
        }
    }
}

fn shell(windows: bool, line: &'static str, capture_output: bool) -> (c: CommandLine)
    ensures
        c@ == shell_line(windows, line@, capture_output),
        c.capture_output == capture_output,
        c.program == (if windows { WINDOWS_SHELL } else { UNIX_SHELL }),
        c.args@ == seq![if windows { WINDOWS_SHELL_FLAG } else { UNIX_SHELL_FLAG }, line],
{
    let mut args: Vec<&'static str> = Vec::new();
    let program = if windows {
        args.push(WINDOWS_SHELL_FLAG);
        WINDOWS_SHELL
    } else {
        args.push(UNIX_SHELL_FLAG);
        UNIX_SHELL
    };
    args.push(line);
    let c = CommandLine { program, args, capture_output };
    assert(c.args@ =~= seq![if windows { WINDOWS_SHELL_FLAG } else { UNIX_SHELL_FLAG }, line]);
    assert(c@.args =~= shell_line(windows, line@, capture_output).args);
    c
}

/// How to run the gateway on Windows (`windows`) or elsewhere: through the
/// shell, with its output piped back.
pub fn gateway_command(windows: bool) -> (c: CommandLine)
    ensures
        c@ == shell_line(
            windows,
            if windows { WINDOWS_GATEWAY_LINE@ } else { UNIX_GATEWAY_LINE@ },
            true,
        ),
        c.capture_output,
        c.program == (if windows { WINDOWS_SHELL } else { UNIX_SHELL }),
        c.args@ == seq![
            if windows { WINDOWS_SHELL_FLAG } else { UNIX_SHELL_FLAG },
            if windows { WINDOWS_GATEWAY_LINE } else { UNIX_GATEWAY_LINE },
        ],
{
    if windows {
        shell(true, WINDOWS_GATEWAY_LINE, true)
    } else {
        shell(false, UNIX_GATEWAY_LINE, true)
    }
}

/// How to run the dashboard on Windows (`windows`) or elsewhere: through the
/// shell, with its output discarded.
pub fn dashboard_command(windows: bool) -> (c: CommandLine)
    ensures
        c@ == shell_line(
            windows,
            if windows { WINDOWS_DASHBOARD_LINE@ } else { UNIX_DASHBOARD_LINE@ },
            false,
        ),
        !c.capture_output,
        c.program == (if windows { WINDOWS_SHELL } else { UNIX_SHELL }),
        c.args@ == seq![
            if windows { WINDOWS_SHELL_FLAG } else { UNIX_SHELL_FLAG },
            if windows { WINDOWS_DASHBOARD_LINE } else { UNIX_DASHBOARD_LINE },
        ],
{
    if windows {
        shell(true, WINDOWS_DASHBOARD_LINE, false)
    } else {
        shell(false, UNIX_DASHBOARD_LINE, false)
    }
}

/// The id of the tray icon.
pub const TRAY_ICON_ID: &'static str = "gateway-tray";
/// The tooltip of the tray icon.
pub const TRAY_TOOLTIP: &'static str = "OpenClaw Gateway";
/// The menu item that shows the main window.
pub const TRAY_SHOW_ID: &'static str = "tray.show";
/// The menu item that starts the gateway.
pub const TRAY_START_ID: &'static str = "tray.start";
/// The menu item that stops the gateway.
pub const TRAY_STOP_ID: &'static str = "tray.stop";
/// The menu item that restarts the gateway.
pub const TRAY_RESTART_ID: &'static str = "tray.restart";
/// The menu item that quits the application.
pub const TRAY_QUIT_ID: &'static str = "tray.quit";

/// One entry of the tray menu.
#[derive(Clone, Copy, Debug)]
pub enum TrayMenuEntry {
    Item { id: &'static str, label: &'static str },
    Separator,
}

/// The mathematical value of a tray menu entry.
pub enum TrayMenuEntryView {
    Item { id: Seq<char>, label: Seq<char> },
    Separator,
}

impl View for TrayMenuEntry {
    type V = TrayMenuEntryView;

    open spec fn view(&self) -> TrayMenuEntryView {
        match self {
            TrayMenuEntry::Item { id, label } => TrayMenuEntryView::Item { id: id@, label: label@ },
            TrayMenuEntry::Separator => TrayMenuEntryView::Separator,
        }
    }
}

/// The tray menu, top to bottom.
pub open spec fn tray_menu_spec() -> Seq<TrayMenuEntryView> {
    seq![
        TrayMenuEntryView::Item { id: TRAY_SHOW_ID@, label: "显示主窗口"@ },
        TrayMenuEntryView::Separator,
        TrayMenuEntryView::Item { id: TRAY_START_ID@, label: "启动网关"@ },
        TrayMenuEntryView::Item { id: TRAY_STOP_ID@, label: "停止网关"@ },
        TrayMenuEntryView::Item { id: TRAY_RESTART_ID@, label: "重新启动网关"@ },
        TrayMenuEntryView::Separator,
        TrayMenuEntryView::Item { id: TRAY_QUIT_ID@, label: "退出"@ },
    ]
}

/// The entries of the tray menu, top to bottom.
pub fn tray_menu() -> (m: Vec<TrayMenuEntry>)
    ensures
        m@.map_values(|e: TrayMenuEntry| e@) == tray_menu_spec(),
{
    let mut m: Vec<TrayMenuEntry> = Vec::new();
    m.push(TrayMenuEntry::Item { id: TRAY_SHOW_ID, label: "显示主窗口" });
    m.push(TrayMenuEntry::Separator);
    m.push(TrayMenuEntry::Item { id: TRAY_START_ID, label: "启动网关" });
    m.push(TrayMenuEntry::Item { id: TRAY_STOP_ID, label: "停止网关" });
    m.push(TrayMenuEntry::Item { id: TRAY_RESTART_ID, label: "重新启动网关" });
    m.push(TrayMenuEntry::Separator);
    m.push(TrayMenuEntry::Item { id: TRAY_QUIT_ID, label: "退出" });
    assert(m@.map_values(|e: TrayMenuEntry| e@) =~= tray_menu_spec());
    m
}

/// What a click on a tray menu item asks for.
#[derive(Clone, Copy, Debug, PartialEq, Eq, Structural)]
pub enum TrayAction {
    /// Show, unminimize and focus the main window.
    ShowWindow,
    StartGateway,
    StopGateway,
    RestartGateway,
    /// Mark the application as quitting, stop the gateway, and exit.
    Quit,
    /// An item this menu does not know: nothing happens.
    Ignore,
}

/// The action of the menu item with id `id`.
pub open spec fn tray_action_spec(id: Seq<char>) -> TrayAction {
    if id == TRAY_SHOW_ID@ {
        TrayAction::ShowWindow
    } else if id == TRAY_START_ID@ {
        TrayAction::StartGateway
    } else if id == TRAY_STOP_ID@ {
        TrayAction::StopGateway
    } else if id == TRAY_RESTART_ID@ {
        TrayAction::RestartGateway
    } else if id == TRAY_QUIT_ID@ {
        TrayAction::Quit
    } else {
        TrayAction::Ignore
    }
}

/// Decides what the click on the tray menu item with id `id` asks for.
pub fn tray_action(id: &str) -> (a: TrayAction)
    ensures
        a == tray_action_spec(id@),
{
    if text_equals(id, TRAY_SHOW_ID) {
        TrayAction::ShowWindow
    } else if text_equals(id, TRAY_START_ID) {
        TrayAction::StartGateway
    } else if text_equals(id, TRAY_STOP_ID) {
        TrayAction::StopGateway
    } else if text_equals(id, TRAY_RESTART_ID) {
        TrayAction::RestartGateway
    } else if text_equals(id, TRAY_QUIT_ID) {
        TrayAction::Quit
    } else {
        TrayAction::Ignore
    }
}

} // verus!
