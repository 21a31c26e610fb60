//! The desktop lifecycle controller: the state machine that routes tray,
//! menu, window-close and UI events to window actions and to process exit.
//!
//! The host toolkit owns the real tray icon and window; it feeds each event
//! to [`step`] and performs the returned [`HostAction`]. The rules are:
//! selecting `quit` exits the process with status 0; selecting `show`, a
//! left-click release on the tray icon, and the UI's show command all make
//! the window visible and focused; a close request is cancelled and hides
//! the window instead; everything else is ignored.

use vstd::prelude::*;

verus! {

/// The main window's observable state.
#[derive(PartialEq, Eq, Structural, Debug, Clone, Copy)]
pub struct WindowState {
    pub visible: bool,
    pub focused: bool,
}

/// The host's state: the main window, when its handle is available, and the
/// requested exit status, `None` while the process is to keep running.
#[derive(PartialEq, Eq, Debug, Clone)]
pub struct HostState {
    pub window: Option<WindowState>,
    pub exit_code: Option<i32>,
}

/// Which mouse button a tray-icon click used.
pub enum TrayButton {
    Left,
    Right,
    Middle,
}

/// Whether the tray-icon click was the press or the release.
pub enum TrayButtonState {
    Up,
    Down,
}

/// One event the host toolkit can deliver.
pub enum HostEvent {
    /// A tray menu entry was selected, by its identifier.
    MenuSelected(String),
    /// The tray icon was clicked.
    TrayClick(TrayButton, TrayButtonState),
    /// Any other tray-icon event (hover, move, double click).
    TrayOther,
    /// The user asked to close the main window.
    CloseRequested,
    /// The embedded UI asked to show the main window.
    ShowCommand,
}

/// What the host toolkit must do after a step.
#[derive(PartialEq, Eq, Debug, Clone)]
pub enum HostAction {
    /// Make the main window visible, raise it and give it focus.
    ShowAndFocusWindow,
    /// Cancel the pending close and hide the main window instead.
    PreventCloseAndHide,
    /// Terminate the process with this status.
    ExitProcess(i32),
    /// Nothing.
    DoNothing,
}

/// The menu identifier that exits the process.
pub open spec fn quit_id() -> Seq<char> {
    "quit"@
}

/// The menu identifier that shows the main window.
pub open spec fn show_id() -> Seq<char> {
    "show"@
}

/// The events that ask for the main window: the `show` menu entry, a
/// left-click release on the tray icon, and the UI's show command.
pub open spec fn wants_show(e: HostEvent) -> bool {
    match e {
        HostEvent::MenuSelected(id) => id@ == show_id(),
        HostEvent::TrayClick(b, st) => b is Left && st is Up,
        HostEvent::ShowCommand => true,
        _ => false,
    }
}

/// The one event that exits the process: selecting the `quit` menu entry.
pub open spec fn wants_quit(e: HostEvent) -> bool {
    e matches HostEvent::MenuSelected(id) && id@ == quit_id()
}

/// A visible, focused window.
pub open spec fn shown_window() -> WindowState {
    WindowState { visible: true, focused: true }
}

/// A hidden window; hiding also takes the focus away.
pub open spec fn hidden_window() -> WindowState {
    WindowState { visible: false, focused: false }
}

/// The state after one event. Quit requests exit with status 0; a show
/// event makes the window visible and focused when its handle is there,
/// and is ignored when it is not; a close request hides the window;
/// anything else changes nothing.
pub open spec fn next_spec(s: HostState, e: HostEvent) -> HostState {
    if wants_quit(e) {
        HostState { exit_code: Some(0), ..s }
    } else if wants_show(e) {
        match s.window {
            Some(_) => HostState { window: Some(shown_window()), ..s },
            None => s,
        }
    } else if e is CloseRequested {
        match s.window {
            Some(_) => HostState { window: Some(hidden_window()), ..s },
            None => s,
        }
    } else {
        s
    }
}

/// The action the host toolkit must perform for one event.
pub open spec fn action_spec(s: HostState, e: HostEvent) -> HostAction {
    if wants_quit(e) {
        HostAction::ExitProcess(0)
    } else if wants_show(e) {
        match s.window {
            Some(_) => HostAction::ShowAndFocusWindow,
            None => HostAction::DoNothing,
        }
    } else if e is CloseRequested {
        HostAction::PreventCloseAndHide
    } else {
        HostAction::DoNothing
    }
}

/// Marks the window shown when its handle is available; ignored otherwise.
fn apply_show(s: &mut HostState) -> (a: HostAction)
    ensures
        *final(s) == (match old(s).window {
            Some(_) => HostState { window: Some(shown_window()), ..*old(s) },
            None => *old(s),
        }),
        a == (match old(s).window {
            Some(_) => HostAction::ShowAndFocusWindow,
            None => HostAction::DoNothing,
        }),
{
    match s.window {
        Some(_) => {
            s.window = Some(WindowState { visible: true, focused: true });
            HostAction::ShowAndFocusWindow
        },
        None => HostAction::DoNothing,
    }
}

/// Routes one event: updates the host's state and returns the action the
/// toolkit must perform, exactly as [`next_spec`] and [`action_spec`] say.
pub fn step(s: &mut HostState, e: HostEvent) -> (a: HostAction)
    ensures
        *final(s) == next_spec(*old(s), e),
        a == action_spec(*old(s), e),
{
    match &e {
        HostEvent::MenuSelected(id) => {
            if id.eq(&"quit".to_owned()) {
                s.exit_code = Some(0);
                HostAction::ExitProcess(0)
            } else if id.eq(&"show".to_owned()) {
                apply_show(s)
            } else {
                HostAction::DoNothing
            }
        },
        HostEvent::TrayClick(b, st) => {
            match (b, st) {
                (TrayButton::Left, TrayButtonState::Up) => apply_show(s),
                _ => HostAction::DoNothing,
            }
        },
        HostEvent::ShowCommand => apply_show(s),
        HostEvent::CloseRequested => {
            match s.window {
                Some(_) => {
                    s.window = Some(WindowState { visible: false, focused: false });
                },
                None => {},
            }
            HostAction::PreventCloseAndHide
        },
        HostEvent::TrayOther => HostAction::DoNothing,
    }
}

/// The state after a whole sequence of events, first event first.
pub open spec fn run_spec(s: HostState, evs: Seq<HostEvent>) -> HostState
    decreases evs.len(),
{
    if evs.len() == 0 {
        s
    } else {
        run_spec(next_spec(s, evs[0]), evs.drop_first())
    }
}

/// Closing never exits: any sequence of close requests leaves the exit
/// status as it was — still unset if the process was running — keeps the
/// window's handle, and leaves the window hidden once at least one close
/// was requested.
pub proof fn lemma_close_never_exits(s: HostState, evs: Seq<HostEvent>)
    requires
        forall|i: int| 0 <= i < evs.len() ==> evs[i] is CloseRequested,
    ensures
        run_spec(s, evs).exit_code == s.exit_code,
        run_spec(s, evs).window is Some <==> s.window is Some,
        evs.len() > 0 && s.window is Some ==> run_spec(s, evs).window == Some(hidden_window()),
    decreases evs.len(),
{
    if evs.len() > 0 {
        assert(evs[0] is CloseRequested);
        lemma_close_never_exits(next_spec(s, evs[0]), evs.drop_first());
    }
}

/// Selecting the tray's `quit` entry exits the process with status 0.
pub proof fn lemma_quit_exits(s: HostState, e: HostEvent)
    requires
        wants_quit(e),
    ensures
        next_spec(s, e).exit_code == Some(0i32),
        action_spec(s, e) == HostAction::ExitProcess(0),
{
}

/// A left-click release on the tray icon and selecting the `show` menu
/// entry lead to the same state and demand the same action.
pub proof fn lemma_tray_click_equivalence(s: HostState, id: String)
    requires
        id@ == show_id(),
    ensures
        next_spec(s, HostEvent::TrayClick(TrayButton::Left, TrayButtonState::Up)) == next_spec(
            s,
            HostEvent::MenuSelected(id),
        ),
        action_spec(s, HostEvent::TrayClick(TrayButton::Left, TrayButtonState::Up)) == action_spec(
            s,
            HostEvent::MenuSelected(id),
        ),
{
    lemma_show_is_not_quit();
}

/// The two menu identifiers differ: they disagree in their first character.
proof fn lemma_show_is_not_quit()
    ensures
        show_id() != quit_id(),
{
    reveal_strlit("show");
    reveal_strlit("quit");
    assert(show_id()[0] == 's');
    assert(quit_id()[0] == 'q');
    assert(show_id() != quit_id());
}

/// Showing is idempotent: a second show event, of any of the three shapes,
/// changes nothing once the window is shown.
pub proof fn lemma_show_idempotent(s: HostState, e1: HostEvent, e2: HostEvent)
    requires
        wants_show(e1),
        wants_show(e2),
    ensures
        next_spec(next_spec(s, e1), e2) == next_spec(s, e1),
{
    lemma_show_is_not_quit();
}

/// One entry of the tray menu: a stable identifier and a label; every entry
/// is enabled.
pub struct MenuEntry {
    pub id: String,
    pub label: String,
    pub enabled: bool,
}

/// The fixed tray menu: `show` ("显示主窗口") first, then `quit` ("退出").
/// The identifiers are the ones [`step`] routes: selecting the first entry
/// shows the window, selecting the second exits.
pub fn tray_menu() -> (m: Vec<MenuEntry>)
    ensures
        m@.len() == 2,
        m@[0].id@ == show_id(),
        m@[0].label@ == "显示主窗口"@,
        m@[0].enabled,
        m@[1].id@ == quit_id(),
        m@[1].label@ == "退出"@,
        m@[1].enabled,
        forall|i: int|
            0 <= i < 2 ==> wants_show(HostEvent::MenuSelected(#[trigger] m@[i].id)) == (i == 0),
        forall|i: int|
            0 <= i < 2 ==> wants_quit(HostEvent::MenuSelected(#[trigger] m@[i].id)) == (i == 1),
{
    let show = MenuEntry { id: "show".to_owned(), label: "显示主窗口".to_owned(), enabled: true };
    let quit = MenuEntry { id: "quit".to_owned(), label: "退出".to_owned(), enabled: true };
    let mut m: Vec<MenuEntry> = Vec::new();
    m.push(show);
    m.push(quit);
    proof {
        lemma_show_is_not_quit();
    }
    m
}

/// The tray icon's fixed tooltip.
pub fn tray_tooltip() -> (r: String)
    ensures
        r@ == "健康提醒助手"@,
{
    "健康提醒助手".to_owned()
}

/// How auto-start registration is configured at startup: launch-agent mode
/// on macOS, and a single extra argument.
pub struct AutostartConfig {
    pub macos_launch_agent: bool,
    pub args: Vec<String>,
}

/// The fixed auto-start configuration: launch-agent mode on macOS (other
/// platforms take their default), and the one extra argument `--silent`, so
/// a boot-time relaunch can suppress showing the window.
pub fn autostart_config() -> (c: AutostartConfig)
    ensures
        c.macos_launch_agent,
        c.args@.len() == 1,
        c.args@[0]@ == "--silent"@,
{
    let mut args: Vec<String> = Vec::new();
    args.push("--silent".to_owned());
    AutostartConfig { macos_launch_agent: true, args }
}

/// The host's state at startup: the window handle is there, the window is
/// visible and focused, and no exit has been requested.
pub fn initial_state() -> (s: HostState)
    ensures
        s.window == Some(shown_window()),
        s.exit_code is None,
{
    HostState { window: Some(WindowState { visible: true, focused: true }), exit_code: None }
}

} // verus!
