use desk_reminder::lifecycle::{
    autostart_config, initial_state, step, tray_menu, tray_tooltip, HostAction, HostEvent,
    HostState, TrayButton, TrayButtonState, WindowState,
};

fn running_with(window: WindowState) -> HostState {
    HostState { window: Some(window), exit_code: None }
}

fn hidden() -> WindowState {
    WindowState { visible: false, focused: false }
}

fn shown() -> WindowState {
    WindowState { visible: true, focused: true }
}

#[test]
fn startup_shows_the_window_and_runs() {
    let s = initial_state();
    assert_eq!(s.window, Some(shown()));
    assert_eq!(s.exit_code, None);
}

#[test]
fn quit_menu_exits_with_zero() {
    let mut s = initial_state();
    let a = step(&mut s, HostEvent::MenuSelected("quit".to_string()));
    assert_eq!(a, HostAction::ExitProcess(0));
    assert_eq!(s.exit_code, Some(0));
}

#[test]
fn close_hides_and_never_exits() {
    let mut s = initial_state();
    for _ in 0..5 {
        let a = step(&mut s, HostEvent::CloseRequested);
        assert_eq!(a, HostAction::PreventCloseAndHide);
        assert_eq!(s.exit_code, None);
        assert_eq!(s.window, Some(hidden()));
    }
}

#[test]
fn tray_left_release_equals_menu_show() {
    let mut by_click = running_with(hidden());
    let mut by_menu = running_with(hidden());
    let a_click = step(
        &mut by_click,
        HostEvent::TrayClick(TrayButton::Left, TrayButtonState::Up),
    );
    let a_menu = step(&mut by_menu, HostEvent::MenuSelected("show".to_string()));
    assert_eq!(a_click, a_menu);
    assert_eq!(by_click, by_menu);
    assert_eq!(by_click.window, Some(shown()));
    assert_eq!(a_click, HostAction::ShowAndFocusWindow);
}

#[test]
fn show_when_already_visible_changes_nothing_more() {
    let mut s = running_with(shown());
    let a = step(
        &mut s,
        HostEvent::TrayClick(TrayButton::Left, TrayButtonState::Up),
    );
    assert_eq!(a, HostAction::ShowAndFocusWindow);
    assert_eq!(s.window, Some(shown()));
    assert_eq!(s.exit_code, None);
}

#[test]
fn show_command_shows_and_focuses() {
    let mut s = running_with(hidden());
    let a = step(&mut s, HostEvent::ShowCommand);
    assert_eq!(a, HostAction::ShowAndFocusWindow);
    assert_eq!(s.window, Some(shown()));
}

#[test]
fn left_press_is_ignored() {
    let mut s = running_with(hidden());
    let a = step(
        &mut s,
        HostEvent::TrayClick(TrayButton::Left, TrayButtonState::Down),
    );
    assert_eq!(a, HostAction::DoNothing);
    assert_eq!(s, running_with(hidden()));
}

#[test]
fn right_click_is_ignored() {
    let mut s = running_with(hidden());
    let a = step(
        &mut s,
        HostEvent::TrayClick(TrayButton::Right, TrayButtonState::Up),
    );
    assert_eq!(a, HostAction::DoNothing);
    assert_eq!(s, running_with(hidden()));
}

#[test]
fn other_tray_events_are_ignored() {
    let mut s = running_with(shown());
    let a = step(&mut s, HostEvent::TrayOther);
    assert_eq!(a, HostAction::DoNothing);
    assert_eq!(s, running_with(shown()));
}

#[test]
fn unknown_menu_id_is_ignored() {
    let mut s = running_with(hidden());
    let a = step(&mut s, HostEvent::MenuSelected("help".to_string()));
    assert_eq!(a, HostAction::DoNothing);
    assert_eq!(s, running_with(hidden()));
}

#[test]
fn show_without_window_handle_is_ignored() {
    let mut s = HostState { window: None, exit_code: None };
    let a = step(&mut s, HostEvent::MenuSelected("show".to_string()));
    assert_eq!(a, HostAction::DoNothing);
    assert_eq!(s, HostState { window: None, exit_code: None });
}

#[test]
fn menu_is_show_then_quit_both_enabled() {
    let m = tray_menu();
    assert_eq!(m.len(), 2);
    assert_eq!(m[0].id, "show");
    assert_eq!(m[0].label, "显示主窗口");
    assert!(m[0].enabled);
    assert_eq!(m[1].id, "quit");
    assert_eq!(m[1].label, "退出");
    assert!(m[1].enabled);
}

#[test]
fn autostart_is_launch_agent_and_silent() {
    let c = autostart_config();
    assert!(c.macos_launch_agent);
    assert_eq!(c.args, vec!["--silent".to_string()]);
}

#[test]
fn tooltip_is_fixed() {
    assert_eq!(tray_tooltip(), "健康提醒助手");
}
