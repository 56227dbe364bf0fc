use plan_monitor::geometry::Point;
use plan_monitor::overlay::{
    adjust_size, clamp_to_monitor, create_overlay, initial_position, pin_state_script,
    show_initial, toggle_pin, Monitor, OverlayState, EXPANDED_H, EXPANDED_W,
};
use plan_monitor::tray::{
    build_menu, menu_command, toggle_window, toggle_window_with_recovery, MenuCommand,
    WindowAction, MENU_DELAY,
};
use plan_monitor::window::{
    create_control_panel, hide_control_panel, on_control_closed, show_control_panel,
};

fn screen() -> Monitor {
    Monitor { x: 0, y: 0, width: 1920, height: 1080 }
}

#[test]
fn control_panel_has_a_fixed_size() {
    let w = create_control_panel();
    assert_eq!((w.label, w.page, w.title), ("control", "control.html", "Code Plan 套餐余量监控"));
    assert_eq!((w.width, w.height), (460, 320));
    assert!(w.centered && !w.resizable && w.visible && w.decorations);
}

#[test]
fn control_panel_is_hidden_instead_of_closed() {
    let a = on_control_closed();
    assert!(a.prevent_close);
    assert_eq!(a.actions, vec![WindowAction::Hide]);
    assert_eq!(hide_control_panel(), vec![WindowAction::Hide]);
    assert_eq!(show_control_panel(), vec![WindowAction::Show, WindowAction::Focus]);
}

#[test]
fn overlay_is_made_hidden() {
    let w = create_overlay(false);
    assert_eq!((w.label, w.page, w.title), ("overlay", "overlay.html", "Code Plan 套餐余量监控"));
    assert_eq!((w.width, w.height), (EXPANDED_W, EXPANDED_H));
    assert_eq!((EXPANDED_W, EXPANDED_H), (340, 250));
    assert!(!w.visible && w.transparent && w.always_on_top && !w.resizable && !w.decorations);
    assert!(!w.shadow && !w.skip_taskbar && !w.maximizable && !w.minimizable);
    let w = create_overlay(true);
    assert!(w.shadow && w.skip_taskbar);
}

#[test]
fn overlay_starts_at_the_lower_right() {
    assert_eq!(initial_position(&screen()), Point { x: 1560, y: 810 });
    let left = Monitor { x: -1920, y: 100, width: 1920, height: 1080 };
    assert_eq!(initial_position(&left), Point { x: -360, y: 910 });
}

#[test]
fn overlay_starts_at_the_corner_of_a_small_monitor() {
    let small = Monitor { x: 5, y: 7, width: 300, height: 200 };
    assert_eq!(initial_position(&small), Point { x: 5, y: 7 });
}

#[test]
fn overlay_start_is_on_the_monitor() {
    for m in [screen(), Monitor { x: -7, y: 3, width: 350, height: 260 }] {
        let p = initial_position(&m);
        assert_eq!(clamp_to_monitor(&m, &p, EXPANDED_W, EXPANDED_H), None);
    }
}

#[test]
fn dragged_window_is_kept_on_the_monitor() {
    let m = screen();
    let p = Point { x: 1900, y: -5 };
    assert_eq!(clamp_to_monitor(&m, &p, 340, 250), Some(Point { x: 1580, y: 0 }));
    assert_eq!(clamp_to_monitor(&m, &Point { x: 1580, y: 0 }, 340, 250), None);
    let p = Point { x: -1, y: 2000 };
    assert_eq!(clamp_to_monitor(&m, &p, 340, 250), Some(Point { x: 0, y: 830 }));
    assert_eq!(clamp_to_monitor(&m, &Point { x: 100, y: 100 }, 340, 250), None);
}

#[test]
fn large_window_is_kept_at_the_corner() {
    let m = screen();
    let p = Point { x: 10, y: 10 };
    assert_eq!(clamp_to_monitor(&m, &p, 4000, 250), Some(Point { x: 0, y: 10 }));
}

#[test]
fn overlay_is_shown_first() {
    assert_eq!(show_initial(false), vec![WindowAction::Show, WindowAction::Focus]);
    assert_eq!(
        show_initial(true),
        vec![
            WindowAction::KeepOnTop,
            WindowAction::ListInTaskbar,
            WindowAction::Show,
            WindowAction::Focus,
        ]
    );
}

#[test]
fn data_shows_the_overlay_once() {
    let data: serde_json::Value = serde_json::from_str("{ \"b\" : [1, true],\"a\":null }").unwrap();
    let mut s = OverlayState::new();
    let first = s.push_provider_data(&data);
    assert_eq!(first.script, "window.updateProviderData({\"a\":null,\"b\":[1,true]});");
    assert!(first.show);
    for _ in 0..3 {
        let next = s.push_provider_data(&data);
        assert_eq!(next.script, first.script);
        assert!(!next.show);
    }
}

#[test]
fn size_is_read_from_an_event() {
    assert_eq!(adjust_size("{\"width\":340,\"height\":412}"), Some((340, 412)));
    assert_eq!(adjust_size("{\"width\":340}"), None);
    assert_eq!(adjust_size("{\"width\":340.5,\"height\":412}"), None);
    assert_eq!(adjust_size("{\"width\":-1,\"height\":412}"), None);
    assert_eq!(adjust_size("[340,412]"), None);
    assert_eq!(adjust_size("{\"width\":340,"), None);
}

#[test]
fn pin_is_turned_over() {
    assert_eq!(pin_state_script(true), "window.updatePinState(true);");
    assert_eq!(pin_state_script(false), "window.updatePinState(false);");
    assert_eq!(toggle_pin(true), (false, "window.updatePinState(false);".to_string()));
    assert_eq!(toggle_pin(false), (true, "window.updatePinState(true);".to_string()));
}

#[test]
fn windows_are_switched() {
    assert_eq!(toggle_window(Some(true)), vec![WindowAction::Hide]);
    assert_eq!(toggle_window(Some(false)), vec![WindowAction::Show, WindowAction::Focus]);
    assert_eq!(toggle_window(None), vec![WindowAction::Show, WindowAction::Focus]);
}

#[test]
fn overlay_is_switched_with_recovery() {
    assert_eq!(toggle_window_with_recovery(Some(true), true), vec![WindowAction::Hide]);
    assert_eq!(
        toggle_window_with_recovery(Some(false), false),
        vec![WindowAction::Show, WindowAction::Focus]
    );
    assert_eq!(
        toggle_window_with_recovery(None, true),
        vec![
            WindowAction::ListInTaskbar,
            WindowAction::KeepOnTop,
            WindowAction::Show,
            WindowAction::Focus,
            WindowAction::FocusAfter(50),
        ]
    );
}

#[test]
fn menu_marks_visible_windows() {
    let entries: Vec<(&str, &str)> =
        build_menu(Some(true), None).iter().map(|e| (e.id, e.text)).collect();
    assert_eq!(
        entries,
        vec![("toggle_control", "控制面板 ●"), ("toggle_overlay", "悬浮窗 ○"), ("quit", "退出")]
    );
    let entries: Vec<&str> = build_menu(Some(false), Some(true)).iter().map(|e| e.text).collect();
    assert_eq!(entries, vec!["控制面板 ○", "悬浮窗 ●", "退出"]);
    assert_eq!(MENU_DELAY, 100);
}

#[test]
fn menu_entries_have_commands() {
    let commands: Vec<MenuCommand> =
        build_menu(None, None).iter().map(|e| menu_command(e.id)).collect();
    assert_eq!(
        commands,
        vec![MenuCommand::ToggleControl, MenuCommand::ToggleOverlay, MenuCommand::Quit]
    );
    assert_eq!(menu_command("other"), MenuCommand::Ignore);
}
