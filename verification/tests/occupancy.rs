use plan_monitor::geometry::Rect;
use plan_monitor::windows_taskbar::occupancy::{
    collect_floating_widgets, collect_taskbar_children, floating_widget_region,
    is_system_window_class, occupied_regions, taskbar_child_region, WindowInfo,
};

fn taskbar() -> Rect {
    Rect { left: 0, top: 1040, right: 1920, bottom: 1080 }
}

fn window(left: i32, top: i32, right: i32, bottom: i32) -> WindowInfo {
    WindowInfo {
        own: false,
        visible: true,
        topmost: true,
        class: Some("TrafficMonitor".to_string()),
        rect: Some(Rect { left, top, right, bottom }),
    }
}

#[test]
fn shell_windows_are_system_windows() {
    for cls in ["Shell_TrayWnd", "TrayNotifyWnd", "Clock", "SPInputMain", "Microsoft IME", "IME"] {
        assert!(is_system_window_class(cls));
    }
}

#[test]
fn families_of_classes_are_system_windows() {
    for cls in [
        "Windows.UI.Core.CoreWindow",
        "Windows.Internal.Shell",
        "My.XamlIsland.1",
        "aXamlb",
        "MSCTFxyz",
        "TF_x",
        "SogouX",
        "BaiduX",
        "IFLYX",
        "FooIMEWndClass",
        "FooInputMain",
        "FooCandWindow",
        "FooCandidateWnd",
    ] {
        assert!(is_system_window_class(cls), "{}", cls);
    }
}

#[test]
fn other_windows_are_no_system_windows() {
    for cls in ["", "TrafficMonitor", "shell_traywnd", "IME2", "InputMainX", "xTF_", "Windows.UI"] {
        assert!(!is_system_window_class(cls), "{}", cls);
    }
}

#[test]
fn child_occupies_its_stretch() {
    let w = window(1400, 1042, 1480, 1078);
    assert_eq!(taskbar_child_region(&w, &taskbar(), 1500), Some((1400, 1480)));
}

#[test]
fn child_is_cut_at_both_ends() {
    assert_eq!(taskbar_child_region(&window(-50, 1042, 20, 1078), &taskbar(), 1500), Some((0, 20)));
    let w = window(1490, 1042, 1600, 1078);
    assert_eq!(taskbar_child_region(&w, &taskbar(), 1500), Some((1490, 1500)));
}

#[test]
fn small_children_are_ignored() {
    assert_eq!(taskbar_child_region(&window(10, 1042, 17, 1078), &taskbar(), 1500), None);
    assert_eq!(taskbar_child_region(&window(10, 1042, 18, 1049), &taskbar(), 1500), None);
    let w = window(10, 1042, 18, 1050);
    assert_eq!(taskbar_child_region(&w, &taskbar(), 1500), Some((10, 18)));
}

#[test]
fn children_elsewhere_are_ignored() {
    for w in [
        window(10, 1000, 90, 1040),
        window(10, 1080, 90, 1120),
        window(-90, 1042, 0, 1078),
        window(1500, 1042, 1580, 1078),
    ] {
        assert_eq!(taskbar_child_region(&w, &taskbar(), 1500), None);
    }
}

#[test]
fn own_hidden_unnamed_and_system_children_are_ignored() {
    let mut own = window(10, 1042, 90, 1078);
    own.own = true;
    let mut hidden = window(10, 1042, 90, 1078);
    hidden.visible = false;
    let mut unnamed = window(10, 1042, 90, 1078);
    unnamed.class = None;
    let mut system = window(10, 1042, 90, 1078);
    system.class = Some("ReBarWindow32".to_string());
    let mut unplaced = window(10, 1042, 90, 1078);
    unplaced.rect = None;
    for w in [own, hidden, unnamed, system, unplaced] {
        assert_eq!(taskbar_child_region(&w, &taskbar(), 1500), None);
    }
    let mut ordinary = window(10, 1042, 90, 1078);
    ordinary.topmost = false;
    assert_eq!(taskbar_child_region(&ordinary, &taskbar(), 1500), Some((10, 90)));
}

#[test]
fn floating_window_must_lie_in_the_taskbar() {
    let inside = window(10, 1036, 90, 1084);
    assert_eq!(floating_widget_region(&inside, &taskbar(), 1500), Some((10, 90)));
    let above = window(10, 1035, 90, 1078);
    assert_eq!(floating_widget_region(&above, &taskbar(), 1500), None);
    let below = window(10, 1042, 90, 1085);
    assert_eq!(floating_widget_region(&below, &taskbar(), 1500), None);
}

#[test]
fn narrow_floating_stretches_are_ignored() {
    assert_eq!(floating_widget_region(&window(10, 1042, 14, 1078), &taskbar(), 1500), None);
    let w = window(10, 1042, 15, 1078);
    assert_eq!(floating_widget_region(&w, &taskbar(), 1500), Some((10, 15)));
    assert_eq!(floating_widget_region(&window(1496, 1042, 1600, 1078), &taskbar(), 1500), None);
}

#[test]
fn ordinary_and_system_windows_do_not_float() {
    let mut ordinary = window(10, 1042, 90, 1078);
    ordinary.topmost = false;
    assert_eq!(floating_widget_region(&ordinary, &taskbar(), 1500), None);
    let mut system = window(0, 1040, 1920, 1080);
    system.class = Some("Shell_TrayWnd".to_string());
    assert_eq!(floating_widget_region(&system, &taskbar(), 1500), None);
    let mut unnamed = window(10, 1042, 90, 1078);
    unnamed.class = None;
    assert_eq!(floating_widget_region(&unnamed, &taskbar(), 1500), Some((10, 90)));
}

#[test]
fn regions_come_in_order() {
    let children = vec![window(300, 1042, 400, 1078), window(10, 1042, 12, 1078)];
    let floating = vec![window(100, 1042, 200, 1078), window(1450, 1042, 1550, 1078)];
    assert_eq!(collect_taskbar_children(&children, &taskbar(), 1500), vec![(300, 400)]);
    assert_eq!(
        collect_floating_widgets(&floating, &taskbar(), 1500),
        vec![(100, 200), (1450, 1500)]
    );
    assert_eq!(
        occupied_regions(&children, &floating, &taskbar(), 1500),
        vec![(300, 400), (100, 200), (1450, 1500)]
    );
}
