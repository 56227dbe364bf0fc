use plan_monitor::geometry::{Point, Rect};
use plan_monitor::windows_taskbar::occupancy::WindowInfo;
use plan_monitor::windows_taskbar::placement::{
    find_free_x, tray_left_edge, Moves, Scene, WidgetPosition, UNSET,
};

fn taskbar() -> Rect {
    Rect { left: 0, top: 1040, right: 1920, bottom: 1080 }
}

fn window(class: &str, left: i32, right: i32) -> WindowInfo {
    WindowInfo {
        own: false,
        visible: true,
        topmost: true,
        class: Some(class.to_string()),
        rect: Some(Rect { left, top: 1042, right, bottom: 1078 }),
    }
}

fn scene(tray_left: i32) -> Scene {
    Scene {
        taskbar: taskbar(),
        taskbar_in_front: false,
        tray: Some(Rect { left: tray_left, top: 1040, right: 1920, bottom: 1080 }),
        children: Vec::new(),
        floating: Vec::new(),
    }
}

fn at(x: i32, y: i32) -> Option<Point> {
    Some(Point { x, y })
}

#[test]
fn start_is_taken_when_nothing_is_occupied() {
    assert_eq!(find_free_x(1416, 80, &[], 640), 1416);
}

#[test]
fn free_place_beside_an_obstacle() {
    assert_eq!(find_free_x(1000, 80, &[(950, 1050)], 0), 866);
}

#[test]
fn touching_intervals_do_not_overlap() {
    assert_eq!(find_free_x(1000, 80, &[(1080, 1200), (900, 1000)], 0), 1000);
    assert_eq!(find_free_x(1000, 80, &[(1079, 1200)], 0), 995);
}

#[test]
fn rightmost_free_place_is_taken() {
    let occupied = [(300, 400), (950, 1050), (700, 860)];
    assert_eq!(find_free_x(1000, 80, &occupied, 0), 866);
    let crowded = [(300, 400), (860, 1050), (700, 800)];
    assert_eq!(find_free_x(1000, 80, &crowded, 0), 616);
}

#[test]
fn equal_candidates_do_not_matter() {
    assert_eq!(find_free_x(1000, 80, &[(950, 1050), (950, 1010), (950, 1000)], 0), 866);
}

#[test]
fn bound_is_taken_when_all_is_occupied() {
    assert_eq!(find_free_x(1000, 80, &[(640, 1100)], 640), 640);
    assert_eq!(find_free_x(500, 80, &[], 640), 640);
}

#[test]
fn tray_edge_is_read_or_estimated() {
    let tray = Rect { left: 1500, top: 1040, right: 1920, bottom: 1080 };
    assert_eq!(tray_left_edge(&taskbar(), Some(tray)), 1500);
    assert_eq!(tray_left_edge(&taskbar(), None), 1740);
}

#[test]
fn nothing_is_remembered_at_first() {
    let w = WidgetPosition::new();
    assert_eq!(w.last_good, Point { x: UNSET, y: UNSET });
    assert_eq!(w.last_set, Point { x: UNSET, y: UNSET });
    assert_eq!(w.prev_tray_left, UNSET);
    assert_eq!(w.raise_when_covered(true), None);
}

#[test]
fn widget_is_placed_before_the_tray() {
    let mut w = WidgetPosition::new();
    assert_eq!(w.position_near_tray(&scene(1500)), Moves { raise: None, to: at(1416, 1040) });
    assert_eq!(w.last_good, Point { x: 1416, y: 1040 });
    assert_eq!(w.last_set, Point { x: 1416, y: 1040 });
    assert_eq!(w.prev_tray_left, 1500);
}

#[test]
fn widget_is_centred_in_a_high_taskbar() {
    let mut w = WidgetPosition::new();
    let tall = Rect { left: 0, top: 1019, right: 1920, bottom: 1080 };
    assert_eq!(w.place(&tall, 1500, &[]), at(1416, 1029));
}

#[test]
fn widget_rests_while_nothing_changes() {
    let mut w = WidgetPosition::new();
    w.position_near_tray(&scene(1500));
    let rested = w;
    assert_eq!(w.position_near_tray(&scene(1500)), Moves { raise: None, to: None });
    assert_eq!(w, rested);
}

#[test]
fn widget_stays_while_the_tray_moves() {
    let mut w = WidgetPosition::new();
    w.position_near_tray(&scene(1500));
    assert_eq!(w.position_near_tray(&scene(1450)), Moves { raise: None, to: None });
    assert_eq!(w.last_set, Point { x: 1416, y: 1040 });
    assert_eq!(w.position_near_tray(&scene(1450)), Moves { raise: None, to: at(1366, 1040) });
    assert_eq!(w.position_near_tray(&scene(1450)), Moves { raise: None, to: None });
}

#[test]
fn tray_is_in_motion_only_after_a_change() {
    let mut w = WidgetPosition::new();
    assert!(!w.tray_just_changed(1500));
    assert!(!w.tray_just_changed(1500));
    assert!(w.tray_just_changed(1499));
    assert!(!w.tray_just_changed(1499));
}

#[test]
fn widget_is_raised_when_the_taskbar_covers_it() {
    let mut w = WidgetPosition::new();
    let mut s = scene(1500);
    s.taskbar_in_front = true;
    assert_eq!(w.position_near_tray(&s), Moves { raise: None, to: at(1416, 1040) });
    assert_eq!(w.position_near_tray(&s), Moves { raise: at(1416, 1040), to: None });
}

#[test]
fn widget_avoids_other_windows() {
    let mut w = WidgetPosition::new();
    let mut s = scene(1500);
    s.children.push(window("TrafficMonitor", 1400, 1480));
    s.floating.push(window("SomeWidget", 1200, 1290));
    assert_eq!(w.position_near_tray(&s), Moves { raise: None, to: at(1316, 1040) });
}

#[test]
fn unacceptable_place_gives_the_last_good_one() {
    let mut w = WidgetPosition::new();
    // The notification area begins too far left.
    assert_eq!(w.place(&taskbar(), 40, &[]), None);
    assert_eq!(w, WidgetPosition::new());
    assert_eq!(w.place(&taskbar(), 1500, &[]), at(1416, 1040));
    assert_eq!(w.place(&taskbar(), 40, &[]), None);
    // The window was moved elsewhere meanwhile.
    w.last_set = Point { x: 5, y: 5 };
    assert_eq!(w.place(&taskbar(), 40, &[]), at(1416, 1040));
    assert_eq!(w.last_good, Point { x: 1416, y: 1040 });
}

#[test]
fn place_behind_the_tray_is_unacceptable() {
    // The left bound is taken, and lies too far right: 640 + 80 > 700 + 10.
    let mut w = WidgetPosition::new();
    assert_eq!(w.place(&taskbar(), 700, &[]), None);
    // 640 + 80 <= 710 + 10.
    assert_eq!(w.place(&taskbar(), 710, &[]), at(640, 1040));
}

#[test]
fn low_taskbar_is_unacceptable() {
    let mut w = WidgetPosition::new();
    let low = Rect { left: 0, top: 1046, right: 1920, bottom: 1080 };
    assert_eq!(w.place(&low, 1500, &[]), None);
    let enough = Rect { left: 0, top: 1045, right: 1920, bottom: 1080 };
    assert_eq!(w.place(&enough, 1500, &[]), at(1416, 1045));
}

#[test]
fn room_right_of_the_bound_is_used() {
    // Beside the leftmost interval there is no place, but there is room at 700.
    let occupied = [(600, 690), (790, 1100)];
    assert_eq!(find_free_x(1000, 80, &occupied, 650), 706);
}

#[test]
fn scenes_near_the_limits_are_told() {
    let mut w = WidgetPosition::new();
    assert!(w.can_place(&scene(1500)));
    let mut s = scene(1500);
    s.children.push(window("TrafficMonitor", 1400, 1480));
    s.floating.push(window("Wide", i32::MIN, i32::MAX));
    assert!(w.can_place(&s));
    s.children.push(window("Wide", i32::MIN, i32::MAX));
    assert!(!w.can_place(&s));
    s.children[1].visible = false;
    assert!(w.can_place(&s));
    s.tray = None;
    assert!(w.can_place(&s));
    s.taskbar.right = i32::MIN;
    assert!(!w.can_place(&s));
    assert!(!w.can_place(&scene(i32::MIN)));
    // While the notification area moves, nothing is computed.
    w.tray_just_changed(1500);
    assert!(w.can_place(&scene(i32::MIN)));
}
