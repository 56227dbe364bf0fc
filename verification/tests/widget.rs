use plan_monitor::geometry::Rect;
use plan_monitor::windows_taskbar::colors::{html_to_colorref, WidgetColors};
use plan_monitor::windows_taskbar::content::{
    on_widget_data, paint_widget, quota_text, update_widget_data, window_proc, QuotaText,
    WidgetMessage, WidgetPainting, WidgetReaction, REPOSITION_PERIOD, TIMER_REPOSITION,
};
use plan_monitor::windows_taskbar::wide::{class_name, from_wide, to_wide};

#[test]
fn colours_swap_their_ends() {
    assert_eq!(html_to_colorref("#102030"), 0x0030_2010);
    assert_eq!(html_to_colorref("#FFaa00"), 0x0000_AAFF);
}

#[test]
fn number_signs_do_not_matter() {
    assert_eq!(html_to_colorref("102030"), 0x0030_2010);
    assert_eq!(html_to_colorref("###102030"), 0x0030_2010);
}

#[test]
fn short_colours_are_black() {
    assert_eq!(html_to_colorref(""), 0);
    assert_eq!(html_to_colorref("#12345"), 0);
}

#[test]
fn bad_components_are_zero() {
    assert_eq!(html_to_colorref("#zz2030"), 0x0030_2000);
    assert_eq!(html_to_colorref("#10-130"), 0x0030_0010);
    assert_eq!(html_to_colorref("#+12030"), 0x0030_2001);
    assert_eq!(html_to_colorref("#1+2030"), 0x0030_2000);
}

#[test]
fn longer_colours_are_cut() {
    assert_eq!(html_to_colorref("#102030FF"), 0x0030_2010);
}

#[test]
fn colours_of_other_scripts_are_read_bytewise() {
    // Two characters of two bytes, and two digits.
    assert_eq!(html_to_colorref("éé30"), 0x0030_0000);
}

#[test]
fn widget_takes_new_colours() {
    let mut c = WidgetColors::new();
    assert_eq!(c.background, 0x0024_2611);
    assert_eq!(c.label, 0x0000_FF00);
    assert_eq!(c.value, 0x00FF_FFFF);
    c.set_widget_colors("#010203", "#0A0B0C", "#112233");
    assert_eq!(c.background, 0x0003_0201);
    assert_eq!(c.label, 0x000C_0B0A);
    assert_eq!(c.value, 0x0033_2211);
}

#[test]
fn wide_texts_end_in_zero() {
    assert_eq!(to_wide("ab"), vec![97, 98, 0]);
    assert_eq!(to_wide(""), vec![0]);
    assert_eq!(to_wide("配😀"), vec![0x914D, 0xD83D, 0xDE00, 0]);
}

#[test]
fn wide_texts_are_read_back() {
    for s in ["", "Shell_TrayWnd", "配额监控", "a😀\u{10FFFF}z"] {
        let units = to_wide(s);
        assert_eq!(from_wide(&units[..units.len() - 1]), s);
    }
}

#[test]
fn lone_surrogates_are_replaced() {
    assert_eq!(from_wide(&[0xD83D, 97]), "\u{FFFD}a");
    assert_eq!(from_wide(&[0xDE00]), "\u{FFFD}");
    assert_eq!(from_wide(&[0xD83D, 0xD83D, 0xDE00]), "\u{FFFD}😀");
    assert_eq!(from_wide(&[98, 0xD83D]), "b\u{FFFD}");
}

#[test]
fn class_names_are_read_from_a_buffer() {
    let buffer = [73, 77, 69, 0, 0, 0];
    assert_eq!(class_name(&buffer, 3), Some("IME".to_string()));
    assert_eq!(class_name(&buffer, 0), None);
}

#[test]
fn summary_is_split_at_the_colon() {
    let q = quota_text("5h剩余：1234k");
    assert_eq!((q.label.as_str(), q.value.as_str()), ("5h剩余", "1234k"));
    let q = quota_text("近5H：85.1%");
    assert_eq!((q.label.as_str(), q.value.as_str()), ("近5H", "85.1%"));
    let q = quota_text("a：b：c");
    assert_eq!((q.label.as_str(), q.value.as_str()), ("a", "b：c"));
    let q = quota_text("：");
    assert_eq!((q.label.as_str(), q.value.as_str()), ("", ""));
}

#[test]
fn summary_without_a_colon_is_one_line() {
    let q = quota_text("获取数据...");
    assert_eq!((q.label.as_str(), q.value.as_str()), ("", "获取数据..."));
    let q = quota_text("a:b");
    assert_eq!((q.label.as_str(), q.value.as_str()), ("", "a:b"));
    let q = quota_text("");
    assert_eq!((q.label.as_str(), q.value.as_str()), ("", "加载中..."));
}

#[test]
fn widget_data_is_taken_from_a_document() {
    let data: serde_json::Value =
        serde_json::from_str("{\"provider_name\":\"阿里云百炼\",\"compact_text\":\"5h剩余：12k\"}")
            .unwrap();
    let q = update_widget_data(&data);
    assert_eq!((q.label.as_str(), q.value.as_str()), ("5h剩余", "12k"));
    let q = update_widget_data(&serde_json::Value::Null);
    assert_eq!((q.label.as_str(), q.value.as_str()), ("", "加载中..."));
    let data: serde_json::Value = serde_json::from_str("{\"compact_text\":7}").unwrap();
    let q = update_widget_data(&data);
    assert_eq!((q.label.as_str(), q.value.as_str()), ("", "加载中..."));
}

#[test]
fn widget_data_is_taken_from_an_event() {
    let q = on_widget_data("{\"compact_text\":\"近5H：85.1%\"}").unwrap();
    assert_eq!((q.label.as_str(), q.value.as_str()), ("近5H", "85.1%"));
    assert!(on_widget_data("{").is_none());
}

fn lines_of(p: &WidgetPainting) -> Vec<(&str, u32, i32, i32)> {
    p.lines.iter().map(|l| (l.text.as_str(), l.color, l.top, l.bottom)).collect()
}

#[test]
fn green_label_and_white_value_are_painted() {
    let quota = Some(QuotaText { label: "5h剩余".to_string(), value: "12k".to_string() });
    let client = Rect { left: 0, top: 0, right: 80, bottom: 40 };
    let p = paint_widget(&quota, &WidgetColors::new(), &client);
    assert_eq!((p.width, p.height, p.background), (80, 40, 0x0024_2611));
    assert_eq!(
        lines_of(&p),
        vec![("5h剩余", 0x0000_FF00, 4, 20), ("12k", 0x00FF_FFFF, 22, 38)]
    );
}

#[test]
fn widget_is_painted_in_its_new_colours() {
    let mut c = WidgetColors::new();
    c.set_widget_colors("#010203", "#0A0B0C", "#112233");
    let quota = Some(QuotaText { label: "a".to_string(), value: "b".to_string() });
    let p = paint_widget(&quota, &c, &Rect { left: 0, top: 0, right: 80, bottom: 40 });
    assert_eq!(p.background, 0x0003_0201);
    assert_eq!(lines_of(&p), vec![("a", 0x000C_0B0A, 4, 20), ("b", 0x0033_2211, 22, 38)]);
}

#[test]
fn single_line_is_painted_in_the_middle() {
    let c = WidgetColors::new();
    let p = paint_widget(&None, &c, &Rect { left: 0, top: 0, right: 80, bottom: 40 });
    assert_eq!(lines_of(&p), vec![("加载中...", 0x00FF_FFFF, 13, 27)]);
    let quota = Some(QuotaText { label: "".to_string(), value: "x".to_string() });
    let p = paint_widget(&quota, &c, &Rect { left: 10, top: 5, right: 90, bottom: 8 });
    assert_eq!((p.width, p.height), (80, 3));
    assert_eq!(lines_of(&p), vec![("x", 0x00FF_FFFF, -5, 9)]);
}

#[test]
fn messages_are_answered() {
    assert_eq!(window_proc(WidgetMessage::Paint), WidgetReaction::Paint);
    assert_eq!(window_proc(WidgetMessage::EraseBackground), WidgetReaction::KeepBackground);
    assert_eq!(window_proc(WidgetMessage::DataChanged), WidgetReaction::Redraw);
    assert_eq!(window_proc(WidgetMessage::Timer(TIMER_REPOSITION)), WidgetReaction::Reposition);
    assert_eq!(window_proc(WidgetMessage::Timer(7)), WidgetReaction::PassOn);
    assert_eq!(window_proc(WidgetMessage::LeftButtonDown), WidgetReaction::ToggleOverlay);
    assert_eq!(window_proc(WidgetMessage::Destroy), WidgetReaction::Quit);
    assert_eq!(window_proc(WidgetMessage::Other), WidgetReaction::PassOn);
    assert_eq!(TIMER_REPOSITION, 1001);
    assert_eq!(REPOSITION_PERIOD, 5000);
}
