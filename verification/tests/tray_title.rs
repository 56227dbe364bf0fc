use plan_monitor::macos_tray::{
    on_active_tab, percentage_text, read_tab, to_subscript, to_subscript_with_paren, tray_title,
    update_active_tab_tray, ButtonState, MouseButton, QuotaGroup, TabData, TrayClicks, CLICK_PAUSE,
};

fn tab(index: u64, count: u64) -> TabData {
    TabData { tab_index: Some(index), tab_count: Some(count), first_group: None, compact_text: None }
}

fn group(limit: Option<u64>, remain: Option<u64>, used: Option<&str>) -> Option<QuotaGroup> {
    Some(QuotaGroup { limit, remain, used: used.map(|s| s.to_string()) })
}

fn document(text: &str) -> serde_json::Value {
    serde_json::from_str(text).unwrap()
}

#[test]
fn digits_become_subscripts() {
    assert_eq!(to_subscript("0123456789k"), "₀₁₂₃₄₅₆₇₈₉ₖ");
    assert_eq!(to_subscript("w%.-x"), "w%.-x");
    assert_eq!(to_subscript(""), "");
}

#[test]
fn subscript_twice_is_subscript_once() {
    let once = to_subscript("85.1%k");
    assert_eq!(to_subscript(&once), once);
}

#[test]
fn prefixes_have_a_parenthesis() {
    assert_eq!(to_subscript_with_paren(1), "₁₎");
    assert_eq!(to_subscript_with_paren(2), "₂₎");
    assert_eq!(to_subscript_with_paren(12), "₁₂₎");
    assert_eq!(to_subscript_with_paren(0), "₀₎");
    assert_eq!(to_subscript_with_paren(u64::MAX), "₁₈₄₄₆₇₄₄₀₇₃₇₀₉₅₅₁₆₁₅₎");
}

#[test]
fn remaining_tokens_are_shown() {
    let mut t = tab(1, 3);
    t.first_group = group(Some(5_000_000), Some(1_234_567), Some("20%"));
    assert_eq!(tray_title(&t, Some(20)), Some(" ₁₎₁₂₃₄ₖ".to_string()));
    t.tab_count = Some(1);
    assert_eq!(tray_title(&t, Some(20)), Some(" ₁₂₃₄ₖ".to_string()));
}

#[test]
fn thousands_begin_at_ten_thousand() {
    let mut t = tab(1, 1);
    t.first_group = group(Some(1), Some(9_999), None);
    assert_eq!(tray_title(&t, None), Some(" ₉₉₉₉".to_string()));
    t.first_group = group(Some(1), Some(10_000), None);
    assert_eq!(tray_title(&t, None), Some(" ₁₀ₖ".to_string()));
    t.first_group = group(Some(1), None, None);
    assert_eq!(tray_title(&t, None), Some(" ₀".to_string()));
}

#[test]
fn percentage_is_shown_rounded() {
    let mut t = tab(2, 2);
    t.first_group = group(None, None, Some("85.5%"));
    assert_eq!(percentage_text(&t), Some("85.5".to_string()));
    assert_eq!(tray_title(&t, Some(86)), Some(" ₂₎₈₆".to_string()));
    assert_eq!(tray_title(&t, Some(-3)), Some(" ₂₎-₃".to_string()));
    assert_eq!(tray_title(&t, Some(i64::MIN)), Some(" ₂₎-₉₂₂₃₃₇₂₀₃₆₈₅₄₇₇₅₈₀₈".to_string()));
}

#[test]
fn percentage_loses_its_signs() {
    let mut t = tab(1, 1);
    t.first_group = group(Some(0), None, Some("7%%"));
    assert_eq!(percentage_text(&t), Some("7".to_string()));
    t.first_group = group(Some(0), None, Some("%7"));
    assert_eq!(percentage_text(&t), Some("%7".to_string()));
    t.first_group = group(Some(1), None, Some("7%"));
    assert_eq!(percentage_text(&t), None);
    t.first_group = None;
    assert_eq!(percentage_text(&t), None);
}

#[test]
fn summary_is_shown_without_a_number() {
    let mut t = tab(1, 1);
    t.first_group = group(None, None, Some("n/a"));
    t.compact_text = Some("近5H：85.1%".to_string());
    assert_eq!(tray_title(&t, None), Some(" ₈₅.₁%".to_string()));
    t.first_group = None;
    assert_eq!(tray_title(&t, Some(5)), Some(" ₈₅.₁%".to_string()));
}

#[test]
fn missing_value_leaves_the_tab_number() {
    let mut t = tab(3, 4);
    t.compact_text = Some("获取数据...".to_string());
    assert_eq!(tray_title(&t, None), Some(" ₃₎".to_string()));
    t.compact_text = Some("近5H：".to_string());
    assert_eq!(tray_title(&t, None), Some(" ₃₎".to_string()));
    t.tab_index = None;
    assert_eq!(tray_title(&t, None), Some(" ₁₎".to_string()));
}

#[test]
fn missing_value_clears_the_title_of_a_single_tab() {
    let mut t = tab(1, 1);
    assert_eq!(tray_title(&t, None), None);
    t.tab_count = None;
    t.tab_index = Some(9);
    assert_eq!(tray_title(&t, None), None);
}

#[test]
fn tab_is_read_from_a_document() {
    let data = document(
        "{\"tab_index\":2,\"tab_count\":3,\"compact_text\":\"x：y\",\"quota_groups\":[\
         {\"limit\":100,\"remain\":40,\"used\":\"60%\"},{\"limit\":7}]}",
    );
    let t = read_tab(&data);
    assert_eq!((t.tab_index, t.tab_count), (Some(2), Some(3)));
    assert_eq!(t.compact_text, Some("x：y".to_string()));
    let g = t.first_group.unwrap();
    assert_eq!((g.limit, g.remain, g.used), (Some(100), Some(40), Some("60%".to_string())));
    assert_eq!(update_active_tab_tray(&data, None), Some(" ₂₎₄₀".to_string()));
}

#[test]
fn tab_is_read_from_an_event() {
    let t = on_active_tab("{\"tab_index\":2,\"tab_count\":2,\"compact_text\":\"剩余：7\"}").unwrap();
    assert_eq!(tray_title(&t, None), Some(" ₂₎₇".to_string()));
    assert!(on_active_tab("").is_none());
}

#[test]
fn fields_of_other_kinds_count_as_missing() {
    let data = document(
        "{\"tab_index\":-2,\"tab_count\":2.0,\"compact_text\":5,\"quota_groups\":{\"limit\":1}}",
    );
    let t = read_tab(&data);
    assert_eq!((t.tab_index, t.tab_count), (None, None));
    assert_eq!(t.compact_text, None);
    assert!(t.first_group.is_none());
    assert_eq!(update_active_tab_tray(&data, None), None);
    assert!(read_tab(&document("{\"quota_groups\":[]}")).first_group.is_none());
    assert!(read_tab(&document("[1,2]")).tab_index.is_none());
}

#[test]
fn clicks_are_counted_with_a_pause() {
    let start: u128 = 5_000_000_000;
    let mut c = TrayClicks::new(start);
    assert_eq!(c.last, 4_000_000_000);
    assert!(c.click(MouseButton::Left, ButtonState::Up, start));
    assert!(!c.click(MouseButton::Left, ButtonState::Up, start + CLICK_PAUSE - 1));
    assert_eq!(c.last, start);
    assert!(c.click(MouseButton::Left, ButtonState::Up, start + CLICK_PAUSE));
    assert_eq!(c.last, start + CLICK_PAUSE);
    assert!(!c.click(MouseButton::Left, ButtonState::Up, start));
}

#[test]
fn only_releases_of_the_left_button_count() {
    let start: u128 = 5_000_000_000;
    let mut c = TrayClicks::new(start);
    assert!(!c.click(MouseButton::Left, ButtonState::Down, start));
    assert!(!c.click(MouseButton::Right, ButtonState::Up, start));
    assert!(!c.click(MouseButton::Middle, ButtonState::Up, start));
    assert_eq!(c.last, 4_000_000_000);
}
