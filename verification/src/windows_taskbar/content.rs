//! What the widget shows, and how it answers to the messages of its window.

use crate::geometry::{fits, quotient, Rect};
use crate::json::{parse, parsed, text_at, text_field, tree, Json};
use crate::text::{
    after_first, before_first, law_parts_make_up_text, text_after_first, text_before_first,
};
use crate::windows_taskbar::colors::WidgetColors;
use vstd::prelude::*;

verus! {

/// The two lines of the widget. The first may be empty.
pub struct QuotaText {
    /// What the quota is of.
    pub label: String,
    /// The quota.
    pub value: String,
}

/// The label in a summary: what stands before the first full-width colon.
pub open spec fn label_part(compact: Seq<char>) -> Seq<char> {
    before_first(compact, '\u{FF1A}').unwrap_or(""@)
}

/// The quota in a summary: what stands behind the first full-width colon, the whole summary
/// where it has none, and a notice where it is empty.
pub open spec fn quota_part(compact: Seq<char>) -> Seq<char> {
    match after_first(compact, '\u{FF1A}') {
        Some(value) => value,
        None => if compact.len() == 0 {
            "加载中..."@
        } else {
            compact
        },
    }
}

/// The lines for the summary of a provider.
pub fn quota_text(compact: &str) -> (r: QuotaText)
    ensures
        r.label@ == label_part(compact@),
        r.value@ == quota_part(compact@),
{
    let label = match text_before_first(compact, '\u{FF1A}') {
        Some(label) => label,
        None => "".to_string(),
    };
    let value = match text_after_first(compact, '\u{FF1A}') {
        Some(value) => value,
        None => if compact.is_empty() {
            "加载中...".to_string()
        } else {
            compact.to_string()
        },
    };
    QuotaText { label, value }
}

/// The summary in the data of a provider. A missing one counts as empty.
pub open spec fn summary_in(json: Json) -> Seq<char> {
    text_at(json, "compact_text"@).unwrap_or(""@)
}

/// The lines for the data of a provider, taken from its summary.
pub fn update_widget_data(data: &serde_json::Value) -> (r: QuotaText)
    ensures
        r.label@ == label_part(summary_in(tree(*data))),
        r.value@ == quota_part(summary_in(tree(*data))),
{
    quota_text(text_field(data, "compact_text").unwrap_or(""))
}

/// The lines for the event that data has come. An event that is no JSON document changes
/// nothing.
pub fn on_widget_data(payload: &str) -> (r: Option<QuotaText>)
    ensures
        match parsed(payload@) {
            Some(json) => {
                &&& r is Some
                &&& r->0.label@ == label_part(summary_in(json))
                &&& r->0.value@ == quota_part(summary_in(json))
            },
            None => r is None,
        },
{
    match parse(payload) {
        Ok(data) => Some(update_widget_data(&data)),
        Err(_) => None,
    }
}

/// A summary with a full-width colon is split at the first one, and nothing of it is lost.
pub proof fn law_summary_is_split_at_colon(compact: Seq<char>)
    requires
        compact.contains('\u{FF1A}'),
    ensures
        compact == label_part(compact) + seq!['\u{FF1A}'] + quota_part(compact),
        !label_part(compact).contains('\u{FF1A}'),
{
    law_parts_make_up_text(compact, '\u{FF1A}');
}

/// A line of text between two heights of the widget, in a Windows colour.
pub struct TextLine {
    pub text: String,
    pub color: u32,
    pub top: i32,
    pub bottom: i32,
}

/// A line of text as plain values.
pub struct LineView {
    pub text: Seq<char>,
    pub color: int,
    pub top: int,
    pub bottom: int,
}

impl View for TextLine {
    type V = LineView;

    open spec fn view(&self) -> LineView {
        LineView {
            text: self.text@,
            color: self.color as int,
            top: self.top as int,
            bottom: self.bottom as int,
        }
    }
}

/// The lines that are drawn for a label and a value: both, each in its colour, or the value
/// alone in the middle of the height where there is no label.
pub open spec fn drawn_lines(
    label: Seq<char>,
    value: Seq<char>,
    colors: WidgetColors,
    height: int,
) -> Seq<LineView> {
    if label.len() == 0 {
        let top = quotient(height - 14, 2);
        seq![LineView { text: value, color: colors.value as int, top, bottom: top + 14 }]
    } else {
        seq![
            LineView { text: label, color: colors.label as int, top: 4, bottom: 20 },
            LineView { text: value, color: colors.value as int, top: 22, bottom: 38 },
        ]
    }
}

/// What is drawn over the whole of the widget.
pub struct WidgetPainting {
    /// The extent of the widget.
    pub width: i32,
    pub height: i32,
    /// The Windows colour that fills it.
    pub background: u32,
    /// The lines of text on it.
    pub lines: Vec<TextLine>,
}

/// What to draw in the client area of the widget. Until data has come there is a notice.
pub fn paint_widget(quota: &Option<QuotaText>, colors: &WidgetColors, client: &Rect) -> (r:
    WidgetPainting)
    requires
        fits(client.right - client.left),
        fits(client.bottom - client.top),
        (quota is None || quota->0.label@.len() == 0) ==> fits(client.bottom - client.top - 14),
    ensures
        r.width == client.right - client.left,
        r.height == client.bottom - client.top,
        r.background == colors.background,
        r.lines@.map_values(|l: TextLine| l@) == match *quota {
            Some(q) => drawn_lines(q.label@, q.value@, *colors, r.height as int),
            None => drawn_lines(""@, "加载中..."@, *colors, r.height as int),
        },
{
    let width: i32 = client.right - client.left;
    let height: i32 = client.bottom - client.top;
    let mut lines: Vec<TextLine> = Vec::new();
    proof {
        reveal_strlit("");
    }
    let (label, value) = match quota {
        Some(q) => (q.label.clone(), q.value.clone()),
        None => ("".to_string(), "加载中...".to_string()),
    };
    let ghost expected = drawn_lines(label@, value@, *colors, height as int);
    if label.as_str().is_empty() {
        let top: i32 = (height - 14) / 2;
        lines.push(TextLine { text: value, color: colors.value, top, bottom: top + 14 });
    } else {
        lines.push(TextLine { text: label, color: colors.label, top: 4, bottom: 20 });
        lines.push(TextLine { text: value, color: colors.value, top: 22, bottom: 38 });
    }
    assert(lines@.map_values(|l: TextLine| l@) =~= expected);
    WidgetPainting { width, height, background: colors.background, lines }
}

/// The timer by which the widget checks its position.
pub const TIMER_REPOSITION: usize = 1001;

/// How often the widget checks its position, in milliseconds.
pub const REPOSITION_PERIOD: u32 = 5000;

/// A message to the window of the widget.
#[derive(Debug, Clone, Copy, PartialEq, Eq, Structural)]
pub enum WidgetMessage {
    Paint,
    EraseBackground,
    DataChanged,
    Timer(usize),
    LeftButtonDown,
    Destroy,
    Other,
}

/// What the window of the widget does about a message.
#[derive(Debug, Clone, Copy, PartialEq, Eq, Structural)]
pub enum WidgetReaction {
    /// Draws the widget.
    Paint,
    /// Claims that the background is erased; drawing covers all of it.
    KeepBackground,
    /// Has the widget drawn anew at once.
    Redraw,
    /// Checks the position.
    Reposition,
    /// Shows or hides the overlay.
    ToggleOverlay,
    /// Stops the timer and ends.
    Quit,
    /// Leaves the message to the system.
    PassOn,
}

/// What the window of the widget does about a message: it answers those that concern it, and
/// leaves all others, and other timers, to the system.
pub open spec fn reaction(message: WidgetMessage) -> WidgetReaction {
    match message {
        WidgetMessage::Paint => WidgetReaction::Paint,
        WidgetMessage::EraseBackground => WidgetReaction::KeepBackground,
        WidgetMessage::DataChanged => WidgetReaction::Redraw,
        WidgetMessage::Timer(id) => if id == TIMER_REPOSITION {
            WidgetReaction::Reposition
        } else {
            WidgetReaction::PassOn
        },
        WidgetMessage::LeftButtonDown => WidgetReaction::ToggleOverlay,
        WidgetMessage::Destroy => WidgetReaction::Quit,
        WidgetMessage::Other => WidgetReaction::PassOn,
    }
}

/// What the window of the widget does about a message.
pub fn window_proc(message: WidgetMessage) -> (r: WidgetReaction)
    ensures
        r == reaction(message),
        r == match message {
            WidgetMessage::Paint => WidgetReaction::Paint,
            WidgetMessage::EraseBackground => WidgetReaction::KeepBackground,
            WidgetMessage::DataChanged => WidgetReaction::Redraw,
            WidgetMessage::Timer(id) => if id == TIMER_REPOSITION {
                WidgetReaction::Reposition
            } else {
                WidgetReaction::PassOn
            },
            WidgetMessage::LeftButtonDown => WidgetReaction::ToggleOverlay,
            WidgetMessage::Destroy => WidgetReaction::Quit,
            WidgetMessage::Other => WidgetReaction::PassOn,
        },
{
    match message {
        WidgetMessage::Paint => WidgetReaction::Paint,
        WidgetMessage::EraseBackground => WidgetReaction::KeepBackground,
        WidgetMessage::DataChanged => WidgetReaction::Redraw,
        WidgetMessage::Timer(id) => if id == TIMER_REPOSITION {
            WidgetReaction::Reposition
        } else {
            WidgetReaction::PassOn
        },
        WidgetMessage::LeftButtonDown => WidgetReaction::ToggleOverlay,
        WidgetMessage::Destroy => WidgetReaction::Quit,
        WidgetMessage::Other => WidgetReaction::PassOn,
    }
}

/// A summary without a full-width colon is the quota, without a label; where it is empty too,
/// there is a notice.
pub proof fn law_summary_without_colon_is_quota(compact: Seq<char>)
    requires
        !compact.contains('\u{FF1A}'),
    ensures
        label_part(compact).len() == 0,
        compact.len() > 0 ==> quota_part(compact) == compact,
        compact.len() == 0 ==> quota_part(compact) == "加载中..."@,
{
    law_parts_make_up_text(compact, '\u{FF1A}');
    reveal_strlit("");
}

/// The summary of a document is its text under that key, and empty where there is none.
pub proof fn law_summary_is_read(m: Map<Seq<char>, Json>, t: Seq<char>)
    ensures
        m.dom().contains("compact_text"@) && m["compact_text"@] == Json::Text(t) ==> summary_in(
            Json::Object(m),
        ) == t,
        !m.dom().contains("compact_text"@) ==> summary_in(Json::Object(m)).len() == 0,
{
    reveal_strlit("");
}

/// With a label, the label stands above the value, each in its own colour, 16 high and 2 apart,
/// within a widget of the height 40.
pub proof fn law_label_stands_above_value(
    label: Seq<char>,
    value: Seq<char>,
    colors: WidgetColors,
    height: int,
)
    requires
        label.len() > 0,
    ensures
        ({
            let lines = drawn_lines(label, value, colors, height);
            &&& lines.len() == 2
            &&& lines[0].text == label && lines[0].color == colors.label
            &&& lines[1].text == value && lines[1].color == colors.value
            &&& lines[0].top == 4 && lines[0].bottom == lines[0].top + 16
            &&& lines[1].top == lines[0].bottom + 2 && lines[1].bottom == 40 - 2
        }),
{
}

/// Without a label, the value stands alone, 14 high, with as much room above it as below, give
/// or take one pixel.
pub proof fn law_lone_value_stands_in_the_middle(
    value: Seq<char>,
    colors: WidgetColors,
    height: int,
)
    ensures
        ({
            let lines = drawn_lines(seq![], value, colors, height);
            let above = lines[0].top;
            let below = height - lines[0].bottom;
            &&& lines.len() == 1
            &&& lines[0].text == value && lines[0].color == colors.value
            &&& lines[0].bottom - lines[0].top == 14
            &&& -1 <= above - below <= 1
            &&& height >= 14 ==> above >= 0 && above <= below
        }),
{
}

/// Only the timer with the number 1001 has the position checked, only a press of the left
/// button switches the overlay, only new data has the widget drawn anew, and only its end ends
/// it.
pub proof fn law_messages_have_one_answer(message: WidgetMessage)
    ensures
        reaction(message) is Reposition <==> message == WidgetMessage::Timer(1001),
        reaction(message) is ToggleOverlay <==> message is LeftButtonDown,
        reaction(message) is Redraw <==> message is DataChanged,
        reaction(message) is Paint <==> message is Paint,
        reaction(message) is KeepBackground <==> message is EraseBackground,
        reaction(message) is Quit <==> message is Destroy,
        reaction(message) is PassOn <==> message is Other || message is Timer && message->Timer_0
            != 1001,
{
}

/// Nothing of a line is left out of its view.
pub proof fn law_line_view_is_whole(l: TextLine)
    ensures
        l@.text == l.text@ && l@.color == l.color && l@.top == l.top && l@.bottom == l.bottom,
{
}

} // verus!
