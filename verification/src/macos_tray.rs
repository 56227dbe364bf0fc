//! The tray title and the tray clicks on macOS.

use crate::json::{
    entry, get, natural_at, natural_field, owned_field, parse, parsed, text_at, tree, trees, Json,
};
use crate::text::{
    after_first, before_first, chars_of, decimal, decimal_text, is_digit, law_end_is_trimmed,
    law_numerals_are_digits, law_numerals_differ, law_numerals_read_back, law_parts_make_up_text,
    numeral_value, option_text, position, signed_decimal, signed_decimal_text, text_after_first,
    trim_end, trim_end_text,
};
use vstd::prelude::*;

verus! {

/// The subscript form of a digit or of `k`. Other characters have none and stay as they are.
pub open spec fn subscript_char(c: char) -> char {
    if c == '0' {
        '\u{2080}'
    } else if c == '1' {
        '\u{2081}'
    } else if c == '2' {
        '\u{2082}'
    } else if c == '3' {
        '\u{2083}'
    } else if c == '4' {
        '\u{2084}'
    } else if c == '5' {
        '\u{2085}'
    } else if c == '6' {
        '\u{2086}'
    } else if c == '7' {
        '\u{2087}'
    } else if c == '8' {
        '\u{2088}'
    } else if c == '9' {
        '\u{2089}'
    } else if c == 'k' {
        '\u{2096}'
    } else {
        c
    }
}

/// A text in subscript.
pub open spec fn subscript(s: Seq<char>) -> Seq<char> {
    s.map_values(|c: char| subscript_char(c))
}

/// A text in subscript, as a text.
pub fn to_subscript(s: &str) -> (r: String)
    ensures
        r@ == subscript(s@),
{
    let chars = chars_of(s);
    let mut r = String::new();
    let mut i: usize = 0;
    while i < chars.len()
        invariant
            i <= chars@.len(),
            r@ =~= subscript(chars@.take(i as int)),
        decreases chars@.len() - i,
    {
        let c: char = match chars[i] {
            '0' => '\u{2080}',
            '1' => '\u{2081}',
            '2' => '\u{2082}',
            '3' => '\u{2083}',
            '4' => '\u{2084}',
            '5' => '\u{2085}',
            '6' => '\u{2086}',
            '7' => '\u{2087}',
            '8' => '\u{2088}',
            '9' => '\u{2089}',
            'k' => '\u{2096}',
            other => other,
        };
        r.push(c);
        i += 1;
    }
    assert(chars@.take(i as int) =~= chars@);
    r
}

/// The prefix for the tab with the number `n`: the number and a closing parenthesis, both in
/// subscript.
pub open spec fn tab_prefix(n: nat) -> Seq<char> {
    subscript(decimal(n)).push('\u{208E}')
}

/// The prefix for the tab with the number `n`, as a text.
pub fn to_subscript_with_paren(n: u64) -> (r: String)
    ensures
        r@ == tab_prefix(n as nat),
{
    let mut s = to_subscript(decimal_text(n).as_str());
    s.push('\u{208E}');
    s
}

/// A quota as the active tab reports it. What is missing is `None`.
pub struct QuotaGroup {
    /// The limit in tokens.
    pub limit: Option<u64>,
    /// What is left of it.
    pub remain: Option<u64>,
    /// What is used, as a text such as "85.5%".
    pub used: Option<String>,
}

/// A quota as plain values.
pub struct GroupView {
    pub limit: Option<u64>,
    pub remain: Option<u64>,
    pub used: Option<Seq<char>>,
}

impl View for QuotaGroup {
    type V = GroupView;

    open spec fn view(&self) -> GroupView {
        GroupView { limit: self.limit, remain: self.remain, used: option_text(self.used) }
    }
}

/// What is known of the active tab. What is missing is `None`.
pub struct TabData {
    /// The number of the tab, from 1 on.
    pub tab_index: Option<u64>,
    /// How many tabs there are.
    pub tab_count: Option<u64>,
    /// The first of its quotas.
    pub first_group: Option<QuotaGroup>,
    /// Its summary in one line.
    pub compact_text: Option<String>,
}

/// What is known of the active tab as plain values.
pub struct TabView {
    pub tab_index: Option<u64>,
    pub tab_count: Option<u64>,
    pub first_group: Option<GroupView>,
    pub compact_text: Option<Seq<char>>,
}

impl View for TabData {
    type V = TabView;

    open spec fn view(&self) -> TabView {
        TabView {
            tab_index: self.tab_index,
            tab_count: self.tab_count,
            first_group: match self.first_group {
                Some(g) => Some(g@),
                None => None,
            },
            compact_text: option_text(self.compact_text),
        }
    }
}

/// What a JSON tree says of a quota.
pub open spec fn group_in(json: Json) -> GroupView {
    GroupView {
        limit: natural_at(json, "limit"@),
        remain: natural_at(json, "remain"@),
        used: text_at(json, "used"@),
    }
}

/// What a JSON tree says of the active tab.
pub open spec fn tab_in(json: Json) -> TabView {
    TabView {
        tab_index: natural_at(json, "tab_index"@),
        tab_count: natural_at(json, "tab_count"@),
        first_group: match entry(json, "quota_groups"@) {
            Some(Json::Array(groups)) => if groups.len() > 0 {
                Some(group_in(groups[0]))
            } else {
                None
            },
            _ => None,
        },
        compact_text: text_at(json, "compact_text"@),
    }
}

/// Reads what a document says of the active tab.
pub fn read_tab(data: &serde_json::Value) -> (r: TabData)
    ensures
        r@ == tab_in(tree(*data)),
{
    let first_group = match get(data, "quota_groups") {
        Some(v) => match v.as_array() {
            Some(groups) => if groups.len() > 0 {
                let first = &groups[0];
                assert(trees(groups@)[0] == tree(*first));
                Some(
                    QuotaGroup {
                        limit: natural_field(first, "limit"),
                        remain: natural_field(first, "remain"),
                        used: owned_field(first, "used"),
                    },
                )
            } else {
                None
            },
            None => None,
        },
        None => None,
    };
    TabData {
        tab_index: natural_field(data, "tab_index"),
        tab_count: natural_field(data, "tab_count"),
        first_group,
        compact_text: owned_field(data, "compact_text"),
    }
}

/// Reads the event that another tab is active. An event that is no JSON document changes
/// nothing.
pub fn on_active_tab(payload: &str) -> (r: Option<TabData>)
    ensures
        match parsed(payload@) {
            Some(json) => r is Some && r->0@ == tab_in(json),
            None => r is None,
        },
{
    match parse(payload) {
        Ok(data) => Some(read_tab(&data)),
        Err(_) => None,
    }
}

/// Whether several tabs are open. A missing count means one.
pub open spec fn many_tabs(tab: TabView) -> bool {
    tab.tab_count.unwrap_or(1) > 1
}

/// The prefix of the title: the number of the tab, if several are open. A missing number
/// means 1.
pub open spec fn title_prefix(tab: TabView) -> Seq<char> {
    if many_tabs(tab) {
        tab_prefix(tab.tab_index.unwrap_or(1) as nat)
    } else {
        ""@
    }
}

/// What is left, in short: in thousands from ten thousand on.
pub open spec fn short_count(n: nat) -> Seq<char> {
    if n >= 10000 {
        decimal(n / 1000) + "k"@
    } else {
        decimal(n)
    }
}

/// Whether the first quota has a limit in tokens.
pub open spec fn has_limit(tab: TabView) -> bool {
    tab.first_group is Some && tab.first_group->0.limit.unwrap_or(0) > 0
}

/// The number of a percentage that the first quota reports in place of a limit: its text
/// without the percent signs at the end.
pub open spec fn percentage(tab: TabView) -> Option<Seq<char>> {
    if tab.first_group is Some && !has_limit(tab) {
        match tab.first_group->0.used {
            Some(used) => Some(trim_end(used, '%')),
            None => None,
        }
    } else {
        None
    }
}

/// The value that the title shows, before it is set in subscript: what is left of the
/// limit; else the percentage, rounded; else what the summary says behind its full-width
/// colon. `rounded` is the rounded value of the percentage, if it is a number.
pub open spec fn title_value(tab: TabView, rounded: Option<i64>) -> Option<Seq<char>> {
    if has_limit(tab) {
        Some(short_count(tab.first_group->0.remain.unwrap_or(0) as nat))
    } else if percentage(tab) is Some && rounded is Some {
        Some(signed_decimal(rounded->0 as int))
    } else {
        match after_first(tab.compact_text.unwrap_or(""@), '\u{FF1A}') {
            Some(value) => if value.len() > 0 {
                Some(value)
            } else {
                None
            },
            None => None,
        }
    }
}

/// The title of the tray for the active tab. Where there is no value yet, several tabs still
/// show the number of the tab, and a single one shows no title.
pub open spec fn title(tab: TabView, rounded: Option<i64>) -> Option<Seq<char>> {
    match title_value(tab, rounded) {
        Some(value) => Some(" "@ + title_prefix(tab) + subscript(value)),
        None => if many_tabs(tab) {
            Some(" "@ + title_prefix(tab))
        } else {
            None
        },
    }
}

/// The number of the percentage that the first quota reports in place of a limit.
pub fn percentage_text(tab: &TabData) -> (r: Option<String>)
    ensures
        option_text(r) == percentage(tab@),
{
    match &tab.first_group {
        Some(group) => if group.limit.unwrap_or(0) > 0 {
            None
        } else {
            match &group.used {
                Some(used) => Some(trim_end_text(used.as_str(), '%')),
                None => None,
            }
        },
        None => None,
    }
}

/// A title from its prefix and its value.
fn title_text(prefix: &str, value: &str) -> (r: String)
    ensures
        r@ == " "@ + prefix@ + subscript(value@),
{
    let r = " ".to_string().concat(prefix);
    r.concat(to_subscript(value).as_str())
}

/// The title of the tray for the active tab; none clears the title. `rounded` is the rounded
/// value of the percentage, if it is a number.
pub fn tray_title(tab: &TabData, rounded: Option<i64>) -> (r: Option<String>)
    ensures
        option_text(r) == title(tab@, rounded),
{
    let many: bool = tab.tab_count.unwrap_or(1) > 1;
    let prefix = if many {
        to_subscript_with_paren(tab.tab_index.unwrap_or(1))
    } else {
        "".to_string()
    };
    if let Some(group) = &tab.first_group {
        if group.limit.unwrap_or(0) > 0 {
            let remain: u64 = group.remain.unwrap_or(0);
            let count = if remain >= 10000 {
                decimal_text(remain / 1000).concat("k")
            } else {
                decimal_text(remain)
            };
            return Some(title_text(prefix.as_str(), count.as_str()));
        }
        if group.used.is_some() {
            if let Some(n) = rounded {
                return Some(
                    title_text(prefix.as_str(), signed_decimal_text(n).as_str()),
                );
            }
        }
    }
    let value = match &tab.compact_text {
        Some(compact) => text_after_first(compact.as_str(), '\u{FF1A}'),
        None => text_after_first("", '\u{FF1A}'),
    };
    if let Some(value) = value {
        if !value.as_str().is_empty() {
            return Some(title_text(prefix.as_str(), value.as_str()));
        }
    }
    if many {
        Some(" ".to_string().concat(prefix.as_str()))
    } else {
        None
    }
}

/// The title of the tray for the data of the active tab.
pub fn update_active_tab_tray(data: &serde_json::Value, rounded: Option<i64>) -> (r: Option<String>)
    ensures
        option_text(r) == title(tab_in(tree(*data)), rounded),
{
    tray_title(&read_tab(data), rounded)
}

/// Subscript keeps the length of a text, and setting a text in subscript twice is setting it
/// once.
pub proof fn law_subscript_is_stable(s: Seq<char>)
    ensures
        subscript(s).len() == s.len(),
        subscript(subscript(s)) == subscript(s),
{
    assert(subscript(subscript(s)) =~= subscript(s));
}

/// Different tabs have different prefixes.
pub proof fn law_prefixes_tell_tabs_apart(a: nat, b: nat)
    requires
        tab_prefix(a) == tab_prefix(b),
    ensures
        a == b,
{
    law_numerals_are_digits(a);
    law_numerals_are_digits(b);
    assert(tab_prefix(a).drop_last() =~= subscript(decimal(a)));
    assert(tab_prefix(b).drop_last() =~= subscript(decimal(b)));
    assert(decimal(a).len() == subscript(decimal(a)).len());
    assert forall|i: int| 0 <= i < decimal(a).len() implies decimal(a)[i] == decimal(b)[i] by {
        assert(subscript(decimal(a))[i] == subscript(decimal(b))[i]);
        assert(is_digit(decimal(a)[i]) && is_digit(decimal(b)[i]));
    }
    assert(decimal(a) =~= decimal(b));
    law_numerals_differ(a, b);
}

/// With several tabs open there always is a title, and it begins with the number of the tab;
/// with a single one the title is the value alone.
pub proof fn law_title_shows_tab_among_many(tab: TabView, rounded: Option<i64>)
    ensures
        many_tabs(tab) ==> title(tab, rounded) is Some && (" "@ + title_prefix(
            tab,
        )).is_prefix_of(title(tab, rounded)->0),
        !many_tabs(tab) ==> title(tab, rounded) == match title_value(tab, rounded) {
            Some(value) => Some(" "@ + subscript(value)),
            None => None,
        },
{
    reveal_strlit("");
    if let Some(value) = title_value(tab, rounded) {
        assert(" "@ + ""@ + subscript(value) =~= " "@ + subscript(value));
    }
}

/// A mouse button.
#[derive(Debug, Clone, Copy, PartialEq, Eq, Structural)]
pub enum MouseButton {
    Left,
    Right,
    Middle,
}

/// Whether a mouse button went up or down.
#[derive(Debug, Clone, Copy, PartialEq, Eq, Structural)]
pub enum ButtonState {
    Up,
    Down,
}

/// How long clicks are ignored after one that counted, in nanoseconds.
pub const CLICK_PAUSE: u128 = 300_000_000;

/// The clicks on the tray icon. Times are in nanoseconds on a clock that does not go back.
#[derive(Debug, Clone, Copy, PartialEq, Eq, Structural)]
pub struct TrayClicks {
    /// When a click counted last.
    pub last: u128,
}

/// Whether a click counts: the left button is released, and the last click that counted is
/// not too recent.
pub open spec fn click_counts(
    last: u128,
    button: MouseButton,
    state: ButtonState,
    now: u128,
) -> bool {
    button == MouseButton::Left && state == ButtonState::Up && now - last >= CLICK_PAUSE
}

impl TrayClicks {
    /// Starts to watch the clicks at `now`. The first click counts at once.
    pub fn new(now: u128) -> (r: Self)
        requires
            now >= 1_000_000_000,
        ensures
            r.last == now - 1_000_000_000,
    {
        TrayClicks { last: now - 1_000_000_000 }
    }

    /// Whether the overlay is to be shown or hidden for a click.
    pub fn click(&mut self, button: MouseButton, state: ButtonState, now: u128) -> (r: bool)
        ensures
            r == click_counts(old(self).last, button, state, now),
            final(self).last == if r {
                now
            } else {
                old(self).last
            },
    {
        if button != MouseButton::Left || state != ButtonState::Up {
            return false;
        }
        if now < self.last || now - self.last < CLICK_PAUSE {
            return false;
        }
        self.last = now;
        true
    }
}

/// The time of the last click that counted, after releases of the left button at the given
/// times.
pub open spec fn last_after(last: u128, times: Seq<u128>) -> u128
    decreases times.len(),
{
    if times.len() == 0 {
        last
    } else {
        let before = last_after(last, times.drop_last());
        if click_counts(before, MouseButton::Left, ButtonState::Up, times.last()) {
            times.last()
        } else {
            before
        }
    }
}

/// Of all clicks of a series, any two that count are at least the pause apart: whatever came
/// since, a click that counts is that much later than every earlier one that counted.
pub proof fn law_counted_clicks_are_apart(last: u128, between: Seq<u128>, now: u128)
    requires
        click_counts(
            last_after(last, between),
            MouseButton::Left,
            ButtonState::Up,
            now,
        ),
    ensures
        now - last >= CLICK_PAUSE,
{
    lemma_last_grows(last, between);
}

/// The time of the last click that counted never goes back.
proof fn lemma_last_grows(last: u128, times: Seq<u128>)
    ensures
        last_after(last, times) >= last,
    decreases times.len(),
{
    if times.len() > 0 {
        lemma_last_grows(last, times.drop_last());
    }
}

/// Digits become the subscript digits of the same value, `k` becomes its subscript form, and
/// every other character stays, each in its place.
pub proof fn law_characters_are_set_in_subscript(s: Seq<char>, i: int)
    requires
        0 <= i < s.len(),
    ensures
        '0' <= s[i] <= '9' ==> subscript(s)[i] as int - '\u{2080}' as int == s[i] as int
            - '0' as int,
        s[i] == 'k' ==> subscript(s)[i] == '\u{2096}',
        !('0' <= s[i] <= '9') && s[i] != 'k' ==> subscript(s)[i] == s[i],
{
}

/// The number that a row of subscript digits denotes.
pub open spec fn subscript_value(s: Seq<char>) -> int
    decreases s.len(),
{
    if s.len() == 0 {
        0
    } else {
        10 * subscript_value(s.drop_last()) + (s.last() as int - '\u{2080}' as int)
    }
}

/// Whether a text consists of subscript digits, at least one.
pub open spec fn is_subscript_number(s: Seq<char>) -> bool {
    s.len() > 0 && forall|i: int| 0 <= i < s.len() ==> '\u{2080}' <= #[trigger] s[i] <= '\u{2089}'
}

/// A numeral in subscript denotes the same number.
proof fn lemma_subscript_value(s: Seq<char>)
    requires
        forall|i: int| 0 <= i < s.len() ==> '0' <= #[trigger] s[i] <= '9',
    ensures
        subscript_value(subscript(s)) == numeral_value(s),
        forall|i: int|
            0 <= i < s.len() ==> '\u{2080}' <= #[trigger] subscript(s)[i] <= '\u{2089}',
    decreases s.len(),
{
    if s.len() > 0 {
        assert(subscript(s).drop_last() =~= subscript(s.drop_last()));
        lemma_subscript_value(s.drop_last());
        assert('0' <= s[s.len() - 1] <= '9');
    }
    assert forall|i: int| 0 <= i < s.len() implies '\u{2080}' <= #[trigger] subscript(s)[i]
        <= '\u{2089}' by {
        assert('0' <= s[i] <= '9');
    }
}

/// The numeral of a number in subscript.
proof fn lemma_subscript_numeral(n: nat)
    ensures
        is_subscript_number(subscript(decimal(n))),
        subscript_value(subscript(decimal(n))) == n,
{
    law_numerals_read_back(n);
    lemma_subscript_value(decimal(n));
}

/// The prefix for a tab is its number in subscript and a closing parenthesis.
pub proof fn law_prefix_shows_number(n: nat)
    ensures
        tab_prefix(n).last() == '\u{208E}',
        is_subscript_number(tab_prefix(n).drop_last()),
        subscript_value(tab_prefix(n).drop_last()) == n,
{
    lemma_subscript_numeral(n);
    assert(tab_prefix(n).drop_last() =~= subscript(decimal(n)));
}

/// Among several tabs a title has the prefix of the tab's number, which is 1 where it is
/// missing; a single tab has none. A missing count means a single tab.
pub proof fn law_title_prefix(tab: TabView)
    ensures
        tab.tab_count matches Some(n) && n > 1 ==> title_prefix(tab) == tab_prefix(
            match tab.tab_index {
                Some(i) => i as nat,
                None => 1,
            },
        ),
        !(tab.tab_count matches Some(n) && n > 1) ==> title_prefix(tab).len() == 0,
{
    reveal_strlit("");
}

/// What a title shows behind its blank and its prefix.
pub open spec fn shown(t: Seq<char>, tab: TabView) -> Seq<char> {
    t.skip(1 + title_prefix(tab).len() as int)
}

/// Whether a title begins with a blank and the prefix.
pub open spec fn is_titled(t: Seq<char>, tab: TabView) -> bool {
    &&& t.len() >= 1 + title_prefix(tab).len()
    &&& t[0] == ' '
    &&& t.subrange(1, 1 + title_prefix(tab).len() as int) == title_prefix(tab)
}

/// A title with a value.
proof fn lemma_title(tab: TabView, value: Seq<char>)
    ensures
        is_titled(" "@ + title_prefix(tab) + subscript(value), tab),
        shown(" "@ + title_prefix(tab) + subscript(value), tab) == subscript(value),
        is_titled(" "@ + title_prefix(tab), tab),
        shown(" "@ + title_prefix(tab), tab) == Seq::<char>::empty(),
{
    reveal_strlit(" ");
    let p = title_prefix(tab);
    let t = " "@ + p + subscript(value);
    assert(t.skip(1 + p.len() as int) =~= subscript(value));
    assert(t.subrange(1, 1 + p.len() as int) =~= p);
    let u = " "@ + p;
    assert(u.skip(1 + p.len() as int) =~= Seq::<char>::empty());
    assert(u.subrange(1, 1 + p.len() as int) =~= p);
}

/// Where the first quota has a limit above 0, the title shows what is left of it, whatever the
/// limit: the number itself below ten thousand, and its thousands and a `k` from there on. A
/// missing remainder counts as 0.
pub proof fn law_remaining_tokens_are_shown(tab: TabView, rounded: Option<i64>, left: nat)
    requires
        tab.first_group is Some,
        tab.first_group->0.limit matches Some(limit) && limit > 0,
        tab.first_group->0.remain matches Some(r) ==> left == r,
        tab.first_group->0.remain is None ==> left == 0,
    ensures
        title(tab, rounded) is Some,
        is_titled(title(tab, rounded)->0, tab),
        ({
            let s = shown(title(tab, rounded)->0, tab);
            &&& left < 10000 ==> is_subscript_number(s) && subscript_value(s) == left
            &&& left >= 10000 ==> {
                &&& s.last() == '\u{2096}'
                &&& is_subscript_number(s.drop_last())
                &&& subscript_value(s.drop_last()) == left / 1000
            }
        }),
{
    reveal_strlit("k");
    lemma_subscript_numeral(left);
    lemma_subscript_numeral(left / 1000);
    lemma_title(tab, short_count(left));
    assert(subscript(decimal(left / 1000) + "k"@).drop_last() =~= subscript(decimal(left / 1000)));
}

/// Two tabs that differ in their limits, both above 0, and in what does not matter then, have
/// the same title.
pub proof fn law_limit_does_not_matter(
    a: TabView,
    b: TabView,
    rounded: Option<i64>,
    other: Option<i64>,
)
    requires
        a.tab_index == b.tab_index,
        a.tab_count == b.tab_count,
        a.first_group is Some,
        b.first_group is Some,
        a.first_group->0.limit matches Some(l) && l > 0,
        b.first_group->0.limit matches Some(l) && l > 0,
        a.first_group->0.remain == b.first_group->0.remain,
    ensures
        title(a, rounded) == title(b, other),
{
}

/// Where the first quota has no limit above 0 but a percentage, the title shows its rounded
/// value.
pub proof fn law_percentage_is_shown(tab: TabView, n: i64)
    requires
        tab.first_group is Some,
        !(tab.first_group->0.limit matches Some(limit) && limit > 0),
        tab.first_group->0.used is Some,
    ensures
        title(tab, Some(n)) is Some,
        is_titled(title(tab, Some(n))->0, tab),
        ({
            let s = shown(title(tab, Some(n))->0, tab);
            &&& n >= 0 ==> is_subscript_number(s) && subscript_value(s) == n
            &&& n < 0 ==> {
                &&& s[0] == '-'
                &&& is_subscript_number(s.skip(1))
                &&& subscript_value(s.skip(1)) == -n
            }
        }),
{
    lemma_title(tab, signed_decimal(n as int));
    if n >= 0 {
        lemma_subscript_numeral(n as nat);
    } else {
        lemma_subscript_numeral((-n) as nat);
        assert(subscript(signed_decimal(n as int)).skip(1) =~= subscript(decimal((-n) as nat)));
    }
}

/// Whether the first quota gives a title neither by a limit nor by a percentage.
pub open spec fn lacks_number(tab: TabView, rounded: Option<i64>) -> bool {
    tab.first_group matches Some(g) ==> !(g.limit matches Some(limit) && limit > 0) && (g.used
        is None || rounded is None)
}

/// Without a number from the first quota, the title shows what stands in the summary behind its
/// first full-width colon.
pub proof fn law_summary_is_shown(
    tab: TabView,
    rounded: Option<i64>,
    label: Seq<char>,
    value: Seq<char>,
)
    requires
        lacks_number(tab, rounded),
        tab.compact_text == Some(label + seq!['\u{FF1A}'] + value),
        !label.contains('\u{FF1A}'),
        value.len() > 0,
    ensures
        title(tab, rounded) is Some,
        is_titled(title(tab, rounded)->0, tab),
        shown(title(tab, rounded)->0, tab) == subscript(value),
{
    let compact = label + seq!['\u{FF1A}'] + value;
    let k = label.len() as int;
    law_parts_make_up_text(compact, '\u{FF1A}');
    assert(compact[k] == '\u{FF1A}');
    let p = position(compact, '\u{FF1A}');
    if p < k {
        assert(compact[p] == label[p]);
        assert(compact == before_first(compact, '\u{FF1A}')->0 + seq!['\u{FF1A}'] + after_first(
            compact,
            '\u{FF1A}',
        )->0);
        assert(compact[p] == '\u{FF1A}');
        assert(label.contains(label[p]));
    }
    assert(p == k);
    assert(compact.skip(k + 1) =~= value);
    lemma_title(tab, value);
}

/// Without any value, several tabs show the prefix alone, and a single one shows no title.
pub proof fn law_missing_value_shows_prefix(tab: TabView, rounded: Option<i64>)
    requires
        lacks_number(tab, rounded),
        tab.compact_text matches Some(c) ==> !c.contains('\u{FF1A}') || c.last() == '\u{FF1A}'
            && !c.drop_last().contains('\u{FF1A}'),
    ensures
        tab.tab_count matches Some(n) && n > 1 ==> title(tab, rounded) is Some && is_titled(
            title(tab, rounded)->0,
            tab,
        ) && shown(title(tab, rounded)->0, tab).len() == 0,
        !(tab.tab_count matches Some(n) && n > 1) ==> title(tab, rounded) is None,
{
    reveal_strlit("");
    lemma_title(tab, seq![]);
    let c = tab.compact_text.unwrap_or(""@);
    law_parts_make_up_text(c, '\u{FF1A}');
    if c.contains('\u{FF1A}') {
        let p = position(c, '\u{FF1A}');
        assert(c == before_first(c, '\u{FF1A}')->0 + seq!['\u{FF1A}'] + after_first(
            c,
            '\u{FF1A}',
        )->0);
        assert(c[p] == '\u{FF1A}');
        if p < c.len() - 1 {
            assert(c.drop_last()[p] == '\u{FF1A}');
        }
        assert(after_first(c, '\u{FF1A}')->0.len() == 0);
    }
}

/// A percentage is looked at only where the first quota has no limit above 0 and a text; it is
/// that text without the percent signs at its end.
pub proof fn law_percentage_is_found(tab: TabView, used: Seq<char>)
    ensures
        tab.first_group is Some && !(tab.first_group->0.limit matches Some(limit) && limit > 0)
            && tab.first_group->0.used == Some(used) ==> {
            let p = percentage(tab);
            &&& p is Some
            &&& p->0.is_prefix_of(used)
            &&& forall|i: int| p->0.len() <= i < used.len() ==> #[trigger] used[i] == '%'
            &&& p->0.len() > 0 ==> p->0.last() != '%'
        },
        percentage(tab) is Some ==> tab.first_group is Some && tab.first_group->0.used is Some && !(
        tab.first_group->0.limit matches Some(limit) && limit > 0),
{
    law_end_is_trimmed(used, '%');
    assert(used.take(trim_end(used, '%').len() as int) =~= used.subrange(
        0,
        trim_end(used, '%').len() as int,
    ));
}

/// Each field of a tab is read under its own key, and is missing where there is no entry of its
/// kind.
pub proof fn law_tab_is_read(m: Map<Seq<char>, Json>, n: u64, t: Seq<char>)
    ensures
        ({
            let json = Json::Object(m);
            let has = |key: Seq<char>, v: Json| m.dom().contains(key) && m[key] == v;
            &&& tab_in(json).tab_index == Some(n) <==> has("tab_index"@, Json::Natural(n))
            &&& tab_in(json).tab_count == Some(n) <==> has("tab_count"@, Json::Natural(n))
            &&& tab_in(json).compact_text == Some(t) <==> has("compact_text"@, Json::Text(t))
            &&& group_in(json).limit == Some(n) <==> has("limit"@, Json::Natural(n))
            &&& group_in(json).remain == Some(n) <==> has("remain"@, Json::Natural(n))
            &&& group_in(json).used == Some(t) <==> has("used"@, Json::Text(t))
        }),
{
}

/// The first quota is the first element of the array of quotas.
pub proof fn law_first_quota_is_read(m: Map<Seq<char>, Json>, first: Json, others: Seq<Json>)
    ensures
        m.dom().contains("quota_groups"@) && m["quota_groups"@] == Json::Array(
            seq![first] + others,
        ) ==> tab_in(Json::Object(m)).first_group == Some(group_in(first)),
        tab_in(Json::Object(m)).first_group is Some ==> m.dom().contains("quota_groups"@)
            && m["quota_groups"@] is Array && m["quota_groups"@]->Array_0.len() > 0,
{
    assert((seq![first] + others)[0] == first);
}

/// A click counts exactly where the left button is released 300 milliseconds or more after the
/// last click that counted.
pub proof fn law_clicks_that_count(
    last: u128,
    button: MouseButton,
    state: ButtonState,
    now: u128,
)
    ensures
        click_counts(last, button, state, now) <==> button is Left && state is Up && last
            + 300 * 1_000_000 <= now,
{
}

/// Nothing of a tab or of its quota is left out of its view.
pub proof fn law_tab_view_is_whole(tab: TabData, g: QuotaGroup)
    ensures
        tab@.tab_index == tab.tab_index && tab@.tab_count == tab.tab_count,
        tab.first_group == Some(g) ==> tab@.first_group == Some(g@),
        tab.first_group is None ==> tab@.first_group is None,
        tab.compact_text matches Some(t) ==> tab@.compact_text == Some(t@),
        tab.compact_text is None ==> tab@.compact_text is None,
        g@.limit == g.limit && g@.remain == g.remain,
        g.used matches Some(t) ==> g@.used == Some(t@),
        g.used is None ==> g@.used is None,
{
}

} // verus!
