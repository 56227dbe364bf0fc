//! What the pages of the providers report, and what follows from it.

use crate::connect::{notify_control, status_script, Status};
use crate::json::{
    entries, entry, from_bool, from_elements, from_fields, from_text, null, parse, parsed, text_at,
    text_field, tree, trees, Json,
};
use crate::overlay::{data_script, push_step, OverlayState, Push};
use crate::providers::{
    find_in, find_provider, label_of, label_text, law_registered_providers_are_found, registry,
    DataItem, ProviderData,
};
use crate::tray::WindowAction;
use vstd::prelude::*;

verus! {

/// The JSON tree of a line.
pub open spec fn line_tree(key: Seq<char>, value: Seq<char>, highlight: bool) -> Json {
    Json::Object(
        map![
            "key"@ => Json::Text(key),
            "value"@ => Json::Text(value),
            "highlight"@ => Json::Bool(highlight),
        ],
    )
}

/// The JSON tree of a provider's data without a time of its update.
pub open spec fn report_tree(
    provider_id: Seq<char>,
    provider_name: Seq<char>,
    lines: Seq<Json>,
    compact_text: Seq<char>,
) -> Json {
    Json::Object(
        map![
            "provider_id"@ => Json::Text(provider_id),
            "provider_name"@ => Json::Text(provider_name),
            "items"@ => Json::Array(lines),
            "compact_text"@ => Json::Text(compact_text),
            "updated_at"@ => Json::Null,
        ],
    )
}

/// The JSON trees of lines.
pub open spec fn line_trees(items: Seq<DataItem>) -> Seq<Json> {
    items.map_values(|i: DataItem| line_tree(i.key@, i.value@, i.highlight))
}

/// The JSON tree of a provider's data without a time of its update.
pub open spec fn data_tree(data: ProviderData) -> Json {
    report_tree(
        data.provider_id@,
        data.provider_name@,
        line_trees(data.items@),
        data.compact_text@,
    )
}

/// A line as a document.
fn line_json(item: &DataItem) -> (r: serde_json::Value)
    ensures
        tree(r) == line_tree(item.key@, item.value@, item.highlight),
{
    let fields = vec![
        ("key", from_text(item.key.as_str())),
        ("value", from_text(item.value.as_str())),
        ("highlight", from_bool(item.highlight)),
    ];
    proof {
        reveal_strlit("key");
        reveal_strlit("value");
        reveal_strlit("highlight");
        reveal_with_fuel(entries, 4);
        assert("key"@.len() == 3 && "value"@.len() == 5 && "highlight"@.len() == 9);
        assert(entries(fields@) =~= line_tree(item.key@, item.value@, item.highlight)->Object_0);
    }
    from_fields(fields)
}

/// A provider's data as a document, without a time of its update.
pub fn data_json(data: &ProviderData) -> (r: serde_json::Value)
    ensures
        tree(r) == data_tree(*data),
{
    let mut lines: Vec<serde_json::Value> = Vec::new();
    let mut i: usize = 0;
    while i < data.items.len()
        invariant
            i <= data.items@.len(),
            lines@.len() == i,
            forall|k: int|
                0 <= k < i ==> tree(#[trigger] lines@[k]) == line_trees(data.items@)[k],
        decreases data.items@.len() - i,
    {
        lines.push(line_json(&data.items[i]));
        i += 1;
    }
    assert(trees(lines@) =~= line_trees(data.items@));
    let fields = vec![
        ("provider_id", from_text(data.provider_id.as_str())),
        ("provider_name", from_text(data.provider_name.as_str())),
        ("items", from_elements(lines)),
        ("compact_text", from_text(data.compact_text.as_str())),
        ("updated_at", null()),
    ];
    proof {
        reveal_strlit("provider_id");
        reveal_strlit("provider_name");
        reveal_strlit("items");
        reveal_strlit("compact_text");
        reveal_strlit("updated_at");
        reveal_with_fuel(entries, 6);
        assert("provider_id"@.len() == 11 && "provider_name"@.len() == 13 && "items"@.len() == 5
            && "compact_text"@.len() == 12 && "updated_at"@.len() == 10);
        assert(entries(fields@) =~= data_tree(*data)->Object_0);
    }
    from_fields(fields)
}

/// The name of a provider; its identifier where it is not registered.
pub open spec fn name_of(provider_id: Seq<char>) -> Seq<char> {
    match find_in(registry(), provider_id) {
        Some(p) => p.name,
        None => provider_id,
    }
}

/// The JSON tree of what the overlay shows of a provider until its data has come.
pub open spec fn placeholder_tree(provider_id: Seq<char>) -> Json {
    report_tree(
        provider_id,
        name_of(provider_id),
        seq![
            line_tree("状态"@, "已登录"@, true),
            line_tree("数据"@, "正在获取..."@, false),
        ],
        "获取数据..."@,
    )
}

/// What the overlay shows of a provider until its data has come.
pub fn placeholder(provider_id: &str) -> (r: ProviderData)
    ensures
        r.provider_id@ == provider_id@,
        r.provider_name@ == name_of(provider_id@),
        data_tree(r) == placeholder_tree(provider_id@),
{
    let provider_name = match find_provider(provider_id) {
        Some(p) => p.name.to_string(),
        None => provider_id.to_string(),
    };
    let r = ProviderData {
        provider_id: provider_id.to_string(),
        provider_name,
        items: vec![
            DataItem { key: "状态".to_string(), value: "已登录".to_string(), highlight: true },
            DataItem {
                key: "数据".to_string(),
                value: "正在获取...".to_string(),
                highlight: false,
            },
        ],
        compact_text: "获取数据...".to_string(),
    };
    assert(line_trees(r.items@) =~= seq![
        line_tree("状态"@, "已登录"@, true),
        line_tree("数据"@, "正在获取..."@, false),
    ]);
    r
}

/// The provider that an event speaks of. A missing identifier counts as empty.
pub open spec fn provider_in(json: Json) -> Seq<char> {
    text_at(json, "provider_id"@).unwrap_or(""@)
}

/// What follows from a login.
pub struct LoginEffect {
    /// The provider that the event speaks of.
    pub provider_id: String,
    /// The window that is hidden.
    pub hide_label: String,
    /// What the control panel is told.
    pub status_script: String,
    /// What the overlay is given until data comes.
    pub push: Push,
}

/// What a login reported in a document does.
pub fn login_effect(overlay: &mut OverlayState, event: &serde_json::Value) -> (r: LoginEffect)
    ensures
        ({
            let id = provider_in(tree(*event));
            &&& r.provider_id@ == id
            &&& r.hide_label@ == label_of(id)
            &&& r.status_script@ == status_script(id, Status::Connected)
            &&& r.push.script@ == data_script(placeholder_tree(id))
        }),
        (*final(overlay), r.push.show) == push_step(*old(overlay)),
{
    let id = text_field(event, "provider_id").unwrap_or("");
    let push = overlay.push_provider_data(&data_json(&placeholder(id)));
    LoginEffect {
        provider_id: id.to_string(),
        hide_label: label_text(id),
        status_script: notify_control(id, Status::Connected),
        push,
    }
}

/// Answers the event that a user has logged in: the page of the provider is hidden, the
/// control panel is told, and the overlay shows a placeholder. An event that is no JSON
/// document is ignored.
pub fn on_login(overlay: &mut OverlayState, payload: &str) -> (r: Option<LoginEffect>)
    ensures
        match parsed(payload@) {
            Some(json) => {
                let id = provider_in(json);
                &&& r is Some
                &&& r->0.provider_id@ == id
                &&& r->0.hide_label@ == label_of(id)
                &&& r->0.status_script@ == status_script(id, Status::Connected)
                &&& r->0.push.script@ == data_script(placeholder_tree(id))
                &&& (*final(overlay), r->0.push.show) == push_step(*old(overlay))
            },
            None => r is None && *final(overlay) == *old(overlay),
        },
{
    match parse(payload) {
        Ok(event) => Some(login_effect(overlay, &event)),
        Err(_) => None,
    }
}

/// What follows from a logout.
pub struct LogoutEffect {
    /// The provider that the event speaks of.
    pub provider_id: String,
    /// The window that is shown again, for a new login.
    pub show_label: String,
    /// What shows it.
    pub actions: Vec<WindowAction>,
    /// What the control panel is told.
    pub status_script: String,
}

/// What a logout reported in a document does.
pub fn logout_effect(event: &serde_json::Value) -> (r: LogoutEffect)
    ensures
        ({
            let id = provider_in(tree(*event));
            &&& r.provider_id@ == id
            &&& r.show_label@ == label_of(id)
            &&& r.actions@ == seq![WindowAction::Show, WindowAction::Focus]
            &&& r.status_script@ == status_script(id, Status::Disconnected)
        }),
{
    let id = text_field(event, "provider_id").unwrap_or("");
    LogoutEffect {
        provider_id: id.to_string(),
        show_label: label_text(id),
        actions: vec![WindowAction::Show, WindowAction::Focus],
        status_script: notify_control(id, Status::Disconnected),
    }
}

/// Answers the event that a user has logged out: the page of the provider is shown again, and
/// the control panel is told. An event that is no JSON document is ignored.
pub fn on_logout(payload: &str) -> (r: Option<LogoutEffect>)
    ensures
        match parsed(payload@) {
            Some(json) => {
                let id = provider_in(json);
                &&& r is Some
                &&& r->0.provider_id@ == id
                &&& r->0.show_label@ == label_of(id)
                &&& r->0.actions@ == seq![WindowAction::Show, WindowAction::Focus]
                &&& r->0.status_script@ == status_script(id, Status::Disconnected)
            },
            None => r is None,
        },
{
    match parse(payload) {
        Ok(event) => Some(logout_effect(&event)),
        Err(_) => None,
    }
}

/// Answers the event that data has come: it is handed to the overlay as it is. An event that
/// is no JSON document is ignored.
pub fn on_data(overlay: &mut OverlayState, payload: &str) -> (r: Option<Push>)
    ensures
        match parsed(payload@) {
            Some(json) => {
                &&& r is Some
                &&& r->0.script@ == data_script(json)
                &&& (*final(overlay), r->0.show) == push_step(*old(overlay))
            },
            None => r is None && *final(overlay) == *old(overlay),
        },
{
    match parse(payload) {
        Ok(data) => Some(overlay.push_provider_data(&data)),
        Err(_) => None,
    }
}

/// What a report is built from can be read back from it.
pub proof fn law_report_reads_back(
    provider_id: Seq<char>,
    provider_name: Seq<char>,
    lines: Seq<Json>,
    compact_text: Seq<char>,
)
    ensures
        ({
            let json = report_tree(provider_id, provider_name, lines, compact_text);
            &&& provider_in(json) == provider_id
            &&& text_at(json, "provider_name"@) == Some(provider_name)
            &&& entry(json, "items"@) == Some(Json::Array(lines))
            &&& text_at(json, "compact_text"@) == Some(compact_text)
        }),
{
    reveal_strlit("provider_id");
    reveal_strlit("provider_name");
    reveal_strlit("items");
    reveal_strlit("compact_text");
    reveal_strlit("updated_at");
    assert("provider_id"@.len() == 11 && "provider_name"@.len() == 13 && "items"@.len() == 5
        && "compact_text"@.len() == 12 && "updated_at"@.len() == 10);
}

/// A registered provider goes by its registered name.
pub proof fn law_registered_name_is_used(i: int)
    requires
        0 <= i < registry().len(),
    ensures
        name_of(registry()[i].id) == registry()[i].name,
{
    law_registered_providers_are_found(i, registry()[i].id);
}

/// A line holds its label, its value and its mark, under their keys, and nothing else.
pub proof fn law_line_reads_back(key: Seq<char>, value: Seq<char>, highlight: bool, k: Seq<char>)
    ensures
        ({
            let json = line_tree(key, value, highlight);
            &&& text_at(json, "key"@) == Some(key)
            &&& text_at(json, "value"@) == Some(value)
            &&& entry(json, "highlight"@) == Some(Json::Bool(highlight))
            &&& entry(json, k) is Some ==> k == "key"@ || k == "value"@ || k == "highlight"@
        }),
{
    reveal_strlit("key");
    reveal_strlit("value");
    reveal_strlit("highlight");
    assert("key"@.len() == 3 && "value"@.len() == 5 && "highlight"@.len() == 9);
}

/// The data of a provider can be read back from its document: the provider, the summary and
/// every line in its place. There is no time of an update, and nothing else.
pub proof fn law_data_reads_back(data: ProviderData, i: int, k: Seq<char>)
    ensures
        ({
            let json = data_tree(data);
            &&& text_at(json, "provider_id"@) == Some(data.provider_id@)
            &&& text_at(json, "provider_name"@) == Some(data.provider_name@)
            &&& text_at(json, "compact_text"@) == Some(data.compact_text@)
            &&& entry(json, "updated_at"@) == Some(Json::Null)
            &&& entry(json, "items"@) matches Some(Json::Array(lines)) && {
                &&& lines.len() == data.items@.len()
                &&& 0 <= i < lines.len() ==> {
                    &&& text_at(lines[i], "key"@) == Some(data.items@[i].key@)
                    &&& text_at(lines[i], "value"@) == Some(data.items@[i].value@)
                    &&& entry(lines[i], "highlight"@) == Some(Json::Bool(data.items@[i].highlight))
                }
            }
            &&& entry(json, k) is Some ==> k == "provider_id"@ || k == "provider_name"@ || k
                == "items"@ || k == "compact_text"@ || k == "updated_at"@
        }),
{
    law_report_reads_back(
        data.provider_id@,
        data.provider_name@,
        line_trees(data.items@),
        data.compact_text@,
    );
    reveal_strlit("provider_id");
    reveal_strlit("provider_name");
    reveal_strlit("items");
    reveal_strlit("compact_text");
    reveal_strlit("updated_at");
    assert("provider_id"@.len() == 11 && "provider_name"@.len() == 13 && "items"@.len() == 5
        && "compact_text"@.len() == 12 && "updated_at"@.len() == 10);
    if 0 <= i < data.items@.len() {
        let line = data.items@[i];
        law_line_reads_back(line.key@, line.value@, line.highlight, k);
    }
}

/// Until data has come, the overlay shows of a provider its identifier and name, that it is
/// logged in, with a mark, and that data is being fetched, without one.
pub proof fn law_placeholder_tells_of_the_login(id: Seq<char>)
    ensures
        ({
            let json = placeholder_tree(id);
            &&& text_at(json, "provider_id"@) == Some(id)
            &&& text_at(json, "provider_name"@) == Some(name_of(id))
            &&& text_at(json, "compact_text"@) == Some("获取数据..."@)
            &&& entry(json, "updated_at"@) == Some(Json::Null)
            &&& entry(json, "items"@) matches Some(Json::Array(lines)) && {
                &&& lines.len() == 2
                &&& text_at(lines[0], "key"@) == Some("状态"@)
                &&& text_at(lines[0], "value"@) == Some("已登录"@)
                &&& entry(lines[0], "highlight"@) == Some(Json::Bool(true))
                &&& text_at(lines[1], "key"@) == Some("数据"@)
                &&& text_at(lines[1], "value"@) == Some("正在获取..."@)
                &&& entry(lines[1], "highlight"@) == Some(Json::Bool(false))
            }
        }),
{
    let lines = seq![
        line_tree("状态"@, "已登录"@, true),
        line_tree("数据"@, "正在获取..."@, false),
    ];
    law_report_reads_back(id, name_of(id), lines, "获取数据..."@);
    law_line_reads_back("状态"@, "已登录"@, true, ""@);
    law_line_reads_back("数据"@, "正在获取..."@, false, ""@);
    reveal_strlit("provider_id");
    reveal_strlit("provider_name");
    reveal_strlit("items");
    reveal_strlit("compact_text");
    reveal_strlit("updated_at");
    assert("provider_id"@.len() == 11 && "provider_name"@.len() == 13 && "items"@.len() == 5
        && "compact_text"@.len() == 12 && "updated_at"@.len() == 10);
}

/// A provider that is not registered goes by its identifier.
pub proof fn law_stranger_goes_by_identifier(id: Seq<char>)
    requires
        forall|i: int| 0 <= i < registry().len() ==> id != (#[trigger] registry()[i]).id,
    ensures
        name_of(id) == id,
{
    law_registered_providers_are_found(0, id);
    if let Some(p) = find_in(registry(), id) {
        let i = choose|i: int| 0 <= i < registry().len() && registry()[i] == p;
        assert(registry()[i].id == id);
    }
}

/// An event speaks of the provider under that key; where there is no such text, of the one with
/// the empty identifier.
pub proof fn law_provider_is_read(m: Map<Seq<char>, Json>, id: Seq<char>)
    ensures
        m.dom().contains("provider_id"@) && m["provider_id"@] == Json::Text(id) ==> provider_in(
            Json::Object(m),
        ) == id,
        !(m.dom().contains("provider_id"@) && m["provider_id"@] is Text) ==> provider_in(
            Json::Object(m),
        ).len() == 0,
{
    reveal_strlit("");
}

} // verus!
