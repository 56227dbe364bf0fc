//! Connecting providers: which window a provider gets, and what is told to whom.

use crate::providers::{find_in, find_provider, label_of, registry, ProviderConfig, ProviderView};
use crate::text::{decimal, decimal_text, law_numerals_read_back, numeral_value};
use crate::tray::WindowAction;
use vstd::prelude::*;

verus! {

/// What parsing an address gives: its normal form, or the reason why it is none.
pub uninterp spec fn parsed_url(text: Seq<char>) -> Result<Seq<char>, Seq<char>>;

/// Parses a text as a `url::Url`. The address in its normal form, or the text of the error
/// where the parser refuses it, is named by `parsed_url`.
#[verifier::external_body]
pub(crate) fn parse_url(text: &str) -> (r: Result<String, String>)
    ensures
        match r {
            Ok(address) => parsed_url(text@) == Ok::<Seq<char>, Seq<char>>(address@),
            Err(reason) => parsed_url(text@) == Err::<Seq<char>, Seq<char>>(reason@),
        },
{
    match text.parse::<url::Url>() {
        Ok(address) => Ok(address.to_string()),
        Err(reason) => Err(reason.to_string()),
    }
}

/// The provider to connect, or a message where there is none with that identifier.
pub fn resolve_provider(provider_id: &str) -> (r: Result<ProviderConfig, String>)
    ensures
        match find_in(registry(), provider_id@) {
            Some(p) => r is Ok && r->Ok_0@ == p,
            None => r is Err && r->Err_0@ == "未知 Provider: "@ + provider_id@,
        },
{
    match find_provider(provider_id) {
        Some(p) => Ok(p),
        None => Err("未知 Provider: ".to_string().concat(provider_id)),
    }
}

/// What brings a window back that is there already.
pub struct Reuse {
    /// The script that leads it back to its page.
    pub script: String,
    /// What shows it.
    pub actions: Vec<WindowAction>,
}

/// The script that leads the window of a provider back to its page.
pub open spec fn return_script(p: ProviderView) -> Seq<char> {
    "window.location.href = '"@ + p.target_url + "'"@
}

/// Brings back the window of a provider, on its page.
pub fn reuse_window(provider: &ProviderConfig) -> (r: Reuse)
    ensures
        r.script@ == return_script(provider@),
        r.actions@ == seq![WindowAction::Show, WindowAction::Focus],
{
    Reuse {
        script: "window.location.href = '".to_string().concat(provider.target_url).concat("'"),
        actions: vec![WindowAction::Show, WindowAction::Focus],
    }
}

/// An extent of a window.
#[derive(Debug, Clone, Copy, PartialEq, Eq, Structural)]
pub enum Extent {
    /// So many pixels.
    Pixels(u32),
    /// Nine tenths of so many pixels.
    NineTenthsOf(u32),
}

/// The extent that a window gets on a screen: the desired one, if that is less than nine
/// tenths of the screen, and those nine tenths otherwise.
pub open spec fn fitted(desired: u32, screen: u32) -> Extent {
    if 10 * desired < 9 * screen {
        Extent::Pixels(desired)
    } else {
        Extent::NineTenthsOf(screen)
    }
}

/// The extent that a window gets on a screen.
fn fit(desired: u32, screen: u32) -> (r: Extent)
    ensures
        r == fitted(desired, screen),
{
    if 10 * (desired as u64) < 9 * (screen as u64) {
        Extent::Pixels(desired)
    } else {
        Extent::NineTenthsOf(screen)
    }
}

/// The width and the height of a provider's window on a screen of the given size, or without
/// knowledge of the screen.
pub open spec fn window_size(screen: Option<(u32, u32)>) -> (Extent, Extent) {
    match screen {
        Some((width, height)) => (fitted(1280, width), fitted(800, height)),
        None => (Extent::Pixels(1280), Extent::Pixels(800)),
    }
}

/// The extent in tenths of a pixel.
pub open spec fn tenths(e: Extent) -> int {
    match e {
        Extent::Pixels(n) => 10 * n,
        Extent::NineTenthsOf(n) => 9 * n,
    }
}

/// A window is never larger than desired, nor than nine tenths of the screen.
pub proof fn law_window_fits_screen(screen: (u32, u32))
    ensures
        ({
            let (width, height) = window_size(Some(screen));
            &&& tenths(width) <= 10 * 1280
            &&& tenths(width) <= 9 * screen.0
            &&& tenths(height) <= 10 * 800
            &&& tenths(height) <= 9 * screen.1
        }),
{
}

/// The script that sets the refresh interval of a provider's page.
pub open spec fn interval_script(ms: nat) -> Seq<char> {
    "if (window.__LSYS_SET_INTERVAL__) window.__LSYS_SET_INTERVAL__("@ + decimal(ms) + ");"@
}

/// The script that sets the refresh interval of a provider's page, given in seconds.
fn interval_text(seconds: u32) -> (r: String)
    ensures
        r@ == interval_script((seconds * 1000) as nat),
{
    let ms: u64 = seconds as u64 * 1000;
    let r = "if (window.__LSYS_SET_INTERVAL__) window.__LSYS_SET_INTERVAL__(".to_string();
    r.concat(decimal_text(ms).as_str()).concat(");")
}

/// How the window of a provider is made. It is made hidden, and shown after a while, so that
/// the page can load.
pub struct NewWindow {
    pub label: String,
    pub url: String,
    pub title: String,
    pub width: Extent,
    pub height: Extent,
    pub centered: bool,
    pub visible: bool,
    /// Runs in every page of the window.
    pub initialization_script: String,
    /// Sets the refresh interval, if one was asked for.
    pub interval_script: Option<String>,
    /// After how many milliseconds the interval is set.
    pub interval_delay: u64,
    /// After how many milliseconds the window is shown and focused.
    pub show_delay: u64,
}

/// How the window of a provider is made, as plain values.
pub struct NewWindowView {
    pub label: Seq<char>,
    pub url: Seq<char>,
    pub title: Seq<char>,
    pub width: Extent,
    pub height: Extent,
    pub centered: bool,
    pub visible: bool,
    pub initialization_script: Seq<char>,
    pub interval_script: Option<Seq<char>>,
    pub interval_delay: int,
    pub show_delay: int,
}

impl View for NewWindow {
    type V = NewWindowView;

    open spec fn view(&self) -> NewWindowView {
        NewWindowView {
            label: self.label@,
            url: self.url@,
            title: self.title@,
            width: self.width,
            height: self.height,
            centered: self.centered,
            visible: self.visible,
            initialization_script: self.initialization_script@,
            interval_script: crate::text::option_text(self.interval_script),
            interval_delay: self.interval_delay as int,
            show_delay: self.show_delay as int,
        }
    }
}

/// How the window of the provider `p` is made whose address was parsed with the result `url`,
/// or a message where there is no address.
pub open spec fn window_plan(
    p: ProviderView,
    url: Result<Seq<char>, Seq<char>>,
    screen: Option<(u32, u32)>,
    refresh_interval: Option<u32>,
) -> Result<NewWindowView, Seq<char>> {
    match url {
        Ok(address) => Ok(
            NewWindowView {
                label: label_of(p.id),
                url: address,
                title: p.name,
                width: window_size(screen).0,
                height: window_size(screen).1,
                centered: true,
                visible: false,
                initialization_script: p.injection_script,
                interval_script: match refresh_interval {
                    Some(seconds) => Some(interval_script((seconds * 1000) as nat)),
                    None => None,
                },
                interval_delay: 1000,
                show_delay: 800,
            },
        ),
        Err(reason) => Err("URL 解析失败: "@ + reason),
    }
}

/// Whether `r` is what `plan` says.
pub open spec fn follows_plan(
    r: Result<NewWindow, String>,
    plan: Result<NewWindowView, Seq<char>>,
) -> bool {
    match plan {
        Ok(w) => r is Ok && r->Ok_0@ == w,
        Err(message) => r is Err && r->Err_0@ == message,
    }
}

/// How the window of a provider is made whose address was parsed with the result `url`.
pub fn plan_window(
    provider: &ProviderConfig,
    url: Result<String, String>,
    screen: Option<(u32, u32)>,
    refresh_interval: Option<u32>,
) -> (r: Result<NewWindow, String>)
    ensures
        follows_plan(
            r,
            window_plan(
                provider@,
                match url {
                    Ok(address) => Ok(address@),
                    Err(reason) => Err(reason@),
                },
                screen,
                refresh_interval,
            ),
        ),
{
    let address = match url {
        Ok(address) => address,
        Err(reason) => {
            return Err("URL 解析失败: ".to_string().concat(reason.as_str()));
        },
    };
    let (width, height) = match screen {
        Some((w, h)) => (fit(1280, w), fit(800, h)),
        None => (Extent::Pixels(1280), Extent::Pixels(800)),
    };
    let interval = match refresh_interval {
        Some(seconds) => Some(interval_text(seconds)),
        None => None,
    };
    Ok(
        NewWindow {
            label: provider.window_label(),
            url: address,
            title: provider.name.to_string(),
            width,
            height,
            centered: true,
            visible: false,
            initialization_script: provider.injection_script.clone(),
            interval_script: interval,
            interval_delay: 1000,
            show_delay: 800,
        },
    )
}

/// How the window of a provider is made.
pub fn create_provider_window(
    provider: &ProviderConfig,
    screen: Option<(u32, u32)>,
    refresh_interval: Option<u32>,
) -> (r: Result<NewWindow, String>)
    ensures
        follows_plan(
            r,
            window_plan(
                provider@,
                parsed_url(provider@.target_url),
                screen,
                refresh_interval,
            ),
        ),
{
    plan_window(provider, parse_url(provider.target_url), screen, refresh_interval)
}

/// The message for a window that could not be made.
pub fn window_failure(reason: &str) -> (r: String)
    ensures
        r@ == "窗口创建失败: "@ + reason@,
{
    "窗口创建失败: ".to_string().concat(reason)
}

/// How a provider stands.
#[derive(Debug, Clone, Copy, PartialEq, Eq, Structural)]
pub enum Status {
    Connecting,
    Connected,
    Disconnected,
}

/// The word for a status.
pub open spec fn status_word(status: Status) -> Seq<char> {
    match status {
        Status::Connecting => "connecting"@,
        Status::Connected => "connected"@,
        Status::Disconnected => "disconnected"@,
    }
}

/// The script that tells the control panel how a provider stands.
pub open spec fn status_script(provider_id: Seq<char>, status: Status) -> Seq<char> {
    "window.__onProviderStatus && window.__onProviderStatus('"@ + provider_id + "', '"@
        + status_word(status) + "');"@
}

/// The script that tells the control panel how a provider stands, as a text.
pub fn notify_control(provider_id: &str, status: Status) -> (r: String)
    ensures
        r@ == status_script(provider_id@, status),
{
    let word = match status {
        Status::Connecting => "connecting",
        Status::Connected => "connected",
        Status::Disconnected => "disconnected",
    };
    let r = "window.__onProviderStatus && window.__onProviderStatus('".to_string();
    r.concat(provider_id).concat("', '").concat(word).concat("');")
}

/// What gives a provider its window.
pub enum WindowPlan {
    /// The window is there already.
    Reuse(Reuse),
    /// The window is made.
    Create(NewWindow),
}

/// What connects a provider.
pub struct Connection {
    /// What gives it its window.
    pub window: WindowPlan,
    /// What the control panel is told once the window is there.
    pub status_script: String,
}

/// Connects a provider, whose window is open already or not. A window that is open is brought
/// back on its page; otherwise one is made. An identifier that is not registered, or an address
/// that cannot be parsed, gives a message.
pub fn connect_provider(
    provider_id: &str,
    open: bool,
    screen: Option<(u32, u32)>,
    refresh_interval: Option<u32>,
) -> (r: Result<Connection, String>)
    ensures
        match find_in(registry(), provider_id@) {
            None => r is Err && r->Err_0@ == "未知 Provider: "@ + provider_id@,
            Some(p) => if open {
                &&& r is Ok
                &&& r->Ok_0.window is Reuse
                &&& r->Ok_0.window->Reuse_0.script@ == return_script(p)
                &&& r->Ok_0.window->Reuse_0.actions@ == seq![
                    WindowAction::Show,
                    WindowAction::Focus,
                ]
            } else {
                match window_plan(p, parsed_url(p.target_url), screen, refresh_interval) {
                    Ok(w) => r is Ok && r->Ok_0.window is Create && r->Ok_0.window->Create_0@ == w,
                    Err(message) => r is Err && r->Err_0@ == message,
                }
            },
        },
        r matches Ok(c) ==> c.status_script@ == status_script(provider_id@, Status::Connecting),
{
    let provider = match resolve_provider(provider_id) {
        Ok(p) => p,
        Err(message) => {
            return Err(message);
        },
    };
    let window = if open {
        WindowPlan::Reuse(reuse_window(&provider))
    } else {
        match create_provider_window(&provider, screen, refresh_interval) {
            Ok(w) => WindowPlan::Create(w),
            Err(message) => {
                return Err(message);
            },
        }
    };
    Ok(Connection { window, status_script: notify_control(provider_id, Status::Connecting) })
}

/// What follows when the user closes the window of a provider.
pub struct ClosedEffect {
    /// What the control panel is told.
    pub status_script: String,
    /// What brings the control panel back, so that the user can connect again.
    pub actions: Vec<WindowAction>,
}

/// What follows when the user closes the window of a provider.
pub fn on_window_closed(provider_id: &str) -> (r: ClosedEffect)
    ensures
        r.status_script@ == status_script(provider_id@, Status::Disconnected),
        r.actions@ == seq![WindowAction::Show, WindowAction::Focus],
{
    ClosedEffect {
        status_script: notify_control(provider_id, Status::Disconnected),
        actions: vec![WindowAction::Show, WindowAction::Focus],
    }
}

/// A script for the window with a label.
pub struct WindowScript {
    pub label: String,
    pub script: String,
}

/// Sets the refresh interval for the windows of all providers: what runs in each of them that
/// is open.
pub fn set_refresh_interval(interval_seconds: u32) -> (r: Vec<WindowScript>)
    ensures
        r@.len() == registry().len(),
        forall|i: int|
            #![trigger r@[i]]
            0 <= i < r@.len() ==> r@[i].label@ == label_of(registry()[i].id) && r@[i].script@
                == interval_script((interval_seconds * 1000) as nat),
{
    let all = crate::providers::all_providers();
    let ghost vs = crate::providers::views(all@);
    let mut r: Vec<WindowScript> = Vec::new();
    let mut i: usize = 0;
    while i < all.len()
        invariant
            i <= all@.len(),
            vs == crate::providers::views(all@),
            vs == registry(),
            r@.len() == i,
            forall|k: int|
                #![trigger r@[k]]
                0 <= k < i ==> r@[k].label@ == label_of(vs[k].id) && r@[k].script@
                    == interval_script((interval_seconds * 1000) as nat),
        decreases all@.len() - i,
    {
        assert(vs[i as int] == all@[i as int]@);
        r.push(
            WindowScript { label: all[i].window_label(), script: interval_text(interval_seconds) },
        );
        i += 1;
    }
    r
}

/// Between its fixed beginning and its closing quote, the script that brings an open window
/// back holds the whole address of the provider's page: it leads where the window was made to
/// lead. So it tells the pages of two providers apart.
pub proof fn law_open_window_goes_back_to_its_page(p: ProviderView, q: ProviderView)
    ensures
        ({
            let s = return_script(p);
            let a = "window.location.href = '"@;
            &&& s.len() == a.len() + p.target_url.len() + 1
            &&& s.take(a.len() as int) == a
            &&& s.subrange(a.len() as int, s.len() - 1) == p.target_url
            &&& s.last() == '\''
        }),
        return_script(p) == return_script(q) ==> p.target_url == q.target_url,
{
    reveal_strlit("'");
    lemma_return_script(p);
    lemma_return_script(q);
}

/// The parts of the script that brings an open window back.
proof fn lemma_return_script(p: ProviderView)
    ensures
        ({
            let s = return_script(p);
            let a = "window.location.href = '"@;
            &&& s.len() == a.len() + p.target_url.len() + 1
            &&& s.take(a.len() as int) == a
            &&& s.subrange(a.len() as int, s.len() - 1) == p.target_url
            &&& s.last() == '\''
        }),
{
    reveal_strlit("'");
    let s = return_script(p);
    let a = "window.location.href = '"@;
    assert(s.take(a.len() as int) =~= a);
    assert(s.subrange(a.len() as int, s.len() - 1) =~= p.target_url);
}

/// Between its fixed beginning and its fixed end, the script that sets an interval holds the
/// numeral of the milliseconds.
pub proof fn law_interval_is_told(ms: nat)
    ensures
        ({
            let s = interval_script(ms);
            let a = "if (window.__LSYS_SET_INTERVAL__) window.__LSYS_SET_INTERVAL__("@;
            let b = ");"@;
            let n = s.subrange(a.len() as int, s.len() - b.len());
            &&& s.len() > a.len() + b.len()
            &&& s.take(a.len() as int) == a
            &&& s.skip(s.len() - b.len()) == b
            &&& forall|i: int| 0 <= i < n.len() ==> '0' <= #[trigger] n[i] <= '9'
            &&& numeral_value(n) == ms
        }),
{
    law_numerals_read_back(ms);
    let s = interval_script(ms);
    let a = "if (window.__LSYS_SET_INTERVAL__) window.__LSYS_SET_INTERVAL__("@;
    let b = ");"@;
    assert(s.take(a.len() as int) =~= a);
    assert(s.skip(s.len() - b.len()) =~= b);
    assert(s.subrange(a.len() as int, s.len() - b.len()) =~= decimal(ms));
}

/// A window is 1280 wide and 800 high, each cut to nine tenths of the screen where that is not
/// more; without knowledge of the screen nothing is cut.
pub proof fn law_window_has_its_size(screen: (u32, u32))
    ensures
        ({
            let (width, height) = window_size(Some(screen));
            &&& 9 * screen.0 > 12800 ==> width == Extent::Pixels(1280)
            &&& 9 * screen.0 <= 12800 ==> width == Extent::NineTenthsOf(screen.0)
            &&& 9 * screen.1 > 8000 ==> height == Extent::Pixels(800)
            &&& 9 * screen.1 <= 8000 ==> height == Extent::NineTenthsOf(screen.1)
        }),
        window_size(None) == (Extent::Pixels(1280), Extent::Pixels(800)),
{
}

/// A window is made whenever the address could be parsed, for that address, under the
/// provider's label and name, with the provider's script; it is centred and hidden, shown after
/// 800 milliseconds, and told an interval after 1000 where one is given.
pub proof fn law_window_is_made_for_its_provider(
    p: ProviderView,
    address: Seq<char>,
    screen: Option<(u32, u32)>,
    seconds: u32,
)
    ensures
        ({
            let plain = window_plan(p, Ok(address), screen, None);
            let timed = window_plan(p, Ok(address), screen, Some(seconds));
            &&& plain is Ok && timed is Ok
            &&& plain->Ok_0.label == "provider_"@ + p.id
            &&& plain->Ok_0.url == address
            &&& plain->Ok_0.title == p.name
            &&& (plain->Ok_0.width, plain->Ok_0.height) == window_size(screen)
            &&& plain->Ok_0.centered && !plain->Ok_0.visible
            &&& plain->Ok_0.initialization_script == p.injection_script
            &&& plain->Ok_0.interval_script is None
            &&& plain->Ok_0.interval_delay == 1000 && plain->Ok_0.show_delay == 800
            &&& timed->Ok_0 == NewWindowView {
                interval_script: Some(interval_script((1000 * seconds) as nat)),
                ..plain->Ok_0
            }
        }),
{
}

/// No window is made where the address could not be parsed, and the message ends in the reason.
pub proof fn law_bad_address_is_reported(
    p: ProviderView,
    reason: Seq<char>,
    screen: Option<(u32, u32)>,
    refresh_interval: Option<u32>,
)
    ensures
        ({
            let plan = window_plan(p, Err(reason), screen, refresh_interval);
            let a = "URL 解析失败: "@;
            &&& plan is Err
            &&& plan->Err_0.take(a.len() as int) == a
            &&& plan->Err_0.skip(a.len() as int) == reason
        }),
{
    let plan = window_plan(p, Err(reason), screen, refresh_interval);
    let a = "URL 解析失败: "@;
    assert(plan->Err_0.take(a.len() as int) =~= a);
    assert(plan->Err_0.skip(a.len() as int) =~= reason);
}

/// A result follows a plan exactly where both succeed with the same window or both fail with
/// the same message.
pub proof fn law_plans_are_followed(
    r: Result<NewWindow, String>,
    plan: Result<NewWindowView, Seq<char>>,
)
    requires
        follows_plan(r, plan),
    ensures
        r is Ok <==> plan is Ok,
        r matches Ok(w) ==> w@ == plan->Ok_0,
        r matches Err(m) ==> m@ == plan->Err_0,
{
}

/// Nothing of how a window is made is left out of its view.
pub proof fn law_window_view_is_whole(w: NewWindow)
    ensures
        w@.label == w.label@ && w@.url == w.url@ && w@.title == w.title@,
        w@.width == w.width && w@.height == w.height,
        w@.centered == w.centered && w@.visible == w.visible,
        w@.initialization_script == w.initialization_script@,
        w.interval_script matches Some(s) ==> w@.interval_script == Some(s@),
        w.interval_script is None ==> w@.interval_script is None,
        w@.interval_delay == w.interval_delay && w@.show_delay == w.show_delay,
{
}

/// The script for the control panel names the provider first, whole and in quotes, and then its
/// status.
pub proof fn law_status_is_told(provider_id: Seq<char>, status: Status)
    ensures
        ({
            let s = status_script(provider_id, status);
            let a = "window.__onProviderStatus && window.__onProviderStatus('"@;
            let n = (a.len() + provider_id.len()) as int;
            &&& s.take(a.len() as int) == a
            &&& s.subrange(a.len() as int, n) == provider_id
            &&& s.skip(n) == match status {
                Status::Connecting => "', 'connecting');"@,
                Status::Connected => "', 'connected');"@,
                Status::Disconnected => "', 'disconnected');"@,
            }
        }),
{
    reveal_strlit("', '");
    reveal_strlit("');");
    reveal_strlit("connecting");
    reveal_strlit("connected");
    reveal_strlit("disconnected");
    reveal_strlit("', 'connecting');");
    reveal_strlit("', 'connected');");
    reveal_strlit("', 'disconnected');");
    let s = status_script(provider_id, status);
    let a = "window.__onProviderStatus && window.__onProviderStatus('"@;
    let n = (a.len() + provider_id.len()) as int;
    assert(s.take(a.len() as int) =~= a);
    assert(s.subrange(a.len() as int, n) =~= provider_id);
    match status {
        Status::Connecting => {
            assert(s.skip(n) =~= "', 'connecting');"@);
        },
        Status::Connected => {
            assert(s.skip(n) =~= "', 'connected');"@);
        },
        Status::Disconnected => {
            assert(s.skip(n) =~= "', 'disconnected');"@);
        },
    }
}

} // verus!
