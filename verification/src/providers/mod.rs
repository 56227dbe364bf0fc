//! The monitored web consoles.
//!
//! To add a provider, write a module for it here and append its configuration in
//! [`all_providers`] and [`registry`].

use crate::text::same_text;
use script::{law_script_speaks_for_its_provider, speaks_for};
use vstd::prelude::*;

pub mod aliyun;
pub mod baidu;
pub mod chinamobile;
pub mod scan;
pub mod script;
pub mod sites;
pub mod volcengine;

verus! {

/// One line that the overlay shows: a label and its value.
#[derive(Debug, Clone)]
pub struct DataItem {
    /// The label.
    pub key: String,
    /// The value shown behind the label.
    pub value: String,
    /// Whether the value is drawn in the accent colour.
    pub highlight: bool,
}

/// What a provider reports to the overlay.
#[derive(Debug, Clone)]
pub struct ProviderData {
    /// Identifies the provider, such as "aliyun".
    pub provider_id: String,
    /// The name to show.
    pub provider_name: String,
    /// The lines to show, in order.
    pub items: Vec<DataItem>,
    /// The summary in one line for the folded overlay.
    pub compact_text: String,
}

/// The configuration of one provider.
pub struct ProviderConfig {
    /// Identifies the provider; its window label derives from it.
    pub id: &'static str,
    /// The name to show.
    pub name: &'static str,
    /// The page that its window loads.
    pub target_url: &'static str,
    /// The address patterns whose pages may call back into the application.
    pub allowed_domains: Vec<String>,
    /// The script that runs in every page of its window.
    pub injection_script: String,
}

/// A provider's configuration as plain text.
pub struct ProviderView {
    pub id: Seq<char>,
    pub name: Seq<char>,
    pub target_url: Seq<char>,
    pub allowed_domains: Seq<Seq<char>>,
    pub injection_script: Seq<char>,
}

impl View for ProviderConfig {
    type V = ProviderView;

    open spec fn view(&self) -> ProviderView {
        ProviderView {
            id: self.id@,
            name: self.name@,
            target_url: self.target_url@,
            allowed_domains: self.allowed_domains@.map_values(|d: String| d@),
            injection_script: self.injection_script@,
        }
    }
}

/// The label of the window of the provider `id`.
pub open spec fn label_of(id: Seq<char>) -> Seq<char> {
    "provider_"@ + id
}

/// The label of the window of the provider `id`, as a text.
pub fn label_text(id: &str) -> (r: String)
    ensures
        r@ == label_of(id@),
{
    "provider_".to_string().concat(id)
}

impl ProviderConfig {
    /// The label of this provider's window.
    pub fn window_label(&self) -> (r: String)
        ensures
            r@ == label_of(self@.id),
    {
        label_text(self.id)
    }
}

/// The registered providers, in the order in which they are offered.
pub open spec fn registry() -> Seq<ProviderView> {
    seq![aliyun::config(), baidu::config(), volcengine::config(), chinamobile::config()]
}

/// The configurations of several providers as plain text.
pub open spec fn views(ps: Seq<ProviderConfig>) -> Seq<ProviderView> {
    ps.map_values(|p: ProviderConfig| p@)
}

/// All registered providers.
pub fn all_providers() -> (r: Vec<ProviderConfig>)
    ensures
        views(r@) == registry(),
{
    let r = vec![
        aliyun::provider(),
        baidu::provider(),
        volcengine::provider(),
        chinamobile::provider(),
    ];
    assert(views(r@) =~= registry());
    r
}

/// The first of `ps` with the identifier `id`.
pub open spec fn find_in(ps: Seq<ProviderView>, id: Seq<char>) -> Option<ProviderView>
    decreases ps.len(),
{
    if ps.len() == 0 {
        None
    } else if ps[0].id == id {
        Some(ps[0])
    } else {
        find_in(ps.drop_first(), id)
    }
}

/// The registered provider with the identifier `id`.
pub fn find_provider(id: &str) -> (r: Option<ProviderConfig>)
    ensures
        r is Some <==> find_in(registry(), id@) is Some,
        r matches Some(p) ==> find_in(registry(), id@) == Some(p@),
{
    let mut all = all_providers();
    let ghost vs = views(all@);
    let mut i: usize = 0;
    assert(vs.skip(0) =~= vs);
    while i < all.len()
        invariant
            i <= all@.len(),
            vs == views(all@),
            vs == registry(),
            find_in(vs, id@) == find_in(vs.skip(i as int), id@),
        decreases all@.len() - i,
    {
        assert(vs.skip(i as int)[0] == vs[i as int]);
        if same_text(all[i].id, id) {
            return Some(all.remove(i));
        }
        assert(vs.skip(i as int).drop_first() =~= vs.skip(i + 1));
        i += 1;
    }
    None
}

/// Different providers have windows with different labels.
pub proof fn law_labels_tell_providers_apart(a: Seq<char>, b: Seq<char>)
    requires
        label_of(a) == label_of(b),
    ensures
        a == b,
{
    let n = "provider_"@.len();
    assert(label_of(a).skip(n as int) =~= a);
    assert(label_of(b).skip(n as int) =~= b);
}

/// No two registered providers have the same identifier, nor windows with the same label.
pub proof fn law_identifiers_are_unique(i: int, j: int)
    requires
        0 <= i < j < registry().len(),
    ensures
        registry()[i].id != registry()[j].id,
        label_of(registry()[i].id) != label_of(registry()[j].id),
{
    reveal_strlit("aliyun");
    reveal_strlit("baidu");
    reveal_strlit("volcengine");
    reveal_strlit("chinamobile");
    assert(aliyun::config().id.len() == 6);
    assert(baidu::config().id.len() == 5);
    assert(volcengine::config().id.len() == 10);
    assert(chinamobile::config().id.len() == 11);
    assert(registry()[i].id.len() != registry()[j].id.len());
    assert(label_of(registry()[i].id).len() != label_of(registry()[j].id).len());
}

/// Every registered provider is found by its identifier, and what is found by an identifier is
/// registered under it.
pub proof fn law_registered_providers_are_found(i: int, id: Seq<char>)
    requires
        0 <= i < registry().len(),
    ensures
        find_in(registry(), registry()[i].id) == Some(registry()[i]),
        find_in(registry(), id) matches Some(p) ==> p.id == id && registry().contains(p),
{
    lemma_found_is_there(registry(), id);
    lemma_found_is_there(registry(), registry()[i].id);
    lemma_present_is_found(registry(), i);
    let p = find_in(registry(), registry()[i].id)->0;
    let k = choose|k: int| 0 <= k < registry().len() && registry()[k] == p;
    if k < i {
        law_identifiers_are_unique(k, i);
    } else if i < k {
        law_identifiers_are_unique(i, k);
    }
}

/// What is found is there, under the identifier that was looked for.
proof fn lemma_found_is_there(ps: Seq<ProviderView>, id: Seq<char>)
    ensures
        find_in(ps, id) matches Some(p) ==> p.id == id && ps.contains(p),
    decreases ps.len(),
{
    if ps.len() > 0 {
        let rest = ps.drop_first();
        lemma_found_is_there(rest, id);
        if ps[0].id != id {
            if let Some(p) = find_in(rest, id) {
                let k = choose|k: int| 0 <= k < rest.len() && rest[k] == p;
                assert(ps[k + 1] == p);
            }
        }
    }
}

/// Something is found under the identifier of a provider that is there.
proof fn lemma_present_is_found(ps: Seq<ProviderView>, i: int)
    requires
        0 <= i < ps.len(),
    ensures
        find_in(ps, ps[i].id) is Some,
    decreases ps.len(),
{
    if ps[0].id != ps[i].id {
        assert(ps.drop_first()[i - 1] == ps[i]);
        lemma_present_is_found(ps.drop_first(), i - 1);
    }
}

/// Every registered provider has a script, and that script speaks for it.
pub proof fn law_scripts_speak_for_their_providers(i: int)
    requires
        0 <= i < registry().len(),
    ensures
        speaks_for(registry()[i].injection_script, registry()[i].id, registry()[i].name),
        registry()[i].injection_script.len() > 0,
{
    let own = seq![aliyun::parts(), baidu::parts(), volcengine::parts(), chinamobile::parts()];
    law_script_speaks_for_its_provider(registry()[i].id, registry()[i].name, own[i]);
}

/// Whether a character ends the host in an address.
pub open spec fn ends_host(c: char) -> bool {
    c == '/' || c == '?' || c == '#'
}

/// Whether `url` is an `https` address on `host`, which holds a port where one is given.
pub open spec fn is_on_host(url: Seq<char>, host: Seq<char>) -> bool {
    let origin = "https://"@ + host;
    &&& host.len() > 0
    &&& forall|i: int| 0 <= i < host.len() ==> !ends_host(#[trigger] host[i])
    &&& origin.is_prefix_of(url)
    &&& url.len() > origin.len() ==> ends_host(url[origin.len() as int])
}

/// Whether `s` consists of one or more host labels, with dots between them.
pub open spec fn is_labels(s: Seq<char>) -> bool {
    &&& s.len() > 0
    &&& s[0] != '.'
    &&& s.last() != '.'
    &&& forall|i: int|
        0 <= i < s.len() ==> !ends_host(#[trigger] s[i]) && s[i] != ':' && s[i] != '*'
    &&& forall|i: int| 0 < i < s.len() && #[trigger] s[i] == '.' ==> s[i - 1] != '.'
}

/// Whether a pattern covers an origin: it is the origin, or becomes it where its star stands
/// for host labels.
pub open spec fn covers(pattern: Seq<char>, origin: Seq<char>) -> bool {
    pattern == origin || exists|before: Seq<char>, labels: Seq<char>, behind: Seq<char>|
        #![trigger before + labels + behind]
        pattern == before + "*"@ + behind && origin == before + labels + behind && is_labels(labels)
}

/// Whether the page of a provider is an `https` address on `host`, and one of the patterns of
/// the provider covers it.
pub open spec fn is_allowed_on(p: ProviderView, host: Seq<char>) -> bool {
    &&& is_on_host(p.target_url, host)
    &&& exists|i: int|
        0 <= i < p.allowed_domains.len() && covers(
            #[trigger] p.allowed_domains[i],
            "https://"@ + host,
        )
}

/// The page of every registered provider is an `https` address whose origin is among those
/// that may call back into the application.
pub proof fn law_pages_may_call_back(i: int)
    requires
        0 <= i < registry().len(),
    ensures
        "https://"@.is_prefix_of(registry()[i].target_url),
        exists|host: Seq<char>| is_allowed_on(registry()[i], host),
{
    let p = registry()[i];
    let host = if i == 0 {
        lemma_aliyun_is_allowed();
        "bailian.console.aliyun.com"@
    } else if i == 1 {
        lemma_baidu_is_allowed();
        "console.bce.baidu.com"@
    } else if i == 2 {
        lemma_volcengine_is_allowed();
        "console.volcengine.com"@
    } else {
        lemma_chinamobile_is_allowed();
        "maas.gd.chinamobile.com:38559"@
    };
    assert(is_allowed_on(p, host));
    let scheme = "https://"@;
    assert(p.target_url.subrange(0, (scheme + host).len() as int).subrange(0, scheme.len() as int)
        =~= p.target_url.subrange(0, scheme.len() as int));
    assert((scheme + host).subrange(0, scheme.len() as int) =~= scheme);
}

/// The page of Bailian.
proof fn lemma_aliyun_is_allowed()
    ensures
        is_allowed_on(aliyun::config(), "bailian.console.aliyun.com"@),
{
    reveal_strlit("https://");
    reveal_strlit("*");
    reveal_strlit("bailian.console.aliyun.com");
    reveal_strlit("bailian.console");
    reveal_strlit(".aliyun.com");
    reveal_strlit("https://*.aliyun.com");
    reveal_strlit(
        "https://bailian.console.aliyun.com/cn-beijing?tab=plan#/efm/subscription/coding-plan",
    );
    let p = aliyun::config();
    let host = "bailian.console.aliyun.com"@;
    assert(("https://"@ + host).is_prefix_of(p.target_url));
    let (before, labels, behind) = ("https://"@, "bailian.console"@, ".aliyun.com"@);
    assert(p.allowed_domains[0] =~= before + "*"@ + behind);
    assert("https://"@ + host =~= before + labels + behind);
    assert(covers(p.allowed_domains[0], "https://"@ + host));
}

/// The page of Qianfan.
proof fn lemma_baidu_is_allowed()
    ensures
        is_allowed_on(baidu::config(), "console.bce.baidu.com"@),
{
    reveal_strlit("https://");
    reveal_strlit("*");
    reveal_strlit("console.bce.baidu.com");
    reveal_strlit("console");
    reveal_strlit(".bce.baidu.com");
    reveal_strlit("https://*.bce.baidu.com");
    reveal_strlit("https://console.bce.baidu.com/qianfan/resource/subscribe");
    let p = baidu::config();
    let host = "console.bce.baidu.com"@;
    assert(("https://"@ + host).is_prefix_of(p.target_url));
    let (before, labels, behind) = ("https://"@, "console"@, ".bce.baidu.com"@);
    assert(p.allowed_domains[0] =~= before + "*"@ + behind);
    assert("https://"@ + host =~= before + labels + behind);
    assert(covers(p.allowed_domains[0], "https://"@ + host));
}

/// The page of Ark.
proof fn lemma_volcengine_is_allowed()
    ensures
        is_allowed_on(volcengine::config(), "console.volcengine.com"@),
{
    reveal_strlit("https://");
    reveal_strlit("*");
    reveal_strlit("console.volcengine.com");
    reveal_strlit("console");
    reveal_strlit(".volcengine.com");
    reveal_strlit("https://*.volcengine.com");
    reveal_strlit(
        "https://console.volcengine.com/ark/region:ark+cn-beijing/openManagement?LLM=%7B%7D&advancedActiveKey=subscribe",
    );
    let p = volcengine::config();
    let host = "console.volcengine.com"@;
    assert(("https://"@ + host).is_prefix_of(p.target_url));
    let (before, labels, behind) = ("https://"@, "console"@, ".volcengine.com"@);
    assert(p.allowed_domains[0] =~= before + "*"@ + behind);
    assert("https://"@ + host =~= before + labels + behind);
    assert(covers(p.allowed_domains[0], "https://"@ + host));
}

/// The page of China Mobile.
proof fn lemma_chinamobile_is_allowed()
    ensures
        is_allowed_on(chinamobile::config(), "maas.gd.chinamobile.com:38559"@),
{
    reveal_strlit("https://");
    reveal_strlit("maas.gd.chinamobile.com:38559");
    reveal_strlit("https://maas.gd.chinamobile.com:38559");
    reveal_strlit("https://maas.gd.chinamobile.com:38559/maas/uifm/#/model-quota");
    let p = chinamobile::config();
    let host = "maas.gd.chinamobile.com:38559"@;
    assert(("https://"@ + host).is_prefix_of(p.target_url));
    assert(p.allowed_domains[0] =~= "https://"@ + host);
    assert(covers(p.allowed_domains[0], "https://"@ + host));
}

/// The label of a provider's window is its identifier behind a fixed beginning.
pub proof fn law_label_holds_identifier(id: Seq<char>)
    ensures
        label_of(id).len() == 9 + id.len(),
        label_of(id).take(9) == "provider_"@,
        label_of(id).skip(9) == id,
{
    reveal_strlit("provider_");
    assert(label_of(id).take(9) =~= "provider_"@);
    assert(label_of(id).skip(9) =~= id);
}

/// Something is found under an identifier exactly where a registered provider has it.
pub proof fn law_only_registered_providers_are_found(id: Seq<char>)
    ensures
        find_in(registry(), id) is Some <==> exists|i: int|
            0 <= i < registry().len() && (#[trigger] registry()[i]).id == id,
{
    law_registered_providers_are_found(0, id);
    if let Some(p) = find_in(registry(), id) {
        let i = choose|i: int| 0 <= i < registry().len() && registry()[i] == p;
        assert(registry()[i].id == id);
    }
    if exists|i: int| 0 <= i < registry().len() && (#[trigger] registry()[i]).id == id {
        let i = choose|i: int| 0 <= i < registry().len() && (#[trigger] registry()[i]).id == id;
        law_registered_providers_are_found(i, id);
    }
}

/// Nothing of a configuration is left out of its view, nor a configuration out of several.
pub proof fn law_provider_view_is_whole(ps: Seq<ProviderConfig>, i: int, k: int)
    requires
        0 <= i < ps.len(),
    ensures
        views(ps).len() == ps.len(),
        ({
            let (p, v) = (ps[i], views(ps)[i]);
            &&& v.id == p.id@ && v.name == p.name@ && v.target_url == p.target_url@
            &&& v.injection_script == p.injection_script@
            &&& v.allowed_domains.len() == p.allowed_domains@.len()
            &&& 0 <= k < v.allowed_domains.len() ==> v.allowed_domains[k] == p.allowed_domains@[k]@
        }),
{
}

/// Four providers are registered, each under its name, with the page on which its plan is
/// shown.
pub proof fn law_four_providers_are_registered()
    ensures
        registry().len() == 4,
        registry()[0].id == "aliyun"@,
        registry()[0].name == "阿里云百炼"@,
        registry()[0].target_url
            == "https://bailian.console.aliyun.com/cn-beijing?tab=plan#/efm/subscription/coding-plan"@,
        registry()[1].id == "baidu"@,
        registry()[1].name == "百度千帆"@,
        registry()[1].target_url == "https://console.bce.baidu.com/qianfan/resource/subscribe"@,
        registry()[2].id == "volcengine"@,
        registry()[2].name == "火山引擎方舟"@,
        registry()[2].target_url
            == "https://console.volcengine.com/ark/region:ark+cn-beijing/openManagement?LLM=%7B%7D&advancedActiveKey=subscribe"@,
        registry()[3].id == "chinamobile"@,
        registry()[3].name == "中国移动智算包"@,
        registry()[3].target_url
            == "https://maas.gd.chinamobile.com:38559/maas/uifm/#/model-quota"@,
{
}

/// The pages that may call back into the application are those of each provider's own domain.
pub proof fn law_own_domains_are_allowed()
    ensures
        registry()[0].allowed_domains == seq!["https://*.aliyun.com"@, "https://aliyun.com"@],
        registry()[1].allowed_domains == seq![
            "https://*.bce.baidu.com"@,
            "https://bce.baidu.com"@,
            "https://*.baidu.com"@,
        ],
        registry()[2].allowed_domains == seq![
            "https://*.volcengine.com"@,
            "https://volcengine.com"@,
        ],
        registry()[3].allowed_domains == seq![
            "https://maas.gd.chinamobile.com:38559"@,
            "https://*.chinamobile.com"@,
        ],
{
}

} // verus!
