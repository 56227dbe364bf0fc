use plan_monitor::connect::{
    connect_provider, create_provider_window, notify_control, on_window_closed, plan_window,
    resolve_provider, reuse_window, set_refresh_interval, window_failure, Extent, Status,
    WindowPlan,
};
use plan_monitor::events::{
    data_json, login_effect, logout_effect, on_data, on_login, on_logout, placeholder,
};
use plan_monitor::overlay::OverlayState;
use plan_monitor::providers::{
    aliyun, all_providers, baidu, chinamobile, find_provider, volcengine, DataItem, ProviderData,
};
use plan_monitor::providers::script::{
    write_script, ScriptParts, DATA_EVENT, LOGIN_EVENT, LOGOUT_EVENT,
};
use plan_monitor::tray::WindowAction;

const INTERVAL_30S: &str =
    "if (window.__LSYS_SET_INTERVAL__) window.__LSYS_SET_INTERVAL__(30000);";

#[test]
fn providers_are_listed_in_order() {
    let all = all_providers();
    let ids: Vec<&str> = all.iter().map(|p| p.id).collect();
    assert_eq!(ids, vec!["aliyun", "baidu", "volcengine", "chinamobile"]);
    let names: Vec<&str> = all.iter().map(|p| p.name).collect();
    assert_eq!(names, vec!["阿里云百炼", "百度千帆", "火山引擎方舟", "中国移动智算包"]);
    let labels: Vec<String> = all.iter().map(|p| p.window_label()).collect();
    assert_eq!(
        labels,
        vec!["provider_aliyun", "provider_baidu", "provider_volcengine", "provider_chinamobile"]
    );
}

#[test]
fn providers_have_their_scripts() {
    assert_eq!(aliyun::provider().injection_script, aliyun::injection_script());
    assert_eq!(baidu::provider().injection_script, baidu::injection_script());
    assert_eq!(volcengine::provider().injection_script, volcengine::injection_script());
    assert_eq!(chinamobile::provider().injection_script, chinamobile::injection_script());
}

#[test]
fn scripts_speak_for_their_providers() {
    for p in all_providers() {
        let head = format!(
            "    const PROVIDER_ID    = '{}';\n    const PROVIDER_NAME  = '{}';\n",
            p.id, p.name
        );
        assert!(p.injection_script.contains(&head));
        for event in [LOGIN_EVENT, LOGOUT_EVENT, DATA_EVENT] {
            assert!(p.injection_script.contains(&format!("emitToRust('{}', ", event)));
        }
        assert!(p
            .injection_script
            .contains("    window.__LSYS_SET_INTERVAL__ = function(intervalMs) {\n"));
        assert!(p.injection_script.starts_with("\n(function () {\n"));
        assert!(p.injection_script.ends_with("})();\n    "));
    }
    assert_eq!(LOGIN_EVENT, "provider_login_detected");
    assert_eq!(LOGOUT_EVENT, "provider_logout_detected");
    assert_eq!(DATA_EVENT, "provider_data_updated");
}

#[test]
fn scripts_are_written_from_their_parts() {
    let own = ScriptParts {
        head: "<",
        settings: "1",
        reading: "2",
        checking: "3",
        leaving: "4",
        tail: ">",
    };
    assert_eq!(
        write_script("i", "n", &own),
        "<const PROVIDER_ID    = 'i';\n    const PROVIDER_NAME  = 'n';1\
         window.__LSYS_SET_INTERVAL__ = function2provider_data_updated3\
         provider_login_detected4provider_logout_detected>"
    );
}

#[test]
fn pages_lie_in_allowed_domains() {
    for p in all_providers() {
        let rest = p.target_url.strip_prefix("https://").unwrap();
        let origin = format!("https://{}", rest.split(['/', '?', '#']).next().unwrap());
        assert!(p.allowed_domains.iter().any(|d| match d.split_once('*') {
            Some((before, behind)) => {
                origin.len() > before.len() + behind.len()
                    && origin.starts_with(before)
                    && origin.ends_with(behind)
            }
            None => *d == origin,
        }));
    }
}

#[test]
fn providers_allow_their_domains() {
    assert_eq!(
        aliyun::provider().allowed_domains,
        vec!["https://*.aliyun.com", "https://aliyun.com"]
    );
    assert_eq!(
        baidu::provider().allowed_domains,
        vec!["https://*.bce.baidu.com", "https://bce.baidu.com", "https://*.baidu.com"]
    );
    assert_eq!(
        volcengine::provider().allowed_domains,
        vec!["https://*.volcengine.com", "https://volcengine.com"]
    );
    assert_eq!(
        chinamobile::provider().allowed_domains,
        vec!["https://maas.gd.chinamobile.com:38559", "https://*.chinamobile.com"]
    );
}

#[test]
fn providers_are_found_by_identifier() {
    for p in all_providers() {
        assert_eq!(find_provider(p.id).unwrap().name, p.name);
        assert_eq!(resolve_provider(p.id).unwrap().target_url, p.target_url);
    }
    assert!(find_provider("Aliyun").is_none());
    assert_eq!(resolve_provider("x").err(), Some("未知 Provider: x".to_string()));
}

#[test]
fn open_window_goes_back_to_its_page() {
    let r = reuse_window(&baidu::provider());
    assert_eq!(
        r.script,
        "window.location.href = 'https://console.bce.baidu.com/qianfan/resource/subscribe'"
    );
    assert_eq!(r.actions, vec![WindowAction::Show, WindowAction::Focus]);
}

#[test]
fn addresses_of_all_providers_are_parsed() {
    for p in all_providers() {
        let w = create_provider_window(&p, None, None).ok().unwrap();
        assert_eq!(w.url, p.target_url);
    }
}

#[test]
fn address_is_put_into_normal_form() {
    let mut p = baidu::provider();
    p.target_url = "HTTPS://Example.COM:443/a/../b";
    let w = create_provider_window(&p, None, None).ok().unwrap();
    assert_eq!(w.url, "https://example.com/b");
}

#[test]
fn bad_address_gives_a_message() {
    let mut p = baidu::provider();
    p.target_url = "no address";
    let message = create_provider_window(&p, None, None).err().unwrap();
    assert_eq!(message, "URL 解析失败: relative URL without a base");
    let message = plan_window(&p, Err("why".to_string()), None, None).err().unwrap();
    assert_eq!(message, "URL 解析失败: why");
}

#[test]
fn window_of_a_provider_is_planned() {
    let p = aliyun::provider();
    let w = create_provider_window(&p, Some((1920, 1080)), Some(30)).ok().unwrap();
    assert_eq!(w.label, "provider_aliyun");
    assert_eq!(w.title, "阿里云百炼");
    assert_eq!((w.width, w.height), (Extent::Pixels(1280), Extent::Pixels(800)));
    assert!(w.centered && !w.visible);
    assert_eq!(w.initialization_script, aliyun::injection_script());
    assert_eq!(w.interval_script.as_deref(), Some(INTERVAL_30S));
    assert_eq!((w.interval_delay, w.show_delay), (1000, 800));
}

#[test]
fn window_fits_the_screen() {
    let p = aliyun::provider();
    let url = || Ok("https://a/".to_string());
    let w = plan_window(&p, url(), Some((1422, 888)), None).ok().unwrap();
    assert_eq!((w.width, w.height), (Extent::NineTenthsOf(1422), Extent::NineTenthsOf(888)));
    let w = plan_window(&p, url(), Some((1423, 889)), None).ok().unwrap();
    assert_eq!((w.width, w.height), (Extent::Pixels(1280), Extent::Pixels(800)));
    let w = plan_window(&p, url(), None, None).ok().unwrap();
    assert_eq!((w.width, w.height), (Extent::Pixels(1280), Extent::Pixels(800)));
    assert_eq!(w.interval_script, None);
    // The decision agrees with the one on binary fractions.
    for s in 0u32..4000 {
        let w = plan_window(&p, url(), Some((s, s)), None).ok().unwrap();
        assert_eq!(w.width == Extent::Pixels(1280), 1280.0 < s as f64 * 0.9);
        assert_eq!(w.height == Extent::Pixels(800), 800.0 < s as f64 * 0.9);
    }
}

#[test]
fn connecting_makes_or_reuses_a_window() {
    let c = connect_provider("baidu", true, None, Some(u32::MAX)).ok().unwrap();
    assert_eq!(
        c.status_script,
        "window.__onProviderStatus && window.__onProviderStatus('baidu', 'connecting');"
    );
    match c.window {
        WindowPlan::Reuse(r) => assert_eq!(r.script, reuse_window(&baidu::provider()).script),
        WindowPlan::Create(_) => panic!("made anew"),
    }
    let c = connect_provider("baidu", false, None, Some(30)).ok().unwrap();
    match c.window {
        WindowPlan::Reuse(_) => panic!("reused"),
        WindowPlan::Create(w) => {
            assert_eq!(w.label, "provider_baidu");
            assert_eq!(w.interval_script.as_deref(), Some(INTERVAL_30S));
        }
    }
    let message = connect_provider("nobody", false, None, None).err().unwrap();
    assert_eq!(message, "未知 Provider: nobody");
}

#[test]
fn failures_have_a_message() {
    assert_eq!(window_failure("why"), "窗口创建失败: why");
}

#[test]
fn control_panel_is_told_the_status() {
    assert_eq!(
        notify_control("a", Status::Connected),
        "window.__onProviderStatus && window.__onProviderStatus('a', 'connected');"
    );
    let e = on_window_closed("b");
    assert_eq!(
        e.status_script,
        "window.__onProviderStatus && window.__onProviderStatus('b', 'disconnected');"
    );
    assert_eq!(e.actions, vec![WindowAction::Show, WindowAction::Focus]);
}

#[test]
fn refresh_interval_is_set_everywhere() {
    let scripts = set_refresh_interval(30);
    let labels: Vec<&str> = scripts.iter().map(|s| s.label.as_str()).collect();
    assert_eq!(
        labels,
        vec!["provider_aliyun", "provider_baidu", "provider_volcengine", "provider_chinamobile"]
    );
    for s in &scripts {
        assert_eq!(s.script, INTERVAL_30S);
    }
    assert!(set_refresh_interval(4294967)[0].script.ends_with("(4294967000);"));
    assert!(set_refresh_interval(4294968)[0].script.ends_with("(4294968000);"));
    assert!(set_refresh_interval(u32::MAX)[0].script.ends_with("(4294967295000);"));
    assert!(set_refresh_interval(0)[0].script.ends_with("(0);"));
}

#[test]
fn data_becomes_a_document() {
    let data = ProviderData {
        provider_id: "p".to_string(),
        provider_name: "P \"x\"".to_string(),
        items: vec![DataItem { key: "k".to_string(), value: "v".to_string(), highlight: true }],
        compact_text: "c".to_string(),
    };
    let json = data_json(&data);
    assert_eq!(
        json.to_string(),
        "{\"compact_text\":\"c\",\"items\":[{\"highlight\":true,\"key\":\"k\",\"value\":\"v\"}],\
         \"provider_id\":\"p\",\"provider_name\":\"P \\\"x\\\"\",\"updated_at\":null}"
    );
}

#[test]
fn placeholder_names_the_provider() {
    let p = placeholder("volcengine");
    assert_eq!((p.provider_id.as_str(), p.provider_name.as_str()), ("volcengine", "火山引擎方舟"));
    let p = placeholder("stranger");
    assert_eq!((p.provider_id.as_str(), p.provider_name.as_str()), ("stranger", "stranger"));
    assert_eq!(p.compact_text, "获取数据...");
}

#[test]
fn login_is_answered() {
    let mut s = OverlayState::new();
    let e = on_login(&mut s, "{\"provider_id\":\"aliyun\"}").unwrap();
    assert_eq!(e.provider_id, "aliyun");
    assert_eq!(e.hide_label, "provider_aliyun");
    assert_eq!(
        e.status_script,
        "window.__onProviderStatus && window.__onProviderStatus('aliyun', 'connected');"
    );
    assert!(e.push.show);
    assert_eq!(
        e.push.script,
        "window.updateProviderData({\"compact_text\":\"获取数据...\",\"items\":[\
         {\"highlight\":true,\"key\":\"状态\",\"value\":\"已登录\"},\
         {\"highlight\":false,\"key\":\"数据\",\"value\":\"正在获取...\"}],\
         \"provider_id\":\"aliyun\",\"provider_name\":\"阿里云百炼\",\"updated_at\":null});"
    );
    let again = login_effect(&mut s, &serde_json::Value::Null);
    assert_eq!((again.provider_id.as_str(), again.hide_label.as_str()), ("", "provider_"));
    assert!(!again.push.show);
}

#[test]
fn logout_is_answered() {
    let e = on_logout("{\"provider_id\":\"baidu\"}").unwrap();
    assert_eq!((e.provider_id.as_str(), e.show_label.as_str()), ("baidu", "provider_baidu"));
    assert_eq!(e.actions, vec![WindowAction::Show, WindowAction::Focus]);
    assert_eq!(
        e.status_script,
        "window.__onProviderStatus && window.__onProviderStatus('baidu', 'disconnected');"
    );
    let e = logout_effect(&serde_json::from_str("{\"provider_id\":1}").unwrap());
    assert_eq!(e.show_label, "provider_");
}

#[test]
fn data_is_handed_on() {
    let mut s = OverlayState::new();
    let p = on_data(&mut s, " {\"n\" : -1.5}\n").unwrap();
    assert_eq!(p.script, "window.updateProviderData({\"n\":-1.5});");
    assert!(p.show);
    let p = on_data(&mut s, "\"a\\u0041\"").unwrap();
    assert_eq!(p.script, "window.updateProviderData(\"aA\");");
    assert!(!p.show);
}

#[test]
fn events_that_are_no_documents_are_ignored() {
    let mut s = OverlayState::new();
    assert!(on_login(&mut s, "").is_none());
    assert!(on_data(&mut s, "{").is_none());
    assert!(on_logout("nope").is_none());
    assert!(!s.initialized);
}
