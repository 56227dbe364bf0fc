//! Baidu Qianfan.
//!
//! The console page leads to the login and back. The script reports a login once both account
//! cookies are there, and fetches the plan from the resource list of the console.

use super::script::{script_text, write_script, PartsView, ScriptParts};
use super::{ProviderConfig, ProviderView};
use crate::text::{join, joined, texts};
use vstd::prelude::*;

verus! {

/// Part of the script before it says whose it is.
pub const HEAD_1: &'static str = r#"
(function () {
    "#;

/// What keeps the script from running twice in a page.
pub const GUARD: &'static str = r#"if (window.__LSYS_BAIDU_INJECTED__) return;
    window.__LSYS_BAIDU_INJECTED__ = true;"#;

/// Part of the script before it says whose it is.
pub const HEAD_2: &'static str = r#"

    "#;

/// Part of the script from there to the function that sets the interval.
pub const SETTINGS_1: &'static str = r#"
    "#;

/// How often data is read at first.
pub const PERIOD: &'static str = r#"let FETCH_INTERVAL = 60_000;"#;

/// Part of the script from there to the function that sets the interval.
pub const SETTINGS_2: &'static str = r#" // 默认60秒，可通过 __LSYS_SET_INTERVAL__ 动态修改

    let prevLoggedIn = null;
    let lastFetchAt  = 0;
    let checkPaused  = false; // 检测是否暂停

    // 暴露全局函数供 Rust 侧动态修改刷新间隔
    "#;

/// How the interval is set.
pub const SETTER: &'static str = r#"(intervalMs) {
        FETCH_INTERVAL = intervalMs;"#;

/// Part of the script from there to the report of data.
pub const READING_1: &'static str = r#"
        console.log('[Baidu] 刷新间隔已更新为:', intervalMs, 'ms');
    };

    // 暴露全局函数供 Rust 侧暂停/恢复检测
    window.__LSYS_PAUSE_CHECK__ = function() {
        checkPaused = true;
        console.log('[Baidu] 登录检测已暂停');
    };

    window.__LSYS_RESUME_CHECK__ = function() {
        checkPaused = false;
        console.log('[Baidu] 登录检测已恢复');
    };

    // ── IPC 工具 ───────────────────────────────────────────────────────────────

    async function emitToRust(eventName, payload) {
        try {
            if (window.__TAURI__?.event?.emit) {
                await window.__TAURI__.event.emit(eventName, payload);
            }
        } catch (e) {
            console.error('[Baidu] emit failed:', eventName, e);
        }
    }

    // ── Cookie 工具 ────────────────────────────────────────────────────────────

    function getCookie(name) {
        for (const part of document.cookie.split(';')) {
            const [k, ...v] = part.trim().split('=');
            if (k.trim() === name) return v.join('=') || '';
        }
        return '';
    }

    "#;

/// When a user is logged in.
pub const LOGIN_RULE: &'static str = r#"function isLoggedIn() {
        const accountId     = getCookie('bce-login-accountid');
        const domainAccount = getCookie('bce-login-domain-account');
        return accountId !== '' && domainAccount !== '';"#;

/// Part of the script from there to the report of data.
pub const READING_2: &'static str = r#"
    }

    // ── 格式化工具 ─────────────────────────────────────────────────────────────

    function formatNum(n) {
        if (n >= 10000) return (n / 10000).toFixed(1) + 'w';
        return String(n);
    }

    function formatDate(iso) {
        try {
            const d = new Date(iso);
            const p = n => String(n).padStart(2, '0');
            return `${d.getFullYear()}-${p(d.getMonth() + 1)}-${p(d.getDate())} ${p(d.getHours())}:${p(d.getMinutes())}`;
        } catch (_) {
            return iso || '';
        }
    }

    // ── 数据构建 ───────────────────────────────────────────────────────────────

    function buildProviderData(item) {
        const quota    = item.quota     || {};
        const fiveHour = quota.fiveHour || {};
        const week     = quota.week     || {};
        const month    = quota.month    || {};

        "#;

/// What is left of each quota.
pub const USAGE: &'static str = r#"const fiveUsed   = fiveHour.used  || 0;
        const fiveLimit  = fiveHour.limit || 0;
        const fiveRemain = fiveLimit - fiveUsed;

        const weekUsed   = week.used  || 0;
        const weekLimit  = week.limit || 0;
        const weekRemain = weekLimit - weekUsed;

        const monthUsed   = month.used  || 0;
        const monthLimit  = month.limit || 0;
        const monthRemain = monthLimit - monthUsed;"#;

/// Part of the script from there to the report of data.
pub const READING_3: &'static str = r#"

        const items = [
            { key: '套餐', value: item.planType       || '', highlight: false },
            { key: '状态', value: item.resourceStatus || '', highlight: true  },
            { key: '到期', value: formatDate(item.expiresAt),highlight: false },
        ];

        "#;

/// The quotas that are reported.
pub const QUOTAS: &'static str = r#"const quota_groups = [
            { label: '近5小时', used: fiveUsed,  limit: fiveLimit,  remain: fiveRemain,  highlight: fiveRemain  < 200  },
            { label: '近一周',  used: weekUsed,  limit: weekLimit,  remain: weekRemain,  highlight: weekRemain  < 1000 },
            { label: '近一月',  used: monthUsed, limit: monthLimit, remain: monthRemain, highlight: monthRemain < 2000 },
        ];"#;

/// Part of the script from there to the report of data.
pub const READING_4: &'static str = r#"

        "#;

/// The summary that is reported.
pub const SUMMARY: &'static str = r#"const compact_text = fiveLimit > 0
            ? `5h剩余：${formatNum(fiveRemain)}`
            : (item.resourceStatus || '百度千帆');"#;

/// Part of the script from there to the report of data.
pub const READING_5: &'static str = r#"

        return { provider_id: PROVIDER_ID, provider_name: PROVIDER_NAME, items, quota_groups, updated_at: Date.now(), compact_text };
    }

    // ── 数据拉取 ───────────────────────────────────────────────────────────────

    async function fetchAndEmitData() {
        try {
            const resp = await fetch(
                "#;

/// The address that data is read from.
pub const SOURCE: &'static str = r#"'https://console.bce.baidu.com/api/qianfan/charge/codingPlan/resourceList'"#;

/// Part of the script from there to the report of data.
pub const READING_6: &'static str = r#",
                { credentials: 'include' }
            );
            if (!resp.ok) return; // 失败：不更新 lastFetchAt → 下次 tick 重试
            const data = await resp.json();
            if (!data.success || !data.result?.items?.length) return;
            await emitToRust('"#;

/// Part of the script from there to the report of a login.
pub const CHECKING_1: &'static str = r#"', buildProviderData(data.result.items[0]));
            lastFetchAt = Date.now(); // 仅在成功推送后更新，控制 60s 刷新周期
        } catch (e) {
            console.error('[Baidu] fetchAndEmitData failed:', e);
            // 异常时不更新 lastFetchAt → 下次 tick 立即重试
        }
    }

    // ── 主循环 ─────────────────────────────────────────────────────────────────

    async function tick() {
        // 如果检测被暂停，跳过本次检测
        if (checkPaused) {
            console.log('[Baidu] 检测已暂停，跳过本次 tick');
            return;
        }

        const loggedIn = isLoggedIn();

        "#;

/// When a login is reported.
pub const LOGIN: &'static str = r#"if (prevLoggedIn !== true && loggedIn) {
            // null/false → true：检测到登录
            prevLoggedIn = true;"#;

/// Part of the script from there to the report of a login.
pub const CHECKING_2: &'static str = r#"
            await emitToRust('"#;

/// Part of the script from there to the report of a logout.
pub const LEAVING_1: &'static str = r#"', { provider_id: PROVIDER_ID });
            // Rust 侧收到后会立即推占位数据显示悬浮窗。
            // lastFetchAt 保持 0 → 下方区间检查立即为 true → 本 tick 末尾立即拉取真实数据；
            // 若失败，lastFetchAt 不更新，每 2s tick 持续重试直到成功。
        "#;

/// When a logout is reported.
pub const LOGOUT: &'static str = r#"} else if (prevLoggedIn === true && !loggedIn) {
            // true → false：检测到登出
            prevLoggedIn = false;"#;

/// Part of the script from there to the report of a logout.
pub const LEAVING_2: &'static str = r#"
            await emitToRust('"#;

/// Part of the script behind that report.
pub const TAIL_1: &'static str = r#"', { provider_id: PROVIDER_ID });
        } else if (prevLoggedIn === null) {
            // 初始化：当前未登录，静默设置
            prevLoggedIn = false;
        }

        // 已登录时按间隔拉取数据。
        // lastFetchAt=0 时 Date.now()-0 >> FETCH_INTERVAL，立即触发；
        // 成功后 fetchAndEmitData 内部更新 lastFetchAt，60s 内不重复拉取。
        "#;

/// When data is read again.
pub const REFRESH: &'static str = r#"if (loggedIn && Date.now() - lastFetchAt >= FETCH_INTERVAL) {"#;

/// Part of the script behind that report.
pub const TAIL_2: &'static str = r#"
            await fetchAndEmitData();
        }
    }

    "#;

/// How often the page is looked at.
pub const TIMER: &'static str = r#"setInterval(tick, 2000);"#;

/// Part of the script behind that report.
pub const TAIL_3: &'static str = r#"
    window.addEventListener('load', () => tick());
})();
    "#;

/// The parts of the script that are this provider's own.
pub open spec fn parts() -> PartsView {
    PartsView {
        head: joined(seq![HEAD_1@, GUARD@, HEAD_2@]),
        settings: joined(seq![SETTINGS_1@, PERIOD@, SETTINGS_2@]),
        reading: joined(
            seq![
                SETTER@,
                READING_1@,
                LOGIN_RULE@,
                READING_2@,
                USAGE@,
                READING_3@,
                QUOTAS@,
                READING_4@,
                SUMMARY@,
                READING_5@,
                SOURCE@,
                READING_6@,
            ],
        ),
        checking: joined(seq![CHECKING_1@, LOGIN@, CHECKING_2@]),
        leaving: joined(seq![LEAVING_1@, LOGOUT@, LEAVING_2@]),
        tail: joined(seq![TAIL_1@, REFRESH@, TAIL_2@, TIMER@, TAIL_3@]),
    }
}

/// What is configured for this provider.
pub open spec fn config() -> ProviderView {
    ProviderView {
        id: "baidu"@,
        name: "百度千帆"@,
        target_url: "https://console.bce.baidu.com/qianfan/resource/subscribe"@,
        allowed_domains: seq!["https://*.bce.baidu.com"@, "https://bce.baidu.com"@, "https://*.baidu.com"@],
        injection_script: script_text("baidu"@, "百度千帆"@, parts()),
    }
}

/// The configuration of this provider.
pub fn provider() -> (r: ProviderConfig)
    ensures
        r@ == config(),
{
    let r = ProviderConfig {
        id: "baidu",
        name: "百度千帆",
        target_url: "https://console.bce.baidu.com/qianfan/resource/subscribe",
        allowed_domains: vec![
            "https://*.bce.baidu.com".to_string(),
            "https://bce.baidu.com".to_string(),
            "https://*.baidu.com".to_string(),
        ],
        injection_script: injection_script(),
    };
    assert(r@.allowed_domains =~= config().allowed_domains);
    r
}

/// The script that runs in every page of this provider.
pub fn injection_script() -> (r: String)
    ensures
        r@ == config().injection_script,
{
    let head_parts = vec![HEAD_1, GUARD, HEAD_2];
    let settings_parts = vec![SETTINGS_1, PERIOD, SETTINGS_2];
    let reading_parts = vec![
        SETTER,
        READING_1,
        LOGIN_RULE,
        READING_2,
        USAGE,
        READING_3,
        QUOTAS,
        READING_4,
        SUMMARY,
        READING_5,
        SOURCE,
        READING_6,
    ];
    let checking_parts = vec![CHECKING_1, LOGIN, CHECKING_2];
    let leaving_parts = vec![LEAVING_1, LOGOUT, LEAVING_2];
    let tail_parts = vec![TAIL_1, REFRESH, TAIL_2, TIMER, TAIL_3];
    proof {
        assert(texts(head_parts@) =~= seq![HEAD_1@, GUARD@, HEAD_2@]);
        assert(texts(settings_parts@) =~= seq![SETTINGS_1@, PERIOD@, SETTINGS_2@]);
        assert(texts(reading_parts@) =~= seq![
            SETTER@,
            READING_1@,
            LOGIN_RULE@,
            READING_2@,
            USAGE@,
            READING_3@,
            QUOTAS@,
            READING_4@,
            SUMMARY@,
            READING_5@,
            SOURCE@,
            READING_6@,
        ]);
        assert(texts(checking_parts@) =~= seq![CHECKING_1@, LOGIN@, CHECKING_2@]);
        assert(texts(leaving_parts@) =~= seq![LEAVING_1@, LOGOUT@, LEAVING_2@]);
        assert(texts(tail_parts@) =~= seq![TAIL_1@, REFRESH@, TAIL_2@, TIMER@, TAIL_3@]);
    }
    let head = join(&head_parts);
    let settings = join(&settings_parts);
    let reading = join(&reading_parts);
    let checking = join(&checking_parts);
    let leaving = join(&leaving_parts);
    let tail = join(&tail_parts);
    let own = ScriptParts {
        head: head.as_str(),
        settings: settings.as_str(),
        reading: reading.as_str(),
        checking: checking.as_str(),
        leaving: leaving.as_str(),
        tail: tail.as_str(),
    };
    write_script("baidu", "百度千帆", &own)
}

} // verus!
