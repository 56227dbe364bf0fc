//! Volcengine Ark.
//!
//! The console page leads to the login and back. The script reports a login once the
//! `AccountID` cookie is there, and fetches the subscription and the usage from the console.

use super::script::{script_text, write_script, PartsView, ScriptParts};
use super::{ProviderConfig, ProviderView};
use crate::text::{join, joined, texts};
use vstd::prelude::*;

verus! {

/// Part of the script before it says whose it is.
pub const HEAD_1: &'static str = r#"
(function () {
    console.log('[Volcengine] 注入脚本开始执行');
    console.log('[Volcengine] 当前 URL:', window.location.href);
    console.log('[Volcengine] Tauri API 可用性:', typeof window.__TAURI__);

    "#;

/// What keeps the script from running twice in a page.
pub const GUARD: &'static str = r#"if (window.__LSYS_VOLCENGINE_INJECTED__) {
        console.log('[Volcengine] 脚本已注入，跳过');
        return;
    }
    window.__LSYS_VOLCENGINE_INJECTED__ = true;"#;

/// Part of the script before it says whose it is.
pub const HEAD_2: &'static str = r#"

    "#;

/// Part of the script from there to the function that sets the interval.
pub const SETTINGS_1: &'static str = r#"
    "#;

/// How often data is read at first.
pub const PERIOD: &'static str = r#"let FETCH_INTERVAL = 60_000;"#;

/// Part of the script from there to the function that sets the interval.
pub const SETTINGS_2: &'static str = r#" // 默认60秒，可通过 __LSYS_SET_INTERVAL__ 动态修改

    let prevLoggedIn = null; // null | true | false
    let lastFetchAt  = 0;

    // 暴露全局函数供 Rust 侧动态修改刷新间隔
    "#;

/// How the interval is set.
pub const SETTER: &'static str = r#"(intervalMs) {
        FETCH_INTERVAL = intervalMs;"#;

/// Part of the script from there to the report of data.
pub const READING_1: &'static str = r#"
        console.log('[Volcengine] 刷新间隔已更新为:', intervalMs, 'ms');
    };

    // ── IPC 工具 ──────────────────────────────────────────────────────────────

    async function emitToRust(eventName, payload) {
        try {
            console.log('[Volcengine] 尝试发送事件:', eventName, JSON.stringify(payload).substring(0, 200));
            if (window.__TAURI__?.event?.emit) {
                await window.__TAURI__.event.emit(eventName, payload);
                console.log('[Volcengine] 事件发送成功:', eventName);
            } else {
                console.error('[Volcengine] Tauri API 不可用, __TAURI__:', typeof window.__TAURI__);
            }
        } catch (e) {
            console.error('[Volcengine] emit failed:', eventName, e);
        }
    }

    // ── Cookie 工具 ───────────────────────────────────────────────────────────

    function getCookie(name) {
        for (const part of document.cookie.split(';')) {
            const [k, ...v] = part.trim().split('=');
            if (k.trim() === name) return v.join('=') || '';
        }
        return '';
    }

    "#;

/// When a user is logged in.
pub const LOGIN_RULE: &'static str = r#"function isLoggedIn() {
        const accountId = getCookie('AccountID');
        return accountId !== '';"#;

/// Part of the script from there to the report of data.
pub const READING_2: &'static str = r#"
    }

    // ── 获取 CSRF Token ──────────────────────────────────────────────────────
    // 火山引擎控制台 API（TOP 网关）可能需要 CSRF token

    function getCsrfToken() {
        // 1. 尝试从 cookie 获取
        const csrfCookie = getCookie('csrfToken') || getCookie('csrf_token') || getCookie('CSRF_TOKEN');
        if (csrfCookie) return csrfCookie;
        // 2. 尝试从 meta 标签获取
        const metaEl = document.querySelector('meta[name="csrf-token"]')
                    || document.querySelector('meta[name="csrfToken"]');
        if (metaEl) return metaEl.getAttribute('content') || '';
        return '';
    }

    // 构建请求头：包含 CSRF token 等火山引擎可能需要的头
    "#;

/// What a request carries.
pub const HEADERS: &'static str = r#"function buildHeaders() {
        const headers = { 'Content-Type': 'application/json' };
        const csrf = getCsrfToken();
        if (csrf) {
            headers['x-csrf-token'] = csrf;
            console.log('[Volcengine] 已添加 CSRF token');
        }
        const accountId = getCookie('AccountID');
        if (accountId) {
            headers['x-top-account-id'] = accountId;
        }
        return headers;"#;

/// Part of the script from there to the report of data.
pub const READING_3: &'static str = r#"
    }

    // ── 格式化工具 ────────────────────────────────────────────────────────────

    function formatDate(iso) {
        try {
            const d = new Date(iso);
            const p = n => String(n).padStart(2, '0');
            return `${d.getFullYear()}-${p(d.getMonth() + 1)}-${p(d.getDate())} ${p(d.getHours())}:${p(d.getMinutes())}`;
        } catch (_) {
            return iso || '';
        }
    }

    function formatTimestamp(ts) {
        if (!ts || ts < 0) return '--';
        try {
            return formatDate(new Date(ts * 1000).toISOString());
        } catch (_) {
            return '--';
        }
    }

    function formatPercent(p) {
        if (typeof p !== 'number') return '--';
        return (p * 100).toFixed(1) + '%';
    }

    // 将 BizInfo 映射为可读套餐名
    function bizInfoToName(bizInfo) {
        const map = { 'lite': 'Lite', 'pro': 'Pro', 'enterprise': 'Enterprise' };
        return map[bizInfo] || bizInfo || '未知';
    }

    // 将 Status 映射为可读状态
    function statusToText(status) {
        const map = {
            'Running':   '运行中',
            'Stopped':   '已停止',
            'Expired':   '已过期',
            'Pending':   '待生效',
        };
        return map[status] || status || '--';
    }

    // ── 数据构建 ──────────────────────────────────────────────────────────────

    function buildProviderData(tradeInfo, usageInfo) {
        const items = [];
        const quota_groups = [];

        // ── 套餐信息（来自 ListSubscribeTrade）──
        if (tradeInfo) {
            const bizName = bizInfoToName(tradeInfo.BizInfo);
            const statusText = statusToText(tradeInfo.Status);

            items.push({ key: '套餐', value: bizName, highlight: false });
            items.push({ key: '状态', value: statusText, highlight: tradeInfo.Status === 'Running' });

            if (tradeInfo.EndTime) {
                items.push({ key: '到期', value: formatDate(tradeInfo.EndTime), highlight: false });
            }

            if (tradeInfo.EnableAutoRenew !== undefined) {
                items.push({ key: '自动续费', value: tradeInfo.EnableAutoRenew ? '是' : '否', highlight: false });
            }
        }

        // ── 用量信息（来自 GetCodingPlanUsage）──
        if (usageInfo && usageInfo.QuotaUsage) {
            if (usageInfo.UpdateTimestamp) {
                items.push({ key: '统计时间', value: formatTimestamp(usageInfo.UpdateTimestamp), highlight: false });
            }
"#;

/// Part of the script from there to the report of data.
pub const READING_4: &'static str = r#"
            console.log('[Volcengine] QuotaUsage 数组:', JSON.stringify(usageInfo.QuotaUsage));

            for (const q of usageInfo.QuotaUsage) {
                console.log('[Volcengine] 处理配额项:', JSON.stringify(q));
                let label = '';
                let highlightThreshold = 1;

                "#;

/// What the quotas are of.
pub const LEVELS: &'static str = r#"if (q.Level === 'session') {
                    label = '近5小时';
                    highlightThreshold = 0.8;
                    console.log('[Volcengine] 找到 session 级别，标签设为: 近5小时');
                } else if (q.Level === 'weekly') {
                    label = '近一周';
                    highlightThreshold = 0.8;
                } else if (q.Level === 'monthly') {
                    label = '近一月';"#;

/// Part of the script from there to the report of data.
pub const READING_5: &'static str = r#"
                    highlightThreshold = 0.8;
                } else {
                    label = q.Level || '未知';
                    console.log('[Volcengine] 未知级别:', q.Level);
                }

                // API 返回的 Percent 已是百分比值（如 85.5 表示 85.5%），需除以 100 归一化为小数
                const percent = typeof q.Percent === 'number' ? q.Percent / 100 : 0;
                const resetText = q.ResetTimestamp > 0
                    ? '重置: ' + formatTimestamp(q.ResetTimestamp)
                    : '';

                "#;

/// The quotas that are reported.
pub const QUOTAS: &'static str = r#"const quotaItem = {
                    label: label,
                    used:  formatPercent(percent),
                    limit: 0,
                    remain: resetText,
                    highlight: percent >= highlightThreshold,
                };"#;

/// Part of the script from there to the report of data.
pub const READING_6: &'static str = r#"
                console.log('[Volcengine] 添加配额项:', JSON.stringify(quotaItem));
                quota_groups.push(quotaItem);
            }
        }

        // ── 折叠摘要 ──
        let compact_text = '火山引擎方舟';
        if (usageInfo && usageInfo.QuotaUsage) {
            console.log('[Volcengine] 构建 compact_text，QuotaUsage 长度:', usageInfo.QuotaUsage.length);
            // 优先显示5小时用量（session），其次显示周用量
            const session = usageInfo.QuotaUsage.find(q => q.Level === 'session');
            const weekly = usageInfo.QuotaUsage.find(q => q.Level === 'weekly');
            console.log('[Volcengine] session 数据:', session ? JSON.stringify(session) : 'null');
            console.log('[Volcengine] weekly 数据:', weekly ? JSON.stringify(weekly) : 'null');
            "#;

/// The summary that is reported.
pub const SUMMARY: &'static str = r#"if (session) {
                compact_text = '5h用量：' + formatPercent(session.Percent / 100);
                console.log('[Volcengine] compact_text 设为:', compact_text);
            } else if (weekly) {
                compact_text = '周用量：' + formatPercent(weekly.Percent / 100);"#;

/// Part of the script from there to the report of data.
pub const READING_7: &'static str = r#"
                console.log('[Volcengine] compact_text 设为:', compact_text);
            }
        }
        if (tradeInfo && tradeInfo.Status && tradeInfo.Status !== 'Running') {
            compact_text = '状态：' + statusToText(tradeInfo.Status);
        }
        console.log('[Volcengine] 最终 compact_text:', compact_text);

        return {
            provider_id:   PROVIDER_ID,
            provider_name: PROVIDER_NAME,
            items,
            quota_groups,
            updated_at: Date.now(),
            compact_text,
        };
    }

    // ── 数据拉取 ──────────────────────────────────────────────────────────────

    async function fetchAndEmitData() {
        console.log('[Volcengine] fetchAndEmitData 开始执行');
        console.log('[Volcengine] 当前 cookies (前200字符):', document.cookie.substring(0, 200));

        const headers = buildHeaders();
        console.log('[Volcengine] 请求头:', JSON.stringify(headers));

        try {
            // 1. 获取套餐订阅信息
            let tradeInfo = null;
            try {
                console.log('[Volcengine] 正在请求 ListSubscribeTrade...');
                const tradeResp = await fetch(
                    "#;

/// The address that the plan is read from.
pub const SOURCE: &'static str = r#"'https://console.volcengine.com/api/top/ark/cn-beijing/2024-01-01/ListSubscribeTrade?'"#;

/// Part of the script from there to the report of data.
pub const READING_8: &'static str = r#",
                    {
                        method: 'POST',
                        credentials: 'include',
                        headers: headers,
                        body: JSON.stringify({
                            ResourceTypes: ['CodingPlan'],
                            ResourceNames: [''],
                            BizInfos: ['lite', 'pro'],
                        }),
                    }
                );
                console.log('[Volcengine] ListSubscribeTrade 响应状态:', tradeResp.status, tradeResp.statusText);
                const tradeText = await tradeResp.text();
                console.log('[Volcengine] ListSubscribeTrade 响应体 (前500字符):', tradeText.substring(0, 500));

                if (tradeResp.ok) {
                    const tradeData = JSON.parse(tradeText);
                    const infoList = tradeData?.Result?.InfoList;
                    console.log('[Volcengine] InfoList 长度:', infoList?.length || 0);
                    if (Array.isArray(infoList) && infoList.length > 0) {
                        // 优先选取 Running 状态的套餐；若无则取第一条
                        tradeInfo = infoList.find(i => i.Status === 'Running') || infoList[0];
                        console.log('[Volcengine] 选取的套餐:', JSON.stringify(tradeInfo).substring(0, 300));
                    }
                } else {
                    console.error('[Volcengine] ListSubscribeTrade 请求失败:', tradeResp.status);
                }
            } catch (e) {
                console.error('[Volcengine] ListSubscribeTrade 异常:', e);
            }

            // 2. 获取用量数据
            let usageInfo = null;
            try {
                console.log('[Volcengine] 正在请求 GetCodingPlanUsage...');
                const usageResp = await fetch(
                    "#;

/// The address that the usage is read from.
pub const USAGE_SOURCE: &'static str = r#"'https://console.volcengine.com/api/top/ark/cn-beijing/2024-01-01/GetCodingPlanUsage?'"#;

/// Part of the script from there to the report of data.
pub const READING_9: &'static str = r#",
                    {
                        method: 'POST',
                        credentials: 'include',
                        headers: headers,
                        body: JSON.stringify({}),
                    }
                );
                console.log('[Volcengine] GetCodingPlanUsage 响应状态:', usageResp.status, usageResp.statusText);
                const usageText = await usageResp.text();
                console.log('[Volcengine] GetCodingPlanUsage 响应体 (前500字符):', usageText.substring(0, 500));

                if (usageResp.ok) {
                    const usageData = JSON.parse(usageText);
                    if (usageData?.Result) {
                        usageInfo = usageData.Result;
                        console.log('[Volcengine] 用量数据:', JSON.stringify(usageInfo).substring(0, 300));
                    }
                } else {
                    console.error('[Volcengine] GetCodingPlanUsage 请求失败:', usageResp.status);
                }
            } catch (e) {
                console.error('[Volcengine] GetCodingPlanUsage 异常:', e);
            }

            // 至少有一个接口成功才推送数据
            if (!tradeInfo && !usageInfo) {
                console.warn('[Volcengine] 两个接口均未获取到有效数据，跳过推送');
                return;
            }

            const payload = buildProviderData(tradeInfo, usageInfo);
            console.log('[Volcengine] 准备推送数据:', JSON.stringify(payload).substring(0, 300));
            await emitToRust('"#;

/// Part of the script from there to the report of a login.
pub const CHECKING_1: &'static str = r#"', payload);
            lastFetchAt = Date.now(); // 仅在成功推送后更新，控制刷新周期
            console.log('[Volcengine] 数据推送成功, lastFetchAt 已更新');
        } catch (e) {
            console.error('[Volcengine] fetchAndEmitData 顶层异常:', e);
            // 异常时不更新 lastFetchAt → 下次 tick 立即重试
        }
    }

    // ── 主循环 ────────────────────────────────────────────────────────────────

    async function tick() {
        const loggedIn = isLoggedIn();

        "#;

/// When a login is reported.
pub const LOGIN: &'static str = r#"if (prevLoggedIn !== true && loggedIn) {
            // null/false → true：检测到登录
            console.log('[Volcengine] 检测到登录, AccountID:', getCookie('AccountID').substring(0, 10) + '...');
            prevLoggedIn = true;"#;

/// Part of the script from there to the report of a login.
pub const CHECKING_2: &'static str = r#"
            await emitToRust('"#;

/// Part of the script from there to the report of a logout.
pub const LEAVING_1: &'static str = r#"', { provider_id: PROVIDER_ID });
        "#;

/// When a logout is reported.
pub const LOGOUT: &'static str = r#"} else if (prevLoggedIn === true && !loggedIn) {
            // true → false：检测到登出
            console.log('[Volcengine] 检测到登出');
            prevLoggedIn = false;"#;

/// Part of the script from there to the report of a logout.
pub const LEAVING_2: &'static str = r#"
            await emitToRust('"#;

/// Part of the script behind that report.
pub const TAIL_1: &'static str = r#"', { provider_id: PROVIDER_ID });
        } else if (prevLoggedIn === null) {
            // 初始化：当前未登录，静默设置
            prevLoggedIn = false;
        }

        // 已登录时按间隔拉取数据
        "#;

/// When data is read again.
pub const REFRESH: &'static str = r#"if (loggedIn && Date.now() - lastFetchAt >= FETCH_INTERVAL) {"#;

/// Part of the script behind that report.
pub const TAIL_2: &'static str = r#"
            console.log('[Volcengine] 触发数据拉取, 距上次:', Date.now() - lastFetchAt, 'ms');
            await fetchAndEmitData();
        }
    }

    console.log('[Volcengine] 启动定时器');
    "#;

/// How often the page is looked at.
pub const TIMER: &'static str = r#"setInterval(tick, 2000);"#;

/// Part of the script behind that report.
pub const TAIL_3: &'static str = r#"
    window.addEventListener('load', () => {
        console.log('[Volcengine] 页面加载完成，执行 tick');
        tick();
    });

    // 立即执行一次
    console.log('[Volcengine] 立即执行首次 tick');
    tick();
})();
    "#;

/// The parts of the script that are this provider's own.
pub open spec fn parts() -> PartsView {
    PartsView {
        head: joined(seq![HEAD_1@, GUARD@, HEAD_2@]),
        settings: joined(seq![SETTINGS_1@, PERIOD@, SETTINGS_2@]),
        reading: joined(
            seq![
                SETTER@,
                READING_1@,
                LOGIN_RULE@,
                READING_2@,
                HEADERS@,
                READING_3@,
                READING_4@,
                LEVELS@,
                READING_5@,
                QUOTAS@,
                READING_6@,
                SUMMARY@,
                READING_7@,
                SOURCE@,
                READING_8@,
                USAGE_SOURCE@,
                READING_9@,
            ],
        ),
        checking: joined(seq![CHECKING_1@, LOGIN@, CHECKING_2@]),
        leaving: joined(seq![LEAVING_1@, LOGOUT@, LEAVING_2@]),
        tail: joined(seq![TAIL_1@, REFRESH@, TAIL_2@, TIMER@, TAIL_3@]),
    }
}

/// What is configured for this provider.
pub open spec fn config() -> ProviderView {
    ProviderView {
        id: "volcengine"@,
        name: "火山引擎方舟"@,
        target_url: "https://console.volcengine.com/ark/region:ark+cn-beijing/openManagement?LLM=%7B%7D&advancedActiveKey=subscribe"@,
        allowed_domains: seq!["https://*.volcengine.com"@, "https://volcengine.com"@],
        injection_script: script_text("volcengine"@, "火山引擎方舟"@, parts()),
    }
}

/// The configuration of this provider.
pub fn provider() -> (r: ProviderConfig)
    ensures
        r@ == config(),
{
    let r = ProviderConfig {
        id: "volcengine",
        name: "火山引擎方舟",
        target_url: "https://console.volcengine.com/ark/region:ark+cn-beijing/openManagement?LLM=%7B%7D&advancedActiveKey=subscribe",
        allowed_domains: vec![
            "https://*.volcengine.com".to_string(),
            "https://volcengine.com".to_string(),
        ],
        injection_script: injection_script(),
    };
    assert(r@.allowed_domains =~= config().allowed_domains);
    r
}

/// The script that runs in every page of this provider.
pub fn injection_script() -> (r: String)
    ensures
        r@ == config().injection_script,
{
    let head_parts = vec![HEAD_1, GUARD, HEAD_2];
    let settings_parts = vec![SETTINGS_1, PERIOD, SETTINGS_2];
    let reading_parts = vec![
        SETTER,
        READING_1,
        LOGIN_RULE,
        READING_2,
        HEADERS,
        READING_3,
        READING_4,
        LEVELS,
        READING_5,
        QUOTAS,
        READING_6,
        SUMMARY,
        READING_7,
        SOURCE,
        READING_8,
        USAGE_SOURCE,
        READING_9,
    ];
    let checking_parts = vec![CHECKING_1, LOGIN, CHECKING_2];
    let leaving_parts = vec![LEAVING_1, LOGOUT, LEAVING_2];
    let tail_parts = vec![TAIL_1, REFRESH, TAIL_2, TIMER, TAIL_3];
    proof {
        assert(texts(head_parts@) =~= seq![HEAD_1@, GUARD@, HEAD_2@]);
        assert(texts(settings_parts@) =~= seq![SETTINGS_1@, PERIOD@, SETTINGS_2@]);
        assert(texts(reading_parts@) =~= seq![
            SETTER@,
            READING_1@,
            LOGIN_RULE@,
            READING_2@,
            HEADERS@,
            READING_3@,
            READING_4@,
            LEVELS@,
            READING_5@,
            QUOTAS@,
            READING_6@,
            SUMMARY@,
            READING_7@,
            SOURCE@,
            READING_8@,
            USAGE_SOURCE@,
            READING_9@,
        ]);
        assert(texts(checking_parts@) =~= seq![CHECKING_1@, LOGIN@, CHECKING_2@]);
        assert(texts(leaving_parts@) =~= seq![LEAVING_1@, LOGOUT@, LEAVING_2@]);
        assert(texts(tail_parts@) =~= seq![TAIL_1@, REFRESH@, TAIL_2@, TIMER@, TAIL_3@]);
    }
    let head = join(&head_parts);
    let settings = join(&settings_parts);
    let reading = join(&reading_parts);
    let checking = join(&checking_parts);
    let leaving = join(&leaving_parts);
    let tail = join(&tail_parts);
    let own = ScriptParts {
        head: head.as_str(),
        settings: settings.as_str(),
        reading: reading.as_str(),
        checking: checking.as_str(),
        leaving: leaving.as_str(),
        tail: tail.as_str(),
    };
    write_script("volcengine", "火山引擎方舟", &own)
}

} // verus!
