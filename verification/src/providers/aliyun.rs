//! Alibaba Cloud Bailian.
//!
//! The console page asks for a login by itself. The script reports a login once the
//! `login_aliyunid` cookie is there, and reads the plan from the page.

use super::script::{script_text, write_script, PartsView, ScriptParts};
use super::{ProviderConfig, ProviderView};
use crate::text::{join, joined, texts};
use vstd::prelude::*;

verus! {

/// Part of the script before it says whose it is.
pub const HEAD_1: &'static str = r#"
(function () {
    console.log('[Aliyun] 注入脚本开始执行');
    console.log('[Aliyun] 当前 URL:', window.location.href);
    console.log('[Aliyun] Tauri API 可用性:', typeof window.__TAURI__);
    
    "#;

/// What keeps the script from running twice in a page.
pub const GUARD: &'static str = r#"if (window.__LSYS_ALIYUN_INJECTED__) {
        console.log('[Aliyun] 脚本已注入，跳过');
        return;
    }
    window.__LSYS_ALIYUN_INJECTED__ = true;"#;

/// Part of the script before it says whose it is.
pub const HEAD_2: &'static str = r#"

    "#;

/// Part of the script from there to the function that sets the interval.
pub const SETTINGS_1: &'static str = r#"
    "#;

/// How often data is read at first.
pub const PERIOD: &'static str = r#"let FETCH_INTERVAL = 60_000;"#;

/// Part of the script from there to the function that sets the interval.
pub const SETTINGS_2: &'static str = r#" // 默认60秒，可通过 __LSYS_SET_INTERVAL__ 动态修改

    let prevLoggedIn = null; // null | true | false
    let lastFetchAt  = 0;
    let checkPaused  = false; // 检测是否暂停

    // 暴露全局函数供 Rust 侧动态修改刷新间隔
    "#;

/// How the interval is set.
pub const SETTER: &'static str = r#"(intervalMs) {
        FETCH_INTERVAL = intervalMs;"#;

/// Part of the script from there to the report of data.
pub const READING_1: &'static str = r#"
        console.log('[Aliyun] 刷新间隔已更新为:', intervalMs, 'ms');
    };

    // 暴露全局函数供 Rust 侧暂停/恢复检测
    window.__LSYS_PAUSE_CHECK__ = function() {
        checkPaused = true;
        console.log('[Aliyun] 登录检测已暂停');
    };

    window.__LSYS_RESUME_CHECK__ = function() {
        checkPaused = false;
        console.log('[Aliyun] 登录检测已恢复');
    };

    // ── IPC 工具 ──────────────────────────────────────────────────────────────

    async function emitToRust(eventName, payload) {
        try {
            console.log('[Aliyun] 尝试发送事件:', eventName, payload);
            if (window.__TAURI__?.event?.emit) {
                await window.__TAURI__.event.emit(eventName, payload);
                console.log('[Aliyun] 事件发送成功:', eventName);
            } else {
                console.error('[Aliyun] Tauri API 不可用, __TAURI__:', typeof window.__TAURI__);
            }
        } catch (e) {
            console.error('[Aliyun] emit failed:', eventName, e);
        }
    }

    // ── Cookie 工具 ───────────────────────────────────────────────────────────

    function getCookie(name) {
        for (const part of document.cookie.split(';')) {
            const [k, ...v] = part.trim().split('=');
            if (k === name) return v.join('=') || '';
        }
        return '';
    }

    // ── 数据提取 ──────────────────────────────────────────────────────────────

    function extractPlanInfo() {
        try {
            const lines = document.body.innerText
                .split('\n')
                .map(l => l.trim())
                .filter(Boolean);

            const info = {
                planName: '', status: '', remainingDays: '',
                startTime: '', endTime: '', autoRenew: '',
                lastStatTime: '', usage5h: '', usageWeek: '', usageMonth: '',
            };

            for (let i = 0; i < lines.length; i++) {
                const l    = lines[i];
                const next = lines[i + 1] ?? '';
                if (l === '套餐状态')    info.status        = next;
                if (l === '剩余天数')    info.remainingDays = next;
                if (l === '开始时间')    info.startTime     = next;
                if (l === '结束时间')    info.endTime       = next;
                if (l === '自动续费')    info.autoRenew     = next;
                "#;

/// Where the usage stands in the page.
pub const USAGE: &'static str = r#"if (l === '近5小时用量') info.usage5h       = next;
                if (l === '近一周用量')  info.usageWeek     = next;
                if (l === '近一月用量')  info.usageMonth    = next;"#;

/// Part of the script from there to the report of data.
pub const READING_2: &'static str = r#"
                if (l.includes('最后统计时间')) {
                    info.lastStatTime = l.replace('最后统计时间', '').trim();
                }
                if (!info.planName && (l.includes('Lite') || (l.includes('套餐') && l.length < 20))) {
                    info.planName = l;
                }
            }

            console.log('[Aliyun] 提取的数据:', info);
            return (info.status || info.startTime) ? info : null;
        } catch (e) {
            console.error('[Aliyun] 数据提取失败:', e);
            return null;
        }
    }

    function buildProviderData(info) {
        const validDate = info.startTime && info.endTime
            ? `${info.startTime} ~ ${info.endTime}`
            : (info.endTime || '--');

        const items = [
            { key: '套餐',    value: info.planName      || '未知套餐', highlight: false },
            { key: '状态',    value: info.status        || '--',      highlight: true  },
            { key: '剩余天数', value: info.remainingDays || '--',      highlight: false },
            { key: '有效期',  value: validDate,                        highlight: false },
        ];

        if (info.lastStatTime) {
            items.push({ key: '统计时间', value: info.lastStatTime, highlight: false });
        }

        // 将用量数据转换为配额分组格式（仅显示已用量，无限额）
        "#;

/// The quotas that are reported.
pub const QUOTAS: &'static str = r#"const quota_groups = [
            { label: '近5小时', used: info.usage5h || '--', limit: 0, remain: '--', highlight: false },
            { label: '近一周',  used: info.usageWeek || '--', limit: 0, remain: '--', highlight: false },
            { label: '近一月',  used: info.usageMonth || '--', limit: 0, remain: '--', highlight: false },
        ];"#;

/// Part of the script from there to the report of data.
pub const READING_3: &'static str = r#"

        const isExpired    = (info.status || '').includes('过期');
        "#;

/// The summary that is reported.
pub const SUMMARY: &'static str = r#"const compact_text = isExpired
            ? '状态：' + info.status
            : '近5H：' + (info.usage5h || '--');"#;

/// Part of the script from there to the report of data.
pub const READING_4: &'static str = r#"

        return { provider_id: PROVIDER_ID, provider_name: PROVIDER_NAME, items, quota_groups, compact_text };
    }

    // ── 页面刷新 ──────────────────────────────────────────────────────────────
    // 查找并点击阿里云刷新按钮

    function triggerPageRefresh() {
        console.log('[Aliyun] 尝试触发页面刷新');
        
        try {
            const sparkIcons = document.querySelectorAll('.spark-icon-spark-refresh-line');
            if (sparkIcons.length === 0) {
                console.log('[Aliyun] 未找到刷新按钮 (.spark-icon-spark-refresh-line)');
                return false;
            }
            
            console.log('[Aliyun] 找到', sparkIcons.length, '个刷新按钮');
            let clickedCount = 0;
            
            sparkIcons.forEach((icon, index) => {
                const clickable = icon.closest('button, span[role="button"], a, [onclick]');
                if (clickable) {
                    console.log('[Aliyun] 点击第', index + 1, '个刷新按钮');
                    clickable.click();
                    clickedCount++;
                } else if (icon.onclick || icon.getAttribute('onclick')) {
                    console.log('[Aliyun] 直接点击第', index + 1, '个刷新图标');
                    icon.click();
                    clickedCount++;
                }
            });
            
            console.log('[Aliyun] 共点击了', clickedCount, '个刷新按钮');
            return clickedCount > 0;
        } catch (e) {
            console.error('[Aliyun] 刷新按钮点击失败:', e);
            return false;
        }
    }

    // ── 数据拉取 ─────────────────────────────────────────────────────────────────
    // 仅在 URL 包含 bailian.console.aliyun.com 时执行 DOM 抓取。
    // 每次拉取数据前先触发页面刷新，然后等待页面更新后提取数据。
    // 成功推送后才更新 lastFetchAt；未取到数据时保持原値 → tick 每 2s 重试直到成功。

    function fetchData() {
        const url = window.location.href;
        console.log('[Aliyun] fetchData 被调用, URL:', url);
        "#;

/// The site that data is read from.
pub const SOURCE: &'static str = r#"if (!url.includes('bailian.console.aliyun.com')) {"#;

/// Part of the script from there to the report of data.
pub const READING_5: &'static str = r#"
            console.log('[Aliyun] URL 不匹配，跳过数据提取');
            return;
        }
        
        // 每次拉取数据前先触发页面刷新
        triggerPageRefresh();
        
        // 触发刷新后等待 5 秒让页面更新
        setTimeout(() => {
            console.log('[Aliyun] 刷新后延迟提取数据');
            extractAndSendData();
        }, 5000);
    }
    
    function extractAndSendData() {
        const info = extractPlanInfo();
        if (!info) {
            console.log('[Aliyun] 未提取到数据，等待重试');
            return; // 未取到数据：不更新 lastFetchAt → 2s 后重试
        }
        console.log('[Aliyun] 数据提取成功，准备发送');
        emitToRust('"#;

/// Part of the script from there to the report of a login.
pub const CHECKING_1: &'static str = r#"', buildProviderData(info));
        lastFetchAt = Date.now(); // 仅在成功推送后更新
    }

    // ── 主循环 ────────────────────────────────────────────────────────────────
    // 登录判定：login_aliyunid cookie 存在且非空 → 已登录（纯 Cookie，不依赖 URL）。
    //
    // prevLoggedIn 状态机：
    //   null / false → true : emit provider_login_detected  + 立即拉取数据
    //   true         → false: emit provider_logout_detected
    //
    // 已登录期间每 FETCH_INTERVAL ms 拉取一次数据。

    function tick() {
        // 如果检测被暂停，跳过本次检测
        if (checkPaused) {
            console.log('[Aliyun] 检测已暂停，跳过本次 tick');
            return;
        }

        "#;

/// When a user is logged in.
pub const LOGIN_RULE: &'static str = r#"const loginId  = getCookie('login_aliyunid').trim();
        const loggedIn = loginId.length > 0;"#;

/// Part of the script from there to the report of a login.
pub const CHECKING_2: &'static str = r#"

        console.log('[Aliyun] tick - loggedIn:', loggedIn, 'prevLoggedIn:', prevLoggedIn);

        "#;

/// When a login is reported.
pub const LOGIN: &'static str = r#"if (loggedIn !== prevLoggedIn) {
            if (loggedIn) {
                // null/false → true
                console.log('[Aliyun] 检测到登录');
                prevLoggedIn = true;"#;

/// Part of the script from there to the report of a login.
pub const CHECKING_3: &'static str = r#"
                emitToRust('"#;

/// Part of the script from there to the report of a logout.
pub const LEAVING_1: &'static str = r#"', { provider_id: PROVIDER_ID });
                // Rust 侧收到后会立即推占位数据显示悬浮窗。
                // lastFetchAt 保持 0 → 下方区间检查（Date.now()-0 >= 60000）立即为 true
                // → 本 tick 末尾或下次 tick 立即调用 fetchData()，失败则持续重试直到成功。
            } else {
                "#;

/// When a logout is reported.
pub const LOGOUT: &'static str = r#"if (prevLoggedIn === true) {"#;

/// Part of the script from there to the report of a logout.
pub const LEAVING_2: &'static str = r#"
                    // true → false
                    console.log('[Aliyun] 检测到登出');
                    emitToRust('"#;

/// Part of the script behind that report.
pub const TAIL_1: &'static str = r#"', { provider_id: PROVIDER_ID });
                }
                prevLoggedIn = false;
            }
        }

        // 已登录时按固定间隔定时拉取数据
        "#;

/// When data is read again.
pub const REFRESH: &'static str = r#"if (prevLoggedIn === true && Date.now() - lastFetchAt >= FETCH_INTERVAL) {"#;

/// Part of the script behind that report.
pub const TAIL_2: &'static str = r#"
            console.log('[Aliyun] 触发数据拉取');
            fetchData();
        }
    }

    console.log('[Aliyun] 启动定时器');
    "#;

/// How often the page is looked at.
pub const TIMER: &'static str = r#"setInterval(tick, 2000);"#;

/// Part of the script behind that report.
pub const TAIL_3: &'static str = r#"
    window.addEventListener('load', () => {
        console.log('[Aliyun] 页面加载完成，执行 tick');
        tick();
    });
    
    // 立即执行一次
    console.log('[Aliyun] 立即执行首次 tick');
    tick();
})();
    "#;

/// The parts of the script that are this provider's own.
pub open spec fn parts() -> PartsView {
    PartsView {
        head: joined(seq![HEAD_1@, GUARD@, HEAD_2@]),
        settings: joined(seq![SETTINGS_1@, PERIOD@, SETTINGS_2@]),
        reading: joined(
            seq![
                SETTER@,
                READING_1@,
                USAGE@,
                READING_2@,
                QUOTAS@,
                READING_3@,
                SUMMARY@,
                READING_4@,
                SOURCE@,
                READING_5@,
            ],
        ),
        checking: joined(seq![CHECKING_1@, LOGIN_RULE@, CHECKING_2@, LOGIN@, CHECKING_3@]),
        leaving: joined(seq![LEAVING_1@, LOGOUT@, LEAVING_2@]),
        tail: joined(seq![TAIL_1@, REFRESH@, TAIL_2@, TIMER@, TAIL_3@]),
    }
}

/// What is configured for this provider.
pub open spec fn config() -> ProviderView {
    ProviderView {
        id: "aliyun"@,
        name: "阿里云百炼"@,
        target_url: "https://bailian.console.aliyun.com/cn-beijing?tab=plan#/efm/subscription/coding-plan"@,
        allowed_domains: seq!["https://*.aliyun.com"@, "https://aliyun.com"@],
        injection_script: script_text("aliyun"@, "阿里云百炼"@, parts()),
    }
}

/// The configuration of this provider.
pub fn provider() -> (r: ProviderConfig)
    ensures
        r@ == config(),
{
    let r = ProviderConfig {
        id: "aliyun",
        name: "阿里云百炼",
        target_url: "https://bailian.console.aliyun.com/cn-beijing?tab=plan#/efm/subscription/coding-plan",
        allowed_domains: vec![
            "https://*.aliyun.com".to_string(),
            "https://aliyun.com".to_string(),
        ],
        injection_script: injection_script(),
    };
    assert(r@.allowed_domains =~= config().allowed_domains);
    r
}

/// The script that runs in every page of this provider.
pub fn injection_script() -> (r: String)
    ensures
        r@ == config().injection_script,
{
    let head_parts = vec![HEAD_1, GUARD, HEAD_2];
    let settings_parts = vec![SETTINGS_1, PERIOD, SETTINGS_2];
    let reading_parts = vec![
        SETTER,
        READING_1,
        USAGE,
        READING_2,
        QUOTAS,
        READING_3,
        SUMMARY,
        READING_4,
        SOURCE,
        READING_5,
    ];
    let checking_parts = vec![CHECKING_1, LOGIN_RULE, CHECKING_2, LOGIN, CHECKING_3];
    let leaving_parts = vec![LEAVING_1, LOGOUT, LEAVING_2];
    let tail_parts = vec![TAIL_1, REFRESH, TAIL_2, TIMER, TAIL_3];
    proof {
        assert(texts(head_parts@) =~= seq![HEAD_1@, GUARD@, HEAD_2@]);
        assert(texts(settings_parts@) =~= seq![SETTINGS_1@, PERIOD@, SETTINGS_2@]);
        assert(texts(reading_parts@) =~= seq![
            SETTER@,
            READING_1@,
            USAGE@,
            READING_2@,
            QUOTAS@,
            READING_3@,
            SUMMARY@,
            READING_4@,
            SOURCE@,
            READING_5@,
        ]);
        assert(texts(checking_parts@) =~= seq![
            CHECKING_1@,
            LOGIN_RULE@,
            CHECKING_2@,
            LOGIN@,
            CHECKING_3@,
        ]);
        assert(texts(leaving_parts@) =~= seq![LEAVING_1@, LOGOUT@, LEAVING_2@]);
        assert(texts(tail_parts@) =~= seq![TAIL_1@, REFRESH@, TAIL_2@, TIMER@, TAIL_3@]);
    }
    let head = join(&head_parts);
    let settings = join(&settings_parts);
    let reading = join(&reading_parts);
    let checking = join(&checking_parts);
    let leaving = join(&leaving_parts);
    let tail = join(&tail_parts);
    let own = ScriptParts {
        head: head.as_str(),
        settings: settings.as_str(),
        reading: reading.as_str(),
        checking: checking.as_str(),
        leaving: leaving.as_str(),
        tail: tail.as_str(),
    };
    write_script("aliyun", "阿里云百炼", &own)
}

} // verus!
