//! The script of this provider, character by character.

use super::{lemma_joined_is_quiet, quiet};
use crate::providers::aliyun;
use crate::text::joined;
use vstd::prelude::*;

verus! {

proof fn lemma_head_1()
    ensures
        quiet(aliyun::HEAD_1@, 0),
{
    reveal_strlit(
        r#"
(function () {
    console.log('[Aliyun] 注入脚本开始执行');
    console.log('[Aliyun] 当前 URL:', window.location.href);
    console.log('[Aliyun] Tauri API 可用性:', typeof window.__TAURI__);
    
    "#,
    );
}

proof fn lemma_guard()
    ensures
        quiet(aliyun::GUARD@, 0),
{
    reveal_strlit(
        r#"if (window.__LSYS_ALIYUN_INJECTED__) {
        console.log('[Aliyun] 脚本已注入，跳过');
        return;
    }
    window.__LSYS_ALIYUN_INJECTED__ = true;"#,
    );
}

proof fn lemma_head_2()
    ensures
        quiet(aliyun::HEAD_2@, 0),
{
    reveal_strlit(
        r#"

    "#,
    );
}

proof fn lemma_settings_1()
    ensures
        quiet(aliyun::SETTINGS_1@, 0),
{
    reveal_strlit(
        r#"
    "#,
    );
}

proof fn lemma_period()
    ensures
        quiet(aliyun::PERIOD@, 0),
{
    reveal_strlit(
        r#"let FETCH_INTERVAL = 60_000;"#,
    );
}

proof fn lemma_settings_2()
    ensures
        quiet(aliyun::SETTINGS_2@, 0),
{
    reveal_strlit(
        r#" // 默认60秒，可通过 __LSYS_SET_INTERVAL__ 动态修改

    let prevLoggedIn = null; // null | true | false
    let lastFetchAt  = 0;
    let checkPaused  = false; // 检测是否暂停

    // 暴露全局函数供 Rust 侧动态修改刷新间隔
    "#,
    );
}

proof fn lemma_setter()
    ensures
        quiet(aliyun::SETTER@, 0),
{
    reveal_strlit(
        r#"(intervalMs) {
        FETCH_INTERVAL = intervalMs;"#,
    );
}

proof fn lemma_reading_1()
    ensures
        quiet(aliyun::READING_1@, 0),
{
    reveal_strlit(
        r#"
        console.log('[Aliyun] 刷新间隔已更新为:', intervalMs, 'ms');
    };

    // 暴露全局函数供 Rust 侧暂停/恢复检测
    window.__LSYS_PAUSE_CHECK__ = function() {
        checkPaused = true;
        console.log('[Aliyun] 登录检测已暂停');
    };

    window.__LSYS_RESUME_CHECK__ = function() {
        checkPaused = false;
        console.log('[Aliyun] 登录检测已恢复');
    };

    // ── IPC 工具 ──────────────────────────────────────────────────────────────

    async function emitToRust(eventName, payload) {
        try {
            console.log('[Aliyun] 尝试发送事件:', eventName, payload);
            if (window.__TAURI__?.event?.emit) {
                await window.__TAURI__.event.emit(eventName, payload);
                console.log('[Aliyun] 事件发送成功:', eventName);
            } else {
                console.error('[Aliyun] Tauri API 不可用, __TAURI__:', typeof window.__TAURI__);
            }
        } catch (e) {
            console.error('[Aliyun] emit failed:', eventName, e);
        }
    }

    // ── Cookie 工具 ───────────────────────────────────────────────────────────

    function getCookie(name) {
        for (const part of document.cookie.split(';')) {
            const [k, ...v] = part.trim().split('=');
            if (k === name) return v.join('=') || '';
        }
        return '';
    }

    // ── 数据提取 ──────────────────────────────────────────────────────────────

    function extractPlanInfo() {
        try {
            const lines = document.body.innerText
                .split('\n')
                .map(l => l.trim())
                .filter(Boolean);

            const info = {
                planName: '', status: '', remainingDays: '',
                startTime: '', endTime: '', autoRenew: '',
                lastStatTime: '', usage5h: '', usageWeek: '', usageMonth: '',
            };

            for (let i = 0; i < lines.length; i++) {
                const l    = lines[i];
                const next = lines[i + 1] ?? '';
                if (l === '套餐状态')    info.status        = next;
                if (l === '剩余天数')    info.remainingDays = next;
                if (l === '开始时间')    info.startTime     = next;
                if (l === '结束时间')    info.endTime       = next;
                if (l === '自动续费')    info.autoRenew     = next;
                "#,
    );
}

proof fn lemma_usage()
    ensures
        quiet(aliyun::USAGE@, 0),
{
    reveal_strlit(
        r#"if (l === '近5小时用量') info.usage5h       = next;
                if (l === '近一周用量')  info.usageWeek     = next;
                if (l === '近一月用量')  info.usageMonth    = next;"#,
    );
}

proof fn lemma_reading_2()
    ensures
        quiet(aliyun::READING_2@, 0),
{
    reveal_strlit(
        r#"
                if (l.includes('最后统计时间')) {
                    info.lastStatTime = l.replace('最后统计时间', '').trim();
                }
                if (!info.planName && (l.includes('Lite') || (l.includes('套餐') && l.length < 20))) {
                    info.planName = l;
                }
            }

            console.log('[Aliyun] 提取的数据:', info);
            return (info.status || info.startTime) ? info : null;
        } catch (e) {
            console.error('[Aliyun] 数据提取失败:', e);
            return null;
        }
    }

    function buildProviderData(info) {
        const validDate = info.startTime && info.endTime
            ? `${info.startTime} ~ ${info.endTime}`
            : (info.endTime || '--');

        const items = [
            { key: '套餐',    value: info.planName      || '未知套餐', highlight: false },
            { key: '状态',    value: info.status        || '--',      highlight: true  },
            { key: '剩余天数', value: info.remainingDays || '--',      highlight: false },
            { key: '有效期',  value: validDate,                        highlight: false },
        ];

        if (info.lastStatTime) {
            items.push({ key: '统计时间', value: info.lastStatTime, highlight: false });
        }

        // 将用量数据转换为配额分组格式（仅显示已用量，无限额）
        "#,
    );
}

proof fn lemma_quotas()
    ensures
        quiet(aliyun::QUOTAS@, 0),
{
    reveal_strlit(
        r#"const quota_groups = [
            { label: '近5小时', used: info.usage5h || '--', limit: 0, remain: '--', highlight: false },
            { label: '近一周',  used: info.usageWeek || '--', limit: 0, remain: '--', highlight: false },
            { label: '近一月',  used: info.usageMonth || '--', limit: 0, remain: '--', highlight: false },
        ];"#,
    );
}

proof fn lemma_reading_3()
    ensures
        quiet(aliyun::READING_3@, 0),
{
    reveal_strlit(
        r#"

        const isExpired    = (info.status || '').includes('过期');
        "#,
    );
}

proof fn lemma_summary()
    ensures
        quiet(aliyun::SUMMARY@, 0),
{
    reveal_strlit(
        r#"const compact_text = isExpired
            ? '状态：' + info.status
            : '近5H：' + (info.usage5h || '--');"#,
    );
}

proof fn lemma_reading_4()
    ensures
        quiet(aliyun::READING_4@, 0),
{
    reveal_strlit(
        r#"

        return { provider_id: PROVIDER_ID, provider_name: PROVIDER_NAME, items, quota_groups, compact_text };
    }

    // ── 页面刷新 ──────────────────────────────────────────────────────────────
    // 查找并点击阿里云刷新按钮

    function triggerPageRefresh() {
        console.log('[Aliyun] 尝试触发页面刷新');
        
        try {
            const sparkIcons = document.querySelectorAll('.spark-icon-spark-refresh-line');
            if (sparkIcons.length === 0) {
                console.log('[Aliyun] 未找到刷新按钮 (.spark-icon-spark-refresh-line)');
                return false;
            }
            
            console.log('[Aliyun] 找到', sparkIcons.length, '个刷新按钮');
            let clickedCount = 0;
            
            sparkIcons.forEach((icon, index) => {
                const clickable = icon.closest('button, span[role="button"], a, [onclick]');
                if (clickable) {
                    console.log('[Aliyun] 点击第', index + 1, '个刷新按钮');
                    clickable.click();
                    clickedCount++;
                } else if (icon.onclick || icon.getAttribute('onclick')) {
                    console.log('[Aliyun] 直接点击第', index + 1, '个刷新图标');
                    icon.click();
                    clickedCount++;
                }
            });
            
            console.log('[Aliyun] 共点击了', clickedCount, '个刷新按钮');
            return clickedCount > 0;
        } catch (e) {
            console.error('[Aliyun] 刷新按钮点击失败:', e);
            return false;
        }
    }

    // ── 数据拉取 ─────────────────────────────────────────────────────────────────
    // 仅在 URL 包含 bailian.console.aliyun.com 时执行 DOM 抓取。
    // 每次拉取数据前先触发页面刷新，然后等待页面更新后提取数据。
    // 成功推送后才更新 lastFetchAt；未取到数据时保持原値 → tick 每 2s 重试直到成功。

    function fetchData() {
        const url = window.location.href;
        console.log('[Aliyun] fetchData 被调用, URL:', url);
        "#,
    );
}

proof fn lemma_source()
    ensures
        quiet(aliyun::SOURCE@, 0),
{
    reveal_strlit(
        r#"if (!url.includes('bailian.console.aliyun.com')) {"#,
    );
}

proof fn lemma_reading_5()
    ensures
        quiet(aliyun::READING_5@, 0),
{
    reveal_strlit(
        r#"
            console.log('[Aliyun] URL 不匹配，跳过数据提取');
            return;
        }
        
        // 每次拉取数据前先触发页面刷新
        triggerPageRefresh();
        
        // 触发刷新后等待 5 秒让页面更新
        setTimeout(() => {
            console.log('[Aliyun] 刷新后延迟提取数据');
            extractAndSendData();
        }, 5000);
    }
    
    function extractAndSendData() {
        const info = extractPlanInfo();
        if (!info) {
            console.log('[Aliyun] 未提取到数据，等待重试');
            return; // 未取到数据：不更新 lastFetchAt → 2s 后重试
        }
        console.log('[Aliyun] 数据提取成功，准备发送');
        emitToRust('"#,
    );
}

proof fn lemma_checking_1()
    ensures
        quiet(aliyun::CHECKING_1@, 0),
{
    reveal_strlit(
        r#"', buildProviderData(info));
        lastFetchAt = Date.now(); // 仅在成功推送后更新
    }

    // ── 主循环 ────────────────────────────────────────────────────────────────
    // 登录判定：login_aliyunid cookie 存在且非空 → 已登录（纯 Cookie，不依赖 URL）。
    //
    // prevLoggedIn 状态机：
    //   null / false → true : emit provider_login_detected  + 立即拉取数据
    //   true         → false: emit provider_logout_detected
    //
    // 已登录期间每 FETCH_INTERVAL ms 拉取一次数据。

    function tick() {
        // 如果检测被暂停，跳过本次检测
        if (checkPaused) {
            console.log('[Aliyun] 检测已暂停，跳过本次 tick');
            return;
        }

        "#,
    );
}

proof fn lemma_login_rule()
    ensures
        quiet(aliyun::LOGIN_RULE@, 0),
{
    reveal_strlit(
        r#"const loginId  = getCookie('login_aliyunid').trim();
        const loggedIn = loginId.length > 0;"#,
    );
}

proof fn lemma_checking_2()
    ensures
        quiet(aliyun::CHECKING_2@, 0),
{
    reveal_strlit(
        r#"

        console.log('[Aliyun] tick - loggedIn:', loggedIn, 'prevLoggedIn:', prevLoggedIn);

        "#,
    );
}

proof fn lemma_login()
    ensures
        quiet(aliyun::LOGIN@, 0),
{
    reveal_strlit(
        r#"if (loggedIn !== prevLoggedIn) {
            if (loggedIn) {
                // null/false → true
                console.log('[Aliyun] 检测到登录');
                prevLoggedIn = true;"#,
    );
}

proof fn lemma_checking_3()
    ensures
        quiet(aliyun::CHECKING_3@, 0),
{
    reveal_strlit(
        r#"
                emitToRust('"#,
    );
}

proof fn lemma_leaving_1()
    ensures
        quiet(aliyun::LEAVING_1@, 0),
{
    reveal_strlit(
        r#"', { provider_id: PROVIDER_ID });
                // Rust 侧收到后会立即推占位数据显示悬浮窗。
                // lastFetchAt 保持 0 → 下方区间检查（Date.now()-0 >= 60000）立即为 true
                // → 本 tick 末尾或下次 tick 立即调用 fetchData()，失败则持续重试直到成功。
            } else {
                "#,
    );
}

proof fn lemma_logout()
    ensures
        quiet(aliyun::LOGOUT@, 0),
{
    reveal_strlit(
        r#"if (prevLoggedIn === true) {"#,
    );
}

proof fn lemma_leaving_2()
    ensures
        quiet(aliyun::LEAVING_2@, 0),
{
    reveal_strlit(
        r#"
                    // true → false
                    console.log('[Aliyun] 检测到登出');
                    emitToRust('"#,
    );
}

proof fn lemma_tail_1()
    ensures
        quiet(aliyun::TAIL_1@, 0),
{
    reveal_strlit(
        r#"', { provider_id: PROVIDER_ID });
                }
                prevLoggedIn = false;
            }
        }

        // 已登录时按固定间隔定时拉取数据
        "#,
    );
}

proof fn lemma_refresh()
    ensures
        quiet(aliyun::REFRESH@, 0),
{
    reveal_strlit(
        r#"if (prevLoggedIn === true && Date.now() - lastFetchAt >= FETCH_INTERVAL) {"#,
    );
}

proof fn lemma_tail_2()
    ensures
        quiet(aliyun::TAIL_2@, 0),
{
    reveal_strlit(
        r#"
            console.log('[Aliyun] 触发数据拉取');
            fetchData();
        }
    }

    console.log('[Aliyun] 启动定时器');
    "#,
    );
}

proof fn lemma_timer()
    ensures
        quiet(aliyun::TIMER@, 0),
{
    reveal_strlit(
        r#"setInterval(tick, 2000);"#,
    );
}

proof fn lemma_tail_3()
    ensures
        quiet(aliyun::TAIL_3@, 0),
{
    reveal_strlit(
        r#"
    window.addEventListener('load', () => {
        console.log('[Aliyun] 页面加载完成，执行 tick');
        tick();
    });
    
    // 立即执行一次
    console.log('[Aliyun] 立即执行首次 tick');
    tick();
})();
    "#,
    );
}

/// The parts of the script name no other provider's site.
pub(super) proof fn lemma_parts_are_quiet()
    ensures
        quiet(aliyun::parts().head, 0),
        quiet(aliyun::parts().settings, 0),
        quiet(aliyun::parts().reading, 0),
        quiet(aliyun::parts().checking, 0),
        quiet(aliyun::parts().leaving, 0),
        quiet(aliyun::parts().tail, 0),
{
    lemma_head_1();
    lemma_guard();
    lemma_head_2();
    lemma_settings_1();
    lemma_period();
    lemma_settings_2();
    lemma_setter();
    lemma_reading_1();
    lemma_usage();
    lemma_reading_2();
    lemma_quotas();
    lemma_reading_3();
    lemma_summary();
    lemma_reading_4();
    lemma_source();
    lemma_reading_5();
    lemma_checking_1();
    lemma_login_rule();
    lemma_checking_2();
    lemma_login();
    lemma_checking_3();
    lemma_leaving_1();
    lemma_logout();
    lemma_leaving_2();
    lemma_tail_1();
    lemma_refresh();
    lemma_tail_2();
    lemma_timer();
    lemma_tail_3();
    lemma_joined_is_quiet(seq![aliyun::HEAD_1@, aliyun::GUARD@, aliyun::HEAD_2@], 0);
    lemma_joined_is_quiet(seq![aliyun::SETTINGS_1@, aliyun::PERIOD@, aliyun::SETTINGS_2@], 0);
    lemma_joined_is_quiet(
        seq![
            aliyun::SETTER@,
            aliyun::READING_1@,
            aliyun::USAGE@,
            aliyun::READING_2@,
            aliyun::QUOTAS@,
            aliyun::READING_3@,
            aliyun::SUMMARY@,
            aliyun::READING_4@,
            aliyun::SOURCE@,
            aliyun::READING_5@,
        ],
        0,
    );
    lemma_joined_is_quiet(
        seq![
            aliyun::CHECKING_1@,
            aliyun::LOGIN_RULE@,
            aliyun::CHECKING_2@,
            aliyun::LOGIN@,
            aliyun::CHECKING_3@,
        ],
        0,
    );
    lemma_joined_is_quiet(seq![aliyun::LEAVING_1@, aliyun::LOGOUT@, aliyun::LEAVING_2@], 0);
    lemma_joined_is_quiet(
        seq![
            aliyun::TAIL_1@,
            aliyun::REFRESH@,
            aliyun::TAIL_2@,
            aliyun::TIMER@,
            aliyun::TAIL_3@,
        ],
        0,
    );
}

} // verus!
