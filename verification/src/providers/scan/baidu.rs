//! The script of this provider, character by character.

use super::{lemma_joined_is_quiet, quiet};
use crate::providers::baidu;
use crate::text::joined;
use vstd::prelude::*;

verus! {

proof fn lemma_head_1()
    ensures
        quiet(baidu::HEAD_1@, 1),
{
    reveal_strlit(
        r#"
(function () {
    "#,
    );
}

proof fn lemma_guard()
    ensures
        quiet(baidu::GUARD@, 1),
{
    reveal_strlit(
        r#"if (window.__LSYS_BAIDU_INJECTED__) return;
    window.__LSYS_BAIDU_INJECTED__ = true;"#,
    );
}

proof fn lemma_head_2()
    ensures
        quiet(baidu::HEAD_2@, 1),
{
    reveal_strlit(
        r#"

    "#,
    );
}

proof fn lemma_settings_1()
    ensures
        quiet(baidu::SETTINGS_1@, 1),
{
    reveal_strlit(
        r#"
    "#,
    );
}

proof fn lemma_period()
    ensures
        quiet(baidu::PERIOD@, 1),
{
    reveal_strlit(
        r#"let FETCH_INTERVAL = 60_000;"#,
    );
}

proof fn lemma_settings_2()
    ensures
        quiet(baidu::SETTINGS_2@, 1),
{
    reveal_strlit(
        r#" // 默认60秒，可通过 __LSYS_SET_INTERVAL__ 动态修改

    let prevLoggedIn = null;
    let lastFetchAt  = 0;
    let checkPaused  = false; // 检测是否暂停

    // 暴露全局函数供 Rust 侧动态修改刷新间隔
    "#,
    );
}

proof fn lemma_setter()
    ensures
        quiet(baidu::SETTER@, 1),
{
    reveal_strlit(
        r#"(intervalMs) {
        FETCH_INTERVAL = intervalMs;"#,
    );
}

proof fn lemma_reading_1()
    ensures
        quiet(baidu::READING_1@, 1),
{
    reveal_strlit(
        r#"
        console.log('[Baidu] 刷新间隔已更新为:', intervalMs, 'ms');
    };

    // 暴露全局函数供 Rust 侧暂停/恢复检测
    window.__LSYS_PAUSE_CHECK__ = function() {
        checkPaused = true;
        console.log('[Baidu] 登录检测已暂停');
    };

    window.__LSYS_RESUME_CHECK__ = function() {
        checkPaused = false;
        console.log('[Baidu] 登录检测已恢复');
    };

    // ── IPC 工具 ───────────────────────────────────────────────────────────────

    async function emitToRust(eventName, payload) {
        try {
            if (window.__TAURI__?.event?.emit) {
                await window.__TAURI__.event.emit(eventName, payload);
            }
        } catch (e) {
            console.error('[Baidu] emit failed:', eventName, e);
        }
    }

    // ── Cookie 工具 ────────────────────────────────────────────────────────────

    function getCookie(name) {
        for (const part of document.cookie.split(';')) {
            const [k, ...v] = part.trim().split('=');
            if (k.trim() === name) return v.join('=') || '';
        }
        return '';
    }

    "#,
    );
}

proof fn lemma_login_rule()
    ensures
        quiet(baidu::LOGIN_RULE@, 1),
{
    reveal_strlit(
        r#"function isLoggedIn() {
        const accountId     = getCookie('bce-login-accountid');
        const domainAccount = getCookie('bce-login-domain-account');
        return accountId !== '' && domainAccount !== '';"#,
    );
}

proof fn lemma_reading_2()
    ensures
        quiet(baidu::READING_2@, 1),
{
    reveal_strlit(
        r#"
    }

    // ── 格式化工具 ─────────────────────────────────────────────────────────────

    function formatNum(n) {
        if (n >= 10000) return (n / 10000).toFixed(1) + 'w';
        return String(n);
    }

    function formatDate(iso) {
        try {
            const d = new Date(iso);
            const p = n => String(n).padStart(2, '0');
            return `${d.getFullYear()}-${p(d.getMonth() + 1)}-${p(d.getDate())} ${p(d.getHours())}:${p(d.getMinutes())}`;
        } catch (_) {
            return iso || '';
        }
    }

    // ── 数据构建 ───────────────────────────────────────────────────────────────

    function buildProviderData(item) {
        const quota    = item.quota     || {};
        const fiveHour = quota.fiveHour || {};
        const week     = quota.week     || {};
        const month    = quota.month    || {};

        "#,
    );
}

proof fn lemma_usage()
    ensures
        quiet(baidu::USAGE@, 1),
{
    reveal_strlit(
        r#"const fiveUsed   = fiveHour.used  || 0;
        const fiveLimit  = fiveHour.limit || 0;
        const fiveRemain = fiveLimit - fiveUsed;

        const weekUsed   = week.used  || 0;
        const weekLimit  = week.limit || 0;
        const weekRemain = weekLimit - weekUsed;

        const monthUsed   = month.used  || 0;
        const monthLimit  = month.limit || 0;
        const monthRemain = monthLimit - monthUsed;"#,
    );
}

proof fn lemma_reading_3()
    ensures
        quiet(baidu::READING_3@, 1),
{
    reveal_strlit(
        r#"

        const items = [
            { key: '套餐', value: item.planType       || '', highlight: false },
            { key: '状态', value: item.resourceStatus || '', highlight: true  },
            { key: '到期', value: formatDate(item.expiresAt),highlight: false },
        ];

        "#,
    );
}

proof fn lemma_quotas()
    ensures
        quiet(baidu::QUOTAS@, 1),
{
    reveal_strlit(
        r#"const quota_groups = [
            { label: '近5小时', used: fiveUsed,  limit: fiveLimit,  remain: fiveRemain,  highlight: fiveRemain  < 200  },
            { label: '近一周',  used: weekUsed,  limit: weekLimit,  remain: weekRemain,  highlight: weekRemain  < 1000 },
            { label: '近一月',  used: monthUsed, limit: monthLimit, remain: monthRemain, highlight: monthRemain < 2000 },
        ];"#,
    );
}

proof fn lemma_reading_4()
    ensures
        quiet(baidu::READING_4@, 1),
{
    reveal_strlit(
        r#"

        "#,
    );
}

proof fn lemma_summary()
    ensures
        quiet(baidu::SUMMARY@, 1),
{
    reveal_strlit(
        r#"const compact_text = fiveLimit > 0
            ? `5h剩余：${formatNum(fiveRemain)}`
            : (item.resourceStatus || '百度千帆');"#,
    );
}

proof fn lemma_reading_5()
    ensures
        quiet(baidu::READING_5@, 1),
{
    reveal_strlit(
        r#"

        return { provider_id: PROVIDER_ID, provider_name: PROVIDER_NAME, items, quota_groups, updated_at: Date.now(), compact_text };
    }

    // ── 数据拉取 ───────────────────────────────────────────────────────────────

    async function fetchAndEmitData() {
        try {
            const resp = await fetch(
                "#,
    );
}

proof fn lemma_source()
    ensures
        quiet(baidu::SOURCE@, 1),
{
    reveal_strlit(
        r#"'https://console.bce.baidu.com/api/qianfan/charge/codingPlan/resourceList'"#,
    );
}

proof fn lemma_reading_6()
    ensures
        quiet(baidu::READING_6@, 1),
{
    reveal_strlit(
        r#",
                { credentials: 'include' }
            );
            if (!resp.ok) return; // 失败：不更新 lastFetchAt → 下次 tick 重试
            const data = await resp.json();
            if (!data.success || !data.result?.items?.length) return;
            await emitToRust('"#,
    );
}

proof fn lemma_checking_1()
    ensures
        quiet(baidu::CHECKING_1@, 1),
{
    reveal_strlit(
        r#"', buildProviderData(data.result.items[0]));
            lastFetchAt = Date.now(); // 仅在成功推送后更新，控制 60s 刷新周期
        } catch (e) {
            console.error('[Baidu] fetchAndEmitData failed:', e);
            // 异常时不更新 lastFetchAt → 下次 tick 立即重试
        }
    }

    // ── 主循环 ─────────────────────────────────────────────────────────────────

    async function tick() {
        // 如果检测被暂停，跳过本次检测
        if (checkPaused) {
            console.log('[Baidu] 检测已暂停，跳过本次 tick');
            return;
        }

        const loggedIn = isLoggedIn();

        "#,
    );
}

proof fn lemma_login()
    ensures
        quiet(baidu::LOGIN@, 1),
{
    reveal_strlit(
        r#"if (prevLoggedIn !== true && loggedIn) {
            // null/false → true：检测到登录
            prevLoggedIn = true;"#,
    );
}

proof fn lemma_checking_2()
    ensures
        quiet(baidu::CHECKING_2@, 1),
{
    reveal_strlit(
        r#"
            await emitToRust('"#,
    );
}

proof fn lemma_leaving_1()
    ensures
        quiet(baidu::LEAVING_1@, 1),
{
    reveal_strlit(
        r#"', { provider_id: PROVIDER_ID });
            // Rust 侧收到后会立即推占位数据显示悬浮窗。
            // lastFetchAt 保持 0 → 下方区间检查立即为 true → 本 tick 末尾立即拉取真实数据；
            // 若失败，lastFetchAt 不更新，每 2s tick 持续重试直到成功。
        "#,
    );
}

proof fn lemma_logout()
    ensures
        quiet(baidu::LOGOUT@, 1),
{
    reveal_strlit(
        r#"} else if (prevLoggedIn === true && !loggedIn) {
            // true → false：检测到登出
            prevLoggedIn = false;"#,
    );
}

proof fn lemma_leaving_2()
    ensures
        quiet(baidu::LEAVING_2@, 1),
{
    reveal_strlit(
        r#"
            await emitToRust('"#,
    );
}

proof fn lemma_tail_1()
    ensures
        quiet(baidu::TAIL_1@, 1),
{
    reveal_strlit(
        r#"', { provider_id: PROVIDER_ID });
        } else if (prevLoggedIn === null) {
            // 初始化：当前未登录，静默设置
            prevLoggedIn = false;
        }

        // 已登录时按间隔拉取数据。
        // lastFetchAt=0 时 Date.now()-0 >> FETCH_INTERVAL，立即触发；
        // 成功后 fetchAndEmitData 内部更新 lastFetchAt，60s 内不重复拉取。
        "#,
    );
}

proof fn lemma_refresh()
    ensures
        quiet(baidu::REFRESH@, 1),
{
    reveal_strlit(
        r#"if (loggedIn && Date.now() - lastFetchAt >= FETCH_INTERVAL) {"#,
    );
}

proof fn lemma_tail_2()
    ensures
        quiet(baidu::TAIL_2@, 1),
{
    reveal_strlit(
        r#"
            await fetchAndEmitData();
        }
    }

    "#,
    );
}

proof fn lemma_timer()
    ensures
        quiet(baidu::TIMER@, 1),
{
    reveal_strlit(
        r#"setInterval(tick, 2000);"#,
    );
}

proof fn lemma_tail_3()
    ensures
        quiet(baidu::TAIL_3@, 1),
{
    reveal_strlit(
        r#"
    window.addEventListener('load', () => tick());
})();
    "#,
    );
}

/// The parts of the script name no other provider's site.
pub(super) proof fn lemma_parts_are_quiet()
    ensures
        quiet(baidu::parts().head, 1),
        quiet(baidu::parts().settings, 1),
        quiet(baidu::parts().reading, 1),
        quiet(baidu::parts().checking, 1),
        quiet(baidu::parts().leaving, 1),
        quiet(baidu::parts().tail, 1),
{
    lemma_head_1();
    lemma_guard();
    lemma_head_2();
    lemma_settings_1();
    lemma_period();
    lemma_settings_2();
    lemma_setter();
    lemma_reading_1();
    lemma_login_rule();
    lemma_reading_2();
    lemma_usage();
    lemma_reading_3();
    lemma_quotas();
    lemma_reading_4();
    lemma_summary();
    lemma_reading_5();
    lemma_source();
    lemma_reading_6();
    lemma_checking_1();
    lemma_login();
    lemma_checking_2();
    lemma_leaving_1();
    lemma_logout();
    lemma_leaving_2();
    lemma_tail_1();
    lemma_refresh();
    lemma_tail_2();
    lemma_timer();
    lemma_tail_3();
    lemma_joined_is_quiet(seq![baidu::HEAD_1@, baidu::GUARD@, baidu::HEAD_2@], 1);
    lemma_joined_is_quiet(seq![baidu::SETTINGS_1@, baidu::PERIOD@, baidu::SETTINGS_2@], 1);
    lemma_joined_is_quiet(
        seq![
            baidu::SETTER@,
            baidu::READING_1@,
            baidu::LOGIN_RULE@,
            baidu::READING_2@,
            baidu::USAGE@,
            baidu::READING_3@,
            baidu::QUOTAS@,
            baidu::READING_4@,
            baidu::SUMMARY@,
            baidu::READING_5@,
            baidu::SOURCE@,
            baidu::READING_6@,
        ],
        1,
    );
    lemma_joined_is_quiet(seq![baidu::CHECKING_1@, baidu::LOGIN@, baidu::CHECKING_2@], 1);
    lemma_joined_is_quiet(seq![baidu::LEAVING_1@, baidu::LOGOUT@, baidu::LEAVING_2@], 1);
    lemma_joined_is_quiet(
        seq![
            baidu::TAIL_1@,
            baidu::REFRESH@,
            baidu::TAIL_2@,
            baidu::TIMER@,
            baidu::TAIL_3@,
        ],
        1,
    );
}

} // verus!
