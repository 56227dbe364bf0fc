//! The script of this provider, character by character.

use super::{lemma_joined_is_quiet, quiet};
use crate::providers::chinamobile;
use crate::text::joined;
use vstd::prelude::*;

verus! {

proof fn lemma_head_1()
    ensures
        quiet(chinamobile::HEAD_1@, 3),
{
    reveal_strlit(
        r#"
(function () {
    console.log('[ChinaMobile] 注入脚本开始执行');
    console.log('[ChinaMobile] 当前 URL:', window.location.href);
    console.log('[ChinaMobile] Tauri API 可用性:', typeof window.__TAURI__);
    
    "#,
    );
}

proof fn lemma_guard()
    ensures
        quiet(chinamobile::GUARD@, 3),
{
    reveal_strlit(
        r#"if (window.__LSYS_CHINAMOBILE_INJECTED__) {
        console.log('[ChinaMobile] 脚本已注入，跳过');
        return;
    }
    window.__LSYS_CHINAMOBILE_INJECTED__ = true;"#,
    );
}

proof fn lemma_head_2()
    ensures
        quiet(chinamobile::HEAD_2@, 3),
{
    reveal_strlit(
        r#"

    "#,
    );
}

proof fn lemma_settings_1()
    ensures
        quiet(chinamobile::SETTINGS_1@, 3),
{
    reveal_strlit(
        r#"
    "#,
    );
}

proof fn lemma_period()
    ensures
        quiet(chinamobile::PERIOD@, 3),
{
    reveal_strlit(
        r#"let FETCH_INTERVAL = 60_000;"#,
    );
}

proof fn lemma_settings_2()
    ensures
        quiet(chinamobile::SETTINGS_2@, 3),
{
    reveal_strlit(
        r#" // 默认60秒
    let lastFetchAt = 0;
    let prevLoggedIn = null;
    let currentApiKey = '';
    let isPaused = false; // 暂停标志，窗口可见时暂停定时任务

    // 暴露全局函数供 Rust 侧动态修改刷新间隔
    "#,
    );
}

proof fn lemma_setter()
    ensures
        quiet(chinamobile::SETTER@, 3),
{
    reveal_strlit(
        r#"(intervalMs) {
        FETCH_INTERVAL = intervalMs;"#,
    );
}

proof fn lemma_reading_1()
    ensures
        quiet(chinamobile::READING_1@, 3),
{
    reveal_strlit(
        r#"
        console.log('[ChinaMobile] 刷新间隔已更新为:', intervalMs, 'ms');
    };

    // ── IPC 工具 ──────────────────────────────────────────────────────────────

    async function emitToRust(eventName, payload) {
        try {
            console.log('[ChinaMobile] 尝试发送事件:', eventName, payload);
            if (window.__TAURI__?.event?.emit) {
                await window.__TAURI__.event.emit(eventName, payload);
                console.log('[ChinaMobile] 事件发送成功:', eventName);
            } else {
                console.error('[ChinaMobile] Tauri API 不可用');
            }
        } catch (e) {
            console.error('[ChinaMobile] emit failed:', eventName, e);
        }
    }

    // ── 页面元素检测 ──────────────────────────────────────────────────────────

    function getApiKeyFromPage() {
        // 从输入框获取 API Key
        const inputs = document.querySelectorAll('.el-input__inner');
        for (const input of inputs) {
            const value = input.value?.trim();
            if (value && value.length > 10) {
                console.log('[ChinaMobile] 找到 API Key 输入框，长度:', value.length);
                return value;
            }
        }
        console.log('[ChinaMobile] 未找到 API Key 输入框');
        return '';
    }

    function checkStatusTag() {
        // 检查状态标签是否显示"正常"
        const statusTags = document.querySelectorAll('.status-tag');
        for (const tag of statusTags) {
            const text = tag.textContent?.trim();
            console.log('[ChinaMobile] 状态标签内容:', text);
            if (text && text.includes('正常')) {
                console.log('[ChinaMobile] 检测到状态"正常"');
                return true;
            }
        }
        console.log('[ChinaMobile] 未检测到状态"正常"');
        return false;
    }

    "#,
    );
}

proof fn lemma_login_rule()
    ensures
        quiet(chinamobile::LOGIN_RULE@, 3),
{
    reveal_strlit(
        r#"function isLoggedIn() {
        // 获取 API Key
        const apiKey = getApiKeyFromPage();
        if (!apiKey) {
            console.log('[ChinaMobile] 未找到 API Key');
            return false;
        }

        // 检查状态是否正常
        const isNormal = checkStatusTag();
        if (!isNormal) {
            console.log('[ChinaMobile] 状态不正常');
            return false;
        }

        // 更新当前 API Key
        currentApiKey = apiKey;
        console.log('[ChinaMobile] 登录检测成功，API Key 长度:', apiKey.length);
        return true;
    }"#,
    );
}

proof fn lemma_reading_2()
    ensures
        quiet(chinamobile::READING_2@, 3),
{
    reveal_strlit(
        r#"

    // ── 数据提取 ──────────────────────────────────────────────────────────────

    async function fetchData() {
        if (!currentApiKey) {
            console.log('[ChinaMobile] API Key 未配置，跳过数据拉取');
            return;
        }

        console.log('[ChinaMobile] 开始拉取数据，API Key 长度:', currentApiKey.length);

        try {
            const url = "#,
    );
}

proof fn lemma_source()
    ensures
        quiet(chinamobile::SOURCE@, 3),
{
    reveal_strlit(
        r#"`https://maas.gd.chinamobile.com:38559/maas/uifm-api/api/portal/packages/usage?apiKey=${currentApiKey}`"#,
    );
}

proof fn lemma_reading_3()
    ensures
        quiet(chinamobile::READING_3@, 3),
{
    reveal_strlit(
        r#";
            const response = await fetch(url, {
                method: 'GET',
                headers: {
                    'Accept': 'application/json, text/plain, */*',
                    'Accept-Language': 'zh-CN,zh;q=0.9,en;q=0.8',
                    'Authorization': 'Bearer',
                    'Cache-Control': 'no-store',
                    'Connection': 'keep-alive',
                    'Pragma': 'no-cache',
                    'Referer': 'https://maas.gd.chinamobile.com:38559/maas/uifm/',
                    'Sec-Fetch-Dest': 'empty',
                    'Sec-Fetch-Mode': 'cors',
                    'Sec-Fetch-Site': 'same-origin',
                    'User-Agent': 'Mozilla/5.0 (Macintosh; Intel Mac OS X 10_15_7) AppleWebKit/537.36 (KHTML, like Gecko) Chrome/147.0.0.0 Safari/537.36',
                    'X-Request-ID': 'req_' + Date.now(),
                    'X-Timezone': 'Asia/Shanghai',
                    'sec-ch-ua': '"Google Chrome";v="147", "Not.A/Brand";v="8", "Chromium";v="147"',
                    'sec-ch-ua-mobile': '?0',
                    'sec-ch-ua-platform': '"macOS"',
                },
            });

            if (!response.ok) {
                console.error('[ChinaMobile] API 请求失败:', response.status);
                return;
            }

            const data = await response.json();
            console.log('[ChinaMobile] API 响应:', data);

            if (data.code !== 100200 || !data.data) {
                console.error('[ChinaMobile] API 返回错误:', data.msg || '未知错误');
                return;
            }

            // 构建并推送数据
            const providerData = buildProviderData(data.data);
            await emitToRust('"#,
    );
}

proof fn lemma_checking_1()
    ensures
        quiet(chinamobile::CHECKING_1@, 3),
{
    reveal_strlit(
        r#"', providerData);
            
            lastFetchAt = Date.now();
            console.log('[ChinaMobile] 数据推送成功');
        } catch (e) {
            console.error('[ChinaMobile] 数据拉取失败:', e);
        }
    }

    function buildProviderData(data) {
        const items = [
            { key: '套餐', value: data.name || '未知套餐', highlight: false },
            { key: '状态', value: data.planStatus === 1 ? '正常' : '异常', highlight: true },
            { key: '到期', value: data.periodEnd || '--', highlight: false },
        ];

        // 构建配额分组
        const quota_groups = [];
        if (data.quotas && Array.isArray(data.quotas)) {
            for (const quota of data.quotas) {
                "#,
    );
}

proof fn lemma_usage()
    ensures
        quiet(chinamobile::USAGE@, 3),
{
    reveal_strlit(
        r#"const used = quota.usageQuota || 0;
                const limit = quota.quotaLimit || 0;
                const remain = limit - used;"#,
    );
}

proof fn lemma_checking_2()
    ensures
        quiet(chinamobile::CHECKING_2@, 3),
{
    reveal_strlit(
        r#"
                const isLow = remain < limit * 0.2; // 剩余不足20%时高亮

                "#,
    );
}

proof fn lemma_quotas()
    ensures
        quiet(chinamobile::QUOTAS@, 3),
{
    reveal_strlit(
        r#"quota_groups.push({
                    label: quota.windowName || '未知窗口',
                    used: used,
                    limit: limit,
                    remain: remain,
                    highlight: isLow,
                });"#,
    );
}

proof fn lemma_checking_3()
    ensures
        quiet(chinamobile::CHECKING_3@, 3),
{
    reveal_strlit(
        r#"
            }
        }

        // 紧凑文本：显示第一个配额窗口的剩余量
        let compact_text = PROVIDER_NAME;
        if (quota_groups.length > 0) {
            "#,
    );
}

proof fn lemma_summary()
    ensures
        quiet(chinamobile::SUMMARY@, 3),
{
    reveal_strlit(
        r#"const first = quota_groups[0];
            compact_text = `${first.label}剩余：${formatNum(first.remain)}`;"#,
    );
}

proof fn lemma_checking_4()
    ensures
        quiet(chinamobile::CHECKING_4@, 3),
{
    reveal_strlit(
        r#"
        }

        return {
            provider_id: PROVIDER_ID,
            provider_name: PROVIDER_NAME,
            items,
            quota_groups,
            compact_text,
            updated_at: Date.now(),
        };
    }

    function formatNum(n) {
        if (n >= 10000) return (n / 10000).toFixed(1) + 'w';
        return String(n);
    }

    // ── 主循环 ────────────────────────────────────────────────────────────────
    // 登录判定：检查页面输入框的 API Key 和状态标签
    // 已登录期间每 FETCH_INTERVAL ms 拉取一次数据

    async function tick() {
        // 如果暂停，跳过所有检查
        if (isPaused) {
            console.log('[ChinaMobile] 定时任务已暂停');
            return;
        }

        const loggedIn = isLoggedIn();

        console.log('[ChinaMobile] tick - loggedIn:', loggedIn, 'prevLoggedIn:', prevLoggedIn);

        "#,
    );
}

proof fn lemma_login()
    ensures
        quiet(chinamobile::LOGIN@, 3),
{
    reveal_strlit(
        r#"if (loggedIn !== prevLoggedIn) {
            if (loggedIn) {
                // null/false → true：检测到登录
                console.log('[ChinaMobile] 检测到登录');
                prevLoggedIn = true;"#,
    );
}

proof fn lemma_checking_5()
    ensures
        quiet(chinamobile::CHECKING_5@, 3),
{
    reveal_strlit(
        r#"
                await emitToRust('"#,
    );
}

proof fn lemma_leaving_1()
    ensures
        quiet(chinamobile::LEAVING_1@, 3),
{
    reveal_strlit(
        r#"', { provider_id: PROVIDER_ID });
                // lastFetchAt 保持 0，下次 tick 立即拉取数据
            } else {
                "#,
    );
}

proof fn lemma_logout()
    ensures
        quiet(chinamobile::LOGOUT@, 3),
{
    reveal_strlit(
        r#"if (prevLoggedIn === true) {"#,
    );
}

proof fn lemma_leaving_2()
    ensures
        quiet(chinamobile::LEAVING_2@, 3),
{
    reveal_strlit(
        r#"
                    // true → false：检测到登出
                    console.log('[ChinaMobile] 检测到登出');
                    await emitToRust('"#,
    );
}

proof fn lemma_tail_1()
    ensures
        quiet(chinamobile::TAIL_1@, 3),
{
    reveal_strlit(
        r#"', { provider_id: PROVIDER_ID });
                }
                prevLoggedIn = false;
                currentApiKey = '';
            }
        }

        // 已登录时按固定间隔定时拉取数据
        "#,
    );
}

proof fn lemma_refresh()
    ensures
        quiet(chinamobile::REFRESH@, 3),
{
    reveal_strlit(
        r#"if (prevLoggedIn === true && Date.now() - lastFetchAt >= FETCH_INTERVAL) {"#,
    );
}

proof fn lemma_tail_2()
    ensures
        quiet(chinamobile::TAIL_2@, 3),
{
    reveal_strlit(
        r#"
            console.log('[ChinaMobile] 触发数据拉取');
            await fetchData();
        }
    }

    // ── 监听查询按钮点击 ──────────────────────────────────────────────────────

    function setupButtonListener() {
        console.log('[ChinaMobile] 设置查询按钮监听');
        
        // 使用事件委托监听所有按钮点击
        document.addEventListener('click', async function(event) {
            // 检查点击的元素或其父元素是否是查询按钮
            let target = event.target;
            let clickedButton = null;
            
            // 向上查找最多3层，找到按钮元素
            for (let i = 0; i < 3 && target; i++) {
                if (target.classList && target.classList.contains('el-button--primary')) {
                    clickedButton = target;
                    break;
                }
                target = target.parentElement;
            }
            
            if (clickedButton) {
                console.log('[ChinaMobile] 检测到查询按钮点击');
                
                // 恢复定时任务
                isPaused = false;
                console.log('[ChinaMobile] 定时任务已恢复');
                
                // 等待一小段时间让页面更新
                setTimeout(async () => {
                    console.log('[ChinaMobile] 延迟后执行检查');
                    
                    // 强制重置状态，确保能检测到登录
                    const wasLoggedIn = prevLoggedIn;
                    prevLoggedIn = null;
                    
                    await tick();
                    
                    // 如果检测到登录，立即拉取数据
                    if (prevLoggedIn === true && !wasLoggedIn) {
                        console.log('[ChinaMobile] 首次登录，立即拉取数据');
                        await fetchData();
                    }
                }, 500);
            }
        }, true); // 使用捕获阶段确保能捕获到事件
        
        console.log('[ChinaMobile] 查询按钮监听已设置');
    }

    // ── 窗口可见性监听 ────────────────────────────────────────────────────────
    // 当窗口从隐藏变为可见时（重新登录），暂停定时任务并重置状态
"#,
    );
}

proof fn lemma_tail_3()
    ensures
        quiet(chinamobile::TAIL_3@, 3),
{
    reveal_strlit(
        r#"
    function setupVisibilityListener() {
        console.log('[ChinaMobile] 设置窗口可见性监听');
        
        document.addEventListener('visibilitychange', function() {
            if (!document.hidden) {
                console.log('[ChinaMobile] 窗口变为可见，暂停定时任务并重置登录状态');
                // 窗口变为可见时，暂停定时任务
                isPaused = true;
                // 重置状态以便重新检测
                prevLoggedIn = null;
                currentApiKey = '';
                lastFetchAt = 0;
            } else {
                console.log('[ChinaMobile] 窗口变为隐藏');
                // 窗口隐藏时，确保定时任务恢复
                isPaused = false;
            }
        });
        
        console.log('[ChinaMobile] 窗口可见性监听已设置');
    }

    console.log('[ChinaMobile] 启动定时器');
    "#,
    );
}

proof fn lemma_timer()
    ensures
        quiet(chinamobile::TIMER@, 3),
{
    reveal_strlit(
        r#"setInterval(tick, 2000);"#,
    );
}

proof fn lemma_tail_4()
    ensures
        quiet(chinamobile::TAIL_4@, 3),
{
    reveal_strlit(
        r#"
    
    window.addEventListener('load', () => {
        console.log('[ChinaMobile] 页面加载完成，执行 tick');
        setupButtonListener();
        setupVisibilityListener();
        tick();
    });
    
    // 立即执行一次
    console.log('[ChinaMobile] 立即执行首次初始化');
    setTimeout(() => {
        setupButtonListener();
        setupVisibilityListener();
        tick();
    }, 100);
})();
    "#,
    );
}

/// The parts of the script name no other provider's site.
pub(super) proof fn lemma_parts_are_quiet()
    ensures
        quiet(chinamobile::parts().head, 3),
        quiet(chinamobile::parts().settings, 3),
        quiet(chinamobile::parts().reading, 3),
        quiet(chinamobile::parts().checking, 3),
        quiet(chinamobile::parts().leaving, 3),
        quiet(chinamobile::parts().tail, 3),
{
    lemma_head_1();
    lemma_guard();
    lemma_head_2();
    lemma_settings_1();
    lemma_period();
    lemma_settings_2();
    lemma_setter();
    lemma_reading_1();
    lemma_login_rule();
    lemma_reading_2();
    lemma_source();
    lemma_reading_3();
    lemma_checking_1();
    lemma_usage();
    lemma_checking_2();
    lemma_quotas();
    lemma_checking_3();
    lemma_summary();
    lemma_checking_4();
    lemma_login();
    lemma_checking_5();
    lemma_leaving_1();
    lemma_logout();
    lemma_leaving_2();
    lemma_tail_1();
    lemma_refresh();
    lemma_tail_2();
    lemma_tail_3();
    lemma_timer();
    lemma_tail_4();
    lemma_joined_is_quiet(
        seq![
            chinamobile::HEAD_1@,
            chinamobile::GUARD@,
            chinamobile::HEAD_2@,
        ],
        3,
    );
    lemma_joined_is_quiet(
        seq![
            chinamobile::SETTINGS_1@,
            chinamobile::PERIOD@,
            chinamobile::SETTINGS_2@,
        ],
        3,
    );
    lemma_joined_is_quiet(
        seq![
            chinamobile::SETTER@,
            chinamobile::READING_1@,
            chinamobile::LOGIN_RULE@,
            chinamobile::READING_2@,
            chinamobile::SOURCE@,
            chinamobile::READING_3@,
        ],
        3,
    );
    lemma_joined_is_quiet(
        seq![
            chinamobile::CHECKING_1@,
            chinamobile::USAGE@,
            chinamobile::CHECKING_2@,
            chinamobile::QUOTAS@,
            chinamobile::CHECKING_3@,
            chinamobile::SUMMARY@,
            chinamobile::CHECKING_4@,
            chinamobile::LOGIN@,
            chinamobile::CHECKING_5@,
        ],
        3,
    );
    lemma_joined_is_quiet(
        seq![
            chinamobile::LEAVING_1@,
            chinamobile::LOGOUT@,
            chinamobile::LEAVING_2@,
        ],
        3,
    );
    lemma_joined_is_quiet(
        seq![
            chinamobile::TAIL_1@,
            chinamobile::REFRESH@,
            chinamobile::TAIL_2@,
            chinamobile::TAIL_3@,
            chinamobile::TIMER@,
            chinamobile::TAIL_4@,
        ],
        3,
    );
}

} // verus!
