//! What the script of each provider looks at: its own site.

use super::script::law_script_holds_its_parts;
use super::{aliyun, baidu, chinamobile, registry, volcengine};
use crate::text::{law_joined_text_holds_its_parts, occurs_in};
use vstd::prelude::*;

verus! {

/// The script for Bailian runs once in a page, takes a user with the `login_aliyunid` cookie as
/// logged in, reads the usage that the console shows, and reports it with the summary of the
/// last five hours. It looks every two seconds, and reads again when the interval has passed.
pub proof fn law_aliyun_script_reads_its_own_site()
    ensures
        occurs_in(
            registry()[0].injection_script,
            r#"if (window.__LSYS_ALIYUN_INJECTED__) {
        console.log('[Aliyun] 脚本已注入，跳过');
        return;
    }
    window.__LSYS_ALIYUN_INJECTED__ = true;"#@,
        ),
        occurs_in(registry()[0].injection_script, "let FETCH_INTERVAL = 60_000;"@),
        occurs_in(
            registry()[0].injection_script,
            r#"(intervalMs) {
        FETCH_INTERVAL = intervalMs;"#@,
        ),
        occurs_in(
            registry()[0].injection_script,
            r#"if (l === '近5小时用量') info.usage5h       = next;
                if (l === '近一周用量')  info.usageWeek     = next;
                if (l === '近一月用量')  info.usageMonth    = next;"#@,
        ),
        occurs_in(
            registry()[0].injection_script,
            r#"const quota_groups = [
            { label: '近5小时', used: info.usage5h || '--', limit: 0, remain: '--', highlight: false },
            { label: '近一周',  used: info.usageWeek || '--', limit: 0, remain: '--', highlight: false },
            { label: '近一月',  used: info.usageMonth || '--', limit: 0, remain: '--', highlight: false },
        ];"#@,
        ),
        occurs_in(
            registry()[0].injection_script,
            r#"const compact_text = isExpired
            ? '状态：' + info.status
            : '近5H：' + (info.usage5h || '--');"#@,
        ),
        occurs_in(registry()[0].injection_script, "if (!url.includes('bailian.console.aliyun.com')) {"@),
        occurs_in(
            registry()[0].injection_script,
            r#"const loginId  = getCookie('login_aliyunid').trim();
        const loggedIn = loginId.length > 0;"#@,
        ),
        occurs_in(
            registry()[0].injection_script,
            r#"if (loggedIn !== prevLoggedIn) {
            if (loggedIn) {
                // null/false → true
                console.log('[Aliyun] 检测到登录');
                prevLoggedIn = true;"#@,
        ),
        occurs_in(registry()[0].injection_script, "if (prevLoggedIn === true) {"@),
        occurs_in(registry()[0].injection_script, "if (prevLoggedIn === true && Date.now() - lastFetchAt >= FETCH_INTERVAL) {"@),
        occurs_in(registry()[0].injection_script, "setInterval(tick, 2000);"@),
{
    let (id, name) = (registry()[0].id, registry()[0].name);
    let own = aliyun::parts();
    let head = seq![aliyun::HEAD_1@, aliyun::GUARD@, aliyun::HEAD_2@];
    let settings = seq![aliyun::SETTINGS_1@, aliyun::PERIOD@, aliyun::SETTINGS_2@];
    let reading = seq![
        aliyun::SETTER@,
        aliyun::READING_1@,
        aliyun::USAGE@,
        aliyun::READING_2@,
        aliyun::QUOTAS@,
        aliyun::READING_3@,
        aliyun::SUMMARY@,
        aliyun::READING_4@,
        aliyun::SOURCE@,
        aliyun::READING_5@,
    ];
    let checking = seq![
        aliyun::CHECKING_1@,
        aliyun::LOGIN_RULE@,
        aliyun::CHECKING_2@,
        aliyun::LOGIN@,
        aliyun::CHECKING_3@,
    ];
    let leaving = seq![aliyun::LEAVING_1@, aliyun::LOGOUT@, aliyun::LEAVING_2@];
    let tail = seq![
        aliyun::TAIL_1@,
        aliyun::REFRESH@,
        aliyun::TAIL_2@,
        aliyun::TIMER@,
        aliyun::TAIL_3@,
    ];
    law_joined_text_holds_its_parts(head, 1);
    law_script_holds_its_parts(id, name, own, aliyun::GUARD@);
    law_joined_text_holds_its_parts(settings, 1);
    law_script_holds_its_parts(id, name, own, aliyun::PERIOD@);
    law_joined_text_holds_its_parts(reading, 0);
    law_script_holds_its_parts(id, name, own, aliyun::SETTER@);
    law_joined_text_holds_its_parts(reading, 2);
    law_script_holds_its_parts(id, name, own, aliyun::USAGE@);
    law_joined_text_holds_its_parts(reading, 4);
    law_script_holds_its_parts(id, name, own, aliyun::QUOTAS@);
    law_joined_text_holds_its_parts(reading, 6);
    law_script_holds_its_parts(id, name, own, aliyun::SUMMARY@);
    law_joined_text_holds_its_parts(reading, 8);
    law_script_holds_its_parts(id, name, own, aliyun::SOURCE@);
    law_joined_text_holds_its_parts(checking, 1);
    law_script_holds_its_parts(id, name, own, aliyun::LOGIN_RULE@);
    law_joined_text_holds_its_parts(checking, 3);
    law_script_holds_its_parts(id, name, own, aliyun::LOGIN@);
    law_joined_text_holds_its_parts(leaving, 1);
    law_script_holds_its_parts(id, name, own, aliyun::LOGOUT@);
    law_joined_text_holds_its_parts(tail, 1);
    law_script_holds_its_parts(id, name, own, aliyun::REFRESH@);
    law_joined_text_holds_its_parts(tail, 3);
    law_script_holds_its_parts(id, name, own, aliyun::TIMER@);
}

/// The script for Qianfan runs once in a page, takes a user with both `bce-login` cookies as
/// logged in, and reads the plan from the console's own address. It reports what is left of each
/// limit, with the summary of the last five hours. It looks every two seconds, and reads again
/// when the interval has passed.
pub proof fn law_baidu_script_reads_its_own_site()
    ensures
        occurs_in(
            registry()[1].injection_script,
            r#"if (window.__LSYS_BAIDU_INJECTED__) return;
    window.__LSYS_BAIDU_INJECTED__ = true;"#@,
        ),
        occurs_in(registry()[1].injection_script, "let FETCH_INTERVAL = 60_000;"@),
        occurs_in(
            registry()[1].injection_script,
            r#"(intervalMs) {
        FETCH_INTERVAL = intervalMs;"#@,
        ),
        occurs_in(
            registry()[1].injection_script,
            r#"function isLoggedIn() {
        const accountId     = getCookie('bce-login-accountid');
        const domainAccount = getCookie('bce-login-domain-account');
        return accountId !== '' && domainAccount !== '';"#@,
        ),
        occurs_in(
            registry()[1].injection_script,
            r#"const fiveUsed   = fiveHour.used  || 0;
        const fiveLimit  = fiveHour.limit || 0;
        const fiveRemain = fiveLimit - fiveUsed;

        const weekUsed   = week.used  || 0;
        const weekLimit  = week.limit || 0;
        const weekRemain = weekLimit - weekUsed;

        const monthUsed   = month.used  || 0;
        const monthLimit  = month.limit || 0;
        const monthRemain = monthLimit - monthUsed;"#@,
        ),
        occurs_in(
            registry()[1].injection_script,
            r#"const quota_groups = [
            { label: '近5小时', used: fiveUsed,  limit: fiveLimit,  remain: fiveRemain,  highlight: fiveRemain  < 200  },
            { label: '近一周',  used: weekUsed,  limit: weekLimit,  remain: weekRemain,  highlight: weekRemain  < 1000 },
            { label: '近一月',  used: monthUsed, limit: monthLimit, remain: monthRemain, highlight: monthRemain < 2000 },
        ];"#@,
        ),
        occurs_in(
            registry()[1].injection_script,
            r#"const compact_text = fiveLimit > 0
            ? `5h剩余：${formatNum(fiveRemain)}`
            : (item.resourceStatus || '百度千帆');"#@,
        ),
        occurs_in(registry()[1].injection_script, "'https://console.bce.baidu.com/api/qianfan/charge/codingPlan/resourceList'"@),
        occurs_in(
            registry()[1].injection_script,
            r#"if (prevLoggedIn !== true && loggedIn) {
            // null/false → true：检测到登录
            prevLoggedIn = true;"#@,
        ),
        occurs_in(
            registry()[1].injection_script,
            r#"} else if (prevLoggedIn === true && !loggedIn) {
            // true → false：检测到登出
            prevLoggedIn = false;"#@,
        ),
        occurs_in(registry()[1].injection_script, "if (loggedIn && Date.now() - lastFetchAt >= FETCH_INTERVAL) {"@),
        occurs_in(registry()[1].injection_script, "setInterval(tick, 2000);"@),
{
    let (id, name) = (registry()[1].id, registry()[1].name);
    let own = baidu::parts();
    let head = seq![baidu::HEAD_1@, baidu::GUARD@, baidu::HEAD_2@];
    let settings = seq![baidu::SETTINGS_1@, baidu::PERIOD@, baidu::SETTINGS_2@];
    let reading = seq![
        baidu::SETTER@,
        baidu::READING_1@,
        baidu::LOGIN_RULE@,
        baidu::READING_2@,
        baidu::USAGE@,
        baidu::READING_3@,
        baidu::QUOTAS@,
        baidu::READING_4@,
        baidu::SUMMARY@,
        baidu::READING_5@,
        baidu::SOURCE@,
        baidu::READING_6@,
    ];
    let checking = seq![baidu::CHECKING_1@, baidu::LOGIN@, baidu::CHECKING_2@];
    let leaving = seq![baidu::LEAVING_1@, baidu::LOGOUT@, baidu::LEAVING_2@];
    let tail = seq![
        baidu::TAIL_1@,
        baidu::REFRESH@,
        baidu::TAIL_2@,
        baidu::TIMER@,
        baidu::TAIL_3@,
    ];
    law_joined_text_holds_its_parts(head, 1);
    law_script_holds_its_parts(id, name, own, baidu::GUARD@);
    law_joined_text_holds_its_parts(settings, 1);
    law_script_holds_its_parts(id, name, own, baidu::PERIOD@);
    law_joined_text_holds_its_parts(reading, 0);
    law_script_holds_its_parts(id, name, own, baidu::SETTER@);
    law_joined_text_holds_its_parts(reading, 2);
    law_script_holds_its_parts(id, name, own, baidu::LOGIN_RULE@);
    law_joined_text_holds_its_parts(reading, 4);
    law_script_holds_its_parts(id, name, own, baidu::USAGE@);
    law_joined_text_holds_its_parts(reading, 6);
    law_script_holds_its_parts(id, name, own, baidu::QUOTAS@);
    law_joined_text_holds_its_parts(reading, 8);
    law_script_holds_its_parts(id, name, own, baidu::SUMMARY@);
    law_joined_text_holds_its_parts(reading, 10);
    law_script_holds_its_parts(id, name, own, baidu::SOURCE@);
    law_joined_text_holds_its_parts(checking, 1);
    law_script_holds_its_parts(id, name, own, baidu::LOGIN@);
    law_joined_text_holds_its_parts(leaving, 1);
    law_script_holds_its_parts(id, name, own, baidu::LOGOUT@);
    law_joined_text_holds_its_parts(tail, 1);
    law_script_holds_its_parts(id, name, own, baidu::REFRESH@);
    law_joined_text_holds_its_parts(tail, 3);
    law_script_holds_its_parts(id, name, own, baidu::TIMER@);
}

/// The script for Ark runs once in a page, takes a user with the `AccountID` cookie as logged in,
/// and reads the plan and the usage from the console's own addresses. It reports percentages,
/// with the summary of the last five hours or else of the week. It looks every two seconds, and
/// reads again when the interval has passed.
pub proof fn law_volcengine_script_reads_its_own_site()
    ensures
        occurs_in(
            registry()[2].injection_script,
            r#"if (window.__LSYS_VOLCENGINE_INJECTED__) {
        console.log('[Volcengine] 脚本已注入，跳过');
        return;
    }
    window.__LSYS_VOLCENGINE_INJECTED__ = true;"#@,
        ),
        occurs_in(registry()[2].injection_script, "let FETCH_INTERVAL = 60_000;"@),
        occurs_in(
            registry()[2].injection_script,
            r#"(intervalMs) {
        FETCH_INTERVAL = intervalMs;"#@,
        ),
        occurs_in(
            registry()[2].injection_script,
            r#"function isLoggedIn() {
        const accountId = getCookie('AccountID');
        return accountId !== '';"#@,
        ),
        occurs_in(
            registry()[2].injection_script,
            r#"function buildHeaders() {
        const headers = { 'Content-Type': 'application/json' };
        const csrf = getCsrfToken();
        if (csrf) {
            headers['x-csrf-token'] = csrf;
            console.log('[Volcengine] 已添加 CSRF token');
        }
        const accountId = getCookie('AccountID');
        if (accountId) {
            headers['x-top-account-id'] = accountId;
        }
        return headers;"#@,
        ),
        occurs_in(
            registry()[2].injection_script,
            r#"if (q.Level === 'session') {
                    label = '近5小时';
                    highlightThreshold = 0.8;
                    console.log('[Volcengine] 找到 session 级别，标签设为: 近5小时');
                } else if (q.Level === 'weekly') {
                    label = '近一周';
                    highlightThreshold = 0.8;
                } else if (q.Level === 'monthly') {
                    label = '近一月';"#@,
        ),
        occurs_in(
            registry()[2].injection_script,
            r#"const quotaItem = {
                    label: label,
                    used:  formatPercent(percent),
                    limit: 0,
                    remain: resetText,
                    highlight: percent >= highlightThreshold,
                };"#@,
        ),
        occurs_in(
            registry()[2].injection_script,
            r#"if (session) {
                compact_text = '5h用量：' + formatPercent(session.Percent / 100);
                console.log('[Volcengine] compact_text 设为:', compact_text);
            } else if (weekly) {
                compact_text = '周用量：' + formatPercent(weekly.Percent / 100);"#@,
        ),
        occurs_in(
            registry()[2].injection_script,
            r#"'https://console.volcengine.com/api/top/ark/cn-beijing/2024-01-01/ListSubscribeTrade?'"#@,
        ),
        occurs_in(
            registry()[2].injection_script,
            r#"'https://console.volcengine.com/api/top/ark/cn-beijing/2024-01-01/GetCodingPlanUsage?'"#@,
        ),
        occurs_in(
            registry()[2].injection_script,
            r#"if (prevLoggedIn !== true && loggedIn) {
            // null/false → true：检测到登录
            console.log('[Volcengine] 检测到登录, AccountID:', getCookie('AccountID').substring(0, 10) + '...');
            prevLoggedIn = true;"#@,
        ),
        occurs_in(
            registry()[2].injection_script,
            r#"} else if (prevLoggedIn === true && !loggedIn) {
            // true → false：检测到登出
            console.log('[Volcengine] 检测到登出');
            prevLoggedIn = false;"#@,
        ),
        occurs_in(registry()[2].injection_script, "if (loggedIn && Date.now() - lastFetchAt >= FETCH_INTERVAL) {"@),
        occurs_in(registry()[2].injection_script, "setInterval(tick, 2000);"@),
{
    let (id, name) = (registry()[2].id, registry()[2].name);
    let own = volcengine::parts();
    let head = seq![volcengine::HEAD_1@, volcengine::GUARD@, volcengine::HEAD_2@];
    let settings = seq![volcengine::SETTINGS_1@, volcengine::PERIOD@, volcengine::SETTINGS_2@];
    let reading = seq![
        volcengine::SETTER@,
        volcengine::READING_1@,
        volcengine::LOGIN_RULE@,
        volcengine::READING_2@,
        volcengine::HEADERS@,
        volcengine::READING_3@,
        volcengine::READING_4@,
        volcengine::LEVELS@,
        volcengine::READING_5@,
        volcengine::QUOTAS@,
        volcengine::READING_6@,
        volcengine::SUMMARY@,
        volcengine::READING_7@,
        volcengine::SOURCE@,
        volcengine::READING_8@,
        volcengine::USAGE_SOURCE@,
        volcengine::READING_9@,
    ];
    let checking = seq![volcengine::CHECKING_1@, volcengine::LOGIN@, volcengine::CHECKING_2@];
    let leaving = seq![volcengine::LEAVING_1@, volcengine::LOGOUT@, volcengine::LEAVING_2@];
    let tail = seq![
        volcengine::TAIL_1@,
        volcengine::REFRESH@,
        volcengine::TAIL_2@,
        volcengine::TIMER@,
        volcengine::TAIL_3@,
    ];
    law_joined_text_holds_its_parts(head, 1);
    law_script_holds_its_parts(id, name, own, volcengine::GUARD@);
    law_joined_text_holds_its_parts(settings, 1);
    law_script_holds_its_parts(id, name, own, volcengine::PERIOD@);
    law_joined_text_holds_its_parts(reading, 0);
    law_script_holds_its_parts(id, name, own, volcengine::SETTER@);
    law_joined_text_holds_its_parts(reading, 2);
    law_script_holds_its_parts(id, name, own, volcengine::LOGIN_RULE@);
    law_joined_text_holds_its_parts(reading, 4);
    law_script_holds_its_parts(id, name, own, volcengine::HEADERS@);
    law_joined_text_holds_its_parts(reading, 7);
    law_script_holds_its_parts(id, name, own, volcengine::LEVELS@);
    law_joined_text_holds_its_parts(reading, 9);
    law_script_holds_its_parts(id, name, own, volcengine::QUOTAS@);
    law_joined_text_holds_its_parts(reading, 11);
    law_script_holds_its_parts(id, name, own, volcengine::SUMMARY@);
    law_joined_text_holds_its_parts(reading, 13);
    law_script_holds_its_parts(id, name, own, volcengine::SOURCE@);
    law_joined_text_holds_its_parts(reading, 15);
    law_script_holds_its_parts(id, name, own, volcengine::USAGE_SOURCE@);
    law_joined_text_holds_its_parts(checking, 1);
    law_script_holds_its_parts(id, name, own, volcengine::LOGIN@);
    law_joined_text_holds_its_parts(leaving, 1);
    law_script_holds_its_parts(id, name, own, volcengine::LOGOUT@);
    law_joined_text_holds_its_parts(tail, 1);
    law_script_holds_its_parts(id, name, own, volcengine::REFRESH@);
    law_joined_text_holds_its_parts(tail, 3);
    law_script_holds_its_parts(id, name, own, volcengine::TIMER@);
}

/// The script for China Mobile runs once in a page, takes a user as logged in who entered a key
/// and whose package is in order, and reads the usage of the package with that key. It reports
/// what is left of each limit, with the summary of the first. It looks every two seconds, and
/// reads again when the interval has passed.
pub proof fn law_chinamobile_script_reads_its_own_site()
    ensures
        occurs_in(
            registry()[3].injection_script,
            r#"if (window.__LSYS_CHINAMOBILE_INJECTED__) {
        console.log('[ChinaMobile] 脚本已注入，跳过');
        return;
    }
    window.__LSYS_CHINAMOBILE_INJECTED__ = true;"#@,
        ),
        occurs_in(registry()[3].injection_script, "let FETCH_INTERVAL = 60_000;"@),
        occurs_in(
            registry()[3].injection_script,
            r#"(intervalMs) {
        FETCH_INTERVAL = intervalMs;"#@,
        ),
        occurs_in(
            registry()[3].injection_script,
            r#"function isLoggedIn() {
        // 获取 API Key
        const apiKey = getApiKeyFromPage();
        if (!apiKey) {
            console.log('[ChinaMobile] 未找到 API Key');
            return false;
        }

        // 检查状态是否正常
        const isNormal = checkStatusTag();
        if (!isNormal) {
            console.log('[ChinaMobile] 状态不正常');
            return false;
        }

        // 更新当前 API Key
        currentApiKey = apiKey;
        console.log('[ChinaMobile] 登录检测成功，API Key 长度:', apiKey.length);
        return true;
    }"#@,
        ),
        occurs_in(
            registry()[3].injection_script,
            r#"`https://maas.gd.chinamobile.com:38559/maas/uifm-api/api/portal/packages/usage?apiKey=${currentApiKey}`"#@,
        ),
        occurs_in(
            registry()[3].injection_script,
            r#"const used = quota.usageQuota || 0;
                const limit = quota.quotaLimit || 0;
                const remain = limit - used;"#@,
        ),
        occurs_in(
            registry()[3].injection_script,
            r#"quota_groups.push({
                    label: quota.windowName || '未知窗口',
                    used: used,
                    limit: limit,
                    remain: remain,
                    highlight: isLow,
                });"#@,
        ),
        occurs_in(
            registry()[3].injection_script,
            r#"const first = quota_groups[0];
            compact_text = `${first.label}剩余：${formatNum(first.remain)}`;"#@,
        ),
        occurs_in(
            registry()[3].injection_script,
            r#"if (loggedIn !== prevLoggedIn) {
            if (loggedIn) {
                // null/false → true：检测到登录
                console.log('[ChinaMobile] 检测到登录');
                prevLoggedIn = true;"#@,
        ),
        occurs_in(registry()[3].injection_script, "if (prevLoggedIn === true) {"@),
        occurs_in(registry()[3].injection_script, "if (prevLoggedIn === true && Date.now() - lastFetchAt >= FETCH_INTERVAL) {"@),
        occurs_in(registry()[3].injection_script, "setInterval(tick, 2000);"@),
{
    let (id, name) = (registry()[3].id, registry()[3].name);
    let own = chinamobile::parts();
    let head = seq![chinamobile::HEAD_1@, chinamobile::GUARD@, chinamobile::HEAD_2@];
    let settings = seq![chinamobile::SETTINGS_1@, chinamobile::PERIOD@, chinamobile::SETTINGS_2@];
    let reading = seq![
        chinamobile::SETTER@,
        chinamobile::READING_1@,
        chinamobile::LOGIN_RULE@,
        chinamobile::READING_2@,
        chinamobile::SOURCE@,
        chinamobile::READING_3@,
    ];
    let checking = seq![
        chinamobile::CHECKING_1@,
        chinamobile::USAGE@,
        chinamobile::CHECKING_2@,
        chinamobile::QUOTAS@,
        chinamobile::CHECKING_3@,
        chinamobile::SUMMARY@,
        chinamobile::CHECKING_4@,
        chinamobile::LOGIN@,
        chinamobile::CHECKING_5@,
    ];
    let leaving = seq![chinamobile::LEAVING_1@, chinamobile::LOGOUT@, chinamobile::LEAVING_2@];
    let tail = seq![
        chinamobile::TAIL_1@,
        chinamobile::REFRESH@,
        chinamobile::TAIL_2@,
        chinamobile::TAIL_3@,
        chinamobile::TIMER@,
        chinamobile::TAIL_4@,
    ];
    law_joined_text_holds_its_parts(head, 1);
    law_script_holds_its_parts(id, name, own, chinamobile::GUARD@);
    law_joined_text_holds_its_parts(settings, 1);
    law_script_holds_its_parts(id, name, own, chinamobile::PERIOD@);
    law_joined_text_holds_its_parts(reading, 0);
    law_script_holds_its_parts(id, name, own, chinamobile::SETTER@);
    law_joined_text_holds_its_parts(reading, 2);
    law_script_holds_its_parts(id, name, own, chinamobile::LOGIN_RULE@);
    law_joined_text_holds_its_parts(reading, 4);
    law_script_holds_its_parts(id, name, own, chinamobile::SOURCE@);
    law_joined_text_holds_its_parts(checking, 1);
    law_script_holds_its_parts(id, name, own, chinamobile::USAGE@);
    law_joined_text_holds_its_parts(checking, 3);
    law_script_holds_its_parts(id, name, own, chinamobile::QUOTAS@);
    law_joined_text_holds_its_parts(checking, 5);
    law_script_holds_its_parts(id, name, own, chinamobile::SUMMARY@);
    law_joined_text_holds_its_parts(checking, 7);
    law_script_holds_its_parts(id, name, own, chinamobile::LOGIN@);
    law_joined_text_holds_its_parts(leaving, 1);
    law_script_holds_its_parts(id, name, own, chinamobile::LOGOUT@);
    law_joined_text_holds_its_parts(tail, 1);
    law_script_holds_its_parts(id, name, own, chinamobile::REFRESH@);
    law_joined_text_holds_its_parts(tail, 4);
    law_script_holds_its_parts(id, name, own, chinamobile::TIMER@);
}

} // verus!
