//! Which sites the scripts name.
//!
//! The guard and the host of every provider hold two characters that no script of another
//! provider has beside each other. Each script is gone through for these pairs.

use super::script::{script_text, PartsView, DATA_EVENT, LOGIN_EVENT, LOGOUT_EVENT};
use crate::text::{joined, occurs_in, stands_at};
use vstd::prelude::*;

mod aliyun;
mod baidu;
mod chinamobile;
mod volcengine;

verus! {

/// Whether two characters beside each other tell of a provider other than the one with the
/// number `own`.
pub open spec fn is_foreign(own: int, x: char, y: char) -> bool {
    ||| own != 0 && (x == 'U' && y == 'N' || x == 'y' && y == 'u')
    ||| own != 1 && (x == 'A' && y == 'I' || x == 'b' && y == 'c')
    ||| own != 2 && (x == 'V' && y == 'O' || x == 'v' && y == 'o')
    ||| own != 3 && (x == 'M' && y == 'O' || x == 'o' && y == 'b')
}

/// Whether a text holds no foreign pair, and does not end in the first half of one.
pub open spec fn quiet(s: Seq<char>, own: int) -> bool {
    &&& s.len() > 0 && s.last() != 'U' && s.last() != 'y' && s.last() != 'A' && s.last() != 'b'
        && s.last() != 'V' && s.last() != 'v' && s.last() != 'M' && s.last() != 'o'
    &&& forall|i: int| 0 <= i < s.len() - 1 ==> !#[trigger] is_foreign(own, s[i], s[i + 1])
}

/// Quiet texts are quiet together.
proof fn lemma_quiet_together(a: Seq<char>, b: Seq<char>, own: int)
    requires
        quiet(a, own),
        quiet(b, own),
    ensures
        quiet(a + b, own),
{
    let s = a + b;
    assert forall|i: int| 0 <= i < s.len() - 1 implies !#[trigger] is_foreign(
        own,
        s[i],
        s[i + 1],
    ) by {
        if i < a.len() - 1 {
            assert(!is_foreign(own, a[i], a[i + 1]));
        } else if i >= a.len() {
            assert(!is_foreign(own, b[i - a.len()], b[i - a.len() + 1]));
        }
    }
}

/// Several quiet texts are quiet together.
pub(super) proof fn lemma_joined_is_quiet(parts: Seq<Seq<char>>, own: int)
    requires
        parts.len() > 0,
        forall|i: int| 0 <= i < parts.len() ==> quiet(#[trigger] parts[i], own),
    ensures
        quiet(joined(parts), own),
    decreases parts.len(),
{
    let rest = parts.drop_last();
    if rest.len() == 0 {
        assert(joined(rest) + parts.last() =~= parts.last());
    } else {
        assert forall|i: int| 0 <= i < rest.len() implies quiet(#[trigger] rest[i], own) by {
            assert(rest[i] == parts[i]);
        }
        lemma_joined_is_quiet(rest, own);
        lemma_quiet_together(joined(rest), parts.last(), own);
    }
}

/// A text with a foreign pair does not occur in a quiet one.
proof fn lemma_does_not_occur(s: Seq<char>, p: Seq<char>, own: int, k: int)
    requires
        quiet(s, own),
        0 <= k < p.len() - 1,
        is_foreign(own, p[k], p[k + 1]),
    ensures
        !occurs_in(s, p),
{
    assert forall|at: int| !stands_at(s, p, at) by {
        if stands_at(s, p, at) {
            let sub = s.subrange(at, at + p.len());
            assert(sub[k] == s[at + k] && sub[k + 1] == s[at + k + 1]);
            assert(!is_foreign(own, s[at + k], s[at + k + 1]));
        }
    }
}

/// A script with quiet parts is quiet, if its provider's identifier and name are.
proof fn lemma_script_is_quiet(id: Seq<char>, name: Seq<char>, parts: PartsView, own: int)
    requires
        quiet(id, own),
        quiet(name, own),
        quiet(parts.head, own),
        quiet(parts.settings, own),
        quiet(parts.reading, own),
        quiet(parts.checking, own),
        quiet(parts.leaving, own),
        quiet(parts.tail, own),
    ensures
        quiet(script_text(id, name, parts), own),
{
    reveal_strlit("const PROVIDER_ID    = '");
    reveal_strlit("const PROVIDER_NAME  = '");
    reveal_strlit("'");
    reveal_strlit(";\n    ");
    reveal_strlit(";");
    reveal_strlit("window.__LSYS_SET_INTERVAL__ = function");
    reveal_strlit("provider_data_updated");
    reveal_strlit("provider_login_detected");
    reveal_strlit("provider_logout_detected");
    let id_pieces = seq!["const PROVIDER_ID    = '"@, id, "'"@];
    lemma_joined_is_quiet(id_pieces, own);
    let name_pieces = seq!["const PROVIDER_NAME  = '"@, name, "'"@];
    lemma_joined_is_quiet(name_pieces, own);
    let pieces = seq![
        parts.head,
        joined(id_pieces),
        ";\n    "@,
        joined(name_pieces),
        ";"@,
        parts.settings,
        "window.__LSYS_SET_INTERVAL__ = function"@,
        parts.reading,
        DATA_EVENT@,
        parts.checking,
        LOGIN_EVENT@,
        parts.leaving,
        LOGOUT_EVENT@,
        parts.tail,
    ];
    lemma_joined_is_quiet(pieces, own);
    lemma_three(id_pieces);
    lemma_three(name_pieces);
    lemma_fourteen(pieces);
}

/// Three texts put together.
proof fn lemma_three(p: Seq<Seq<char>>)
    requires
        p.len() == 3,
    ensures
        joined(p) == p[0] + p[1] + p[2],
{
    reveal_with_fuel(joined, 4);
    assert(joined(p) =~= p[0] + p[1] + p[2]);
}

/// Fourteen texts put together.
proof fn lemma_fourteen(p: Seq<Seq<char>>)
    requires
        p.len() == 14,
    ensures
        joined(p) == p[0] + p[1] + p[2] + p[3] + p[4] + p[5] + p[6] + p[7] + p[8] + p[9] + p[10]
            + p[11] + p[12] + p[13],
{
    lemma_step(p, 14);
    lemma_step(p, 13);
    lemma_step(p, 12);
    lemma_step(p, 11);
    lemma_step(p, 10);
    lemma_step(p, 9);
    lemma_step(p, 8);
    lemma_step(p, 7);
    lemma_step(p, 6);
    lemma_step(p, 5);
    lemma_step(p, 4);
    lemma_step(p, 3);
    lemma_step(p, 2);
    lemma_step(p, 1);
    assert(p.take(14) =~= p);
    assert(joined(p.take(0)) + p[0] =~= p[0]);
}

/// The first `n` texts put together are the first but one put together, and the last.
proof fn lemma_step(p: Seq<Seq<char>>, n: int)
    requires
        0 < n <= p.len(),
    ensures
        joined(p.take(n)) == joined(p.take(n - 1)) + p[n - 1],
{
    assert(p.take(n).drop_last() =~= p.take(n - 1));
}

/// What keeps the script of the provider with the number `i` from running twice.
pub open spec fn guard_of(i: int) -> Seq<char> {
    if i == 0 {
        "window.__LSYS_ALIYUN_INJECTED__"@
    } else if i == 1 {
        "window.__LSYS_BAIDU_INJECTED__"@
    } else if i == 2 {
        "window.__LSYS_VOLCENGINE_INJECTED__"@
    } else {
        "window.__LSYS_CHINAMOBILE_INJECTED__"@
    }
}

/// The domain of the provider with the number `i`.
pub open spec fn domain_of(i: int) -> Seq<char> {
    if i == 0 {
        "aliyun.com"@
    } else if i == 1 {
        "bce.baidu.com"@
    } else if i == 2 {
        "volcengine.com"@
    } else {
        "chinamobile.com"@
    }
}

/// The scripts of the registered providers are quiet.
proof fn lemma_scripts_are_quiet(i: int)
    requires
        0 <= i < 4,
    ensures
        quiet(super::registry()[i].injection_script, i),
{
    reveal_strlit("aliyun");
    reveal_strlit("阿里云百炼");
    reveal_strlit("baidu");
    reveal_strlit("百度千帆");
    reveal_strlit("volcengine");
    reveal_strlit("火山引擎方舟");
    reveal_strlit("chinamobile");
    reveal_strlit("中国移动智算包");
    if i == 0 {
        aliyun::lemma_parts_are_quiet();
        lemma_script_is_quiet("aliyun"@, "阿里云百炼"@, super::aliyun::parts(), 0);
    } else if i == 1 {
        baidu::lemma_parts_are_quiet();
        lemma_script_is_quiet("baidu"@, "百度千帆"@, super::baidu::parts(), 1);
    } else if i == 2 {
        volcengine::lemma_parts_are_quiet();
        lemma_script_is_quiet("volcengine"@, "火山引擎方舟"@, super::volcengine::parts(), 2);
    } else {
        chinamobile::lemma_parts_are_quiet();
        lemma_script_is_quiet("chinamobile"@, "中国移动智算包"@, super::chinamobile::parts(), 3);
    }
}

/// No script holds the guard or the domain of another provider.
pub proof fn law_scripts_leave_other_sites_alone(i: int, j: int)
    requires
        0 <= i < super::registry().len(),
        0 <= j < super::registry().len(),
        i != j,
    ensures
        !occurs_in(super::registry()[i].injection_script, guard_of(j)),
        !occurs_in(super::registry()[i].injection_script, domain_of(j)),
{
    lemma_scripts_are_quiet(i);
    let s = super::registry()[i].injection_script;
    reveal_strlit("window.__LSYS_ALIYUN_INJECTED__");
    reveal_strlit("window.__LSYS_BAIDU_INJECTED__");
    reveal_strlit("window.__LSYS_VOLCENGINE_INJECTED__");
    reveal_strlit("window.__LSYS_CHINAMOBILE_INJECTED__");
    reveal_strlit("aliyun.com");
    reveal_strlit("bce.baidu.com");
    reveal_strlit("volcengine.com");
    reveal_strlit("chinamobile.com");
    if j == 0 {
        lemma_does_not_occur(s, guard_of(j), i, 18);
        lemma_does_not_occur(s, domain_of(j), i, 3);
    } else if j == 1 {
        lemma_does_not_occur(s, guard_of(j), i, 15);
        lemma_does_not_occur(s, domain_of(j), i, 0);
    } else if j == 2 {
        lemma_does_not_occur(s, guard_of(j), i, 14);
        lemma_does_not_occur(s, domain_of(j), i, 0);
    } else {
        lemma_does_not_occur(s, guard_of(j), i, 19);
        lemma_does_not_occur(s, domain_of(j), i, 6);
    }
}

} // verus!
