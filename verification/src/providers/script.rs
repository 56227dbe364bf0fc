//! The scripts that run in the pages of the providers.
//!
//! A script says whose it is, offers a function that sets its refresh interval, and reports
//! data, logins and logouts by the events of this module. The rest is the provider's own.

use crate::text::{law_occurrence_is_kept, occurs_in, stands_at};
use vstd::prelude::*;

verus! {

/// The event by which a page reports data.
pub const DATA_EVENT: &'static str = "provider_data_updated";

/// The event by which a page reports a login.
pub const LOGIN_EVENT: &'static str = "provider_login_detected";

/// The event by which a page reports a logout.
pub const LOGOUT_EVENT: &'static str = "provider_logout_detected";

/// The parts of a script that are a provider's own.
pub struct ScriptParts<'a> {
    /// Before it says whose it is.
    pub head: &'a str,
    /// From there to the function that sets the interval.
    pub settings: &'a str,
    /// From there to the report of data.
    pub reading: &'a str,
    /// From there to the report of a login.
    pub checking: &'a str,
    /// From there to the report of a logout.
    pub leaving: &'a str,
    /// Behind that report.
    pub tail: &'a str,
}

/// The parts of a script as plain text.
pub struct PartsView {
    pub head: Seq<char>,
    pub settings: Seq<char>,
    pub reading: Seq<char>,
    pub checking: Seq<char>,
    pub leaving: Seq<char>,
    pub tail: Seq<char>,
}

impl<'a> View for ScriptParts<'a> {
    type V = PartsView;

    open spec fn view(&self) -> PartsView {
        PartsView {
            head: self.head@,
            settings: self.settings@,
            reading: self.reading@,
            checking: self.checking@,
            leaving: self.leaving@,
            tail: self.tail@,
        }
    }
}

/// How a script says its provider's identifier.
pub open spec fn id_line(id: Seq<char>) -> Seq<char> {
    "const PROVIDER_ID    = '"@ + id + "'"@
}

/// How a script says its provider's name.
pub open spec fn name_line(name: Seq<char>) -> Seq<char> {
    "const PROVIDER_NAME  = '"@ + name + "'"@
}

/// The script of a provider.
pub open spec fn script_text(id: Seq<char>, name: Seq<char>, own: PartsView) -> Seq<char> {
    own.head + id_line(id) + ";\n    "@ + name_line(name) + ";"@ + own.settings
        + "window.__LSYS_SET_INTERVAL__ = function"@ + own.reading + DATA_EVENT@ + own.checking
        + LOGIN_EVENT@ + own.leaving + LOGOUT_EVENT@ + own.tail
}

/// The script of a provider, as a text.
pub fn write_script(id: &str, name: &str, own: &ScriptParts) -> (r: String)
    ensures
        r@ == script_text(id@, name@, own@),
{
    let id_part = "const PROVIDER_ID    = '".to_string().concat(id).concat("'");
    let name_part = "const PROVIDER_NAME  = '".to_string().concat(name).concat("'");
    let r = own.head.to_string().concat(id_part.as_str()).concat(";\n    ");
    let r = r.concat(name_part.as_str()).concat(";").concat(own.settings);
    let r = r.concat("window.__LSYS_SET_INTERVAL__ = function").concat(own.reading);
    let r = r.concat(DATA_EVENT).concat(own.checking).concat(LOGIN_EVENT).concat(own.leaving);
    r.concat(LOGOUT_EVENT).concat(own.tail)
}

/// Whether a script carries the identifier and the name of its provider, the events by which
/// it reports, and the function that sets its interval.
pub open spec fn speaks_for(script: Seq<char>, id: Seq<char>, name: Seq<char>) -> bool {
    &&& occurs_in(script, "const PROVIDER_ID    = '"@ + id + "'"@)
    &&& occurs_in(script, "const PROVIDER_NAME  = '"@ + name + "'"@)
    &&& occurs_in(script, "provider_login_detected"@)
    &&& occurs_in(script, "provider_logout_detected"@)
    &&& occurs_in(script, "provider_data_updated"@)
    &&& occurs_in(script, "window.__LSYS_SET_INTERVAL__ = function"@)
}

/// Every script speaks for its provider, and is not empty.
pub proof fn law_script_speaks_for_its_provider(id: Seq<char>, name: Seq<char>, own: PartsView)
    ensures
        speaks_for(script_text(id, name, own), id, name),
        script_text(id, name, own).len() > 0,
{
    let s = script_text(id, name, own);
    let a = own.head;
    lemma_occurs(s, a, id_line(id));
    let b = a + id_line(id) + ";\n    "@;
    lemma_occurs(s, b, name_line(name));
    let c = b + name_line(name) + ";"@ + own.settings;
    lemma_occurs(s, c, "window.__LSYS_SET_INTERVAL__ = function"@);
    let d = c + "window.__LSYS_SET_INTERVAL__ = function"@ + own.reading;
    lemma_occurs(s, d, DATA_EVENT@);
    let e = d + DATA_EVENT@ + own.checking;
    lemma_occurs(s, e, LOGIN_EVENT@);
    let f = e + LOGIN_EVENT@ + own.leaving;
    lemma_occurs(s, f, LOGOUT_EVENT@);
    reveal_strlit("'");
    assert(id_line(id).len() > 0);
}

/// What follows a beginning of a text occurs in it.
proof fn lemma_occurs(s: Seq<char>, before: Seq<char>, p: Seq<char>)
    requires
        (before + p).is_prefix_of(s),
    ensures
        occurs_in(s, p),
{
    assert(s.subrange(before.len() as int, (before.len() + p.len()) as int) =~= p) by {
        assert forall|i: int| 0 <= i < p.len() implies s[before.len() + i] == p[i] by {
            assert((before + p)[before.len() + i] == p[i]);
            assert(s.subrange(0, (before + p).len() as int)[before.len() + i] == p[i]);
        }
    }
    assert(stands_at(s, p, before.len() as int));
}

/// What occurs in a part of a script that is a provider's own occurs in the script.
pub proof fn law_script_holds_its_parts(
    id: Seq<char>,
    name: Seq<char>,
    own: PartsView,
    t: Seq<char>,
)
    ensures
        occurs_in(own.head, t) || occurs_in(own.settings, t) || occurs_in(own.reading, t)
            || occurs_in(own.checking, t) || occurs_in(own.leaving, t) || occurs_in(own.tail, t)
            ==> occurs_in(script_text(id, name, own), t),
{
    let s = script_text(id, name, own);
    let a = own.head + id_line(id) + ";\n    "@ + name_line(name) + ";"@;
    let b = a + own.settings + "window.__LSYS_SET_INTERVAL__ = function"@;
    let c = b + own.reading + DATA_EVENT@;
    let d = c + own.checking + LOGIN_EVENT@;
    let e = d + own.leaving + LOGOUT_EVENT@;
    lemma_held(s, seq![], own.head, t);
    lemma_held(s, a, own.settings, t);
    lemma_held(s, b, own.reading, t);
    lemma_held(s, c, own.checking, t);
    lemma_held(s, d, own.leaving, t);
    lemma_held(s, e, own.tail, t);
}

/// What occurs in a part of a text occurs in the text.
proof fn lemma_held(s: Seq<char>, before: Seq<char>, part: Seq<char>, t: Seq<char>)
    requires
        s.len() >= before.len() + part.len(),
        s.subrange(before.len() as int, (before.len() + part.len()) as int) =~= part,
    ensures
        occurs_in(part, t) ==> occurs_in(s, t),
{
    if occurs_in(part, t) {
        let n = (before.len() + part.len()) as int;
        law_occurrence_is_kept(s.take(before.len() as int), part, s.skip(n), t);
        assert(s =~= s.take(before.len() as int) + part + s.skip(n));
    }
}

/// Nothing of the parts of a script is left out of their view.
pub proof fn law_parts_view_is_whole(p: ScriptParts<'static>)
    ensures
        p@.head == p.head@ && p@.settings == p.settings@ && p@.reading == p.reading@,
        p@.checking == p.checking@ && p@.leaving == p.leaving@ && p@.tail == p.tail@,
{
}

} // verus!
