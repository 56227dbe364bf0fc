//! Text in UTF-16, which the Windows interface speaks.

use crate::text::chars_of;
use vstd::prelude::*;
use vstd::utf8::{char_is_scalar, char_u32_cast};

verus! {

/// `char::from_u32` gives the character with a code, and nothing for a number that is no
/// character code: a surrogate, or one beyond the last code.
pub assume_specification[ char::from_u32 ](code: u32) -> (r: Option<char>)
    ensures
        r is Some <==> (code < 0xD800 || 0xDFFF < code <= 0x10FFFF),
        r matches Some(c) ==> c as u32 == code,
;

/// Whether a unit is the first of a surrogate pair.
pub open spec fn is_high(u: u16) -> bool {
    0xD800 <= u <= 0xDBFF
}

/// Whether a unit is the second of a surrogate pair.
pub open spec fn is_low(u: u16) -> bool {
    0xDC00 <= u <= 0xDFFF
}

/// The units of a character: one, or a surrogate pair for a code beyond 16 bits.
pub open spec fn units_of(c: char) -> Seq<u16> {
    let code = c as u32;
    if code < 0x10000 {
        seq![code as u16]
    } else {
        seq![
            (0xD800 + (code - 0x10000) / 0x400) as u16,
            (0xDC00 + (code - 0x10000) % 0x400) as u16,
        ]
    }
}

/// The units of a text.
pub open spec fn encode(s: Seq<char>) -> Seq<u16>
    decreases s.len(),
{
    if s.len() == 0 {
        seq![]
    } else {
        units_of(s[0]) + encode(s.drop_first())
    }
}

/// The code of the character that a surrogate pair stands for.
pub open spec fn pair_code(high: u16, low: u16) -> int {
    0x10000 + (high - 0xD800) * 0x400 + (low - 0xDC00)
}

/// The text that units stand for. A surrogate without its partner stands for the
/// replacement character.
pub open spec fn decode(units: Seq<u16>) -> Seq<char>
    decreases units.len(),
{
    if units.len() == 0 {
        seq![]
    } else if !is_high(units[0]) && !is_low(units[0]) {
        seq![units[0] as char] + decode(units.drop_first())
    } else if is_high(units[0]) && units.len() > 1 && is_low(units[1]) {
        seq![pair_code(units[0], units[1]) as char] + decode(units.skip(2))
    } else {
        seq!['\u{FFFD}'] + decode(units.drop_first())
    }
}

/// The units of a character stand for that character.
proof fn lemma_units(c: char)
    ensures
        ({
            let code = c as u32;
            let u = units_of(c);
            &&& code <= 0x10FFFF
            &&& code < 0x10000 ==> u.len() == 1 && u[0] == code && !is_high(u[0]) && !is_low(u[0])
                && u[0] as char == c
            &&& code >= 0x10000 ==> u.len() == 2 && is_high(u[0]) && is_low(u[1]) && pair_code(
                u[0],
                u[1],
            ) == code && pair_code(u[0], u[1]) as char == c
        }),
{
    char_is_scalar(c);
    char_u32_cast(c, c as u32);
}

/// The units of a text, with a zero behind them.
pub fn to_wide(s: &str) -> (r: Vec<u16>)
    ensures
        r@ == encode(s@).push(0),
{
    let chars = chars_of(s);
    let mut r: Vec<u16> = Vec::new();
    let mut i: usize = 0;
    assert(chars@.skip(0) =~= chars@);
    while i < chars.len()
        invariant
            i <= chars@.len(),
            encode(chars@) =~= r@ + encode(chars@.skip(i as int)),
        decreases chars@.len() - i,
    {
        let c: char = chars[i];
        let code: u32 = c as u32;
        proof {
            lemma_units(c);
        }
        assert(chars@.skip(i as int).drop_first() =~= chars@.skip(i + 1));
        if code < 0x10000 {
            r.push(code as u16);
        } else {
            r.push((0xD800 + (code - 0x10000) / 0x400) as u16);
            r.push((0xDC00 + (code - 0x10000) % 0x400) as u16);
        }
        i += 1;
    }
    assert(chars@.skip(i as int) =~= seq![]);
    r.push(0);
    r
}

/// The text that units stand for.
pub fn from_wide(units: &[u16]) -> (r: String)
    ensures
        r@ == decode(units@),
{
    let mut r = String::new();
    let mut i: usize = 0;
    assert(units@.skip(0) =~= units@);
    while i < units.len()
        invariant
            i <= units@.len(),
            decode(units@) =~= r@ + decode(units@.skip(i as int)),
        decreases units@.len() - i,
    {
        let ghost rest = units@.skip(i as int);
        assert(rest.drop_first() =~= units@.skip(i + 1));
        let u: u16 = units[i];
        let mut code: u32 = u as u32;
        let mut taken: usize = 1;
        if 0xD800 <= u && u <= 0xDFFF {
            code = 0xFFFD;
            if u <= 0xDBFF && units.len() - i > 1 {
                let v: u16 = units[i + 1];
                if 0xDC00 <= v && v <= 0xDFFF {
                    code = 0x10000 + (u as u32 - 0xD800) * 0x400 + (v as u32 - 0xDC00);
                    taken = 2;
                    assert(rest.skip(2) =~= units@.skip(i + 2));
                }
            }
        }
        match char::from_u32(code) {
            Some(c) => {
                proof {
                    char_u32_cast(c, code);
                }
                r.push(c);
            },
            None => {
                assert(false);
            },
        }
        i += taken;
    }
    assert(units@.skip(i as int) =~= seq![]);
    r
}

/// The class name in the first `n` units of a buffer; none where nothing was read.
pub fn class_name(buffer: &[u16], n: i32) -> (r: Option<String>)
    requires
        0 <= n <= buffer@.len(),
    ensures
        r is Some <==> n > 0,
        r matches Some(s) ==> s@ == decode(buffer@.subrange(0, n as int)),
{
    if n == 0 {
        None
    } else {
        Some(from_wide(vstd::slice::slice_subrange(buffer, 0, n as usize)))
    }
}

/// A text is read back from its units.
pub proof fn law_decode_reads_back(s: Seq<char>)
    ensures
        decode(encode(s)) == s,
    decreases s.len(),
{
    if s.len() > 0 {
        let rest = encode(s.drop_first());
        law_decode_reads_back(s.drop_first());
        let all = encode(s);
        lemma_units(s[0]);
        if (s[0] as u32) < 0x10000 {
            assert(all.drop_first() =~= rest);
        } else {
            assert(all.skip(2) =~= rest);
        }
        assert(decode(all) =~= s);
    } else {
        assert(decode(encode(s)) =~= s);
    }
}

/// A character with a code of 16 bits is one unit, its code; any other is a high and a low
/// surrogate that hold the ten upper and the ten lower bits of its code above 16 bits.
pub proof fn law_characters_become_units(c: char)
    ensures
        (c as u32) < 0x10000 ==> units_of(c).len() == 1 && units_of(c)[0] == c as u32,
        c as u32 >= 0x10000 ==> {
            let u = units_of(c);
            &&& u.len() == 2
            &&& 0xD800 <= u[0] < 0xDC00
            &&& 0xDC00 <= u[1] < 0xE000
            &&& c as u32 == 0x10000 + 0x400 * (u[0] - 0xD800) + (u[1] - 0xDC00)
        },
{
    lemma_units(c);
}

/// The units of two texts put together are their units put together; an empty text has none,
/// and a single character its own.
pub proof fn law_units_add_up(a: Seq<char>, b: Seq<char>, c: char)
    ensures
        encode(a + b) == encode(a) + encode(b),
        encode(seq![]).len() == 0,
        encode(seq![c]) == units_of(c),
    decreases a.len(),
{
    reveal_with_fuel(encode, 2);
    assert(seq![c].drop_first() =~= seq![]);
    assert(encode(seq![c]) =~= units_of(c));
    if a.len() == 0 {
        assert(a + b =~= b);
        assert(encode(a) + encode(b) =~= encode(b));
    } else {
        assert((a + b).drop_first() =~= a.drop_first() + b);
        law_units_add_up(a.drop_first(), b, c);
        assert(encode(a + b) =~= encode(a) + encode(b));
    }
}

/// A surrogate that does not stand in a pair is read as the replacement character, and what
/// follows it is read as if it stood alone.
pub proof fn law_lone_surrogates_are_replaced(u: u16, rest: Seq<u16>)
    requires
        0xD800 <= u < 0xE000,
        u < 0xDC00 && rest.len() > 0 ==> !(0xDC00 <= rest[0] < 0xE000),
    ensures
        decode(seq![u] + rest) == seq!['\u{FFFD}'] + decode(rest),
{
    let all = seq![u] + rest;
    assert(all.drop_first() =~= rest);
    assert(rest.len() > 0 ==> all[1] == rest[0]);
}

} // verus!
