//! Text as sequences of characters: decimal numerals, searching, splitting and trimming.

use vstd::prelude::*;

verus! {

/// `String::push` appends one character at the end of the text.
pub assume_specification[ String::push ](s: &mut String, c: char)
    ensures
        final(s)@ == old(s)@.push(c),
;

/// The characters of a text that may be missing.
pub open spec fn option_text(s: Option<String>) -> Option<Seq<char>> {
    match s {
        Some(t) => Some(t@),
        None => None,
    }
}

/// The characters of a text, in order.
pub fn chars_of(s: &str) -> (r: Vec<char>)
    ensures
        r@ == s@,
{
    let mut r: Vec<char> = Vec::new();
    for c in it: s.chars()
        invariant
            r@ == it.seq().take(it.index()),
            it.seq() == s@,
    {
        r.push(c);
        assert(it.seq().take(it.index() + 1) == it.seq().take(it.index()).push(c));
    }
    r
}

/// The text made of the characters from `from` (inclusive) to `to` (exclusive).
pub fn text_between(chars: &Vec<char>, from: usize, to: usize) -> (r: String)
    requires
        from <= to <= chars@.len(),
    ensures
        r@ == chars@.subrange(from as int, to as int),
{
    let mut r = String::new();
    let mut i: usize = from;
    while i < to
        invariant
            from <= i <= to <= chars@.len(),
            r@ == chars@.subrange(from as int, i as int),
        decreases to - i,
    {
        r.push(chars[i]);
        i += 1;
        assert(chars@.subrange(from as int, i as int) == chars@.subrange(
            from as int,
            i - 1,
        ).push(chars@[i - 1]));
    }
    r
}

/// The decimal digit with the value `d`.
pub open spec fn digit_char(d: nat) -> char {
    (48 + d) as char
}

/// The decimal numeral of `n`, without leading zeros.
pub open spec fn decimal(n: nat) -> Seq<char>
    decreases n,
{
    if n < 10 {
        seq![digit_char(n)]
    } else {
        decimal(n / 10).push(digit_char(n % 10))
    }
}

/// The decimal numeral of `n` as a text.
pub fn decimal_text(n: u64) -> (r: String)
    ensures
        r@ == decimal(n as nat),
    decreases n,
{
    if n < 10 {
        let mut r = String::new();
        r.push((48 + n as u8) as char);
        assert(r@ == decimal(n as nat));
        r
    } else {
        let mut r = decimal_text(n / 10);
        r.push((48 + (n % 10) as u8) as char);
        r
    }
}

/// Whether `c` is a decimal digit.
pub open spec fn is_digit(c: char) -> bool {
    '0' <= c <= '9'
}

/// A numeral consists of one or more digits.
pub proof fn law_numerals_are_digits(n: nat)
    ensures
        decimal(n).len() > 0,
        forall|i: int| 0 <= i < decimal(n).len() ==> is_digit(#[trigger] decimal(n)[i]),
    decreases n,
{
    if n >= 10 {
        law_numerals_are_digits(n / 10);
    }
}

/// Different numbers have different numerals.
pub proof fn law_numerals_differ(a: nat, b: nat)
    requires
        decimal(a) == decimal(b),
    ensures
        a == b,
    decreases a,
{
    law_numerals_are_digits(a / 10);
    law_numerals_are_digits(b / 10);
    assert(decimal(a).last() == digit_char(a % 10) && digit_char(a % 10) as int == 48 + a % 10);
    assert(decimal(b).last() == digit_char(b % 10) && digit_char(b % 10) as int == 48 + b % 10);
    assert(a < 10 <==> decimal(a).len() == 1);
    assert(b < 10 <==> decimal(b).len() == 1);
    if a >= 10 && b >= 10 {
        assert(decimal(a).drop_last() =~= decimal(a / 10));
        assert(decimal(b).drop_last() =~= decimal(b / 10));
        law_numerals_differ(a / 10, b / 10);
    }
}

/// The decimal numeral of the integer `i`, with a minus sign where it is negative.
pub open spec fn signed_decimal(i: int) -> Seq<char> {
    if i < 0 {
        seq!['-'] + decimal((-i) as nat)
    } else {
        decimal(i as nat)
    }
}

/// The decimal numeral of `i` as a text.
pub fn signed_decimal_text(i: i64) -> (r: String)
    ensures
        r@ == signed_decimal(i as int),
{
    if i < 0 {
        // One more than the argument can always be negated.
        let magnitude: u64 = (-(i + 1)) as u64 + 1;
        let mut r = String::new();
        r.push('-');
        r.append(decimal_text(magnitude).as_str());
        assert(r@ == signed_decimal(i as int));
        r
    } else {
        decimal_text(i as u64)
    }
}

/// How many characters stand in `s` before the first `c`; all of them where there is no `c`.
pub open spec fn position(s: Seq<char>, c: char) -> int
    decreases s.len(),
{
    if s.len() == 0 || s[0] == c {
        0
    } else {
        1 + position(s.drop_first(), c)
    }
}

/// What stands in `s` before the first `c`; nothing where there is no `c`.
pub open spec fn before_first(s: Seq<char>, c: char) -> Option<Seq<char>> {
    if position(s, c) < s.len() {
        Some(s.take(position(s, c)))
    } else {
        None
    }
}

/// What stands in `s` behind the first `c`; nothing where there is no `c`.
pub open spec fn after_first(s: Seq<char>, c: char) -> Option<Seq<char>> {
    if position(s, c) < s.len() {
        Some(s.skip(position(s, c) + 1))
    } else {
        None
    }
}

/// The first `c` is where the position says, and the parts before and behind it make up the
/// text.
pub proof fn law_parts_make_up_text(s: Seq<char>, c: char)
    ensures
        0 <= position(s, c) <= s.len(),
        forall|i: int| 0 <= i < position(s, c) ==> s[i] != c,
        position(s, c) < s.len() <==> s.contains(c),
        s.contains(c) ==> s == before_first(s, c)->0 + seq![c] + after_first(s, c)->0,
    decreases s.len(),
{
    if s.len() > 0 && s[0] != c {
        let rest = s.drop_first();
        law_parts_make_up_text(rest, c);
        assert forall|i: int| 0 <= i < position(s, c) implies s[i] != c by {
            if i > 0 {
                assert(rest[i - 1] == s[i]);
            }
        }
        if position(rest, c) < rest.len() {
            let k = position(rest, c);
            assert(rest =~= rest.take(k) + seq![c] + rest.skip(k + 1));
            assert(rest[k] == c);
            assert(s[k + 1] == c);
        }
    }
    if position(s, c) < s.len() {
        assert(s[position(s, c)] == c);
        assert(s =~= s.take(position(s, c)) + seq![c] + s.skip(position(s, c) + 1));
    }
}

/// How many characters stand before the first `c`.
pub fn find_char(chars: &Vec<char>, c: char) -> (r: usize)
    ensures
        r == position(chars@, c),
        r <= chars@.len(),
{
    let mut i: usize = 0;
    assert(chars@.skip(0) =~= chars@);
    while i < chars.len() && chars[i] != c
        invariant
            i <= chars@.len(),
            position(chars@, c) == i + position(chars@.skip(i as int), c),
        decreases chars@.len() - i,
    {
        assert(chars@.skip(i as int).drop_first() =~= chars@.skip(i + 1));
        i += 1;
    }
    i
}

/// What stands in `s` before the first `c`, as a text.
pub fn text_before_first(s: &str, c: char) -> (r: Option<String>)
    ensures
        option_text(r) == before_first(s@, c),
{
    let chars = chars_of(s);
    let i: usize = find_char(&chars, c);
    if i < chars.len() {
        let r = text_between(&chars, 0, i);
        assert(r@ =~= s@.take(i as int));
        Some(r)
    } else {
        None
    }
}

/// What stands in `s` behind the first `c`, as a text.
pub fn text_after_first(s: &str, c: char) -> (r: Option<String>)
    ensures
        option_text(r) == after_first(s@, c),
{
    let chars = chars_of(s);
    let i: usize = find_char(&chars, c);
    if i < chars.len() {
        let r = text_between(&chars, i + 1, chars.len());
        assert(r@ =~= s@.skip(i + 1));
        Some(r)
    } else {
        None
    }
}

/// `s` without the run of `c` at its start.
pub open spec fn trim_start(s: Seq<char>, c: char) -> Seq<char>
    decreases s.len(),
{
    if s.len() > 0 && s[0] == c {
        trim_start(s.drop_first(), c)
    } else {
        s
    }
}

/// `s` without the run of `c` at its start, as a text.
pub fn trim_start_text(s: &str, c: char) -> (r: String)
    ensures
        r@ == trim_start(s@, c),
{
    let chars = chars_of(s);
    let mut i: usize = 0;
    assert(chars@.skip(0) =~= chars@);
    while i < chars.len() && chars[i] == c
        invariant
            i <= chars@.len(),
            trim_start(chars@, c) == trim_start(chars@.skip(i as int), c),
        decreases chars@.len() - i,
    {
        assert(chars@.skip(i as int).drop_first() =~= chars@.skip(i + 1));
        i += 1;
    }
    let r = text_between(&chars, i, chars.len());
    assert(r@ =~= chars@.skip(i as int));
    r
}

/// `s` without the run of `c` at its end.
pub open spec fn trim_end(s: Seq<char>, c: char) -> Seq<char>
    decreases s.len(),
{
    if s.len() > 0 && s.last() == c {
        trim_end(s.drop_last(), c)
    } else {
        s
    }
}

/// `s` without the run of `c` at its end, as a text.
pub fn trim_end_text(s: &str, c: char) -> (r: String)
    ensures
        r@ == trim_end(s@, c),
{
    let chars = chars_of(s);
    let mut n: usize = chars.len();
    assert(chars@.take(n as int) =~= chars@);
    while n > 0 && chars[n - 1] == c
        invariant
            n <= chars@.len(),
            trim_end(chars@, c) == trim_end(chars@.take(n as int), c),
        decreases n,
    {
        assert(chars@.take(n as int).drop_last() =~= chars@.take(n - 1));
        n -= 1;
    }
    let r = text_between(&chars, 0, n);
    assert(r@ =~= chars@.take(n as int));
    r
}

/// Whether `p` stands in `s` at the position `at`.
pub open spec fn stands_at(s: Seq<char>, p: Seq<char>, at: int) -> bool {
    0 <= at && at + p.len() <= s.len() && s.subrange(at, at + p.len()) == p
}

/// Whether `p` stands anywhere in `s`.
pub open spec fn occurs_in(s: Seq<char>, p: Seq<char>) -> bool {
    exists|at: int| stands_at(s, p, at)
}

/// Whether `p` stands in `s` at the position `at`.
fn check_at(s: &Vec<char>, p: &Vec<char>, at: usize) -> (r: bool)
    ensures
        r == stands_at(s@, p@, at as int),
{
    let n: usize = s.len();
    if at > n || p.len() > n - at {
        return false;
    }
    let mut i: usize = 0;
    while i < p.len()
        invariant
            i <= p@.len(),
            at + p@.len() <= n,
            n == s@.len(),
            forall|k: int| 0 <= k < i ==> s@[at + k] == p@[k],
        decreases p@.len() - i,
    {
        if s[at + i] != p[i] {
            assert(s@.subrange(at as int, at + p@.len())[i as int] != p@[i as int]);
            return false;
        }
        i += 1;
    }
    assert(s@.subrange(at as int, at + p@.len()) =~= p@);
    true
}

/// Whether `s` starts with `p`.
pub fn starts_with(s: &Vec<char>, p: &str) -> (r: bool)
    ensures
        r == p@.is_prefix_of(s@),
{
    let pattern = chars_of(p);
    check_at(s, &pattern, 0)
}

/// Whether `s` ends with `p`.
pub fn ends_with(s: &Vec<char>, p: &str) -> (r: bool)
    ensures
        r == p@.is_suffix_of(s@),
{
    let pattern = chars_of(p);
    if pattern.len() > s.len() {
        return false;
    }
    check_at(s, &pattern, s.len() - pattern.len())
}

/// Whether `p` stands anywhere in `s`.
pub fn contains(s: &Vec<char>, p: &str) -> (r: bool)
    ensures
        r == occurs_in(s@, p@),
{
    let pattern = chars_of(p);
    let mut at: usize = 0;
    while at < s.len()
        invariant
            at <= s@.len(),
            pattern@ == p@,
            forall|k: int| 0 <= k < at ==> !stands_at(s@, p@, k),
        decreases s@.len() - at,
    {
        if check_at(s, &pattern, at) {
            assert(stands_at(s@, p@, at as int));
            return true;
        }
        at += 1;
    }
    let r = check_at(s, &pattern, at);
    assert(r == stands_at(s@, p@, at as int));
    r
}

/// Whether two texts are equal.
pub fn same_text(a: &str, b: &str) -> (r: bool)
    ensures
        r == (a@ == b@),
{
    a.to_owned() == b.to_owned()
}

/// The number that a row of decimal digits denotes.
pub open spec fn numeral_value(s: Seq<char>) -> int
    decreases s.len(),
{
    if s.len() == 0 {
        0
    } else {
        10 * numeral_value(s.drop_last()) + (s.last() as int - '0' as int)
    }
}

/// A numeral denotes its number, in digits alone and without leading zeros.
pub proof fn law_numerals_read_back(n: nat)
    ensures
        numeral_value(decimal(n)) == n,
        decimal(n).len() > 0,
        forall|i: int| 0 <= i < decimal(n).len() ==> '0' <= #[trigger] decimal(n)[i] <= '9',
        decimal(n)[0] == '0' ==> n == 0 && decimal(n).len() == 1,
    decreases n,
{
    law_numerals_are_digits(n);
    reveal_with_fuel(numeral_value, 2);
    if n >= 10 {
        law_numerals_read_back(n / 10);
        assert(decimal(n).drop_last() =~= decimal(n / 10));
        assert(decimal(n)[0] == decimal(n / 10)[0]);
    } else {
        assert(decimal(n).drop_last() =~= seq![]);
    }
}

/// The numeral of an integer denotes its magnitude, behind a minus sign exactly where it is
/// negative.
pub proof fn law_signed_numerals_read_back(i: int)
    ensures
        i >= 0 ==> numeral_value(signed_decimal(i)) == i && '0' <= signed_decimal(i)[0] <= '9',
        i < 0 ==> signed_decimal(i)[0] == '-' && numeral_value(signed_decimal(i).skip(1)) == -i,
{
    if i < 0 {
        law_numerals_read_back((-i) as nat);
        assert(signed_decimal(i).skip(1) =~= decimal((-i) as nat));
    } else {
        law_numerals_read_back(i as nat);
    }
}

/// A text has parts before and behind a character exactly where it holds that character, and
/// the part before holds it no more.
pub proof fn law_parts_need_the_mark(s: Seq<char>, c: char)
    ensures
        before_first(s, c) is Some <==> s.contains(c),
        after_first(s, c) is Some <==> s.contains(c),
        before_first(s, c) matches Some(b) ==> !b.contains(c),
{
    law_parts_make_up_text(s, c);
}

/// Trimming at the start takes off nothing but the character, and all of it.
pub proof fn law_start_is_trimmed(s: Seq<char>, c: char)
    ensures
        ({
            let t = trim_start(s, c);
            let n = s.len() - t.len();
            &&& n >= 0
            &&& s.skip(n) == t
            &&& forall|i: int| 0 <= i < n ==> #[trigger] s[i] == c
            &&& t.len() > 0 ==> t[0] != c
        }),
    decreases s.len(),
{
    if s.len() > 0 && s[0] == c {
        let rest = s.drop_first();
        law_start_is_trimmed(rest, c);
        let t = trim_start(s, c);
        let n = s.len() - t.len();
        assert(s.skip(n) =~= rest.skip(n - 1));
        assert forall|i: int| 0 <= i < n implies #[trigger] s[i] == c by {
            if i > 0 {
                assert(rest[i - 1] == s[i]);
            }
        }
    } else {
        assert(s.skip(0) =~= s);
    }
}

/// Trimming at the end takes off nothing but the character, and all of it.
pub proof fn law_end_is_trimmed(s: Seq<char>, c: char)
    ensures
        ({
            let t = trim_end(s, c);
            &&& t.len() <= s.len()
            &&& s.take(t.len() as int) == t
            &&& forall|i: int| t.len() <= i < s.len() ==> #[trigger] s[i] == c
            &&& t.len() > 0 ==> t.last() != c
        }),
    decreases s.len(),
{
    if s.len() > 0 && s.last() == c {
        let rest = s.drop_last();
        law_end_is_trimmed(rest, c);
        let t = trim_end(s, c);
        assert(s.take(t.len() as int) =~= rest.take(t.len() as int));
        assert forall|i: int| t.len() <= i < s.len() implies #[trigger] s[i] == c by {
            if i < rest.len() {
                assert(rest[i] == s[i]);
            }
        }
    } else {
        assert(s.take(s.len() as int) =~= s);
    }
}

/// A text occurs in every text that is put together with it.
pub proof fn law_part_occurs(before: Seq<char>, p: Seq<char>, behind: Seq<char>)
    ensures
        occurs_in(before + p + behind, p),
{
    let s = before + p + behind;
    assert(s.subrange(before.len() as int, (before.len() + p.len()) as int) =~= p);
    assert(stands_at(s, p, before.len() as int));
}

/// A text occurs only in a text that is put together with it.
pub proof fn law_occurring_is_a_part(s: Seq<char>, p: Seq<char>)
    requires
        occurs_in(s, p),
    ensures
        exists|before: Seq<char>, behind: Seq<char>| s == #[trigger] (before + p + behind),
{
    let at = choose|at: int| stands_at(s, p, at);
    let (before, behind) = (s.take(at), s.skip(at + p.len()));
    assert(s =~= before + s.subrange(at, at + p.len()) + behind);
    assert(s == before + p + behind);
}

/// Several texts put together, in order.
pub open spec fn joined(parts: Seq<Seq<char>>) -> Seq<char>
    decreases parts.len(),
{
    if parts.len() == 0 {
        seq![]
    } else {
        joined(parts.drop_last()) + parts.last()
    }
}

/// The characters of several texts.
pub open spec fn texts(parts: Seq<&'static str>) -> Seq<Seq<char>> {
    parts.map_values(|p: &'static str| p@)
}

/// Several texts put together, as a text.
pub fn join(parts: &Vec<&'static str>) -> (r: String)
    ensures
        r@ == joined(texts(parts@)),
{
    let mut r = String::new();
    let mut i: usize = 0;
    let ghost all = texts(parts@);
    while i < parts.len()
        invariant
            i <= parts@.len(),
            all == texts(parts@),
            r@ == joined(all.take(i as int)),
        decreases parts@.len() - i,
    {
        r.append(parts[i]);
        i += 1;
        assert(all.take(i as int).drop_last() =~= all.take(i - 1));
        assert(all.take(i as int).last() == parts@[i - 1]@);
    }
    assert(all.take(i as int) =~= all);
    r
}

/// Every one of several texts occurs in what they are put together to.
pub proof fn law_joined_text_holds_its_parts(parts: Seq<Seq<char>>, i: int)
    requires
        0 <= i < parts.len(),
    ensures
        occurs_in(joined(parts), parts[i]),
    decreases parts.len(),
{
    let rest = parts.drop_last();
    if i < rest.len() {
        law_joined_text_holds_its_parts(rest, i);
        assert(rest[i] == parts[i]);
        law_occurrence_is_kept(seq![], joined(rest), parts.last(), parts[i]);
        assert(seq![] + joined(rest) + parts.last() =~= joined(parts));
    } else {
        law_part_occurs(joined(rest), parts[i], seq![]);
        assert(joined(rest) + parts[i] + seq![] =~= joined(parts));
    }
}

/// What occurs in a text occurs in every text that is put together with it.
pub proof fn law_occurrence_is_kept(
    before: Seq<char>,
    s: Seq<char>,
    behind: Seq<char>,
    p: Seq<char>,
)
    requires
        occurs_in(s, p),
    ensures
        occurs_in(before + s + behind, p),
{
    let at = choose|at: int| stands_at(s, p, at);
    let all = before + s + behind;
    let k = before.len() + at;
    assert(all.subrange(k, k + p.len()) =~= s.subrange(at, at + p.len()));
    assert(stands_at(all, p, k));
}

/// A text that may be missing is there with all its characters, or missing.
pub proof fn law_missing_text_is_missing(s: Option<String>)
    ensures
        s matches Some(t) ==> option_text(s) == Some(t@),
        s is None ==> option_text(s) is None,
{
}

} // verus!
