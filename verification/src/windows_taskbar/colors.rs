//! The colours of the widget.

use crate::text::{trim_start, trim_start_text};
use vstd::prelude::*;
use vstd::utf8::{
    encode_utf8, encode_utf8_valid_utf8, is_ascii_chars, is_ascii_chars_encode_utf8,
    is_char_boundary, is_char_boundary_iff_not_is_continuation_byte,
    is_char_boundary_start_end_of_seq, utf8_byte_ranges_bitwise,
};

verus! {

/// The value of a hexadecimal digit, given by its byte.
pub open spec fn hex_digit(b: u8) -> Option<int> {
    if 48 <= b <= 57 {
        Some(b - 48)
    } else if 65 <= b <= 70 {
        Some(b - 55)
    } else if 97 <= b <= 102 {
        Some(b - 87)
    } else {
        None
    }
}

/// The value of a colour component written in two bytes: two hexadecimal digits, or one
/// behind a plus sign. Anything else counts as 0.
pub open spec fn component(high: u8, low: u8) -> int {
    match (hex_digit(high), hex_digit(low)) {
        (Some(h), Some(l)) => 16 * h + l,
        (None, Some(l)) => if high == 43 {
            l
        } else {
            0
        },
        _ => 0,
    }
}

/// The bytes of a colour text behind its number signs.
pub open spec fn color_bytes(hex: Seq<char>) -> Seq<u8> {
    encode_utf8(trim_start(hex, '#'))
}

/// Whether the components of a colour text can be told apart: no character spans two of them.
pub open spec fn separable(hex: Seq<char>) -> bool {
    let b = color_bytes(hex);
    b.len() >= 6 ==> is_char_boundary(b, 2) && is_char_boundary(b, 4) && is_char_boundary(b, 6)
}

/// The Windows colour that a text in the form `#RRGGBB` denotes: blue, green and red, from
/// the highest byte down. A text that is too short denotes black.
pub open spec fn colorref(hex: Seq<char>) -> int {
    let b = color_bytes(hex);
    if b.len() < 6 {
        0
    } else {
        65536 * component(b[4], b[5]) + 256 * component(b[2], b[3]) + component(b[0], b[1])
    }
}

/// The value of a hexadecimal digit.
fn hex_digit_value(b: u8) -> (r: Option<u32>)
    ensures
        r is Some <==> hex_digit(b) is Some,
        r matches Some(d) ==> hex_digit(b) == Some(d as int) && d < 16,
{
    if 48 <= b && b <= 57 {
        Some((b - 48) as u32)
    } else if 65 <= b && b <= 70 {
        Some((b - 55) as u32)
    } else if 97 <= b && b <= 102 {
        Some((b - 87) as u32)
    } else {
        None
    }
}

/// The value of a colour component.
fn component_value(high: u8, low: u8) -> (r: u32)
    ensures
        r == component(high, low),
        r < 256,
{
    match (hex_digit_value(high), hex_digit_value(low)) {
        (Some(h), Some(l)) => 16 * h + l,
        (None, Some(l)) => if high == 43 {
            l
        } else {
            0
        },
        _ => 0,
    }
}

/// The Windows colour that a text in the form `#RRGGBB` denotes.
pub fn html_to_colorref(hex: &str) -> (r: u32)
    requires
        separable(hex@),
    ensures
        r == colorref(hex@),
        r < 0x100_0000,
{
    let trimmed = trim_start_text(hex, '#');
    let bytes = trimmed.as_str().as_bytes();
    if bytes.len() < 6 {
        return 0;
    }
    let r: u32 = component_value(bytes[0], bytes[1]);
    let g: u32 = component_value(bytes[2], bytes[3]);
    let b: u32 = component_value(bytes[4], bytes[5]);
    assert((b << 16) | (g << 8) | r == 65536 * b + 256 * g + r && 65536 * b + 256 * g + r
        < 0x100_0000) by (bit_vector)
        requires
            r < 256,
            g < 256,
            b < 256,
    ;
    (b << 16) | (g << 8) | r
}

/// The colours in which the widget is drawn.
#[derive(Debug, Clone, Copy, PartialEq, Eq, Structural)]
pub struct WidgetColors {
    /// The ground.
    pub background: u32,
    /// What the quota is of.
    pub label: u32,
    /// The quota.
    pub value: u32,
}

impl WidgetColors {
    /// The colours that the widget starts with: a green label and a white value on a dark
    /// ground.
    pub fn new() -> (r: Self)
        ensures
            r.background == 0x0024_2611,
            r.label == 0x0000_FF00,
            r.value == 0x00FF_FFFF,
    {
        WidgetColors { background: 0x0024_2611, label: 0x0000_FF00, value: 0x00FF_FFFF }
    }

    /// Takes new colours, each in the form `#RRGGBB`.
    pub fn set_widget_colors(&mut self, bg_hex: &str, label_hex: &str, value_hex: &str)
        requires
            separable(bg_hex@),
            separable(label_hex@),
            separable(value_hex@),
        ensures
            final(self).background == colorref(bg_hex@),
            final(self).label == colorref(label_hex@),
            final(self).value == colorref(value_hex@),
    {
        self.background = html_to_colorref(bg_hex);
        self.label = html_to_colorref(label_hex);
        self.value = html_to_colorref(value_hex);
    }
}

/// The components of a colour can be read back from it.
pub proof fn law_components_are_recoverable(hex: Seq<char>)
    requires
        color_bytes(hex).len() >= 6,
    ensures
        ({
            let b = color_bytes(hex);
            &&& colorref(hex) % 256 == component(b[0], b[1])
            &&& colorref(hex) / 256 % 256 == component(b[2], b[3])
            &&& colorref(hex) / 65536 == component(b[4], b[5])
        }),
{
    let b = color_bytes(hex);
    lemma_bytes_of(component(b[4], b[5]), component(b[2], b[3]), component(b[0], b[1]));
}

/// The bytes of a number of three bytes.
proof fn lemma_bytes_of(high: int, middle: int, low: int)
    requires
        0 <= high < 256,
        0 <= middle < 256,
        0 <= low < 256,
    ensures
        (65536 * high + 256 * middle + low) % 256 == low,
        (65536 * high + 256 * middle + low) / 256 % 256 == middle,
        (65536 * high + 256 * middle + low) / 65536 == high,
{
}

/// Leading number signs do not matter.
pub proof fn law_number_signs_are_ignored(hex: Seq<char>)
    ensures
        colorref(seq!['#'] + hex) == colorref(hex),
{
    assert((seq!['#'] + hex).drop_first() =~= hex);
}

/// In a text of ASCII characters, the components can always be told apart, and its bytes are
/// its characters.
pub proof fn law_ascii_is_separable(hex: Seq<char>)
    requires
        is_ascii_chars(hex),
    ensures
        separable(hex),
        color_bytes(hex).len() == trim_start(hex, '#').len(),
        forall|i: int|
            0 <= i < color_bytes(hex).len() ==> #[trigger] color_bytes(hex)[i] == trim_start(
                hex,
                '#',
            )[i] as u8,
{
    let t = trim_start(hex, '#');
    lemma_trimmed_is_ascii(hex);
    is_ascii_chars_encode_utf8(t);
    let b = color_bytes(hex);
    encode_utf8_valid_utf8(t);
    is_char_boundary_start_end_of_seq(b);
    assert forall|i: int| 0 <= i < b.len() implies is_char_boundary(b, i) by {
        assert(t[i] as u8 == b[i]);
        let c = b[i];
        assert(c <= 127);
        utf8_byte_ranges_bitwise(c);
        is_char_boundary_iff_not_is_continuation_byte(b, i);
    }
}

/// What is left of a text of ASCII characters is such a text.
proof fn lemma_trimmed_is_ascii(s: Seq<char>)
    requires
        is_ascii_chars(s),
    ensures
        is_ascii_chars(trim_start(s, '#')),
    decreases s.len(),
{
    if s.len() > 0 && s[0] == '#' {
        lemma_trimmed_is_ascii(s.drop_first());
    }
}

/// Whether a character is the hexadecimal digit with the value `v`.
pub open spec fn is_hex(c: char, v: int) -> bool {
    ||| '0' <= c <= '9' && v == c as int - '0' as int
    ||| 'a' <= c <= 'f' && v == c as int - 'a' as int + 10
    ||| 'A' <= c <= 'F' && v == c as int - 'A' as int + 10
}

/// A text of a number sign and six hexadecimal digits denotes the colour whose lowest byte is
/// the first two digits, red, and whose highest is the last two, blue. What follows does not
/// matter.
pub proof fn law_colour_is_read(digits: Seq<char>, v: Seq<int>, rest: Seq<char>)
    requires
        digits.len() == 6,
        v.len() == 6,
        forall|i: int| 0 <= i < 6 ==> is_hex(#[trigger] digits[i], v[i]),
        is_ascii_chars(rest),
    ensures
        colorref(seq!['#'] + digits + rest) == (16 * v[4] + v[5]) * 0x10000 + (16 * v[2] + v[3])
            * 0x100 + (16 * v[0] + v[1]),
{
    let hex = seq!['#'] + digits + rest;
    assert(is_hex(digits[0], v[0]) && is_hex(digits[1], v[1]) && is_hex(digits[2], v[2]) && is_hex(
        digits[3],
        v[3],
    ) && is_hex(digits[4], v[4]) && is_hex(digits[5], v[5]));
    assert(hex.drop_first() =~= digits + rest);
    assert(trim_start(hex, '#') == trim_start(digits + rest, '#'));
    assert((digits + rest)[0] == digits[0]);
    assert(trim_start(hex, '#') == digits + rest);
    assert(is_ascii_chars(hex)) by {
        assert forall|i: int| 0 <= i < hex.len() implies '\0' <= #[trigger] hex[i] <= '\u{7f}' by {
            if 1 <= i < 7 {
                assert(hex[i] == digits[i - 1]);
                assert(is_hex(digits[i - 1], v[i - 1]));
            } else if i >= 7 {
                assert(hex[i] == rest[i - 7]);
            }
        }
    }
    law_ascii_is_separable(hex);
    let b = color_bytes(hex);
    assert(b[0] == digits[0] as u8 && b[1] == digits[1] as u8 && b[2] == digits[2] as u8 && b[3]
        == digits[3] as u8 && b[4] == digits[4] as u8 && b[5] == digits[5] as u8);
}

/// Whether a character is a hexadecimal digit.
pub open spec fn is_hex_char(c: char) -> bool {
    '0' <= c <= '9' || 'a' <= c <= 'f' || 'A' <= c <= 'F'
}

/// A component counts only where its second byte is a hexadecimal digit and its first is one
/// or a plus sign. A text with fewer than six bytes behind its number signs is black.
pub proof fn law_bad_components_are_zero(hex: Seq<char>, high: u8, low: u8)
    ensures
        !is_hex_char(low as char) ==> component(high, low) == 0,
        !is_hex_char(high as char) && high as char != '+' ==> component(high, low) == 0,
        color_bytes(hex).len() < 6 ==> colorref(hex) == 0,
{
}

} // verus!
