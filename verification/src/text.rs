//! Text handling: comparing strings, reading numbers and hex colors that the
//! pages' inputs give, and writing colors and titles.

use vstd::prelude::*;
use vstd::string::*;

verus! {

/// Compares two strings character by character.
pub fn str_eq(a: &str, b: &str) -> (r: bool)
    ensures
        r == (a@ == b@),
{
    let n = a.unicode_len();
    let m = b.unicode_len();
    if n != m {
        return false;
    }
    let mut i: usize = 0;
    while i < n
        invariant
            n == a@.len(),
            m == b@.len(),
            n == m,
            i <= n,
            forall|j: int| 0 <= j < i ==> a@[j] == b@[j],
        decreases n - i,
    {
        if a.get_char(i) != b.get_char(i) {
            return false;
        }
        i = i + 1;
    }
    assert(a@ =~= b@);
    true
}

/// The value of a hex digit, upper or lower case.
pub open spec fn hex_digit_value(c: u8) -> Option<u8> {
    if 48 <= c <= 57 {
        Some((c - 48) as u8)
    } else if 65 <= c <= 70 {
        Some((c - 55) as u8)
    } else if 97 <= c <= 102 {
        Some((c - 87) as u8)
    } else {
        None
    }
}

/// The bytes that a hex string stands for, two digits a byte, high digit
/// first; none where its length is odd or it holds a byte that is no hex
/// digit.
pub open spec fn spec_hex_decode(s: Seq<u8>) -> Option<Seq<u8>> {
    if s.len() % 2 == 0 && forall|i: int| 0 <= i < s.len() ==> #[trigger] hex_digit_value(s[i]) is Some {
        Some(
            Seq::new(
                s.len() / 2,
                |i: int|
                    (hex_digit_value(s[2 * i]).unwrap() * 16 + hex_digit_value(
                        s[2 * i + 1],
                    ).unwrap()) as u8,
            ),
        )
    } else {
        None
    }
}

/// `hex::decode`: decodes a hex string, two digits (upper or lower case) a
/// byte, high digit first; it fails on an odd length or on a byte that is no
/// hex digit. Which of its errors comes back is dropped here.
#[verifier::external_body]
pub(crate) fn hex_decode(data: &[u8]) -> (r: Option<Vec<u8>>)
    ensures
        r is Some <==> spec_hex_decode(data@) is Some,
        r matches Some(v) ==> spec_hex_decode(data@) == Some(v@),
{
    hex::decode(data).ok()
}

/// `c` is an ASCII decimal digit.
pub open spec fn is_decimal_digit(c: char) -> bool {
    '0' <= c <= '9'
}

/// The number that a string of decimal digits stands for.
pub open spec fn spec_digits_value(s: Seq<char>) -> nat
    decreases s.len(),
{
    if s.len() == 0 {
        0
    } else {
        spec_digits_value(s.drop_last()) * 10 + (s.last() as nat - '0' as nat) as nat
    }
}

/// The number that a string stands for as std reads an unsigned integer: an
/// optional `+`, then one or more decimal digits and nothing else.
pub open spec fn spec_decimal(s: Seq<char>) -> Option<nat> {
    let d = if s.len() > 0 && s[0] == '+' {
        s.drop_first()
    } else {
        s
    };
    if d.len() > 0 && forall|i: int| 0 <= i < d.len() ==> #[trigger] is_decimal_digit(d[i]) {
        Some(spec_digits_value(d))
    } else {
        None
    }
}

/// `str::parse::<u32>`: per std's documentation of `FromStr` for integers,
/// the string must be an optional `+` followed by decimal digits only, and
/// the number must fit.
#[verifier::external_body]
pub(crate) fn parse_u32(s: &str) -> (r: Option<u32>)
    ensures
        r is Some <==> (spec_decimal(s@) matches Some(n) && n <= u32::MAX),
        r matches Some(v) ==> spec_decimal(s@) == Some(v as nat),
{
    s.parse::<u32>().ok()
}

/// `str::parse::<usize>`, on the same terms as `parse_u32`.
#[verifier::external_body]
pub(crate) fn parse_usize(s: &str) -> (r: Option<usize>)
    ensures
        r is Some <==> (spec_decimal(s@) matches Some(n) && n <= usize::MAX),
        r matches Some(v) ==> spec_decimal(s@) == Some(v as nat),
{
    s.parse::<usize>().ok()
}

/// `c` with ASCII lower case letters made upper case.
pub open spec fn spec_ascii_upper(c: char) -> char {
    if 'a' <= c <= 'z' {
        ((c as u32) - 32) as char
    } else {
        c
    }
}

/// `str::to_ascii_uppercase`: per std's documentation, every ASCII letter
/// `a` to `z` becomes `A` to `Z` and every other character stays.
#[verifier::external_body]
pub(crate) fn to_ascii_uppercase(s: &str) -> (r: String)
    ensures
        r@ == s@.map_values(|c: char| spec_ascii_upper(c)),
{
    s.to_ascii_uppercase()
}

/// The title of a page: its path in upper case, without the leading slash.
pub open spec fn spec_page_title(path: Seq<char>) -> Seq<char> {
    path.map_values(|c: char| spec_ascii_upper(c)).drop_first()
}

/// The title of the page at `path`: the path in upper case without its first
/// character.
pub fn page_title(path: &str) -> (r: String)
    requires
        path@.len() >= 1,
        '\0' <= path@[0] <= '\u{7f}',
    ensures
        r@ == spec_page_title(path@),
{
    let upper = to_ascii_uppercase(path);
    let s = upper.as_str();
    let n = s.unicode_len();
    let rest = s.substring_char(1, n);
    assert(rest@ =~= spec_page_title(path@));
    String::from_str(rest)
}

/// The upper case hex digit of `d`.
pub open spec fn spec_hex_upper(d: u32) -> char {
    if d < 10 {
        ((d + 48) as u32) as char
    } else {
        ((d + 55) as u32) as char
    }
}

/// The six hex digits of the color in the low 24 bits of `rgb_raw`, after a `#`.
pub open spec fn spec_color_label(rgb_raw: u32) -> Seq<char> {
    seq!['#'] + Seq::new(6, |i: int| spec_hex_upper((rgb_raw >> ((20 - 4 * i) as u32)) & 0xfu32))
}

/// The upper case hex digit of `d`, as a string.
fn hex_upper(d: u32) -> (s: &'static str)
    requires
        d < 16,
    ensures
        s@ == seq![spec_hex_upper(d)],
{
    proof {
        reveal_strlit("0");
        reveal_strlit("1");
        reveal_strlit("2");
        reveal_strlit("3");
        reveal_strlit("4");
        reveal_strlit("5");
        reveal_strlit("6");
        reveal_strlit("7");
        reveal_strlit("8");
        reveal_strlit("9");
        reveal_strlit("A");
        reveal_strlit("B");
        reveal_strlit("C");
        reveal_strlit("D");
        reveal_strlit("E");
        reveal_strlit("F");
    }
    let s = if d == 0 {
        "0"
    } else if d == 1 {
        "1"
    } else if d == 2 {
        "2"
    } else if d == 3 {
        "3"
    } else if d == 4 {
        "4"
    } else if d == 5 {
        "5"
    } else if d == 6 {
        "6"
    } else if d == 7 {
        "7"
    } else if d == 8 {
        "8"
    } else if d == 9 {
        "9"
    } else if d == 10 {
        "A"
    } else if d == 11 {
        "B"
    } else if d == 12 {
        "C"
    } else if d == 13 {
        "D"
    } else if d == 14 {
        "E"
    } else {
        "F"
    };
    assert(s@ =~= seq![spec_hex_upper(d)]);
    s
}

/// The color of a lighting word as a CSS color: `#` and six upper case hex
/// digits.
pub fn color_label(rgb_raw: u32) -> (r: String)
    ensures
        r@ == spec_color_label(rgb_raw),
{
    proof {
        reveal_strlit("#");
    }
    let mut r = String::from_str("#");
    let mut i: u32 = 0;
    while i < 6
        invariant
            i <= 6,
            r@ == seq!['#'] + Seq::new(
                i as nat,
                |j: int| spec_hex_upper((rgb_raw >> ((20 - 4 * j) as u32)) & 0xfu32),
            ),
        decreases 6 - i,
    {
        let shift: u32 = 20 - 4 * i;
        let d: u32 = (rgb_raw >> shift) & 0xf;
        assert(((rgb_raw >> shift) & 0xfu32) < 16) by (bit_vector);
        r.append(hex_upper(d));
        i = i + 1;
        assert(r@ =~= seq!['#'] + Seq::new(
            i as nat,
            |j: int| spec_hex_upper((rgb_raw >> ((20 - 4 * j) as u32)) & 0xfu32),
        ));
    }
    r
}

} // verus!
