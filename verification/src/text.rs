//! Text: decimal and hexadecimal numbers, substring search, lists of lines.

use vstd::prelude::*;

verus! {

/// The character of a digit below sixteen, letters in lower case.
pub open spec fn digit_char(d: int) -> char {
    if d < 10 {
        ('0' as int + d) as char
    } else {
        ('a' as int + (d - 10)) as char
    }
}

/// The decimal digits of a natural number, without leading zeros.
pub open spec fn digits(n: nat) -> Seq<char>
    decreases n,
{
    if n < 10 {
        seq![digit_char(n as int)]
    } else {
        digits(n / 10).push(digit_char((n % 10) as int))
    }
}

/// An integer in decimal, with a minus sign in front where it is negative.
pub open spec fn decimal(n: int) -> Seq<char> {
    if n < 0 {
        seq!['-'] + digits((-n) as nat)
    } else {
        digits(n as nat)
    }
}

/// A 16-bit number as exactly four lower-case hexadecimal digits.
pub open spec fn hex4(n: u16) -> Seq<char> {
    seq![
        digit_char(n as int / 4096),
        digit_char(n as int / 256 % 16),
        digit_char(n as int / 16 % 16),
        digit_char(n as int % 16),
    ]
}

/// The value of a character as a digit: letters of either case stand for ten
/// and up; of any other character, minus one.
pub open spec fn digit_value(c: char) -> int {
    if '0' <= c <= '9' {
        c as int - '0' as int
    } else if 'a' <= c <= 'z' {
        c as int - 'a' as int + 10
    } else if 'A' <= c <= 'Z' {
        c as int - 'A' as int + 10
    } else {
        -1
    }
}

/// Whether a text is a non-empty run of digits in a base.
pub open spec fn all_digits(s: Seq<char>, radix: int) -> bool {
    &&& s.len() > 0
    &&& forall|i: int| 0 <= i < s.len() ==> 0 <= #[trigger] digit_value(s[i]) < radix
}

/// The number that a run of digits stands for in a base.
pub open spec fn magnitude(s: Seq<char>, radix: int) -> int
    decreases s.len(),
{
    if s.len() == 0 {
        0
    } else {
        magnitude(s.drop_last(), radix) * radix + digit_value(s.last())
    }
}

/// The integer that a text stands for in a base: an optional plus or minus
/// sign, then digits, at least one and nothing else.
pub open spec fn integer_value(s: Seq<char>, radix: int) -> Option<int> {
    if s.len() > 0 && s[0] == '-' {
        if all_digits(s.skip(1), radix) {
            Some(-magnitude(s.skip(1), radix))
        } else {
            None
        }
    } else {
        let unsigned = if s.len() > 0 && s[0] == '+' {
            s.skip(1)
        } else {
            s
        };
        if all_digits(unsigned, radix) {
            Some(magnitude(unsigned, radix))
        } else {
            None
        }
    }
}

/// The 64-bit integer that a text stands for in a base, if there is one.
pub open spec fn i64_value(s: Seq<char>, radix: int) -> Option<i64> {
    match integer_value(s, radix) {
        Some(v) => if i64::MIN <= v <= i64::MAX {
            Some(v as i64)
        } else {
            None
        },
        None => None,
    }
}

/// Whether `part` occurs in `whole` as a run of consecutive characters.
pub open spec fn occurs_in(part: Seq<char>, whole: Seq<char>) -> bool {
    exists|i: int|
        0 <= i && i + part.len() <= whole.len() && #[trigger] whole.subrange(i, i + part.len())
            == part
}

/// The texts of a list of strings.
pub open spec fn texts(lines: Seq<String>) -> Seq<Seq<char>> {
    lines.map_values(|line: String| line@)
}

/// `true` or `false`, spelled out.
pub open spec fn bool_text(b: bool) -> Seq<char> {
    if b {
        "true"@
    } else {
        "false"@
    }
}

/// Whether `haystack` holds `needle` somewhere: `str::contains` with a string
/// as its pattern. Claimed: it answers true exactly where some run of
/// consecutive characters of `haystack` equals `needle`.
#[verifier::external_body]
pub(crate) fn str_contains(haystack: &str, needle: &str) -> (found: bool)
    ensures
        found == occurs_in(needle@, haystack@),
{
    haystack.contains(needle)
}

/// The integer that a text stands for: `i64::from_str_radix`. Claimed: it
/// takes an optional plus or minus sign followed by digits of the base, letters
/// in either case, and fails on anything else, on a text without digits, and on
/// a value that 64 bits cannot hold. It panics on a base below 2 or above 36.
#[verifier::external_body]
pub(crate) fn parse_i64(s: &str, radix: u32) -> (value: Option<i64>)
    requires
        2 <= radix <= 36,
    ensures
        value == i64_value(s@, radix as int),
{
    i64::from_str_radix(s, radix).ok()
}

/// The text of a digit below sixteen.
fn digit_str(d: u64) -> (text: &'static str)
    requires
        d < 16,
    ensures
        text@ == seq![digit_char(d as int)],
{
    proof {
        reveal_strlit("0");
        reveal_strlit("1");
        reveal_strlit("2");
        reveal_strlit("3");
        reveal_strlit("4");
        reveal_strlit("5");
        reveal_strlit("6");
        reveal_strlit("7");
        reveal_strlit("8");
        reveal_strlit("9");
        reveal_strlit("a");
        reveal_strlit("b");
        reveal_strlit("c");
        reveal_strlit("d");
        reveal_strlit("e");
        reveal_strlit("f");
    }
    match d {
        0 => "0",
        1 => "1",
        2 => "2",
        3 => "3",
        4 => "4",
        5 => "5",
        6 => "6",
        7 => "7",
        8 => "8",
        9 => "9",
        10 => "a",
        11 => "b",
        12 => "c",
        13 => "d",
        14 => "e",
        _ => "f",
    }
}

/// The decimal digits of a number that is not negative.
fn digits_string(n: u64) -> (text: String)
    ensures
        text@ == digits(n as nat),
    decreases n,
{
    if n < 10 {
        digit_str(n).to_string()
    } else {
        let mut text = digits_string(n / 10);
        text.append(digit_str(n % 10));
        text
    }
}

/// A number in decimal.
pub fn decimal_string(n: i64) -> (text: String)
    ensures
        text@ == decimal(n as int),
{
    if n < 0 {
        let magnitude: u64 = (-(n + 1)) as u64 + 1;
        proof {
            reveal_strlit("-");
        }
        let mut text = "-".to_string();
        text.append(digits_string(magnitude).as_str());
        assert("-"@ == seq!['-']);
        text
    } else {
        digits_string(n as u64)
    }
}

/// A 16-bit number as four lower-case hexadecimal digits.
pub fn hex4_string(n: u16) -> (text: String)
    ensures
        text@ == hex4(n),
{
    let n: u64 = n as u64;
    let mut text = digit_str(n / 4096).to_string();
    text.append(digit_str(n / 256 % 16));
    text.append(digit_str(n / 16 % 16));
    text.append(digit_str(n % 16));
    text
}

/// `true` or `false`, spelled out.
pub fn bool_string(b: bool) -> (text: &'static str)
    ensures
        text@ == bool_text(b),
{
    if b {
        "true"
    } else {
        "false"
    }
}

/// A number below ten is shown as its digit, and a further digit comes at the
/// end.
pub proof fn digits_grow_at_the_end(m: nat, d: nat)
    requires
        d < 10,
    ensures
        digits(d) == seq![(48 + d) as char],
        m > 0 ==> digits(10 * m + d) == digits(m) + seq![(48 + d) as char],
{
    if m > 0 {
        assert((10 * m + d) / 10 == m && (10 * m + d) % 10 == d);
        assert(digits(10 * m + d) =~= digits(m) + seq![(48 + d) as char]);
    }
}

/// No number but zero is shown with a zero in front.
pub proof fn digits_have_no_leading_zero(n: nat)
    requires
        n > 0,
    ensures
        digits(n).len() > 0,
        '1' <= digits(n)[0] <= '9',
    decreases n,
{
    if n >= 10 {
        digits_have_no_leading_zero(n / 10);
    }
}

/// A number is shown by its digits, and its negative by a minus sign before
/// them.
pub proof fn decimal_shows_the_sign(n: nat)
    ensures
        decimal(n as int) == digits(n),
        n > 0 ==> decimal(-n) == seq!['-'] + digits(n),
{
}

/// What a hexadecimal digit in lower case stands for.
pub open spec fn hex_digit(c: char) -> int {
    if '0' <= c <= '9' {
        c as int - '0' as int
    } else {
        c as int - 'a' as int + 10
    }
}

/// A digit stands for its number.
proof fn digit_char_stands(d: int)
    requires
        0 <= d < 16,
    ensures
        hex_digit(digit_char(d)) == d,
        '0' <= digit_char(d) <= '9' || 'a' <= digit_char(d) <= 'f',
{
}

/// A number below 65536 from its four hexadecimal digits.
proof fn four_digits(n: int)
    requires
        0 <= n < 65536,
    ensures
        0 <= n / 4096 < 16,
        n / 4096 * 4096 + n / 256 % 16 * 256 + n / 16 % 16 * 16 + n % 16 == n,
{
    assert(n / 16 / 16 == n / 256);
    assert(n / 256 / 16 == n / 4096);
}

/// Four hexadecimal digits, in lower case, make up the number again.
pub proof fn hex4_makes_up_the_number(n: u16)
    ensures
        hex4(n).len() == 4,
        forall|i: int|
            0 <= i < 4 ==> '0' <= #[trigger] hex4(n)[i] <= '9' || 'a' <= hex4(n)[i] <= 'f',
        hex_digit(hex4(n)[0]) * 4096 + hex_digit(hex4(n)[1]) * 256 + hex_digit(hex4(n)[2]) * 16
            + hex_digit(hex4(n)[3]) == n,
{
    let m = n as int;
    four_digits(m);
    digit_char_stands(m / 4096);
    digit_char_stands(m / 256 % 16);
    digit_char_stands(m / 16 % 16);
    digit_char_stands(m % 16);
    let h = hex4(n);
    assert(h[0] == digit_char(m / 4096));
    assert(h[1] == digit_char(m / 256 % 16));
    assert(h[2] == digit_char(m / 16 % 16));
    assert(h[3] == digit_char(m % 16));
}

/// A text occurs in another exactly where the other is made up of something, the
/// text, and something.
pub proof fn occurring_is_being_a_part(part: Seq<char>, whole: Seq<char>)
    ensures
        occurs_in(part, whole) <==> exists|a: Seq<char>, b: Seq<char>|
            whole == #[trigger] (a + part + b),
{
    if occurs_in(part, whole) {
        let i = choose|i: int|
            0 <= i && i + part.len() <= whole.len() && #[trigger] whole.subrange(
                i,
                i + part.len(),
            ) == part;
        let (a, b) = (whole.take(i), whole.skip(i + part.len()));
        assert(whole =~= a + part + b);
    }
    if exists|a: Seq<char>, b: Seq<char>| whole == #[trigger] (a + part + b) {
        let (a, b) = choose|a: Seq<char>, b: Seq<char>| whole == #[trigger] (a + part + b);
        assert(whole.subrange(a.len() as int, (a.len() + part.len()) as int) =~= part);
    }
}

/// Truth values are spelled `true` and `false`.
pub proof fn truth_values_are_spelled_out(b: bool)
    ensures
        b ==> bool_text(b) == seq!['t', 'r', 'u', 'e'],
        !b ==> bool_text(b) == seq!['f', 'a', 'l', 's', 'e'],
{
    reveal_strlit("true");
    reveal_strlit("false");
}

/// A list of lines has the text of each at its place.
pub proof fn texts_are_in_order(lines: Seq<String>)
    ensures
        texts(lines).len() == lines.len(),
        forall|i: int| 0 <= i < lines.len() ==> #[trigger] texts(lines)[i] == lines[i]@,
{
}

/// A hexadecimal number without a sign is sixteen times as large, and the value
/// of the digit more, with a digit put behind it. A single digit stands for its
/// value.
pub proof fn hexadecimal_grows_at_the_end(s: Seq<char>, c: char)
    requires
        '0' <= c <= '9' || 'a' <= c <= 'f' || 'A' <= c <= 'F',
    ensures
        ({
            let value = if '0' <= c <= '9' {
                c as int - '0' as int
            } else if 'a' <= c <= 'f' {
                c as int - 'a' as int + 10
            } else {
                c as int - 'A' as int + 10
            };
            &&& integer_value(seq![c], 16) == Some(value)
            &&& s.len() > 0 && s[0] != '-' && s[0] != '+' ==> integer_value(s.push(c), 16)
                == match integer_value(s, 16) {
                Some(v) => Some(v * 16 + value),
                None => None,
            }
        }),
{
    assert(seq![c].drop_last() =~= Seq::<char>::empty());
    reveal_with_fuel(magnitude, 2);
    let t = s.push(c);
    assert(t.drop_last() =~= s);
    if all_digits(t, 16) && s.len() > 0 {
        assert forall|i: int| 0 <= i < s.len() implies 0 <= #[trigger] digit_value(s[i]) < 16 by {
            assert(t[i] == s[i]);
        }
    }
}

/// A sign may stand before a hexadecimal number, and a minus sign negates it.
pub proof fn a_sign_may_come_first(s: Seq<char>)
    requires
        s.len() > 0,
        s[0] != '-',
        s[0] != '+',
    ensures
        integer_value(seq!['+'] + s, 16) == integer_value(s, 16),
        integer_value(seq!['-'] + s, 16) == match integer_value(s, 16) {
            Some(v) => Some(-v),
            None => None,
        },
{
    assert((seq!['+'] + s).skip(1) =~= s);
    assert((seq!['-'] + s).skip(1) =~= s);
}

} // verus!
