//! Text as it arrives in payloads and leaves in them: UTF-8, surrounding white space and decimal
//! numbers.

use vstd::prelude::*;
use vstd::string::*;
use vstd::utf8::*;

verus! {

/// The characters with the Unicode property White_Space.
pub open spec fn is_white_space(c: char) -> bool {
    ||| '\u{9}' <= c <= '\u{d}'
    ||| c == ' '
    ||| c == '\u{85}'
    ||| c == '\u{a0}'
    ||| c == '\u{1680}'
    ||| '\u{2000}' <= c <= '\u{200a}'
    ||| c == '\u{2028}'
    ||| c == '\u{2029}'
    ||| c == '\u{202f}'
    ||| c == '\u{205f}'
    ||| c == '\u{3000}'
}

/// `s` without the white space in front.
pub open spec fn without_leading_space(s: Seq<char>) -> Seq<char>
    decreases s.len(),
{
    if s.len() > 0 && is_white_space(s[0]) {
        without_leading_space(s.drop_first())
    } else {
        s
    }
}

/// `s` without the white space at the end.
pub open spec fn without_trailing_space(s: Seq<char>) -> Seq<char>
    decreases s.len(),
{
    if s.len() > 0 && is_white_space(s.last()) {
        without_trailing_space(s.drop_last())
    } else {
        s
    }
}

/// `s` without the white space around it.
pub open spec fn trimmed(s: Seq<char>) -> Seq<char> {
    without_trailing_space(without_leading_space(s))
}

/// The error of `core::str::from_utf8`; nothing is read from it.
#[verifier::external_type_specification]
#[verifier::external_body]
pub struct ExUtf8Error(core::str::Utf8Error);

/// `core::str::from_utf8` succeeds exactly on valid UTF-8, and the text it returns is what the
/// bytes encode.
pub assume_specification[ core::str::from_utf8 ](v: &[u8]) -> (text: Result<&str, core::str::Utf8Error>)
    ensures
        text is Ok <==> valid_utf8(v@),
        text matches Ok(s) ==> s@ == decode_utf8(v@),
;

/// `str::trim` returns the text without leading and trailing characters of the Unicode property
/// White_Space.
pub assume_specification[ str::trim ](s: &str) -> (res: &str)
    ensures
        res@ == trimmed(s@),
;

/// Whether two texts are equal, character by character.
pub fn same_text(a: &str, b: &str) -> (same: bool)
    ensures
        same == (a@ == b@),
{
    broadcast use encode_utf8_decode_utf8;

    let left: &[u8] = a.as_bytes();
    let right: &[u8] = b.as_bytes();
    if left.len() != right.len() {
        return false;
    }
    let mut i: usize = 0;
    while i < left.len()
        invariant
            i <= left@.len() == right@.len(),
            left@ == encode_utf8(a@),
            right@ == encode_utf8(b@),
            forall|j: int| 0 <= j < i ==> left@[j] == right@[j],
        decreases left@.len() - i,
    {
        if left[i] != right[i] {
            return false;
        }
        i = i + 1;
    }
    assert(left@ =~= right@);
    assert(decode_utf8(encode_utf8(a@)) == a@);
    assert(decode_utf8(encode_utf8(b@)) == b@);
    true
}

/// Whether `c` is one of the digits 0 to 9.
pub open spec fn is_digit(c: char) -> bool {
    '0' <= c <= '9'
}

/// The number that a row of digits denotes in base ten.
pub open spec fn digits_value(digits: Seq<char>) -> nat
    decreases digits.len(),
{
    if digits.len() == 0 {
        0
    } else {
        10 * digits_value(digits.drop_last()) + (digits.last() as nat - '0' as nat) as nat
    }
}

/// Whether `text` is made of digits alone.
pub open spec fn all_digits(text: Seq<char>) -> bool {
    forall|i: int| 0 <= i < text.len() ==> is_digit(#[trigger] text[i])
}

/// `text` without a plus sign in front.
pub open spec fn without_plus(text: Seq<char>) -> Seq<char> {
    if text.len() > 0 && text[0] == '+' {
        text.skip(1)
    } else {
        text
    }
}

/// The number that a text denotes: digits, at least one, after an optional plus sign, with a
/// value that a `u32` holds.
pub open spec fn number_in(text: Seq<char>) -> Option<u32> {
    let digits = without_plus(text);
    if digits.len() > 0 && all_digits(digits) && digits_value(digits) <= u32::MAX {
        Some(digits_value(digits) as u32)
    } else {
        None
    }
}

/// More digits never denote less.
proof fn lemma_prefix_value(digits: Seq<char>, n: int)
    requires
        0 <= n <= digits.len(),
    ensures
        digits_value(digits.take(n)) <= digits_value(digits),
    decreases digits.len(),
{
    if n < digits.len() {
        lemma_prefix_value(digits.drop_last(), n);
        assert(digits.drop_last().take(n) =~= digits.take(n));
    } else {
        assert(digits.take(n) =~= digits);
    }
}

/// Reads a decimal number.
pub fn parse_number(text: &str) -> (number: Option<u32>)
    ensures
        number == number_in(text@),
{
    let ghost digits = without_plus(text@);
    if !text.is_ascii() {
        proof {
            let k = choose|k: int| 0 <= k < text@.len() && !('\0' <= #[trigger] text@[k] <= '\u{7f}');
            let j = k - (text@.len() - digits.len());
            assert(digits[j] == text@[k]);
            assert(!is_digit(digits[j]));
        }
        return None;
    }
    let bytes: &[u8] = text.as_bytes();
    proof {
        is_ascii_chars_encode_utf8(text@);
    }
    let start: usize = if bytes.len() > 0 && bytes[0] == 43 { 1 } else { 0 };
    assert(digits =~= text@.skip(start as int));
    if start == bytes.len() {
        return None;
    }
    let mut value: u64 = 0;
    let mut i: usize = start;
    assert(digits.take(0) =~= Seq::<char>::empty());
    while i < bytes.len()
        invariant
            start <= i <= bytes@.len() == text@.len(),
            start < bytes@.len(),
            start <= 1,
            forall|j: int| 0 <= j < bytes@.len() ==> #[trigger] bytes@[j] == text@[j] as u8,
            is_ascii_chars(text@),
            digits == without_plus(text@),
            digits == text@.skip(start as int),
            value <= u32::MAX,
            value == digits_value(digits.take(i - start)),
            all_digits(digits.take(i - start)),
        decreases bytes@.len() - i,
    {
        let b: u8 = bytes[i];
        assert(digits[i - start] == text@[i as int]);
        if b < 48 || b > 57 {
            assert(!is_digit(digits[i - start]));
            return None;
        }
        value = value * 10 + (b - 48) as u64;
        proof {
            let longer = digits.take(i + 1 - start);
            assert(longer.drop_last() =~= digits.take(i - start));
            assert forall|j: int| 0 <= j < longer.len() implies is_digit(#[trigger] longer[j]) by {
                assert(j < i - start ==> longer[j] == digits.take(i - start)[j]);
            }
            lemma_prefix_value(digits, i + 1 - start);
        }
        if value > u32::MAX as u64 {
            return None;
        }
        i = i + 1;
    }
    assert(digits.take(i - start) =~= digits);
    Some(value as u32)
}

/// The digit with the value `d`.
pub open spec fn digit(d: nat) -> char {
    ('0' as nat + d) as char
}

/// `n` in base ten, without leading zeros.
pub open spec fn decimal(n: nat) -> Seq<char>
    decreases n,
{
    if n < 10 {
        seq![digit(n)]
    } else {
        decimal(n / 10).push(digit(n % 10))
    }
}

/// The text of one digit.
fn digit_str(d: u32) -> (text: &'static str)
    requires
        d < 10,
    ensures
        text@ == seq![digit(d as nat)],
{
    proof {
        reveal_strlit("0");
        reveal_strlit("1");
        reveal_strlit("2");
        reveal_strlit("3");
        reveal_strlit("4");
        reveal_strlit("5");
        reveal_strlit("6");
        reveal_strlit("7");
        reveal_strlit("8");
        reveal_strlit("9");
    }
    match d {
        0 => "0",
        1 => "1",
        2 => "2",
        3 => "3",
        4 => "4",
        5 => "5",
        6 => "6",
        7 => "7",
        8 => "8",
        _ => "9",
    }
}

/// Appends `n` in base ten.
pub fn push_number(out: &mut String, n: u32)
    ensures
        final(out)@ == old(out)@ + decimal(n as nat),
    decreases n,
{
    if n >= 10 {
        push_number(out, n / 10);
    }
    out.append(digit_str(n % 10));
}

/// The digits of a number in base ten denote that number.
pub proof fn lemma_decimal_value(n: nat)
    ensures
        decimal(n).len() > 0,
        all_digits(decimal(n)),
        digits_value(decimal(n)) == n,
    decreases n,
{
    if n < 10 {
        assert(decimal(n).drop_last() =~= Seq::<char>::empty());
        assert(digits_value(decimal(n).drop_last()) == 0);
        assert(decimal(n).last() == digit(n));
    } else {
        lemma_decimal_value(n / 10);
        assert(decimal(n).drop_last() =~= decimal(n / 10));
        assert(decimal(n).last() == digit(n % 10));
    }
}

/// A number written in base ten is read back as that number.
pub proof fn law_number_round_trip(n: u32)
    ensures
        number_in(decimal(n as nat)) == Some(n),
{
    lemma_decimal_value(n as nat);
    assert(is_digit(decimal(n as nat)[0]));
}

/// White space is exactly the characters with these code points.
pub proof fn law_white_space_code_points(c: char)
    ensures
        is_white_space(c) <==> {
            let code = c as u32;
            ||| 9 <= code <= 13
            ||| code == 32
            ||| code == 133
            ||| code == 160
            ||| code == 5760
            ||| 8192 <= code <= 8202
            ||| code == 8232
            ||| code == 8233
            ||| code == 8239
            ||| code == 8287
            ||| code == 12288
        },
{
}

/// Only digits make a number: at least one, and nothing else but a plus sign in front.
pub proof fn law_number_is_made_of_digits(text: Seq<char>)
    requires
        number_in(text) is Some,
    ensures
        text.len() > 0,
        forall|i: int| 0 < i < text.len() ==> '0' <= #[trigger] text[i] <= '9',
        text[0] == '+' ==> text.len() > 1,
        text[0] != '+' ==> '0' <= text[0] <= '9',
{
    let digits = without_plus(text);
    assert forall|i: int| 0 < i < text.len() implies '0' <= #[trigger] text[i] <= '9' by {
        assert(is_digit(digits[i - (text.len() - digits.len())]));
    }
    assert(is_digit(digits[0]));
}

/// A digit alone denotes its value.
pub proof fn law_one_digit_is_its_value(c: char)
    requires
        '0' <= c <= '9',
    ensures
        number_in(seq![c]) == Some((c as u32 - '0' as u32) as u32),
{
    let text = seq![c];
    assert(text.drop_last() =~= Seq::<char>::empty());
    assert(digits_value(text.drop_last()) == 0);
    assert(without_plus(text) =~= text);
    assert(all_digits(text));
}

/// One more digit behind a number multiplies it by ten and adds the digit, unless a `u32` no
/// longer holds the value.
pub proof fn law_next_digit_extends_the_number(text: Seq<char>, c: char)
    requires
        number_in(text) is Some,
        '0' <= c <= '9',
    ensures
        ({
            let value = 10 * number_in(text)->0 + (c as int - '0' as int);
            number_in(text.push(c)) == if value <= u32::MAX {
                Some(value as u32)
            } else {
                None::<u32>
            }
        }),
{
    let digits = without_plus(text);
    assert(without_plus(text.push(c)) =~= digits.push(c));
    assert(digits.push(c).drop_last() =~= digits);
    assert(all_digits(digits.push(c)));
}

/// Nothing put behind a text that is no number makes it one, but for the empty text and a plus
/// sign alone.
pub proof fn law_no_number_stays_none(text: Seq<char>, c: char)
    requires
        number_in(text) is None,
        text.len() > 0,
        text != seq!['+'],
    ensures
        number_in(text.push(c)) is None,
{
    let digits = without_plus(text);
    if digits.len() == 0 {
        assert(text =~= seq!['+']);
    }
    assert(without_plus(text.push(c)) =~= digits.push(c));
    assert(digits.push(c).drop_last() =~= digits);
    if all_digits(digits.push(c)) {
        assert forall|i: int| 0 <= i < digits.len() implies is_digit(#[trigger] digits[i]) by {
            assert(digits.push(c)[i] == digits[i]);
        }
    }
}

/// A plus sign in front changes nothing about what a text denotes, unless there was one already.
pub proof fn law_plus_sign_is_optional(text: Seq<char>)
    requires
        text.len() > 0,
        text[0] != '+',
    ensures
        number_in(seq!['+'] + text) == number_in(text),
{
    assert(without_plus(seq!['+'] + text) =~= text);
}

/// A number is written in digits, at least one, and without a leading zero: it is one digit long
/// or begins with another digit than 0.
pub proof fn law_written_number_has_no_leading_zero(n: nat)
    ensures
        decimal(n).len() > 0,
        forall|i: int| 0 <= i < decimal(n).len() ==> '0' <= #[trigger] decimal(n)[i] <= '9',
        decimal(n).len() == 1 || decimal(n)[0] != '0',
        decimal(n).len() == 1 <==> n < 10,
        n < 10 ==> decimal(n)[0] as int == '0' as int + n,
    decreases n,
{
    lemma_decimal_value(n);
    assert forall|i: int| 0 <= i < decimal(n).len() implies '0' <= #[trigger] decimal(n)[i] <= '9' by {
        assert(is_digit(decimal(n)[i]));
    }
    if n >= 10 {
        law_written_number_has_no_leading_zero(n / 10);
        assert(decimal(n)[0] == decimal(n / 10)[0]);
    }
}

/// Ten times a number and a digit is written as the number with the digit behind it.
pub proof fn law_next_digit_is_written_behind(n: nat, d: nat)
    requires
        n > 0,
        d < 10,
    ensures
        decimal(10 * n + d).len() == decimal(n).len() + 1,
        decimal(10 * n + d).drop_last() == decimal(n),
        decimal(10 * n + d).last() as int == '0' as int + d,
{
    assert((10 * n + d) / 10 == n && (10 * n + d) % 10 == d);
    assert(decimal(10 * n + d).drop_last() =~= decimal(n));
}

/// Different numbers are written differently.
pub proof fn law_written_numbers_differ(a: u32, b: u32)
    requires
        decimal(a as nat) == decimal(b as nat),
    ensures
        a == b,
{
    law_number_round_trip(a);
    law_number_round_trip(b);
}

} // verus!
