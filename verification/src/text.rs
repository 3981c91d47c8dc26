//! Decimal notation, read and written, for the integers that appear in
//! probe reports, messages and command lines; and lists of words.

use crate::strings::is_white_space;
use vstd::prelude::*;
use vstd::utf8::is_ascii_chars;

verus! {

/// The value of a decimal digit.
pub open spec fn digit_value(c: char) -> Option<nat> {
    if 48 <= c as u32 <= 57 {
        Some((c as u32 - 48) as nat)
    } else {
        None
    }
}

/// The number that a run of decimal digits writes; the empty run writes
/// zero, and a run that holds anything but digits writes nothing.
pub open spec fn digits_value(digits: Seq<char>) -> Option<nat>
    decreases digits.len(),
{
    if digits.len() == 0 {
        Some(0)
    } else {
        match (digits_value(digits.drop_last()), digit_value(digits.last())) {
            (Some(high), Some(low)) => Some(10 * high + low),
            _ => None,
        }
    }
}

/// The text without the plus sign that may lead it.
pub open spec fn unsigned_part(text: Seq<char>) -> Seq<char> {
    if text.len() > 0 && text[0] == '+' {
        text.subrange(1, text.len() as int)
    } else {
        text
    }
}

/// The number that a text writes in decimal notation, as far as a `u32`
/// holds it: one digit or more, after a plus sign or none, and nothing
/// else.
pub open spec fn decimal_u32(text: Seq<char>) -> Option<u32> {
    let digits = unsigned_part(text);
    if digits.len() == 0 {
        None
    } else {
        match digits_value(digits) {
            Some(value) => if value <= u32::MAX {
                Some(value as u32)
            } else {
                None
            },
            None => None,
        }
    }
}

/// Where a run of digits writes a number, so does each run that it begins
/// with, and none of them a greater one.
pub proof fn lemma_digits_of_prefix(digits: Seq<char>, len: int)
    requires
        0 <= len <= digits.len(),
        digits_value(digits) is Some,
    ensures
        digits_value(digits.subrange(0, len)) is Some,
        digits_value(digits.subrange(0, len))->0 <= digits_value(digits)->0,
    decreases digits.len(),
{
    if len == digits.len() {
        assert(digits.subrange(0, len) =~= digits);
    } else {
        lemma_digits_of_prefix(digits.drop_last(), len);
        assert(digits.drop_last().subrange(0, len) =~= digits.subrange(0, len));
    }
}

/// A run of digits that writes a number holds digits only.
pub proof fn lemma_digits_are_digits(digits: Seq<char>)
    requires
        digits_value(digits) is Some,
    ensures
        forall|i: int| 0 <= i < digits.len() ==> digit_value(#[trigger] digits[i]) is Some,
    decreases digits.len(),
{
    if digits.len() > 0 {
        lemma_digits_are_digits(digits.drop_last());
        assert forall|i: int| 0 <= i < digits.len() implies digit_value(
            #[trigger] digits[i],
        ) is Some by {
            if i < digits.len() - 1 {
                assert(digits.drop_last()[i] == digits[i]);
            }
        }
    }
}

/// A digit, like the plus sign, is an ASCII character.
proof fn lemma_digit_is_ascii(c: char)
    requires
        digit_value(c) is Some || c == '+',
    ensures
        '\0' <= c <= '\u{7f}',
{
}

/// A text that writes a number is made of ASCII characters.
pub proof fn lemma_decimal_is_ascii(text: Seq<char>)
    requires
        decimal_u32(text) is Some,
    ensures
        is_ascii_chars(text),
{
    let digits = unsigned_part(text);
    lemma_digits_are_digits(digits);
    assert forall|i: int| 0 <= i < text.len() implies '\0' <= #[trigger] text[i] <= '\u{7f}' by {
        if text[0] == '+' && i > 0 {
            assert(digits[i - 1] == text[i]);
        }
        lemma_digit_is_ascii(text[i]);
    }
}

/// Reads a `u32` off its decimal notation.
pub fn parse_u32(text: &str) -> (number: Option<u32>)
    ensures
        number == decimal_u32(text@),
{
    if !text.is_ascii() {
        proof {
            if decimal_u32(text@) is Some {
                lemma_decimal_is_ascii(text@);
            }
        }
        return None;
    }
    let len = text.unicode_len();
    let start: usize = if len > 0 && text.get_ascii(0) == 43 {
        1
    } else {
        0
    };
    if start == len {
        return None;
    }
    let ghost digits = unsigned_part(text@);
    let mut value: u64 = 0;
    let mut i: usize = start;
    assert(digits.subrange(0, 0) =~= Seq::<char>::empty());
    while i < len
        invariant
            start <= i <= len,
            len == text@.len(),
            text.is_ascii(),
            digits == unsigned_part(text@),
            digits.len() == len - start,
            forall|k: int| 0 <= k < digits.len() ==> digits[k] == text@[start + k],
            digits_value(digits.subrange(0, i - start)) == Some(value as nat),
            value <= u32::MAX,
        decreases len - i,
    {
        let code = text.get_ascii(i);
        let ghost longer = digits.subrange(0, i - start + 1);
        assert(longer.drop_last() =~= digits.subrange(0, i - start));
        assert(longer.last() == text@[i as int]);
        assert(text@[i as int] as u32 == code as u32);
        if code < 48 || code > 57 {
            proof {
                if digits_value(digits) is Some {
                    lemma_digits_of_prefix(digits, i - start + 1);
                }
            }
            return None;
        }
        let next: u64 = value * 10 + (code - 48) as u64;
        if next > u32::MAX as u64 {
            proof {
                if digits_value(digits) is Some {
                    lemma_digits_of_prefix(digits, i - start + 1);
                }
            }
            return None;
        }
        value = next;
        i = i + 1;
    }
    assert(digits.subrange(0, len - start) =~= digits);
    Some(value as u32)
}

/// The number of whitespace characters that a text begins with.
pub open spec fn leading_white_space(text: Seq<char>) -> nat
    decreases text.len(),
{
    if text.len() > 0 && is_white_space(text[0]) {
        1 + leading_white_space(text.drop_first())
    } else {
        0
    }
}

/// The number of whitespace characters that a text ends with.
pub open spec fn trailing_white_space(text: Seq<char>) -> nat
    decreases text.len(),
{
    if text.len() > 0 && is_white_space(text.last()) {
        1 + trailing_white_space(text.drop_last())
    } else {
        0
    }
}

/// A text without the whitespace that it begins with.
pub open spec fn trimmed_start(text: Seq<char>) -> Seq<char> {
    text.subrange(leading_white_space(text) as int, text.len() as int)
}

/// A text without the whitespace that it begins and ends with.
pub open spec fn trimmed(text: Seq<char>) -> Seq<char> {
    let rest = trimmed_start(text);
    rest.subrange(0, rest.len() - trailing_white_space(rest))
}

/// What a text begins with is whitespace as far as counted, and no
/// further.
pub proof fn lemma_leading_white_space(text: Seq<char>)
    ensures
        leading_white_space(text) <= text.len(),
        forall|i: int| 0 <= i < leading_white_space(text) ==> is_white_space(#[trigger] text[i]),
        leading_white_space(text) < text.len() ==> !is_white_space(
            text[leading_white_space(text) as int],
        ),
    decreases text.len(),
{
    if text.len() > 0 && is_white_space(text[0]) {
        let rest = text.drop_first();
        lemma_leading_white_space(rest);
        assert forall|i: int| 0 <= i < leading_white_space(text) implies is_white_space(
            #[trigger] text[i],
        ) by {
            if i > 0 {
                assert(rest[i - 1] == text[i]);
            }
        }
        if leading_white_space(text) < text.len() {
            assert(rest[leading_white_space(rest) as int] == text[leading_white_space(
                text,
            ) as int]);
        }
    }
}

/// What a text ends with is whitespace as far as counted, and no
/// further.
pub proof fn lemma_trailing_white_space(text: Seq<char>)
    ensures
        trailing_white_space(text) <= text.len(),
        forall|i: int|
            text.len() - trailing_white_space(text) <= i < text.len() ==> is_white_space(
                #[trigger] text[i],
            ),
        trailing_white_space(text) < text.len() ==> !is_white_space(
            text[text.len() - trailing_white_space(text) - 1],
        ),
    decreases text.len(),
{
    if text.len() > 0 && is_white_space(text.last()) {
        let rest = text.drop_last();
        lemma_trailing_white_space(rest);
        assert forall|i: int|
            text.len() - trailing_white_space(text) <= i < text.len() implies is_white_space(
            #[trigger] text[i],
        ) by {
            if i < text.len() - 1 {
                assert(rest[i] == text[i]);
            }
        }
        if trailing_white_space(text) < text.len() {
            assert(rest[rest.len() - trailing_white_space(rest) - 1] == text[text.len()
                - trailing_white_space(text) - 1]);
        }
    }
}

/// Trimming cuts whitespace and nothing else: the text is whitespace,
/// then what is left of it, then whitespace; and what is left neither
/// begins nor ends with whitespace.
pub proof fn lemma_trimmed_is_tight(text: Seq<char>)
    ensures
        ({
            let left = trimmed(text);
            let start = leading_white_space(text) as int;
            let end = start + left.len();
            &&& 0 <= start <= end <= text.len()
            &&& left == text.subrange(start, end)
            &&& forall|i: int| 0 <= i < start ==> is_white_space(#[trigger] text[i])
            &&& forall|i: int| end <= i < text.len() ==> is_white_space(#[trigger] text[i])
            &&& left.len() > 0 ==> !is_white_space(left[0]) && !is_white_space(left.last())
        }),
{
    let rest = trimmed_start(text);
    let left = trimmed(text);
    let start = leading_white_space(text) as int;
    let end = start + left.len();
    lemma_leading_white_space(text);
    lemma_trailing_white_space(rest);
    assert(left =~= text.subrange(start, end));
    assert forall|i: int| end <= i < text.len() implies is_white_space(#[trigger] text[i]) by {
        assert(rest[i - start] == text[i]);
    }
    if left.len() > 0 {
        assert(rest[0] == text[start]);
        assert(left[0] == rest[0]);
        assert(left.last() == rest[rest.len() - trailing_white_space(rest) - 1]);
    }
}

/// The texts of a list of strings, in order.
pub open spec fn words_of(items: Seq<String>) -> Seq<Seq<char>> {
    Seq::new(items.len(), |i: int| items[i]@)
}

/// Appends a word to a list of words.
pub fn push_word(words: &mut Vec<String>, word: &str)
    ensures
        words_of(final(words)@) == words_of(old(words)@).push(word@),
{
    words.push(String::from_str(word));
    assert(words_of(words@) =~= words_of(old(words)@).push(word@));
}

/// The character that writes the digit `d`.
pub open spec fn digit_char(d: nat) -> char {
    if d == 0 {
        '0'
    } else if d == 1 {
        '1'
    } else if d == 2 {
        '2'
    } else if d == 3 {
        '3'
    } else if d == 4 {
        '4'
    } else if d == 5 {
        '5'
    } else if d == 6 {
        '6'
    } else if d == 7 {
        '7'
    } else if d == 8 {
        '8'
    } else {
        '9'
    }
}

/// The decimal notation of `n`: most significant digit first, no leading
/// zero but for zero itself.
pub open spec fn decimal(n: nat) -> Seq<char>
    decreases n,
{
    if n < 10 {
        seq![digit_char(n)]
    } else {
        decimal(n / 10).push(digit_char(n % 10))
    }
}

/// The decimal notation of a signed integer: a minus sign before the
/// magnitude of a negative one.
pub open spec fn signed_decimal(n: int) -> Seq<char> {
    if n < 0 {
        seq!['-'] + decimal((-n) as nat)
    } else {
        decimal(n as nat)
    }
}

fn digit_text(d: u64) -> (text: &'static str)
    requires
        d < 10,
    ensures
        text@ == seq![digit_char(d as nat)],
{
    proof {
        reveal_strlit("0");
        reveal_strlit("1");
        reveal_strlit("2");
        reveal_strlit("3");
        reveal_strlit("4");
        reveal_strlit("5");
        reveal_strlit("6");
        reveal_strlit("7");
        reveal_strlit("8");
        reveal_strlit("9");
    }
    let text = if d == 0 {
        "0"
    } else if d == 1 {
        "1"
    } else if d == 2 {
        "2"
    } else if d == 3 {
        "3"
    } else if d == 4 {
        "4"
    } else if d == 5 {
        "5"
    } else if d == 6 {
        "6"
    } else if d == 7 {
        "7"
    } else if d == 8 {
        "8"
    } else {
        "9"
    };
    assert(text@ =~= seq![digit_char(d as nat)]);
    text
}

/// Writes `n` in decimal notation.
pub fn decimal_text(n: u64) -> (text: String)
    ensures
        text@ == decimal(n as nat),
    decreases n,
{
    if n < 10 {
        String::from_str(digit_text(n))
    } else {
        let mut text = decimal_text(n / 10);
        text.append(digit_text(n % 10));
        assert(text@ =~= decimal(n as nat));
        text
    }
}

/// Writes a signed integer in decimal notation.
pub fn signed_decimal_text(n: i64) -> (text: String)
    ensures
        text@ == signed_decimal(n as int),
{
    if n < 0 {
        let magnitude: u64 = if n == i64::MIN {
            0x8000_0000_0000_0000u64
        } else {
            (-n) as u64
        };
        proof {
            reveal_strlit("-");
        }
        let text = String::from_str("-").concat(decimal_text(magnitude).as_str());
        assert(text@ =~= signed_decimal(n as int));
        text
    } else {
        decimal_text(n as u64)
    }
}

} // verus!
