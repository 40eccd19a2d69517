//! Contracts for functions of the standard library that the examples call
//! and that `vstd` gives no contract. They are believed, not proved: each
//! says what the function's documentation says.

use vstd::prelude::*;

verus! {

/// `String::push` appends the given character to the end of the string.
pub assume_specification[ String::push ](s: &mut String, c: char)
    ensures
        final(s)@ == old(s)@.push(c),
;

/// `c` is whitespace: one of the 25 characters that Unicode marks as
/// `White_Space`. They are the tab, the line feed, the vertical tab, the
/// form feed, the carriage return and the space; the next-line sign and the
/// no-break space; the ogham space mark; the spaces from the en quad to the
/// hair space; the line and the paragraph separator; the narrow no-break
/// space, the medium mathematical space and the ideographic space.
pub open spec fn is_whitespace(c: char) -> bool {
    ||| '\u{9}' <= c <= '\u{d}'
    ||| c == ' '
    ||| c == '\u{85}'
    ||| c == '\u{a0}'
    ||| c == '\u{1680}'
    ||| '\u{2000}' <= c <= '\u{200a}'
    ||| c == '\u{2028}'
    ||| c == '\u{2029}'
    ||| c == '\u{202f}'
    ||| c == '\u{205f}'
    ||| c == '\u{3000}'
}

/// A text without the whitespace at its start.
pub open spec fn trimmed_start(text: Seq<char>) -> Seq<char>
    decreases text.len(),
{
    if text.len() > 0 && is_whitespace(text[0]) {
        trimmed_start(text.drop_first())
    } else {
        text
    }
}

/// A text without the whitespace at its end.
pub open spec fn trimmed_end(text: Seq<char>) -> Seq<char>
    decreases text.len(),
{
    if text.len() > 0 && is_whitespace(text.last()) {
        trimmed_end(text.drop_last())
    } else {
        text
    }
}

/// A text without the whitespace at its start and at its end.
pub open spec fn trimmed(text: Seq<char>) -> Seq<char> {
    trimmed_end(trimmed_start(text))
}

/// `str::trim` returns the slice without leading and trailing whitespace,
/// where whitespace is what Unicode marks as `White_Space`.
pub assume_specification[ str::trim ](s: &str) -> (r: &str)
    ensures
        r@ == trimmed(s@),
;

/// The error of a failed `str::parse` to an integer.
#[verifier::external_type_specification]
#[verifier::external_body]
pub struct ExParseIntError(core::num::ParseIntError);

/// `c` is one of the ten decimal digits.
pub open spec fn is_digit(c: char) -> bool {
    '0' <= c <= '9'
}

/// The number that a text of decimal digits writes; zero for the empty
/// text.
pub open spec fn digits_value(digits: Seq<char>) -> nat
    decreases digits.len(),
{
    if digits.len() == 0 {
        0
    } else {
        digits_value(digits.drop_last()) * 10 + (digits.last() as nat - '0' as nat) as nat
    }
}

/// `digits` is not empty and holds decimal digits only.
pub open spec fn is_numeral(digits: Seq<char>) -> bool {
    digits.len() > 0 && forall|i: int| 0 <= i < digits.len() ==> is_digit(#[trigger] digits[i])
}

/// A text without the plus sign that it may start with.
pub open spec fn without_plus(text: Seq<char>) -> Seq<char> {
    if text.len() > 0 && text[0] == '+' {
        text.drop_first()
    } else {
        text
    }
}

/// What parsing a text as a `u32` gives: the text has to be an optional
/// plus sign followed by at least one character, all of them decimal
/// digits, and the number they write has to fit.
pub open spec fn parsed_u32(text: Seq<char>) -> Option<u32> {
    if is_numeral(without_plus(text)) && digits_value(without_plus(text)) <= u32::MAX {
        Some(digits_value(without_plus(text)) as u32)
    } else {
        None
    }
}

/// `str::parse::<u32>`: the text is expected to be an optional plus sign
/// followed by only digits; anything else, the empty text, and a number too
/// large for the type are errors. The contract says when the call succeeds
/// and with which number.
#[verifier::external_body]
pub(crate) fn parse_u32(text: &str) -> (parsed: Result<u32, core::num::ParseIntError>)
    ensures
        match parsed {
            Ok(number) => parsed_u32(text@) == Some(number),
            Err(_) => parsed_u32(text@) is None,
        },
{
    text.parse::<u32>()
}

/// A text in which every character `from` is replaced by the text `to`,
/// and every other character stays.
pub open spec fn replaced(text: Seq<char>, from: char, to: Seq<char>) -> Seq<char>
    decreases text.len(),
{
    if text.len() == 0 {
        Seq::empty()
    } else {
        replaced(text.drop_last(), from, to) + if text.last() == from {
            to
        } else {
            seq![text.last()]
        }
    }
}

/// `str::replace` with a character as its pattern: a new string in which
/// all matches of the pattern, that is all occurrences of the character,
/// are replaced by the replacement.
#[verifier::external_body]
pub(crate) fn replace_char(text: &str, from: char, to: &str) -> (result: String)
    ensures
        result@ == replaced(text@, from, to@),
{
    text.replace(from, to)
}

} // verus!
