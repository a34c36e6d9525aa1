//! Reading a colour from its hexadecimal text.

use crate::color::Color;
use vstd::prelude::*;
use vstd::string::StrSliceExecFns;

verus! {

/// Why a text is not a colour.
#[derive(Clone, Copy, Debug, PartialEq, Eq, Structural)]
pub enum ParseError {
    /// Without its leading `#`, the text is not six characters long.
    InvalidLength,
    /// One of the six characters is not a hexadecimal digit.
    InvalidHexDigit,
}

impl ParseError {
    /// What [`ParseError::message`] says of this error.
    pub open spec fn message_spec(self) -> Seq<char> {
        match self {
            ParseError::InvalidLength => "input exactly 6"@,
            ParseError::InvalidHexDigit => "invalid digit found in string"@,
        }
    }

    /// A few words for the user on what is wrong with the text.
    pub fn message(&self) -> (text: &'static str)
        ensures
            text@ == self.message_spec(),
    {
        match self {
            ParseError::InvalidLength => "input exactly 6",
            ParseError::InvalidHexDigit => "invalid digit found in string",
        }
    }
}

/// Whether `c` is one of `0`-`9`, `a`-`f` or `A`-`F`.
pub open spec fn is_hex_digit(c: char) -> bool {
    ||| '0' <= c <= '9'
    ||| 'a' <= c <= 'f'
    ||| 'A' <= c <= 'F'
}

/// The number that the hexadecimal digit `c` stands for.
pub open spec fn hex_digit_value(c: char) -> int
    recommends
        is_hex_digit(c),
{
    if '0' <= c <= '9' {
        c as int - '0' as int
    } else if 'a' <= c <= 'f' {
        c as int - 'a' as int + 10
    } else {
        c as int - 'A' as int + 10
    }
}

/// The byte written as the two hexadecimal digits `high` and `low`.
pub open spec fn hex_pair_value(high: char, low: char) -> int
    recommends
        is_hex_digit(high),
        is_hex_digit(low),
{
    16 * hex_digit_value(high) + hex_digit_value(low)
}

/// `text` without one leading `#`, if it has one.
pub open spec fn without_hash(text: Seq<char>) -> Seq<char> {
    if text.len() > 0 && text[0] == '#' {
        text.subrange(1, text.len() as int)
    } else {
        text
    }
}

/// Whether `digits` is six hexadecimal digits.
pub open spec fn is_hex_triplet(digits: Seq<char>) -> bool {
    &&& digits.len() == 6
    &&& forall|i: int| 0 <= i < 6 ==> is_hex_digit(#[trigger] digits[i])
}

/// The colour that `text` denotes, or the reason why it denotes none.
///
/// One leading `#` is set aside. What is left must be six characters, or the
/// length is at fault; each of the six must be a hexadecimal digit of either
/// case, or a digit is at fault. The first two digits are then the red
/// channel, the next two the green one, the last two the blue one.
pub open spec fn parse_spec(text: Seq<char>) -> Result<Color, ParseError> {
    let digits = without_hash(text);
    if digits.len() != 6 {
        Err(ParseError::InvalidLength)
    } else if !is_hex_triplet(digits) {
        Err(ParseError::InvalidHexDigit)
    } else {
        Ok(
            Color {
                red: hex_pair_value(digits[0], digits[1]) as u8,
                green: hex_pair_value(digits[2], digits[3]) as u8,
                blue: hex_pair_value(digits[4], digits[5]) as u8,
            },
        )
    }
}

/// The value of one hexadecimal digit, or `None` for any other character.
fn digit_value(c: char) -> (value: Option<u8>)
    ensures
        value is Some <==> is_hex_digit(c),
        value matches Some(v) ==> v == hex_digit_value(c) && v < 16,
{
    if '0' <= c && c <= '9' {
        Some(c as u8 - '0' as u8)
    } else if 'a' <= c && c <= 'f' {
        Some(c as u8 - 'a' as u8 + 10)
    } else if 'A' <= c && c <= 'F' {
        Some(c as u8 - 'A' as u8 + 10)
    } else {
        None
    }
}

/// The byte written as the digits `high` and `low`, or `None` if either is
/// no hexadecimal digit.
fn pair_value(high: char, low: char) -> (value: Option<u8>)
    ensures
        value is Some <==> is_hex_digit(high) && is_hex_digit(low),
        value matches Some(v) ==> v == hex_pair_value(high, low),
{
    match (digit_value(high), digit_value(low)) {
        (Some(high), Some(low)) => Some(high * 16 + low),
        _ => None,
    }
}

impl Color {
    /// Reads a colour from `text`, written as `rrggbb` or `#rrggbb`.
    ///
    /// The text is taken as it is: a caller that wants surrounding blanks
    /// ignored removes them first.
    pub fn parse(text: &str) -> (result: Result<Color, ParseError>)
        ensures
            result == parse_spec(text@),
    {
        let length: usize = text.unicode_len();
        let start: usize = if length > 0 && text.get_char(0) == '#' {
            1
        } else {
            0
        };
        if length - start != 6 {
            return Err(ParseError::InvalidLength);
        }
        let ghost digits = without_hash(text@);
        assert(forall|i: int| 0 <= i < 6 ==> digits[i] == text@[start + i]);
        let red = pair_value(text.get_char(start), text.get_char(start + 1));
        let green = pair_value(text.get_char(start + 2), text.get_char(start + 3));
        let blue = pair_value(text.get_char(start + 4), text.get_char(start + 5));
        match (red, green, blue) {
            (Some(red), Some(green), Some(blue)) => {
                assert(is_hex_triplet(digits));
                Ok(Color { red, green, blue })
            },
            _ => {
                assert(!is_hex_triplet(digits));
                Err(ParseError::InvalidHexDigit)
            },
        }
    }
}

impl<'a> TryFrom<&'a str> for Color {
    type Error = ParseError;

    /// The same as [`Color::parse`].
    fn try_from(text: &'a str) -> (result: Result<Color, ParseError>) {
        Color::parse(text)
    }
}

impl<'a> vstd::std_specs::convert::TryFromSpecImpl<&'a str> for Color {
    open spec fn obeys_try_from_spec() -> bool {
        true
    }

    open spec fn try_from_spec(text: &'a str) -> Result<Color, ParseError> {
        parse_spec(text@)
    }
}

/// `c` with an upper-case ASCII letter replaced by its lower-case form.
pub open spec fn to_lower_case(c: char) -> char {
    if 'A' <= c <= 'Z' {
        (c as int + 32) as char
    } else {
        c
    }
}

/// Whether `a` and `b` are the same text but for the case of ASCII letters.
pub open spec fn same_but_for_case(a: Seq<char>, b: Seq<char>) -> bool {
    &&& a.len() == b.len()
    &&& forall|i: int|
        0 <= i < a.len() ==> to_lower_case(#[trigger] a[i]) == to_lower_case(#[trigger] b[i])
}

/// Six hexadecimal digits, with or without a leading `#` and in either
/// case, are always read, and each channel is exactly what its pair of
/// digits says.
pub proof fn lemma_parse_reads_every_triplet(text: Seq<char>)
    requires
        is_hex_triplet(without_hash(text)),
    ensures
        parse_spec(text) is Ok,
        parse_spec(text)->Ok_0.red == hex_pair_value(without_hash(text)[0], without_hash(text)[1]),
        parse_spec(text)->Ok_0.green == hex_pair_value(
            without_hash(text)[2],
            without_hash(text)[3],
        ),
        parse_spec(text)->Ok_0.blue == hex_pair_value(
            without_hash(text)[4],
            without_hash(text)[5],
        ),
{
    let digits = without_hash(text);
    assert forall|i: int| 0 <= i < 6 implies 0 <= hex_digit_value(#[trigger] digits[i]) < 16 by {
        assert(is_hex_digit(digits[i]));
    }
}

/// A text is read exactly if, without its leading `#`, it is six
/// hexadecimal digits. If it is not, the length is at fault exactly if it
/// is not six characters, and a digit exactly if it is.
pub proof fn lemma_parse_fails_exactly(text: Seq<char>)
    ensures
        parse_spec(text) is Ok <==> is_hex_triplet(without_hash(text)),
        parse_spec(text) == Err::<Color, ParseError>(ParseError::InvalidLength) <==> without_hash(
            text,
        ).len() != 6,
        parse_spec(text) == Err::<Color, ParseError>(ParseError::InvalidHexDigit) <==> without_hash(
            text,
        ).len() == 6 && !is_hex_triplet(without_hash(text)),
{
}

/// A leading `#` changes nothing: a text that does not itself start with
/// `#` is read the same with one put in front of it.
pub proof fn lemma_parse_ignores_hash(text: Seq<char>)
    requires
        text.len() == 0 || text[0] != '#',
    ensures
        parse_spec(seq!['#'] + text) == parse_spec(text),
{
    assert(without_hash(seq!['#'] + text) =~= text);
}

/// The case of the letters changes nothing: two texts that differ only in
/// the case of ASCII letters are read the same.
pub proof fn lemma_parse_ignores_case(a: Seq<char>, b: Seq<char>)
    requires
        same_but_for_case(a, b),
    ensures
        parse_spec(a) == parse_spec(b),
{
    let x = without_hash(a);
    let y = without_hash(b);
    if a.len() > 0 {
        // A letter never turns into `#`, nor `#` into a letter.
        assert(to_lower_case(a[0]) == to_lower_case(b[0]));
        assert(a[0] == '#' <==> b[0] == '#');
    }
    if x.len() == 6 {
        let shift: int = if a[0] == '#' { 1 } else { 0 };
        assert forall|i: int| 0 <= i < 6 implies {
            &&& is_hex_digit(x[i]) <==> is_hex_digit(y[i])
            &&& is_hex_digit(x[i]) ==> hex_digit_value(x[i]) == hex_digit_value(y[i])
        } by {
            assert(x[i] == a[i + shift]);
            assert(y[i] == b[i + shift]);
            assert(to_lower_case(a[i + shift]) == to_lower_case(b[i + shift]));
        }
        assert(is_hex_triplet(x) <==> is_hex_triplet(y));
    }
}

} // verus!
