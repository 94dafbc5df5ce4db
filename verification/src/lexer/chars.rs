use vstd::prelude::*;
use vstd::string::*;
use vstd::std_specs::iter::IteratorSpec;

verus! {

/// Whether Unicode counts a character beyond ASCII as white space: what
/// `char::is_whitespace` answers for such a character.
pub uninterp spec fn white_space(c: char) -> bool;

/// Whether Unicode counts a character beyond ASCII as alphabetic: what
/// `char::is_alphabetic` answers for such a character.
pub uninterp spec fn alphabetic(c: char) -> bool;

/// Whether Unicode counts a character beyond ASCII as alphabetic or numeric: what
/// `char::is_alphanumeric` answers for such a character.
pub uninterp spec fn alphanumeric(c: char) -> bool;

/// Whether the character is white space: in ASCII the blank and the five control
/// characters from the tab to the carriage return, beyond ASCII what Unicode counts as
/// white space.
pub open spec fn is_white_space(c: char) -> bool {
    if c <= '\x7f' {
        c == ' ' || ('\x09' <= c && c <= '\x0d')
    } else {
        white_space(c)
    }
}

/// Whether the character is a letter: in ASCII the letters from `a` to `z` and from `A` to
/// `Z`, beyond ASCII what Unicode counts as alphabetic.
pub open spec fn is_letter(c: char) -> bool {
    if c <= '\x7f' {
        ('a' <= c && c <= 'z') || ('A' <= c && c <= 'Z')
    } else {
        alphabetic(c)
    }
}

/// Whether the character is a letter or a digit: in ASCII the letters and the ten decimal
/// digits, beyond ASCII what Unicode counts as alphabetic or numeric.
pub open spec fn is_letter_or_digit(c: char) -> bool {
    if c <= '\x7f' {
        ('a' <= c && c <= 'z') || ('A' <= c && c <= 'Z') || ('0' <= c && c <= '9')
    } else {
        alphanumeric(c)
    }
}

/// `char::is_whitespace` tells whether the character has the Unicode property
/// `White_Space`. In ASCII these are the blank and the control characters from the tab
/// (U+0009) to the carriage return (U+000D); beyond ASCII the answer is a look-up that
/// depends on the character alone.
pub assume_specification[ char::is_whitespace ](c: char) -> (r: bool)
    ensures
        r == (if c <= '\x7f' {
            c == ' ' || ('\x09' <= c && c <= '\x0d')
        } else {
            white_space(c)
        }),
;

/// `char::is_alphabetic` tells whether the character has the Unicode property
/// `Alphabetic`. In ASCII these are the letters from `a` to `z` and from `A` to `Z`; beyond
/// ASCII the answer is a look-up that depends on the character alone.
pub assume_specification[ char::is_alphabetic ](c: char) -> (r: bool)
    ensures
        r == (if c <= '\x7f' {
            ('a' <= c && c <= 'z') || ('A' <= c && c <= 'Z')
        } else {
            alphabetic(c)
        }),
;

/// `char::is_alphanumeric` tells whether the character is alphabetic or numeric by Unicode.
/// In ASCII these are the letters and the ten decimal digits; beyond ASCII the answer is a
/// look-up that depends on the character alone, and every alphabetic character is
/// alphanumeric.
pub assume_specification[ char::is_alphanumeric ](c: char) -> (r: bool)
    ensures
        r == (if c <= '\x7f' {
            ('a' <= c && c <= 'z') || ('A' <= c && c <= 'Z') || ('0' <= c && c <= '9')
        } else {
            alphanumeric(c)
        }),
        c > '\x7f' && alphabetic(c) ==> r,
;

/// Whether the character is one of the ten decimal digits.
pub open spec fn is_digit(c: char) -> bool {
    '0' <= c <= '9'
}

/// The value of a decimal digit.
pub open spec fn digit_value(c: char) -> nat {
    (c as nat - '0' as nat) as nat
}

/// The number that a sequence of decimal digits writes; the empty sequence writes zero.
pub open spec fn digits_value(digits: Seq<char>) -> nat
    decreases digits.len(),
{
    if digits.len() == 0 {
        0
    } else {
        digits_value(digits.drop_last()) * 10 + digit_value(digits.last())
    }
}

/// Whether the character may stand inside an identifier.
pub open spec fn is_word_char(c: char) -> bool {
    is_letter_or_digit(c) || c == '_'
}

/// Whether the character may start an identifier.
pub open spec fn is_word_start(c: char) -> bool {
    is_letter(c) || c == '_'
}

/// The character that an escape in a string literal stands for, if the character behind
/// the backslash names one.
pub open spec fn escaped(c: char) -> Option<char> {
    if c == 'n' {
        Some('\n')
    } else if c == 't' {
        Some('\t')
    } else if c == 'r' {
        Some('\r')
    } else if c == '"' {
        Some('"')
    } else if c == '\\' {
        Some('\\')
    } else {
        None
    }
}

/// Whether the character is one of the ten decimal digits.
pub fn digit_check(c: char) -> (r: bool)
    ensures
        r == is_digit(c),
{
    '0' <= c && c <= '9'
}

/// Whether the character may stand inside an identifier.
pub fn word_char_check(c: char) -> (r: bool)
    ensures
        r == is_word_char(c),
        is_word_start(c) ==> r,
{
    c.is_alphanumeric() || c == '_'
}

/// Whether the character may start an identifier.
pub fn word_start_check(c: char) -> (r: bool)
    ensures
        r == is_word_start(c),
{
    c.is_alphabetic() || c == '_'
}

/// The value of the decimal digit `c`.
pub fn digit_to_value(c: char) -> (value: u8)
    requires
        is_digit(c),
    ensures
        value == digit_value(c),
        value < 10,
{
    ((c as u32) - ('0' as u32)) as u8
}

/// The character that the escape `\c` stands for, if `c` names an escape.
pub fn escape(c: char) -> (r: Option<char>)
    ensures
        r == escaped(c),
{
    if c == 'n' {
        Some('\n')
    } else if c == 't' {
        Some('\t')
    } else if c == 'r' {
        Some('\r')
    } else if c == '"' {
        Some('"')
    } else if c == '\\' {
        Some('\\')
    } else {
        None
    }
}

/// The characters of a string, in order.
pub fn characters(source: &str) -> (input: Vec<char>)
    ensures
        input@ == source@,
{
    broadcast use vstd::string::group_string_axioms;

    let mut input: Vec<char> = Vec::new();
    let mut rest = source.chars();
    loop
        invariant
            input@ + rest.remaining() == source@,
            rest.decrease() is Some,
        ensures
            input@ == source@,
        decreases rest.decrease()->0,
    {
        match rest.next() {
            Some(c) => {
                input.push(c);
            },
            None => {
                break ;
            },
        }
    }
    input
}

} // verus!
