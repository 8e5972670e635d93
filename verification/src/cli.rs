//! Reading the lengths that are given on the command line: a number of
//! characters, or a share of the terminal in percent.

use vstd::prelude::*;
use vstd::string::StringExecFns;
use std::num::{IntErrorKind, NonZero};
use crate::text::{decimal, push_decimal};

verus! {

/// A length as it was asked for.
#[derive(Debug, Clone, Copy, PartialEq, Eq, Structural)]
pub enum Size {
    /// So many characters.
    AbsoluteChars(usize),
    /// So many hundredths of what the terminal has.
    Percentage(u8),
}

impl Size {
    /// A length is at least one character, or between 1% and 100%.
    pub open spec fn wf(&self) -> bool {
        match self {
            Size::AbsoluteChars(chars) => *chars > 0,
            Size::Percentage(percent) => 1 <= *percent <= 100,
        }
    }
}

/// Why a text is not a number above zero of some integer type: the kinds of
/// error that reading an integer from text has in the standard library.
#[derive(Debug, Clone, Copy, PartialEq, Eq, Structural)]
pub enum IntError {
    /// The text is empty.
    Empty,
    /// The text holds something that is no digit.
    InvalidDigit,
    /// The number is too large for the type.
    PosOverflow,
    /// The number is too small for the type.
    NegOverflow,
    /// The number is zero.
    Zero,
    /// A kind of error that was added to the standard library later.
    Other,
}

/// What `str::parse` of the standard library makes of a text when asked for
/// a `NonZero<usize>`.
pub uninterp spec fn positive_usize_in(text: Seq<char>) -> Result<usize, IntError>;

/// What `str::parse` of the standard library makes of a text when asked for
/// a `NonZero<u8>`.
pub uninterp spec fn positive_u8_in(text: Seq<char>) -> Result<u8, IntError>;

/// `str::parse::<NonZero<usize>>` of the standard library. The number it
/// reads is handed on as a `usize`, the kind of its error as an `IntError`.
/// For one width of `usize` the result depends on the text alone; how the
/// text is read is not stated here.
#[verifier::external_body]
fn parse_positive_usize(text: &str) -> (parsed: Result<usize, IntError>)
    ensures
        parsed == positive_usize_in(text@),
{
    match text.parse::<NonZero<usize>>() {
        Ok(number) => Ok(number.get()),
        Err(error) => Err(
            match error.kind() {
                IntErrorKind::Empty => IntError::Empty,
                IntErrorKind::InvalidDigit => IntError::InvalidDigit,
                IntErrorKind::PosOverflow => IntError::PosOverflow,
                IntErrorKind::NegOverflow => IntError::NegOverflow,
                IntErrorKind::Zero => IntError::Zero,
                _ => IntError::Other,
            },
        ),
    }
}

/// `str::parse::<NonZero<u8>>` of the standard library. The number it reads
/// is handed on as a `u8`, the kind of its error as an `IntError`. The result
/// depends on the text alone; how it is read is not stated here.
#[verifier::external_body]
fn parse_positive_u8(text: &str) -> (parsed: Result<u8, IntError>)
    ensures
        parsed == positive_u8_in(text@),
{
    match text.parse::<NonZero<u8>>() {
        Ok(number) => Ok(number.get()),
        Err(error) => Err(
            match error.kind() {
                IntErrorKind::Empty => IntError::Empty,
                IntErrorKind::InvalidDigit => IntError::InvalidDigit,
                IntErrorKind::PosOverflow => IntError::PosOverflow,
                IntErrorKind::NegOverflow => IntError::NegOverflow,
                IntErrorKind::Zero => IntError::Zero,
                _ => IntError::Other,
            },
        ),
    }
}

/// A length or the reason why there is none, the reason as plain text.
pub open spec fn outcome(width: Result<Size, String>) -> Result<Size, Seq<char>> {
    match width {
        Ok(size) => Ok(size),
        Err(message) => Err(message@),
    }
}

/// What is said of a number of characters that no `usize` holds.
pub open spec fn too_large() -> Seq<char> {
    "Your provided width doesn't fit into the integer (1-"@ + decimal(usize::MAX as nat) + ")"@
}

/// What a text comes to that was read as a number of characters: that many
/// characters; a refusal where the number is zero or too large or the text
/// is empty; and `None` where the text is something else than a number, so
/// that it may still be a percentage.
pub open spec fn count_outcome(parsed: Result<usize, IntError>) -> Option<
    Result<Size, Seq<char>>,
> {
    match parsed {
        Ok(chars) => if chars > 0 {
            Some(Ok(Size::AbsoluteChars(chars)))
        } else {
            Some(Err("The width must be greater than zero"@))
        },
        Err(IntError::Zero) => Some(Err("The width must be greater than zero"@)),
        Err(IntError::Empty) => Some(Err("The width must not be empty"@)),
        Err(IntError::NegOverflow) | Err(IntError::PosOverflow) => Some(Err(too_large())),
        Err(_) => None,
    }
}

/// What a text comes to that ended in `%` and whose rest was read as a
/// number: that many percent, from 1 to 100, or a refusal.
pub open spec fn percent_outcome(parsed: Result<u8, IntError>) -> Result<Size, Seq<char>> {
    match parsed {
        Ok(percent) => if percent > 100 {
            Err("The width must not exceed 100%"@)
        } else if percent == 0 {
            Err("The width must be at least 1%"@)
        } else {
            Ok(Size::Percentage(percent))
        },
        Err(IntError::Zero) | Err(IntError::NegOverflow) => Err("The width must be at least 1%"@),
        Err(IntError::PosOverflow) => Err("The width must not exceed 100%"@),
        Err(_) => Err("Please provide a number"@),
    }
}

/// What a text comes to as a length, given what the standard library reads
/// in the text as a number and what it reads in the text without its last
/// character. A text that is a number is a number of characters. Any other
/// text has to end in `%`, and what stands before that is a percentage.
pub open spec fn width_outcome(
    text: Seq<char>,
    count: Result<usize, IntError>,
    percent: Result<u8, IntError>,
) -> Result<Size, Seq<char>> {
    match count_outcome(count) {
        Some(outcome) => outcome,
        None => if text.len() > 0 && text.last() == '%' {
            percent_outcome(percent)
        } else {
            Err("Relative units must end with a '%'"@)
        },
    }
}

/// Decides what a text comes to that was read as a number of characters,
/// from what was read: a length, a refusal, or `None` where it may still be a
/// percentage.
pub fn width_from_count(parsed: Result<usize, IntError>) -> (width: Option<Result<Size, String>>)
    ensures
        match width {
            Some(width) => count_outcome(parsed) == Some(outcome(width)),
            None => count_outcome(parsed) is None,
        },
{
    match parsed {
        Ok(chars) => if chars > 0 {
            Some(Ok(Size::AbsoluteChars(chars)))
        } else {
            Some(Err(String::from_str("The width must be greater than zero")))
        },
        Err(IntError::Zero) => Some(Err(String::from_str("The width must be greater than zero"))),
        Err(IntError::Empty) => Some(Err(String::from_str("The width must not be empty"))),
        Err(IntError::NegOverflow) | Err(IntError::PosOverflow) => {
            let mut message = String::from_str(
                "Your provided width doesn't fit into the integer (1-",
            );
            push_decimal(&mut message, usize::MAX);
            message.append(")");
            Some(Err(message))
        },
        Err(_) => None,
    }
}

/// Decides what a text comes to that ended in `%`, from what was read
/// before the `%`: a percentage or a refusal.
pub fn width_from_percent(parsed: Result<u8, IntError>) -> (width: Result<Size, String>)
    ensures
        outcome(width) == percent_outcome(parsed),
{
    match parsed {
        Ok(percent) => {
            if percent > 100 {
                Err(String::from_str("The width must not exceed 100%"))
            } else if percent == 0 {
                Err(String::from_str("The width must be at least 1%"))
            } else {
                Ok(Size::Percentage(percent))
            }
        },
        Err(error) => {
            let msg = match error {
                IntError::Zero => "The width must be at least 1%",
                IntError::NegOverflow => "The width must be at least 1%",
                IntError::PosOverflow => "The width must not exceed 100%",
                _ => "Please provide a number",
            };
            Err(String::from_str(msg))
        },
    }
}

/// Reads a length: a number of characters above zero, or a percentage from
/// `1%` to `100%`. Anything else is refused, with a sentence that says why.
pub fn parse_width(s: &str) -> (width: Result<Size, String>)
    ensures
        outcome(width) == width_outcome(
            s@,
            positive_usize_in(s@),
            positive_u8_in(s@.drop_last()),
        ),
        width matches Ok(size) ==> size.wf(),
{
    if let Some(width) = width_from_count(parse_positive_usize(s)) {
        return width;
    }
    let len = s.unicode_len();
    if len == 0 || s.get_char(len - 1) != '%' {
        return Err(String::from_str("Relative units must end with a '%'"));
    }
    width_from_percent(parse_positive_u8(s.substring_char(0, len - 1)))
}

} // verus!
