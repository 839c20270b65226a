//! The numeric field: its text is read as an unsigned decimal number, and a
//! text that is none is shown by the error boundary around the field.

use vstd::prelude::*;
use vstd::std_specs::iter::IteratorSpec;

verus! {

/// Why a text is not an unsigned 32-bit decimal number.
#[derive(Clone, Copy, Debug, PartialEq, Eq, Structural)]
pub enum ParseFailure {
    /// The text has no characters.
    Empty,
    /// A character that is not a decimal digit, or a sign with nothing behind it.
    InvalidDigit,
    /// The digits denote a number above `u32::MAX`.
    TooLarge,
}

/// Whether `c` is one of the ten decimal digits.
pub open spec fn is_digit(c: char) -> bool {
    '0' <= c <= '9'
}

/// The number a decimal digit stands for; zero for any other character.
pub open spec fn digit_value(c: char) -> nat {
    if is_digit(c) {
        (c as int - '0' as int) as nat
    } else {
        0
    }
}

/// The number that a sequence of decimal digits denotes.
pub open spec fn decimal_value(digits: Seq<char>) -> nat
    decreases digits.len(),
{
    if digits.len() == 0 {
        0
    } else {
        decimal_value(digits.drop_last()) * 10 + digit_value(digits.last())
    }
}

/// How many decimal digits `text` begins with.
pub open spec fn digit_run(text: Seq<char>) -> nat
    decreases text.len(),
{
    if text.len() > 0 && is_digit(text[0]) {
        1 + digit_run(text.skip(1))
    } else {
        0
    }
}

/// The text behind one leading plus sign, or all of it where there is none.
pub open spec fn unsigned_part(text: Seq<char>) -> Seq<char> {
    if text.len() > 0 && text[0] == '+' {
        text.skip(1)
    } else {
        text
    }
}

/// What a text parses to.
///
/// A number is an optional plus sign followed by one or more decimal digits
/// that denote at most `u32::MAX`. Of a text that is none, the failure says
/// what goes wrong first when it is read from the left: the digits it begins
/// with are already too large, or a character is no digit.
pub open spec fn parse_result(text: Seq<char>) -> Result<u32, ParseFailure> {
    let digits = unsigned_part(text);
    let run = digit_run(digits);
    if text.len() == 0 {
        Err(ParseFailure::Empty)
    } else if digits.len() == 0 {
        Err(ParseFailure::InvalidDigit)
    } else if decimal_value(digits.take(run as int)) > u32::MAX {
        Err(ParseFailure::TooLarge)
    } else if run < digits.len() {
        Err(ParseFailure::InvalidDigit)
    } else {
        Ok(decimal_value(digits) as u32)
    }
}

/// The run of leading digits ends at the first character that is no digit.
pub proof fn lemma_digit_run(text: Seq<char>)
    ensures
        digit_run(text) <= text.len(),
        forall|i: int| 0 <= i < digit_run(text) ==> is_digit(#[trigger] text[i]),
        digit_run(text) < text.len() ==> !is_digit(text[digit_run(text) as int]),
    decreases text.len(),
{
    if text.len() > 0 && is_digit(text[0]) {
        let rest = text.skip(1);
        lemma_digit_run(rest);
        assert forall|i: int| 0 <= i < digit_run(text) implies is_digit(#[trigger] text[i]) by {
            if i > 0 {
                assert(text[i] == rest[i - 1]);
            }
        }
    }
}

/// A longer prefix of a text denotes no smaller a number.
pub proof fn lemma_decimal_value_grows(digits: Seq<char>, shorter: int, longer: int)
    requires
        0 <= shorter <= longer <= digits.len(),
    ensures
        decimal_value(digits.take(shorter)) <= decimal_value(digits.take(longer)),
    decreases longer - shorter,
{
    if shorter < longer {
        lemma_decimal_value_grows(digits, shorter, longer - 1);
        lemma_decimal_value_step(digits, longer - 1);
    }
}

/// Reading one more character multiplies by ten and adds the digit.
pub proof fn lemma_decimal_value_step(digits: Seq<char>, read: int)
    requires
        0 <= read < digits.len(),
    ensures
        decimal_value(digits.take(read + 1)) == decimal_value(digits.take(read)) * 10
            + digit_value(digits[read]),
{
    assert(digits.take(read + 1).drop_last() =~= digits.take(read));
}

/// A text is a number exactly when, behind an optional plus sign, it has at
/// least one character, all of its characters are decimal digits, and they
/// denote at most `u32::MAX`; it then parses to what they denote.
pub proof fn numbers_are_what_parses(text: Seq<char>)
    ensures
        parse_result(text) is Ok <==> {
            let digits = unsigned_part(text);
            &&& digits.len() > 0
            &&& forall|i: int| 0 <= i < digits.len() ==> is_digit(#[trigger] digits[i])
            &&& decimal_value(digits) <= u32::MAX
        },
        parse_result(text) matches Ok(number) ==> number == decimal_value(unsigned_part(text)),
{
    let digits = unsigned_part(text);
    lemma_digit_run(digits);
    if digit_run(digits) == digits.len() {
        assert(digits.take(digits.len() as int) =~= digits);
    }
}

impl ParseFailure {
    /// The sentence that describes the failure.
    pub open spec fn description_text(self) -> Seq<char> {
        match self {
            ParseFailure::Empty => "cannot parse integer from empty string"@,
            ParseFailure::InvalidDigit => "invalid digit found in string"@,
            ParseFailure::TooLarge => "number too large to fit in target type"@,
        }
    }

    /// The sentence that describes the failure.
    pub fn description(&self) -> (text: &'static str)
        ensures
            text@ == self.description_text(),
    {
        match self {
            ParseFailure::Empty => "cannot parse integer from empty string",
            ParseFailure::InvalidDigit => "invalid digit found in string",
            ParseFailure::TooLarge => "number too large to fit in target type",
        }
    }
}

/// Reads `text` as an unsigned decimal number.
pub fn parse_numeric(text: &str) -> (result: Result<u32, ParseFailure>)
    ensures
        result == parse_result(text@),
{
    broadcast use vstd::string::group_string_axioms;

    let ghost digits = unsigned_part(text@);
    let mut first = text.chars();
    let mut chars = text.chars();
    match first.next() {
        None => {
            return Err(ParseFailure::Empty);
        },
        Some(c) => {
            if c == '+' {
                let _ = chars.next();
            }
        },
    }
    let ghost sign: int = text@.len() - digits.len();
    let ghost mut read: int = 0;
    let mut value: u32 = 0;
    let mut any_digit = false;
    loop
        invariant
            digits == unsigned_part(text@),
            sign == text@.len() - digits.len(),
            0 <= read <= digits.len(),
            chars.obeys_prophetic_iter_laws(),
            chars.remaining() == text@.skip(sign + read),
            forall|i: int| 0 <= i < read ==> is_digit(#[trigger] digits[i]),
            value == decimal_value(digits.take(read)),
            any_digit == (read > 0),
            text@.len() > 0,
        decreases digits.len() - read,
    {
        match chars.next() {
            None => {
                proof {
                    lemma_digit_run(digits);
                    assert(digits.take(read) =~= digits);
                }
                if any_digit {
                    return Ok(value);
                } else {
                    return Err(ParseFailure::InvalidDigit);
                }
            },
            Some(c) => {
                assert(c == digits[read]);
                proof {
                    lemma_digit_run(digits);
                }
                if !('0' <= c && c <= '9') {
                    return Err(ParseFailure::InvalidDigit);
                }
                let digit: u64 = (c as u32 - '0' as u32) as u64;
                let next: u64 = value as u64 * 10 + digit;
                proof {
                    lemma_decimal_value_step(digits, read);
                }
                if next > u32::MAX as u64 {
                    proof {
                        lemma_decimal_value_grows(digits, read + 1, digit_run(digits) as int);
                    }
                    return Err(ParseFailure::TooLarge);
                }
                value = next as u32;
                any_digit = true;
                proof {
                    read = read + 1;
                }
            },
        }
    }
}

/// What the error boundary around the numeric field shows.
#[derive(Debug, PartialEq, Eq)]
pub enum Boundary {
    /// The number, shown by the content inside the boundary.
    Content(u32),
    /// The fallback, with the description of each failure it lists.
    Fallback(Vec<&'static str>),
}

/// The state of the numeric field: what its latest text parsed to.
#[derive(Clone, Copy, Debug, PartialEq, Eq)]
pub struct NumericInput {
    result: Result<u32, ParseFailure>,
}

impl View for NumericInput {
    type V = Result<u32, ParseFailure>;

    closed spec fn view(&self) -> Result<u32, ParseFailure> {
        self.result
    }
}

impl NumericInput {
    /// The field before anything was typed: it holds zero.
    pub fn new() -> (field: NumericInput)
        ensures
            field@ == Ok::<u32, ParseFailure>(0),
    {
        NumericInput { result: Ok(0) }
    }

    /// The text of the field changed to `text`.
    pub fn on_input(&mut self, text: &str)
        ensures
            final(self)@ == parse_result(text@),
    {
        self.result = parse_numeric(text);
    }

    /// What the latest text parsed to.
    pub fn result(&self) -> (result: Result<u32, ParseFailure>)
        ensures
            result == self@,
    {
        self.result
    }

    /// The number that the paragraph outside the boundary shows, if any.
    pub fn raw_value(&self) -> (value: Option<u32>)
        ensures
            value == match self@ {
                Ok(number) => Some(number),
                Err(_) => None,
            },
    {
        match self.result {
            Ok(number) => Some(number),
            Err(_) => None,
        }
    }

    /// What the error boundary shows: the number, or the fallback that lists
    /// the description of the failure.
    pub fn boundary(&self) -> (shown: Boundary)
        ensures
            match self@ {
                Ok(number) => shown == Boundary::Content(number),
                Err(failure) => shown matches Boundary::Fallback(errors) && errors@.len() == 1
                    && errors@[0]@ == failure.description_text(),
            },
    {
        match self.result {
            Ok(number) => Boundary::Content(number),
            Err(failure) => {
                let mut errors: Vec<&'static str> = Vec::new();
                errors.push(failure.description());
                Boundary::Fallback(errors)
            },
        }
    }
}

} // verus!
