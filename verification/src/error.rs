//! The failures that validating, parsing and generating identifiers report.

use crate::decimal::ParseNumError;
use vstd::prelude::*;
use vstd::string::StringExecFns;

verus! {

/// A failure of one of the library's operations. None of them is fatal: a
/// failure on a given input is permanent for that input.
#[derive(Clone, Debug)]
pub enum Error {
    /// The claimed verification digit is not the one that the number calls
    /// for.
    InvalidVerificationDigit { have: char, want: char },
    /// A character or a number that stands for no verification digit, with
    /// the text of the offending value.
    VerificationDigitOutOfBounds(String),
    /// Malformed notation that no other failure covers.
    InvalidFormat,
    /// The part of the text before the verification digit is not a number.
    NaN(ParseNumError),
    /// The number lies outside the range of identifiers.
    OutOfRange,
    /// Nothing is left of the text once dots and dashes are removed.
    EmptyString,
}

/// The mathematical content of an [`Error`].
pub enum ErrorView {
    InvalidVerificationDigit { have: char, want: char },
    VerificationDigitOutOfBounds(Seq<char>),
    InvalidFormat,
    NaN(ParseNumError),
    OutOfRange,
    EmptyString,
}

impl View for Error {
    type V = ErrorView;

    open spec fn view(&self) -> ErrorView {
        match self {
            Error::InvalidVerificationDigit { have, want } => ErrorView::InvalidVerificationDigit {
                have: *have,
                want: *want,
            },
            Error::VerificationDigitOutOfBounds(text) => ErrorView::VerificationDigitOutOfBounds(
                text@,
            ),
            Error::InvalidFormat => ErrorView::InvalidFormat,
            Error::NaN(kind) => ErrorView::NaN(*kind),
            Error::OutOfRange => ErrorView::OutOfRange,
            Error::EmptyString => ErrorView::EmptyString,
        }
    }
}

impl ParseNumError {
    /// The description of the failure.
    pub open spec fn message(self) -> Seq<char> {
        match self {
            ParseNumError::Empty => "cannot parse integer from empty string"@,
            ParseNumError::InvalidDigit => "invalid digit found in string"@,
            ParseNumError::PosOverflow => "number too large to fit in target type"@,
        }
    }

    /// Renders the description of the failure.
    pub fn to_string(&self) -> (text: String)
        ensures
            text@ == self.message(),
    {
        match self {
            ParseNumError::Empty => "cannot parse integer from empty string".to_string(),
            ParseNumError::InvalidDigit => "invalid digit found in string".to_string(),
            ParseNumError::PosOverflow => "number too large to fit in target type".to_string(),
        }
    }
}

impl ErrorView {
    /// The human-readable rendering of the failure.
    pub open spec fn message(self) -> Seq<char> {
        match self {
            ErrorView::InvalidVerificationDigit { have, want } => {
                "Invalid verification digit: have "@.push(have) + ", want "@.push(want)
            },
            ErrorView::VerificationDigitOutOfBounds(text) => {
                "Verification digit out of bounds found: "@ + text
            },
            ErrorView::InvalidFormat => "Invalid format"@,
            ErrorView::NaN(kind) => "Provided string is not a number. "@ + kind.message(),
            ErrorView::OutOfRange => "Out of range"@,
            ErrorView::EmptyString => "The provided string is empty"@,
        }
    }
}

impl Error {
    /// Renders the failure for display.
    pub fn to_string(&self) -> (text: String)
        ensures
            text@ == self@.message(),
    {
        match self {
            Error::InvalidVerificationDigit { have, want } => {
                let mut text = "Invalid verification digit: have ".to_string();
                text.push(*have);
                text.append(", want ");
                text.push(*want);
                text
            },
            Error::VerificationDigitOutOfBounds(found) => {
                let mut text = "Verification digit out of bounds found: ".to_string();
                text.append(found.as_str());
                text
            },
            Error::InvalidFormat => "Invalid format".to_string(),
            Error::NaN(kind) => {
                let mut text = "Provided string is not a number. ".to_string();
                let detail = kind.to_string();
                text.append(detail.as_str());
                text
            },
            Error::OutOfRange => "Out of range".to_string(),
            Error::EmptyString => "The provided string is empty".to_string(),
        }
    }
}

} // verus!
