//! The verification digit: one of eleven symbols, computed from the number
//! of an identifier by a weighted checksum modulo eleven.

use crate::decimal::{
    decimal, decimal_digits, digit_value, lemma_decimal_len, lemma_digit_char,
};
use crate::error::{Error, ErrorView};
use crate::text::{chars_of, string_of};
use vstd::prelude::*;

verus! {

/// The verification digit of a RUT: the digits `0` to `9`, and `K`, which
/// stands for ten.
#[derive(Copy, Clone, Debug, Hash, PartialEq, Eq, Ord, Structural)]
pub enum VerificationDigit {
    Zero,
    One,
    Two,
    Three,
    Four,
    Five,
    Six,
    Seven,
    Eight,
    Nine,
    /// The symbol `K`, whose numeric value is ten.
    K,
}

/// The factor by which the digit at position `i` is multiplied, the units
/// digit standing at position zero: 2, 3, 4, 5, 6, 7, and then again from 2.
pub open spec fn weight(i: nat) -> nat {
    2 + i % 6
}

/// The sum of the decimal digits of `n`, the units digit first, each
/// multiplied by its factor, where the units digit of `n` stands at
/// position `i`.
pub open spec fn weighted_sum(n: nat, i: nat) -> nat
    decreases n,
{
    if n < 10 {
        n * weight(i)
    } else {
        (n % 10) * weight(i) + weighted_sum(n / 10, i + 1)
    }
}

/// The weighted sum of a number of two or more digits, from its units digit
/// `d`, the factor `w` of that digit and the weighted sum `rest` of the
/// digits before it.
pub proof fn lemma_weighted_sum_step(n: nat, i: nat, d: nat, w: nat, rest: nat)
    requires
        n >= 10,
        d == n % 10,
        w == weight(i),
        rest == weighted_sum(n / 10, i + 1),
    ensures
        weighted_sum(n, i) == d * w + rest,
{
}

/// Eleven minus the remainder of the weighted digit sum of `n` by eleven: a
/// number from 1 to 11.
pub open spec fn checksum(n: nat) -> nat {
    (11 - weighted_sum(n, 0) % 11) as nat
}

/// The symbol for a checksum: 1 to 9 are the digits, 10 is `K` and 11 is
/// the digit zero. No other number is a checksum.
pub open spec fn symbol_of_checksum(c: nat) -> Option<VerificationDigit> {
    if c == 11 {
        Some(VerificationDigit::Zero)
    } else if 1 <= c <= 10 {
        VerificationDigit::from_value(c)
    } else {
        None
    }
}

/// The verification digit that belongs to the number `n`.
pub open spec fn check_digit(n: nat) -> VerificationDigit {
    symbol_of_checksum(checksum(n)).unwrap()
}

impl VerificationDigit {
    /// The numeric value of the symbol: 0 to 9 for the digits, 10 for `K`.
    pub open spec fn value(self) -> nat {
        match self {
            VerificationDigit::Zero => 0,
            VerificationDigit::One => 1,
            VerificationDigit::Two => 2,
            VerificationDigit::Three => 3,
            VerificationDigit::Four => 4,
            VerificationDigit::Five => 5,
            VerificationDigit::Six => 6,
            VerificationDigit::Seven => 7,
            VerificationDigit::Eight => 8,
            VerificationDigit::Nine => 9,
            VerificationDigit::K => 10,
        }
    }

    /// The symbol whose numeric value is `v`, if there is one.
    pub open spec fn from_value(v: nat) -> Option<VerificationDigit> {
        if v == 0 {
            Some(VerificationDigit::Zero)
        } else if v == 1 {
            Some(VerificationDigit::One)
        } else if v == 2 {
            Some(VerificationDigit::Two)
        } else if v == 3 {
            Some(VerificationDigit::Three)
        } else if v == 4 {
            Some(VerificationDigit::Four)
        } else if v == 5 {
            Some(VerificationDigit::Five)
        } else if v == 6 {
            Some(VerificationDigit::Six)
        } else if v == 7 {
            Some(VerificationDigit::Seven)
        } else if v == 8 {
            Some(VerificationDigit::Eight)
        } else if v == 9 {
            Some(VerificationDigit::Nine)
        } else if v == 10 {
            Some(VerificationDigit::K)
        } else {
            None
        }
    }

    /// The canonical character of the symbol; `K` is written in upper case.
    pub open spec fn symbol(self) -> char {
        match self {
            VerificationDigit::Zero => '0',
            VerificationDigit::One => '1',
            VerificationDigit::Two => '2',
            VerificationDigit::Three => '3',
            VerificationDigit::Four => '4',
            VerificationDigit::Five => '5',
            VerificationDigit::Six => '6',
            VerificationDigit::Seven => '7',
            VerificationDigit::Eight => '8',
            VerificationDigit::Nine => '9',
            VerificationDigit::K => 'K',
        }
    }

    /// The symbol that the character `c` denotes, if it denotes one. Both
    /// `K` and `k` denote the symbol `K`.
    pub open spec fn from_symbol(c: char) -> Option<VerificationDigit> {
        if c == '0' {
            Some(VerificationDigit::Zero)
        } else if c == '1' {
            Some(VerificationDigit::One)
        } else if c == '2' {
            Some(VerificationDigit::Two)
        } else if c == '3' {
            Some(VerificationDigit::Three)
        } else if c == '4' {
            Some(VerificationDigit::Four)
        } else if c == '5' {
            Some(VerificationDigit::Five)
        } else if c == '6' {
            Some(VerificationDigit::Six)
        } else if c == '7' {
            Some(VerificationDigit::Seven)
        } else if c == '8' {
            Some(VerificationDigit::Eight)
        } else if c == '9' {
            Some(VerificationDigit::Nine)
        } else if c == 'K' || c == 'k' {
            Some(VerificationDigit::K)
        } else {
            None
        }
    }

    /// Computes the verification digit of the number `num`.
    ///
    /// The decimal digits of the number are taken from the last to the
    /// first and multiplied in turn by 2, 3, 4, 5, 6, 7, 2, 3 and so on.
    /// The remainder of the sum of these products by eleven, subtracted
    /// from eleven, is the checksum, and the symbol of the checksum is the
    /// verification digit. The result depends on `num` alone, and no number
    /// is without one.
    pub fn new(num: u32) -> (r: Result<Self, Error>)
        ensures
            r matches Ok(digit) && digit == check_digit(num as nat),
    {
        let mut rest: u32 = num;
        let mut factor: u32 = 0;
        let mut sum: u32 = 0;
        let ghost mut position: nat = 0;
        proof {
            lemma_decimal_len(num as nat);
        }
        while rest >= 10
            invariant
                factor == position % 6,
                sum + 63 * decimal(rest as nat).len() <= 630,
                sum + weighted_sum(rest as nat, position) == weighted_sum(num as nat, 0),
            decreases rest,
        {
            let digit = rest % 10;
            let scale = 2 + factor;
            assert(digit * scale <= 63) by (nonlinear_arith)
                requires
                    digit <= 9,
                    scale <= 7,
            ;
            sum = sum + digit * scale;
            rest = rest / 10;
            factor = (factor + 1) % 6;
            proof {
                position = position + 1;
            }
        }
        let scale = 2 + factor;
        assert(rest * scale <= 63) by (nonlinear_arith)
            requires
                rest <= 9,
                scale <= 7,
        ;
        sum = sum + rest * scale;
        let whole = sum / 11;
        let base = sum - 11 * whole;
        let checksum = 11 - base;
        Self::from_checksum(checksum)
    }

    /// The symbol of a checksum: the step that ends the computation of a
    /// verification digit.
    fn from_checksum(checksum: u32) -> (r: Result<Self, Error>)
        ensures
            match symbol_of_checksum(checksum as nat) {
                Some(digit) => r == Ok::<Self, Error>(digit),
                None => r matches Err(e) && e@ == ErrorView::VerificationDigitOutOfBounds(
                    decimal(checksum as nat),
                ),
            },
    {
        if checksum == 11 {
            Ok(VerificationDigit::Zero)
        } else if 1 <= checksum && checksum <= 10 {
            Self::from_u32(checksum)
        } else {
            Err(Error::VerificationDigitOutOfBounds(string_of(&decimal_digits(checksum))))
        }
    }

    /// The symbol whose numeric value is `value`: 0 to 9 give the digits
    /// and 10 gives `K`. Any other number is refused, with its decimal
    /// notation as the text of the failure.
    pub fn from_u32(value: u32) -> (r: Result<Self, Error>)
        ensures
            match Self::from_value(value as nat) {
                Some(digit) => r == Ok::<Self, Error>(digit),
                None => r matches Err(e) && e@ == ErrorView::VerificationDigitOutOfBounds(
                    decimal(value as nat),
                ),
            },
            r is Ok <==> value <= 10,
            r matches Ok(digit) ==> digit.value() == value,
    {
        match value {
            0 => Ok(VerificationDigit::Zero),
            1 => Ok(VerificationDigit::One),
            2 => Ok(VerificationDigit::Two),
            3 => Ok(VerificationDigit::Three),
            4 => Ok(VerificationDigit::Four),
            5 => Ok(VerificationDigit::Five),
            6 => Ok(VerificationDigit::Six),
            7 => Ok(VerificationDigit::Seven),
            8 => Ok(VerificationDigit::Eight),
            9 => Ok(VerificationDigit::Nine),
            10 => Ok(VerificationDigit::K),
            _ => Err(Error::VerificationDigitOutOfBounds(string_of(&decimal_digits(value)))),
        }
    }

    /// The numeric value of the symbol: 0 to 9 for the digits, 10 for `K`.
    pub fn to_u32(&self) -> (value: u32)
        ensures
            value == self.value(),
            value <= 10,
    {
        match self {
            VerificationDigit::Zero => 0,
            VerificationDigit::One => 1,
            VerificationDigit::Two => 2,
            VerificationDigit::Three => 3,
            VerificationDigit::Four => 4,
            VerificationDigit::Five => 5,
            VerificationDigit::Six => 6,
            VerificationDigit::Seven => 7,
            VerificationDigit::Eight => 8,
            VerificationDigit::Nine => 9,
            VerificationDigit::K => 10,
        }
    }

    /// The symbol that the character `value` denotes: the digits, `K` and
    /// `k`. Any other character is refused, and is the text of the failure.
    pub fn try_from(value: char) -> (r: Result<Self, Error>)
        ensures
            match Self::from_symbol(value) {
                Some(digit) => r == Ok::<Self, Error>(digit),
                None => r matches Err(e) && e@ == ErrorView::VerificationDigitOutOfBounds(
                    seq![value],
                ),
            },
    {
        match value {
            '0' => Ok(VerificationDigit::Zero),
            '1' => Ok(VerificationDigit::One),
            '2' => Ok(VerificationDigit::Two),
            '3' => Ok(VerificationDigit::Three),
            '4' => Ok(VerificationDigit::Four),
            '5' => Ok(VerificationDigit::Five),
            '6' => Ok(VerificationDigit::Six),
            '7' => Ok(VerificationDigit::Seven),
            '8' => Ok(VerificationDigit::Eight),
            '9' => Ok(VerificationDigit::Nine),
            'K' | 'k' => Ok(VerificationDigit::K),
            _ => {
                let mut text = String::new();
                text.push(value);
                Err(Error::VerificationDigitOutOfBounds(text))
            },
        }
    }

    /// The symbol that the text `input` denotes: exactly one character, a
    /// digit or the upper-case `K`. Any other text is refused, and is the
    /// text of the failure.
    pub fn from_str(input: &str) -> (r: Result<Self, Error>)
        ensures
            match Self::from_text(input@) {
                Some(digit) => r == Ok::<Self, Error>(digit),
                None => r matches Err(e) && e@ == ErrorView::VerificationDigitOutOfBounds(input@),
            },
    {
        let chars = chars_of(input);
        if chars.len() == 1 && chars[0] != 'k' {
            match Self::try_from(chars[0]) {
                Ok(digit) => {
                    return Ok(digit);
                },
                Err(_) => {},
            }
        }
        Err(Error::VerificationDigitOutOfBounds(string_of(&chars)))
    }

    /// The symbol that the text `s` denotes, if it denotes one.
    pub open spec fn from_text(s: Seq<char>) -> Option<VerificationDigit> {
        if s.len() == 1 && s[0] != 'k' {
            Self::from_symbol(s[0])
        } else {
            None
        }
    }

    /// The canonical text of the symbol: its one character.
    pub fn to_string(&self) -> (text: String)
        ensures
            text@ == seq![self.symbol()],
    {
        let mut text = String::new();
        text.push(char::from(*self));
        text
    }
}

/// The weighted sum of the digits of a text, the last digit first, where
/// the last digit stands at position `i`.
pub open spec fn weighted_digits(s: Seq<char>, i: nat) -> nat
    decreases s.len(),
{
    if s.len() == 0 {
        0
    } else {
        digit_value(s.last()) * weight(i) + weighted_digits(s.drop_last(), i + 1)
    }
}

/// The weighted sum of a number is the weighted sum of the digits of its
/// decimal notation, read from right to left.
pub proof fn lemma_weighted_sum_decimal(n: nat, i: nat)
    ensures
        weighted_sum(n, i) == weighted_digits(decimal(n), i),
    decreases n,
{
    let s = decimal(n);
    if n < 10 {
        lemma_digit_char(n);
        assert(s.drop_last() =~= Seq::<char>::empty());
        assert(weighted_digits(s.drop_last(), i + 1) == 0);
    } else {
        lemma_digit_char(n % 10);
        lemma_weighted_sum_decimal(n / 10, i + 1);
        assert(s.drop_last() =~= decimal(n / 10));
    }
}

/// Every number has a checksum from 1 to 11, so every number has a
/// verification digit, and the numeric value of that digit is the
/// remainder of the checksum by eleven.
pub proof fn lemma_check_digit(n: nat)
    ensures
        1 <= checksum(n) <= 11,
        symbol_of_checksum(checksum(n)) == Some(check_digit(n)),
        check_digit(n).value() == checksum(n) % 11,
{
}

/// The eleven symbols, their numeric values from 0 to 10 and their
/// canonical characters stand one to one, and the conversions between them
/// are inverse to each other.
pub proof fn lemma_conversions(digit: VerificationDigit)
    ensures
        digit.value() <= 10,
        VerificationDigit::from_value(digit.value()) == Some(digit),
        VerificationDigit::from_symbol(digit.symbol()) == Some(digit),
        VerificationDigit::from_text(seq![digit.symbol()]) == Some(digit),
{
}

/// A number stands for a symbol exactly if it is at most ten, and then it
/// is the numeric value of that symbol.
pub proof fn lemma_from_value(v: nat)
    ensures
        VerificationDigit::from_value(v) is Some <==> v <= 10,
        VerificationDigit::from_value(v) matches Some(digit) ==> digit.value() == v,
{
}

/// A character that denotes a symbol is the canonical character of that
/// symbol, or the lower-case `k`.
pub proof fn lemma_from_symbol(c: char)
    ensures
        VerificationDigit::from_symbol(c) matches Some(digit) ==> digit.symbol() == c || (c == 'k'
            && digit == VerificationDigit::K),
{
}

impl From<VerificationDigit> for char {
    /// The canonical character of the symbol.
    fn from(val: VerificationDigit) -> (c: char) {
        match val {
            VerificationDigit::Zero => '0',
            VerificationDigit::One => '1',
            VerificationDigit::Two => '2',
            VerificationDigit::Three => '3',
            VerificationDigit::Four => '4',
            VerificationDigit::Five => '5',
            VerificationDigit::Six => '6',
            VerificationDigit::Seven => '7',
            VerificationDigit::Eight => '8',
            VerificationDigit::Nine => '9',
            VerificationDigit::K => 'K',
        }
    }
}

impl vstd::std_specs::convert::FromSpecImpl<VerificationDigit> for char {
    open spec fn obeys_from_spec() -> bool {
        true
    }

    open spec fn from_spec(val: VerificationDigit) -> char {
        val.symbol()
    }
}

} // verus!
