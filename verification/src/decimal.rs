//! Decimal notation of natural numbers: rendering a number as a string of
//! digits and reading a string of digits back as a number.
//!
//! Reading follows the conventions of the standard library for unsigned
//! integers: an optional leading `+`, then at least one ASCII digit, and a
//! value that fits in 32 bits.

use vstd::prelude::*;

verus! {

/// Why a string is not the decimal notation of a 32-bit unsigned number.
#[derive(Copy, Clone, Debug, PartialEq, Eq, Structural)]
pub enum ParseNumError {
    /// The string holds no character at all.
    Empty,
    /// A character is not a digit, a sign is misplaced or stands alone.
    InvalidDigit,
    /// The digits denote a number above `u32::MAX`.
    PosOverflow,
}

/// `c` is one of the ten ASCII digits.
pub open spec fn is_digit(c: char) -> bool {
    '0' <= c && c <= '9'
}

/// The number that the digit `c` stands for.
pub open spec fn digit_value(c: char) -> nat
    recommends
        is_digit(c),
{
    (c as u32 - '0' as u32) as nat
}

/// The digit that stands for `d`.
pub open spec fn digit_char(d: nat) -> char
    recommends
        d < 10,
{
    ((d + 48) as u8) as char
}

/// Every character of `s` is a digit.
pub open spec fn all_digits(s: Seq<char>) -> bool {
    forall|i: int| 0 <= i < s.len() ==> is_digit(#[trigger] s[i])
}

/// The decimal notation of `n`: most significant digit first, no leading
/// zero, and the single digit `0` for zero.
pub open spec fn decimal(n: nat) -> Seq<char>
    decreases n,
{
    if n < 10 {
        seq![digit_char(n)]
    } else {
        decimal(n / 10).push(digit_char(n % 10))
    }
}

/// The number that a string of digits denotes, read in base ten. Leading
/// zeros are allowed and the empty string denotes zero.
pub open spec fn value_of(s: Seq<char>) -> nat
    recommends
        all_digits(s),
    decreases s.len(),
{
    if s.len() == 0 {
        0
    } else {
        value_of(s.drop_last()) * 10 + digit_value(s.last())
    }
}

/// Some run of digits at the start of `s` already denotes a number above
/// `u32::MAX`.
pub open spec fn overflows(s: Seq<char>) -> bool {
    exists|k: int|
        0 <= k <= s.len() && all_digits(#[trigger] s.take(k)) && value_of(s.take(k)) > u32::MAX
}

/// What reading the digits `s` (sign already removed) yields. A number that
/// grows too large is reported before a bad character that stands after the
/// point of overflow, and a bad character before an overflow that would
/// only occur behind it.
pub open spec fn parse_digits(s: Seq<char>) -> Result<u32, ParseNumError> {
    if overflows(s) {
        Err(ParseNumError::PosOverflow)
    } else if !all_digits(s) {
        Err(ParseNumError::InvalidDigit)
    } else {
        Ok(value_of(s) as u32)
    }
}

/// What reading `s` as an unsigned 32-bit number yields. One `+` may stand
/// in front of the digits; alone it is no number.
pub open spec fn parse_number(s: Seq<char>) -> Result<u32, ParseNumError> {
    if s.len() == 0 {
        Err(ParseNumError::Empty)
    } else if s.len() == 1 && s[0] == '+' {
        Err(ParseNumError::InvalidDigit)
    } else if s[0] == '+' {
        parse_digits(s.drop_first())
    } else {
        parse_digits(s)
    }
}

/// Digits and their values are inverse to each other.
pub proof fn lemma_digit_char(d: nat)
    requires
        d < 10,
    ensures
        is_digit(digit_char(d)),
        digit_value(digit_char(d)) == d,
        digit_char(d) != '+',
        digit_char(d) != '-',
        digit_char(d) != '.',
{
}

/// The decimal notation of a number is a non-empty string of digits.
pub proof fn lemma_decimal_digits(n: nat)
    ensures
        decimal(n).len() >= 1,
        all_digits(decimal(n)),
    decreases n,
{
    if n < 10 {
        lemma_digit_char(n);
    } else {
        lemma_decimal_digits(n / 10);
        lemma_digit_char(n % 10);
    }
}

/// Reading the decimal notation of a number gives the number back.
pub proof fn lemma_value_of_decimal(n: nat)
    ensures
        value_of(decimal(n)) == n,
    decreases n,
{
    if n < 10 {
        lemma_digit_char(n);
        let s = decimal(n);
        assert(s.drop_last() =~= Seq::<char>::empty());
        assert(value_of(s.drop_last()) == 0);
    } else {
        lemma_value_of_decimal(n / 10);
        lemma_digit_char(n % 10);
        let s = decimal(n);
        assert(s.drop_last() =~= decimal(n / 10));
    }
}

/// A number below `10^k` has at most `k` digits; stated for the two sizes
/// that 32-bit numbers need.
pub proof fn lemma_decimal_len(n: nat)
    ensures
        n <= 99_999_999 ==> decimal(n).len() <= 8,
        n >= 1_000_000 ==> decimal(n).len() >= 7,
        n <= u32::MAX ==> decimal(n).len() <= 10,
{
    reveal_with_fuel(decimal, 11);
}

/// Appending a digit to a string of digits multiplies its value by ten and
/// adds the digit.
pub proof fn lemma_value_of_push(s: Seq<char>, c: char)
    ensures
        value_of(s.push(c)) == value_of(s) * 10 + digit_value(c),
{
    assert(s.push(c).drop_last() =~= s);
}

/// The value of a string of digits never shrinks when the string is
/// extended to the right.
pub proof fn lemma_value_of_prefix(s: Seq<char>, j: int, k: int)
    requires
        0 <= j <= k <= s.len(),
    ensures
        value_of(s.take(j)) <= value_of(s.take(k)),
    decreases k - j,
{
    if j < k {
        lemma_value_of_prefix(s, j, k - 1);
        assert(s.take(k).drop_last() =~= s.take(k - 1));
    }
}

/// The decimal notation of a 32-bit number reads back as that number.
pub proof fn lemma_parse_decimal(n: nat)
    requires
        n <= u32::MAX,
    ensures
        parse_number(decimal(n)) == Ok::<u32, ParseNumError>(n as u32),
{
    let s = decimal(n);
    lemma_decimal_digits(n);
    lemma_value_of_decimal(n);
    assert(is_digit(s[0]));
    assert(s.take(s.len() as int) =~= s);
    assert forall|k: int| 0 <= k <= s.len() implies value_of(#[trigger] s.take(k)) <= u32::MAX by {
        lemma_value_of_prefix(s, k, s.len() as int);
    }
}

/// The number that a digit stands for, if `c` is a digit.
pub fn digit_of(c: char) -> (r: Option<u32>)
    ensures
        r == (if is_digit(c) {
            Some(digit_value(c) as u32)
        } else {
            None::<u32>
        }),
{
    if '0' <= c && c <= '9' {
        Some(c as u32 - '0' as u32)
    } else {
        None
    }
}

/// The digit that stands for `d`.
pub fn digit_for(d: u32) -> (c: char)
    requires
        d < 10,
    ensures
        c == digit_char(d as nat),
{
    ((d + 48) as u8) as char
}

/// Renders `n` in decimal notation.
pub fn decimal_digits(n: u32) -> (out: Vec<char>)
    ensures
        out@ == decimal(n as nat),
{
    let mut rev: Vec<char> = Vec::new();
    let mut rest: u32 = n;
    while rest >= 10
        invariant
            decimal(n as nat) == decimal(rest as nat) + rev@.reverse(),
        decreases rest,
    {
        let d = digit_for(rest % 10);
        proof {
            let tail = rev@.reverse();
            assert(rev@.push(d).reverse() =~= seq![d] + tail);
            assert(decimal((rest / 10) as nat) + (seq![d] + tail) =~= decimal(
                (rest / 10) as nat,
            ).push(d) + tail);
        }
        rev.push(d);
        rest = rest / 10;
    }
    let d = digit_for(rest);
    proof {
        let tail = rev@.reverse();
        assert(rev@.push(d).reverse() =~= seq![d] + tail);
    }
    rev.push(d);
    let len = rev.len();
    let mut out: Vec<char> = Vec::new();
    let mut i: usize = 0;
    while i < len
        invariant
            len == rev.len(),
            i <= len,
            out@ == rev@.reverse().take(i as int),
        decreases len - i,
    {
        out.push(rev[len - 1 - i]);
        proof {
            assert(out@ =~= rev@.reverse().take(i + 1));
        }
        i = i + 1;
    }
    proof {
        assert(rev@.reverse().take(len as int) =~= rev@.reverse());
    }
    out
}

/// Reads the digits `digits[from..]` as an unsigned 32-bit number.
fn read_digits(digits: &Vec<char>, from: usize) -> (r: Result<u32, ParseNumError>)
    requires
        from <= digits.len(),
    ensures
        r == parse_digits(digits@.skip(from as int)),
{
    let ghost s = digits@.skip(from as int);
    let len = digits.len();
    let mut acc: u32 = 0;
    let mut i: usize = from;
    proof {
        assert(s.take(0) =~= Seq::<char>::empty());
    }
    while i < len
        invariant
            len == digits.len(),
            from <= i <= len,
            s == digits@.skip(from as int),
            all_digits(s.take(i - from)),
            acc == value_of(s.take(i - from)),
        decreases len - i,
    {
        let c = digits[i];
        let ghost k = i - from;
        proof {
            assert(s[k] == c);
            assert(s.take(k + 1) =~= s.take(k).push(c));
            lemma_value_of_push(s.take(k), c);
        }
        match digit_of(c) {
            None => {
                proof {
                    assert forall|j: int|
                        0 <= j <= s.len() && all_digits(#[trigger] s.take(j)) implies value_of(
                        s.take(j),
                    ) <= u32::MAX by {
                        if j > k {
                            assert(s.take(j)[k] == c);
                        } else {
                            lemma_value_of_prefix(s, j, k);
                        }
                    }
                    assert(!all_digits(s)) by {
                        assert(s[k] == c);
                    }
                }
                return Err(ParseNumError::InvalidDigit);
            },
            Some(d) => {
                let next: u64 = acc as u64 * 10 + d as u64;
                if next > u32::MAX as u64 {
                    proof {
                        assert(all_digits(s.take(k + 1)));
                    }
                    return Err(ParseNumError::PosOverflow);
                }
                acc = next as u32;
            },
        }
        i = i + 1;
    }
    proof {
        assert(s.take(s.len() as int) =~= s);
        assert forall|j: int| 0 <= j <= s.len() implies value_of(#[trigger] s.take(j))
            <= u32::MAX by {
            lemma_value_of_prefix(s, j, s.len() as int);
        }
    }
    Ok(acc)
}

/// Reads `text` as an unsigned 32-bit number in decimal notation.
pub fn parse_u32(text: &Vec<char>) -> (r: Result<u32, ParseNumError>)
    ensures
        r == parse_number(text@),
{
    let len = text.len();
    if len == 0 {
        return Err(ParseNumError::Empty);
    }
    let first = text[0];
    if len == 1 && first == '+' {
        return Err(ParseNumError::InvalidDigit);
    }
    if first == '+' {
        proof {
            assert(text@.skip(1) =~= text@.drop_first());
        }
        read_digits(text, 1)
    } else {
        proof {
            assert(text@.skip(0) =~= text@);
        }
        read_digits(text, 0)
    }
}

} // verus!
