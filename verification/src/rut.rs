//! The identifier: a number within a fixed range, together with the
//! verification digit that the number calls for.

use crate::decimal::{
    decimal, decimal_digits, is_digit, lemma_decimal_digits, parse_number, parse_u32,
};
use crate::digit::{check_digit, lemma_weighted_sum_step, weighted_sum, VerificationDigit};
use crate::error::{Error, ErrorView};
use crate::random::{entropy, uniform};
use crate::text::{chars_of, string_of};
use vstd::prelude::*;

verus! {

/// The number of a RUT, without its verification digit.
pub type Num = u32;

/// The smallest number that a RUT can have.
pub const MIN_NUM: Num = 1_000_000;

/// The largest number that a RUT can have.
pub const MAX_NUM: Num = 99_999_999;

/// How many numbers a RUT can have.
pub const SPAN: Num = 99_000_000;

/// The textual notations of a RUT.
#[derive(Copy, Clone, Debug, PartialEq, Eq, Structural)]
pub enum Format {
    /// The digits of the number, directly followed by the verification
    /// digit: `179515857`.
    Sans,
    /// A dash between the number and the verification digit, and no dots:
    /// `17951585-7`.
    Dash,
    /// The notation printed on identity cards, with the digits of the
    /// number in groups of three: `17.951.585-7`.
    Dots,
}

/// A valid RUT. The verification digit is never chosen: it is the one that
/// the number calls for, and the number lies between [`MIN_NUM`] and
/// [`MAX_NUM`].
#[derive(Copy, Clone, Debug, Hash, PartialEq, Eq, Ord, Structural)]
pub struct Rut(Num, VerificationDigit);

/// `n` is the number of some RUT.
pub open spec fn in_range(n: nat) -> bool {
    MIN_NUM <= n <= MAX_NUM
}

/// `c` is one of the two characters that only decorate a RUT.
pub open spec fn is_decoration(c: char) -> bool {
    c == '.' || c == '-'
}

/// No character of `s` is a decoration.
pub open spec fn undecorated(s: Seq<char>) -> bool {
    forall|i: int| 0 <= i < s.len() ==> !is_decoration(#[trigger] s[i])
}

/// `s` without its dots and dashes.
pub open spec fn strip(s: Seq<char>) -> Seq<char> {
    s.filter(|c: char| !is_decoration(c))
}

/// `digits` with a dot in front of every group of three, counted from the
/// right, but not in front of the whole.
pub open spec fn group_thousands(digits: Seq<char>) -> Seq<char>
    decreases digits.len(),
{
    if digits.len() <= 3 {
        digits
    } else {
        group_thousands(digits.take(digits.len() - 3)).push('.') + digits.skip(digits.len() - 3)
    }
}

/// The text of the RUT with number `num` and verification digit `vd` in
/// the notation `fmt`.
pub open spec fn format_spec(num: nat, vd: VerificationDigit, fmt: Format) -> Seq<char> {
    match fmt {
        Format::Sans => decimal(num).push(vd.symbol()),
        Format::Dash => decimal(num).push('-').push(vd.symbol()),
        Format::Dots => group_thousands(decimal(num)).push('-').push(vd.symbol()),
    }
}

/// What reading the text `input` as a RUT yields: the number of the RUT, or
/// the failure.
///
/// Dots and dashes are dropped wherever they stand. The last character that
/// is left is the claimed verification digit and what stands before it is
/// the number. The number must read as one, lie in range, and call for the
/// claimed digit.
pub open spec fn parse_spec(input: Seq<char>) -> Result<Num, ErrorView> {
    let bare = strip(input);
    if bare.len() == 0 {
        Err(ErrorView::EmptyString)
    } else {
        let claimed = bare.last();
        match parse_number(bare.drop_last()) {
            Err(kind) => Err(ErrorView::NaN(kind)),
            Ok(num) => {
                if !in_range(num as nat) {
                    Err(ErrorView::OutOfRange)
                } else {
                    match VerificationDigit::from_symbol(claimed) {
                        None => Err(ErrorView::VerificationDigitOutOfBounds(seq![claimed])),
                        Some(have) => {
                            if have == check_digit(num as nat) {
                                Ok(num)
                            } else {
                                Err(
                                    ErrorView::InvalidVerificationDigit {
                                        have: claimed,
                                        want: check_digit(num as nat).symbol(),
                                    },
                                )
                            }
                        },
                    }
                }
            },
        }
    }
}

/// Stripping a text that ends in `c` strips what stands before `c` and
/// keeps `c` unless it is a decoration.
pub proof fn lemma_strip_push(s: Seq<char>, c: char)
    ensures
        strip(s.push(c)) == if is_decoration(c) {
            strip(s)
        } else {
            strip(s).push(c)
        },
{
    reveal(Seq::filter);
    assert(s.push(c).drop_last() =~= s);
}

/// Stripping leaves a text without decorations as it is.
pub proof fn lemma_strip_undecorated(s: Seq<char>)
    requires
        undecorated(s),
    ensures
        strip(s) == s,
    decreases s.len(),
{
    reveal(Seq::filter);
    if s.len() > 0 {
        lemma_strip_undecorated(s.drop_last());
        assert(s.drop_last().push(s.last()) =~= s);
    }
}

/// Stripping a text made of two parts strips each part.
pub proof fn lemma_strip_concat(a: Seq<char>, b: Seq<char>)
    ensures
        strip(a + b) == strip(a) + strip(b),
{
    Seq::filter_distributes_over_add(a, b, |c: char| !is_decoration(c));
}

/// Stripping takes out exactly the dots that grouping has put in.
pub proof fn lemma_strip_grouped(digits: Seq<char>)
    requires
        undecorated(digits),
    ensures
        strip(group_thousands(digits)) == digits,
    decreases digits.len(),
{
    if digits.len() <= 3 {
        lemma_strip_undecorated(digits);
    } else {
        let cut = digits.len() - 3;
        let head = digits.take(cut);
        let tail = digits.skip(cut);
        lemma_strip_grouped(head);
        lemma_strip_push(group_thousands(head), '.');
        lemma_strip_undecorated(tail);
        lemma_strip_concat(group_thousands(head).push('.'), tail);
        assert(head + tail =~= digits);
    }
}

/// The decimal notation of a number holds no decoration.
pub proof fn lemma_decimal_undecorated(n: nat)
    ensures
        undecorated(decimal(n)),
{
    lemma_decimal_digits(n);
    let s = decimal(n);
    assert forall|i: int| 0 <= i < s.len() implies !is_decoration(#[trigger] s[i]) by {
        assert(is_digit(s[i]));
    }
}

/// Reading the text of a RUT, in any of the three notations, gives its
/// number back: formatting loses nothing and parsing accepts all that
/// formatting produces.
pub proof fn lemma_parse_format(num: Num, fmt: Format)
    requires
        in_range(num as nat),
    ensures
        parse_spec(format_spec(num as nat, check_digit(num as nat), fmt)) == Ok::<Num, ErrorView>(
            num,
        ),
{
    let n = num as nat;
    let vd = check_digit(n);
    let digits = decimal(n);
    let text = format_spec(n, vd, fmt);
    lemma_decimal_undecorated(n);
    lemma_strip_undecorated(digits);
    crate::decimal::lemma_parse_decimal(n);
    assert(!is_decoration(vd.symbol()));
    assert(VerificationDigit::from_symbol(vd.symbol()) == Some(vd));
    match fmt {
        Format::Sans => {
            lemma_strip_push(digits, vd.symbol());
        },
        Format::Dash => {
            lemma_strip_push(digits, '-');
            lemma_strip_push(digits.push('-'), vd.symbol());
        },
        Format::Dots => {
            let grouped = group_thousands(digits);
            lemma_strip_grouped(digits);
            lemma_strip_push(grouped, '-');
            lemma_strip_push(grouped.push('-'), vd.symbol());
        },
    }
    assert(strip(text) == digits.push(vd.symbol()));
    assert(strip(text).drop_last() =~= digits);
}

/// The smallest number calls for the verification digit nine.
pub proof fn lemma_check_digit_min()
    ensures
        check_digit(MIN_NUM as nat) == VerificationDigit::Nine,
{
    assert(weighted_sum(1, 6) == 2);
    lemma_weighted_sum_step(10, 5, 0, 7, 2);
    lemma_weighted_sum_step(100, 4, 0, 6, 2);
    lemma_weighted_sum_step(1_000, 3, 0, 5, 2);
    lemma_weighted_sum_step(10_000, 2, 0, 4, 2);
    lemma_weighted_sum_step(100_000, 1, 0, 3, 2);
    lemma_weighted_sum_step(1_000_000, 0, 0, 2, 2);
}

/// The largest number calls for the verification digit nine.
pub proof fn lemma_check_digit_max()
    ensures
        check_digit(MAX_NUM as nat) == VerificationDigit::Nine,
{
    assert(weighted_sum(9, 7) == 27);
    lemma_weighted_sum_step(99, 6, 9, 2, 27);
    lemma_weighted_sum_step(999, 5, 9, 7, 45);
    lemma_weighted_sum_step(9_999, 4, 9, 6, 108);
    lemma_weighted_sum_step(99_999, 3, 9, 5, 162);
    lemma_weighted_sum_step(999_999, 2, 9, 4, 207);
    lemma_weighted_sum_step(9_999_999, 1, 9, 3, 243);
    lemma_weighted_sum_step(99_999_999, 0, 9, 2, 270);
}

/// Writes `digits` with a dot in front of every group of three, counted
/// from the right.
fn group_digits(digits: &Vec<char>) -> (out: String)
    ensures
        out@ == group_thousands(digits@),
{
    let len = digits.len();
    let mut out = String::new();
    if len == 0 {
        return out;
    }
    let first = len - 3 * ((len - 1) / 3);
    let mut i: usize = 0;
    while i < first
        invariant
            len == digits.len(),
            1 <= first <= 3,
            first <= len,
            i <= first,
            out@ == digits@.take(i as int),
        decreases first - i,
    {
        out.push(digits[i]);
        proof {
            assert(out@ =~= digits@.take(i + 1));
        }
        i = i + 1;
    }
    while i < len
        invariant
            len == digits.len(),
            1 <= i <= len,
            (len - i) % 3 == 0,
            out@ == group_thousands(digits@.take(i as int)),
        decreases len - i,
    {
        proof {
            let next = digits@.take(i + 3);
            assert(next.take(next.len() - 3) =~= digits@.take(i as int));
            assert(next.skip(next.len() - 3) =~= seq![
                digits@[i as int],
                digits@[i + 1],
                digits@[i + 2],
            ]);
            assert(out@.push('.').push(digits@[i as int]).push(digits@[i + 1]).push(digits@[i + 2])
                =~= out@.push('.') + seq![digits@[i as int], digits@[i + 1], digits@[i + 2]]);
        }
        out.push('.');
        out.push(digits[i]);
        out.push(digits[i + 1]);
        out.push(digits[i + 2]);
        i = i + 3;
    }
    proof {
        assert(digits@.take(len as int) =~= digits@);
    }
    out
}

impl Rut {
    /// The number of the RUT.
    pub closed spec fn spec_num(&self) -> Num {
        self.0
    }

    /// The verification digit of the RUT.
    pub closed spec fn spec_vd(&self) -> VerificationDigit {
        self.1
    }

    /// What holds of every RUT: the number lies in range and the
    /// verification digit is the one that the number calls for.
    #[verifier::type_invariant]
    pub open spec fn wf(self) -> bool {
        &&& in_range(self.num() as nat)
        &&& self.vd() == check_digit(self.num() as nat)
    }

    /// The text of the RUT in the notation `fmt`.
    pub open spec fn text(self, fmt: Format) -> Seq<char> {
        format_spec(self.num() as nat, self.vd(), fmt)
    }

    /// The RUT whose number is `num`: its verification digit is the one
    /// that `num` calls for.
    pub closed spec fn of(num: Num) -> Rut {
        Rut(num, check_digit(num as nat))
    }

    /// What [`Rut::of`] makes: a RUT with the given number, valid exactly if
    /// the number lies in range; and every valid RUT is made so.
    pub proof fn lemma_of(num: Num)
        ensures
            Rut::of(num).num() == num,
            Rut::of(num).vd() == check_digit(num as nat),
            Rut::of(num).wf() <==> in_range(num as nat),
            forall|rut: Rut| rut.wf() && rut.num() == num ==> rut == Rut::of(num),
    {
    }

    /// Reading the text of a valid RUT gives that RUT back, whichever of
    /// the three notations the text is written in.
    pub proof fn lemma_round_trip(self, fmt: Format)
        requires
            self.wf(),
        ensures
            parse_spec(self.text(fmt)) == Ok::<Num, ErrorView>(self.num()),
            Rut::of(self.num()) == self,
    {
        lemma_parse_format(self.num(), fmt);
    }

    /// Two RUTs with the same number and the same verification digit are
    /// the same RUT.
    pub proof fn lemma_same(a: Rut, b: Rut)
        requires
            a.num() == b.num(),
            a.vd() == b.vd(),
        ensures
            a == b,
    {
    }

    /// The largest RUT: its number is [`MAX_NUM`] and its verification
    /// digit is nine.
    pub fn max() -> (rut: Rut)
        ensures
            rut.num() == MAX_NUM,
            rut.vd() == VerificationDigit::Nine,
            rut.wf(),
    {
        proof {
            lemma_check_digit_max();
        }
        Rut(MAX_NUM, VerificationDigit::Nine)
    }

    /// The smallest RUT: its number is [`MIN_NUM`] and its verification
    /// digit is nine.
    pub fn min() -> (rut: Rut)
        ensures
            rut.num() == MIN_NUM,
            rut.vd() == VerificationDigit::Nine,
            rut.wf(),
    {
        proof {
            lemma_check_digit_min();
        }
        Rut(MIN_NUM, VerificationDigit::Nine)
    }

    /// The RUT that the number `seed` selects: the numbers in range are
    /// counted off from the smallest, starting over after the largest.
    pub fn from_seed(seed: u64) -> (r: Result<Rut, Error>)
        ensures
            r matches Ok(rut) && rut.num() == MIN_NUM + seed % (SPAN as u64) && rut.vd()
                == check_digit(rut.num() as nat) && rut.wf(),
    {
        let offset = (seed % (SPAN as u64)) as u32;
        Rut::try_from(MIN_NUM + offset)
    }

    /// Draws a RUT at random from all there are. Two draws may give the
    /// same RUT.
    pub fn random() -> (r: Result<Rut, Error>)
        ensures
            r matches Ok(rut) && rut.wf(),
    {
        Rut::from_seed(entropy())
    }

    /// Draws a RUT at random among those whose numbers lie between `lo`
    /// and `hi`, both included. A range that holds no number, or a number
    /// that no RUT has, is refused as out of range.
    pub fn random_in_range(lo: Num, hi: Num) -> (r: Result<Rut, Error>)
        ensures
            MIN_NUM <= lo <= hi <= MAX_NUM ==> (r matches Ok(rut) && lo <= rut.num() <= hi
                && rut.wf()),
            !(MIN_NUM <= lo <= hi <= MAX_NUM) ==> (r matches Err(e) && e@
                == ErrorView::OutOfRange),
    {
        if lo < MIN_NUM || hi > MAX_NUM || lo > hi {
            return Err(Error::OutOfRange);
        }
        Rut::try_from(uniform(lo, hi))
    }

    /// The number of the RUT, without its verification digit.
    #[inline]
    #[verifier::when_used_as_spec(spec_num)]
    pub fn num(&self) -> (num: Num)
        ensures
            num == self.spec_num(),
    {
        self.0
    }

    /// The verification digit of the RUT.
    #[inline]
    #[verifier::when_used_as_spec(spec_vd)]
    pub fn vd(&self) -> (vd: VerificationDigit)
        ensures
            vd == self.spec_vd(),
    {
        self.1
    }

    /// Writes the RUT in the notation `fmt`.
    pub fn format(&self, fmt: Format) -> (out: String)
        ensures
            out@ == self.text(fmt),
    {
        let digits = decimal_digits(self.0);
        let mut out = match fmt {
            Format::Sans => string_of(&digits),
            Format::Dash => {
                let mut out = string_of(&digits);
                out.push('-');
                out
            },
            Format::Dots => {
                let mut out = group_digits(&digits);
                out.push('-');
                out
            },
        };
        out.push(char::from(self.1));
        out
    }

    /// Removes every dot and every dash from `input`, wherever they stand.
    /// Nothing is checked.
    pub fn sans(input: &str) -> (out: String)
        ensures
            out@ == strip(input@),
    {
        let mut out = String::new();
        proof {
            lemma_strip_undecorated(Seq::<char>::empty());
            assert(input@.take(input@.len() as int) =~= input@);
        }
        for c in it: input.chars()
            invariant
                it.seq() == input@,
                out@ == strip(input@.take(it.index() as int)),
        {
            proof {
                let seen = input@.take(it.index() as int);
                assert(input@.take(it.index() + 1) =~= seen.push(c));
                lemma_strip_push(seen, c);
            }
            if c != '.' && c != '-' {
                out.push(c);
            }
        }
        out
    }

    /// The canonical text of the RUT: the notation without dots and dash.
    pub fn to_string(&self) -> (text: String)
        ensures
            text@ == self.text(Format::Sans),
    {
        self.format(Format::Sans)
    }

    /// Reads a RUT from `input`. See [`parse_spec`] for what is accepted
    /// and for the failure that each rejected text gives.
    pub fn from_str(input: &str) -> (r: Result<Rut, Error>)
        ensures
            match parse_spec(input@) {
                Ok(num) => r matches Ok(rut) && rut.num() == num && rut.vd() == check_digit(
                    num as nat,
                ) && rut.wf(),
                Err(failure) => r matches Err(e) && e@ == failure,
            },
    {
        let sans = Rut::sans(input);
        let mut chars = chars_of(sans.as_str());
        let claimed = match chars.pop() {
            Some(c) => c,
            None => {
                return Err(Error::EmptyString);
            },
        };
        let num = match parse_u32(&chars) {
            Ok(num) => num,
            Err(kind) => {
                return Err(Error::NaN(kind));
            },
        };
        let want = match Rut::try_from(num) {
            Ok(rut) => rut,
            Err(e) => {
                return Err(e);
            },
        };
        let have = match VerificationDigit::try_from(claimed) {
            Ok(digit) => digit,
            Err(e) => {
                return Err(e);
            },
        };
        if want.vd() == have {
            return Ok(want);
        }
        Err(Error::InvalidVerificationDigit { have: claimed, want: char::from(want.vd()) })
    }

    /// The RUT whose number is `num`, if `num` lies in range.
    pub fn try_from(num: Num) -> (r: Result<Rut, Error>)
        ensures
            in_range(num as nat) ==> (r matches Ok(rut) && rut.num() == num && rut.vd()
                == check_digit(num as nat) && rut.wf()),
            !in_range(num as nat) ==> (r matches Err(e) && e@ == ErrorView::OutOfRange),
    {
        if MIN_NUM <= num && num <= MAX_NUM {
            match VerificationDigit::new(num) {
                Ok(vd) => Ok(Rut(num, vd)),
                Err(e) => Err(e),
            }
        } else {
            Err(Error::OutOfRange)
        }
    }
}

} // verus!
