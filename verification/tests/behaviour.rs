use rutcl::component::{
    deserialize_key_impl, rewrite, rut_format_dash, rut_format_dots, rut_format_sans,
    rut_is_valid, serialize_key_impl,
};
use rutcl::decimal::{decimal_digits, digit_for, digit_of, parse_u32, ParseNumError};
use rutcl::text::{chars_of, string_of};
use rutcl::{Error, Format, Rut, VerificationDigit, MAX_NUM, MIN_NUM};
use std::cmp::Ordering;

const ALL: [VerificationDigit; 11] = [
    VerificationDigit::Zero,
    VerificationDigit::One,
    VerificationDigit::Two,
    VerificationDigit::Three,
    VerificationDigit::Four,
    VerificationDigit::Five,
    VerificationDigit::Six,
    VerificationDigit::Seven,
    VerificationDigit::Eight,
    VerificationDigit::Nine,
    VerificationDigit::K,
];

fn parse(text: &str) -> Result<u32, ParseNumError> {
    parse_u32(&text.chars().collect::<Vec<char>>())
}

#[test]
fn checksum_is_a_function_of_the_number() {
    for num in [0, 1, 9, 10, 999_999, 1_111_111, 17_951_585, 99_999_999, u32::MAX] {
        let first = VerificationDigit::new(num).unwrap();
        let second = VerificationDigit::new(num).unwrap();
        assert_eq!(first, second);
    }
}

#[test]
fn checksum_by_hand() {
    // 1.111.111: 1*2 + 1*3 + 1*4 + 1*5 + 1*6 + 1*7 + 1*2 = 29, 29 % 11 = 7, 11 - 7 = 4.
    assert_eq!(VerificationDigit::new(1_111_111).unwrap(), VerificationDigit::Four);
    // 0: sum 0, 11 - 0 = 11, which is the digit zero.
    assert_eq!(VerificationDigit::new(0).unwrap(), VerificationDigit::Zero);
    // 6: 6*2 = 12, 12 % 11 = 1, 11 - 1 = 10, which is K.
    assert_eq!(VerificationDigit::new(6).unwrap(), VerificationDigit::K);
    // u32::MAX = 4294967295: 5*2+9*3+2*4+7*5+6*6+9*7+4*2+9*3+2*4+4*5 = 242, 242 % 11 = 0.
    assert_eq!(VerificationDigit::new(u32::MAX).unwrap(), VerificationDigit::Zero);
}

#[test]
fn numeric_values_are_a_bijection() {
    for (value, digit) in ALL.iter().enumerate() {
        assert_eq!(digit.to_u32(), value as u32);
        assert_eq!(VerificationDigit::from_u32(value as u32).unwrap(), *digit);
    }
}

#[test]
fn numeric_value_out_of_bounds() {
    for value in [11, 12, 100, u32::MAX] {
        match VerificationDigit::from_u32(value) {
            Err(Error::VerificationDigitOutOfBounds(text)) => assert_eq!(text, value.to_string()),
            other => panic!("unexpected {:?}", other),
        }
    }
}

#[test]
fn characters_are_a_bijection() {
    let symbols = ['0', '1', '2', '3', '4', '5', '6', '7', '8', '9', 'K'];
    for (digit, symbol) in ALL.iter().zip(symbols) {
        assert_eq!(char::from(*digit), symbol);
        let back: char = (*digit).into();
        assert_eq!(back, symbol);
        assert_eq!(VerificationDigit::try_from(symbol).unwrap(), *digit);
        assert_eq!(digit.to_string(), symbol.to_string());
        assert_eq!(VerificationDigit::from_str(&symbol.to_string()).unwrap(), *digit);
    }
    assert_eq!(VerificationDigit::try_from('k').unwrap(), VerificationDigit::K);
}

#[test]
fn character_out_of_bounds() {
    for c in ['a', 'x', '-', '.', ' ', '+', 'Ķ', '٣'] {
        match VerificationDigit::try_from(c) {
            Err(Error::VerificationDigitOutOfBounds(text)) => assert_eq!(text, c.to_string()),
            other => panic!("unexpected {:?}", other),
        }
    }
}

#[test]
fn text_out_of_bounds() {
    for text in ["", "k", "10", "KK", "x", " 1"] {
        match VerificationDigit::from_str(text) {
            Err(Error::VerificationDigitOutOfBounds(found)) => assert_eq!(found, text),
            other => panic!("unexpected {:?}", other),
        }
    }
}

#[test]
fn digits_are_ordered_by_value() {
    for a in ALL {
        for b in ALL {
            assert_eq!(a < b, a.to_u32() < b.to_u32());
            assert_eq!(a.partial_cmp(&b), Some(a.to_u32().cmp(&b.to_u32())));
            assert_eq!(a.cmp(&b), a.to_u32().cmp(&b.to_u32()));
        }
    }
    assert!(VerificationDigit::Nine < VerificationDigit::K);
}

#[test]
fn decimal_digits_agree_with_the_standard_library() {
    for n in [0, 1, 9, 10, 11, 99, 100, 1_000, 999_999, 1_000_000, 17_951_585, 99_999_999, u32::MAX]
    {
        let digits: String = decimal_digits(n).into_iter().collect();
        assert_eq!(digits, n.to_string());
    }
}

#[test]
fn digit_conversions() {
    assert_eq!(digit_of('0'), Some(0));
    assert_eq!(digit_of('7'), Some(7));
    assert_eq!(digit_of('9'), Some(9));
    assert_eq!(digit_of('/'), None);
    assert_eq!(digit_of(':'), None);
    assert_eq!(digit_of('K'), None);
    assert_eq!(digit_of('٣'), None);
    for d in 0..10 {
        assert_eq!(digit_of(digit_for(d)), Some(d));
    }
}

#[test]
fn numbers_parse_as_in_the_standard_library() {
    let inputs = [
        "", "+", "-", "0", "7", "007", "+7", "++7", "-7", "7+", "1 ", " 1", "1_000", "12a", "a12",
        "4294967295", "4294967296", "04294967295", "99999999999", "99999999999x", "x99999999999",
        "429496729x", "4294967296x", "42949672950", "+4294967295", "+4294967296", "١٢٣", "1.5",
        "17951585", "0000000000000000000000017951585",
    ];
    for input in inputs {
        match (parse(input), input.parse::<u32>()) {
            (Ok(ours), Ok(theirs)) => assert_eq!(ours, theirs, "{input:?}"),
            (Err(ours), Err(theirs)) => {
                assert_eq!(ours.to_string(), theirs.to_string(), "{input:?}")
            }
            (ours, theirs) => panic!("{input:?}: {ours:?} against {theirs:?}"),
        }
    }
}

#[test]
fn number_error_kinds() {
    assert_eq!(parse(""), Err(ParseNumError::Empty));
    assert_eq!(parse("+"), Err(ParseNumError::InvalidDigit));
    assert_eq!(parse("12a"), Err(ParseNumError::InvalidDigit));
    assert_eq!(parse("4294967296"), Err(ParseNumError::PosOverflow));
    assert_eq!(parse("4294967295"), Ok(u32::MAX));
    assert_eq!(ParseNumError::Empty.to_string(), "cannot parse integer from empty string");
    assert_eq!(ParseNumError::InvalidDigit.to_string(), "invalid digit found in string");
    assert_eq!(
        ParseNumError::PosOverflow.to_string(),
        "number too large to fit in target type"
    );
}

#[test]
fn text_round_trips() {
    for text in ["", "a", "17.951.585-7", "ñandú", "日本語"] {
        assert_eq!(string_of(&chars_of(text)), text);
        assert_eq!(chars_of(text), text.chars().collect::<Vec<char>>());
    }
}

#[test]
fn range_boundary() {
    assert_eq!(Rut::try_from(1_000_000).unwrap().vd(), VerificationDigit::Nine);
    assert_eq!(Rut::try_from(99_999_999).unwrap().vd(), VerificationDigit::Nine);
    assert!(matches!(Rut::try_from(999_999), Err(Error::OutOfRange)));
    assert!(matches!(Rut::try_from(100_000_000), Err(Error::OutOfRange)));
    assert!(matches!(Rut::try_from(0), Err(Error::OutOfRange)));
    assert!(matches!(Rut::try_from(u32::MAX), Err(Error::OutOfRange)));
    assert_eq!(MIN_NUM, 1_000_000);
    assert_eq!(MAX_NUM, 99_999_999);
}

#[test]
fn decoration_insensitivity() {
    let want = Rut::try_from(17_951_585).unwrap();
    assert_eq!(want.vd(), VerificationDigit::Seven);
    for text in ["17.951.585-7", "17951585-7", "179515857", "1.7.9.5.1.5.8.5.7", "--179515857..", "1795158-5.7"]
    {
        assert_eq!(Rut::from_str(text).unwrap(), want, "{text}");
    }
}

#[test]
fn mismatch_detection() {
    match Rut::from_str("1.111.111-1") {
        Err(Error::InvalidVerificationDigit { have, want }) => {
            assert_eq!(have, '1');
            assert_eq!(want, '4');
        }
        other => panic!("unexpected {:?}", other),
    }
    match Rut::from_str("15441715-0") {
        Err(Error::InvalidVerificationDigit { have, want }) => {
            assert_eq!(have, '0');
            assert_eq!(want, 'K');
        }
        other => panic!("unexpected {:?}", other),
    }
}

#[test]
fn case_insensitivity_on_k() {
    let lower = Rut::from_str("15441715-k").unwrap();
    let upper = Rut::from_str("15441715-K").unwrap();
    assert_eq!(lower, upper);
    assert_eq!(lower.vd(), VerificationDigit::K);
    assert_eq!(lower.format(Format::Dash), "15441715-K");
}

#[test]
fn empty_input() {
    for text in ["", ".", "-", ".-.-", "...."] {
        assert!(matches!(Rut::from_str(text), Err(Error::EmptyString)), "{text}");
    }
}

#[test]
fn not_a_number() {
    let cases = [
        ("7", ParseNumError::Empty),
        ("K", ParseNumError::Empty),
        ("-7", ParseNumError::Empty),
        ("ThisIsNotARut", ParseNumError::InvalidDigit),
        ("+7", ParseNumError::InvalidDigit),
        ("17 951 585-7", ParseNumError::InvalidDigit),
        ("17,951,585-7", ParseNumError::InvalidDigit),
        ("99999999999-9", ParseNumError::PosOverflow),
        ("42949672969", ParseNumError::PosOverflow),
    ];
    for (text, kind) in cases {
        match Rut::from_str(text) {
            Err(Error::NaN(found)) => assert_eq!(found, kind, "{text}"),
            other => panic!("{text}: unexpected {:?}", other),
        }
    }
}

#[test]
fn out_of_range_text() {
    for text in ["999999-3", "0-0", "100000000-0", "4294967295-0", "00"] {
        assert!(matches!(Rut::from_str(text), Err(Error::OutOfRange)), "{text}");
    }
}

#[test]
fn range_is_checked_before_the_digit() {
    assert!(matches!(Rut::from_str("999999-x"), Err(Error::OutOfRange)));
    match Rut::from_str("17951585-x") {
        Err(Error::VerificationDigitOutOfBounds(text)) => assert_eq!(text, "x"),
        other => panic!("unexpected {:?}", other),
    }
}

#[test]
fn lenient_number() {
    let want = Rut::try_from(17_951_585).unwrap();
    assert_eq!(Rut::from_str("+17951585-7").unwrap(), want);
    assert_eq!(Rut::from_str("0017.951.585-7").unwrap(), want);
}

#[test]
fn error_messages() {
    let cases = [
        (
            Error::InvalidVerificationDigit { have: '1', want: '4' },
            "Invalid verification digit: have 1, want 4",
        ),
        (
            Error::VerificationDigitOutOfBounds("x".to_string()),
            "Verification digit out of bounds found: x",
        ),
        (Error::InvalidFormat, "Invalid format"),
        (
            Error::NaN(ParseNumError::InvalidDigit),
            "Provided string is not a number. invalid digit found in string",
        ),
        (
            Error::NaN(ParseNumError::Empty),
            "Provided string is not a number. cannot parse integer from empty string",
        ),
        (
            Error::NaN(ParseNumError::PosOverflow),
            "Provided string is not a number. number too large to fit in target type",
        ),
        (Error::OutOfRange, "Out of range"),
        (Error::EmptyString, "The provided string is empty"),
    ];
    for (error, text) in cases {
        assert_eq!(error.to_string(), text);
    }
}

#[test]
fn messages_of_parse_failures() {
    let cases = [
        ("ThisIsNotARut", "Provided string is not a number. invalid digit found in string"),
        ("", "The provided string is empty"),
        ("1.111.111-1", "Invalid verification digit: have 1, want 4"),
        ("999.999-3", "Out of range"),
        ("17951585-x", "Verification digit out of bounds found: x"),
    ];
    for (input, text) in cases {
        assert_eq!(Rut::from_str(input).unwrap_err().to_string(), text);
    }
}

#[test]
fn dots_grouping() {
    let cases = [
        (1_000_000, "1.000.000-9"),
        (99_999_999, "99.999.999-9"),
        (27_388_094, "27.388.094-1"),
        (1_326_658, "1.326.658-1"),
        (10_000_000, "10.000.000-8"),
    ];
    for (num, text) in cases {
        assert_eq!(Rut::try_from(num).unwrap().format(Format::Dots), text);
    }
}

#[test]
fn the_three_notations() {
    let rut = Rut::try_from(92_635_843).unwrap();
    assert_eq!(rut.format(Format::Sans), "92635843K");
    assert_eq!(rut.format(Format::Dash), "92635843-K");
    assert_eq!(rut.format(Format::Dots), "92.635.843-K");
    assert_eq!(rut.to_string(), "92635843K");
}

#[test]
fn round_trip() {
    let numbers = [
        1_000_000, 1_000_001, 1_326_658, 9_999_999, 10_000_000, 15_441_715, 17_951_585,
        75_303_649, 99_999_998, 99_999_999,
    ];
    for num in numbers {
        let rut = Rut::try_from(num).unwrap();
        for fmt in [Format::Sans, Format::Dash, Format::Dots] {
            assert_eq!(Rut::from_str(&rut.format(fmt)).unwrap(), rut);
        }
        assert_eq!(Rut::from_str(&rut.to_string()).unwrap(), rut);
    }
    for _ in 0..200 {
        let rut = Rut::random().unwrap();
        for fmt in [Format::Sans, Format::Dash, Format::Dots] {
            assert_eq!(Rut::from_str(&rut.format(fmt)).unwrap(), rut);
        }
    }
}

#[test]
fn sans_removes_dots_and_dashes() {
    let cases = [
        ("17.951.585-7", "179515857"),
        ("", ""),
        (".-.-", ""),
        ("a.b-c", "abc"),
        ("no decoration", "no decoration"),
        ("  1-2  ", "  12  "),
        ("ñ.ñ", "ññ"),
    ];
    for (input, want) in cases {
        assert_eq!(Rut::sans(input), want);
        assert_eq!(Rut::sans(input), input.replace(['.', '-'], ""));
    }
}

#[test]
fn ordering_follows_the_number() {
    let low = Rut::try_from(15_441_715).unwrap(); // K
    let high = Rut::try_from(15_441_716).unwrap();
    assert_eq!(low.vd(), VerificationDigit::K);
    assert!(high.vd() < low.vd());
    assert!(low < high);
    assert!(high > low);
    assert!(low <= high);
    assert_eq!(low.cmp(&high), Ordering::Less);
    assert_eq!(high.cmp(&low), Ordering::Greater);
    assert_eq!(low.cmp(&low), Ordering::Equal);
    assert_eq!(low.partial_cmp(&high), Some(Ordering::Less));
    assert_eq!(Ord::cmp(&low, &high), Ordering::Less);
    assert!(Rut::min() < Rut::max());

    let mut ruts = vec![high, Rut::max(), low, Rut::min()];
    ruts.sort();
    assert_eq!(ruts, vec![Rut::min(), low, high, Rut::max()]);
}

#[test]
fn seeds_count_off_the_range() {
    assert_eq!(Rut::from_seed(0).unwrap(), Rut::min());
    assert_eq!(Rut::from_seed(98_999_999).unwrap(), Rut::max());
    assert_eq!(Rut::from_seed(99_000_000).unwrap(), Rut::min());
    assert_eq!(Rut::from_seed(16_951_585).unwrap().num(), 17_951_585);
    // u64::MAX = 18446744073709551615 = 186330748219 * 99000000 + 28551615
    assert_eq!(Rut::from_seed(u64::MAX).unwrap().num(), 29_551_615);
}

#[test]
fn random_is_valid() {
    for _ in 0..500 {
        let rut = Rut::random().unwrap();
        assert!(MIN_NUM <= rut.num() && rut.num() <= MAX_NUM);
        assert_eq!(rut.vd(), VerificationDigit::new(rut.num()).unwrap());
        assert_eq!(rut, Rut::try_from(rut.num()).unwrap());
    }
}

#[test]
fn random_in_range_is_valid_and_varies() {
    let mut seen = Vec::new();
    for _ in 0..200 {
        let rut = Rut::random_in_range(10_000_000, 15_000_000).unwrap();
        assert!(10_000_000 <= rut.num() && rut.num() <= 15_000_000);
        assert_eq!(rut.vd(), VerificationDigit::new(rut.num()).unwrap());
        if !seen.contains(&rut.num()) {
            seen.push(rut.num());
        }
    }
    assert!(seen.len() > 1);
    assert!(seen.iter().any(|num| *num != 10_000_000));
}

#[test]
fn random_in_narrow_ranges() {
    assert_eq!(Rut::random_in_range(17_951_585, 17_951_585).unwrap().num(), 17_951_585);
    assert_eq!(Rut::random_in_range(MIN_NUM, MIN_NUM).unwrap(), Rut::min());
    assert_eq!(Rut::random_in_range(MAX_NUM, MAX_NUM).unwrap(), Rut::max());
    let mut low = false;
    let mut high = false;
    for _ in 0..200 {
        let num = Rut::random_in_range(20_000_000, 20_000_001).unwrap().num();
        low = low || num == 20_000_000;
        high = high || num == 20_000_001;
    }
    assert!(low && high);
    assert!(Rut::random_in_range(MIN_NUM, MAX_NUM).is_ok());
}

#[test]
fn random_in_range_out_of_range() {
    let ranges = [
        (0, 10),
        (999_999, 2_000_000),
        (50_000_000, 100_000_000),
        (0, u32::MAX),
        (15_000_000, 10_000_000),
        (MAX_NUM, MIN_NUM),
    ];
    for (lo, hi) in ranges {
        assert!(matches!(Rut::random_in_range(lo, hi), Err(Error::OutOfRange)), "{lo}..={hi}");
    }
}

#[test]
fn entry_points_rewrite() {
    assert_eq!(rut_format_sans("17.951.585-7".to_string()), Ok("179515857".to_string()));
    assert_eq!(rut_format_dash("179515857".to_string()), Ok("17951585-7".to_string()));
    assert_eq!(rut_format_dots("17951585-7".to_string()), Ok("17.951.585-7".to_string()));
    assert_eq!(rewrite("15441715k", Format::Dots), Ok("15.441.715-K".to_string()));
}

#[test]
fn entry_points_render_failures() {
    assert_eq!(
        rut_format_sans("1.111.111-1".to_string()),
        Err("Invalid verification digit: have 1, want 4".to_string())
    );
    assert_eq!(rut_format_dash("".to_string()), Err("The provided string is empty".to_string()));
    assert_eq!(
        rut_format_dots("ThisIsNotARut".to_string()),
        Err("Provided string is not a number. invalid digit found in string".to_string())
    );
    assert_eq!(rut_format_dots("999999-3".to_string()), Err("Out of range".to_string()));
}

#[test]
fn entry_point_is_valid() {
    assert_eq!(rut_is_valid("17.951.585-7".to_string()), Ok(true));
    assert_eq!(rut_is_valid("15441715-k".to_string()), Ok(true));
    assert_eq!(rut_is_valid("1.111.111-1".to_string()), Ok(false));
    assert_eq!(rut_is_valid("".to_string()), Ok(false));
    assert_eq!(rut_is_valid("ThisIsNotARut".to_string()), Ok(false));
}

#[test]
fn keys_pass_through() {
    assert_eq!(deserialize_key_impl(None), Ok(None));
    assert_eq!(deserialize_key_impl(Some("ñ1".to_string())), Ok(Some(vec![0xc3, 0xb1, b'1'])));
    assert_eq!(deserialize_key_impl(Some(String::new())), Ok(Some(vec![])));
    assert_eq!(serialize_key_impl(None), Ok(None));
    assert_eq!(serialize_key_impl(Some(vec![1, 2, 3])), Ok(Some(vec![1, 2, 3])));
}
