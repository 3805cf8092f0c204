use indoor_sensors::text::{
    char_is_whitespace, chars_of, format_decimal, lines_of, parse_trimmed, parse_unsigned,
    push_decimal, split_on, trim_bounds, ParseFault,
};

fn text_of(chars: &[char]) -> String {
    chars.iter().collect()
}

#[test]
fn numeral_is_read() {
    assert_eq!(parse_unsigned("123", 65535), Ok(123));
    assert_eq!(parse_unsigned("0", 65535), Ok(0));
    assert_eq!(parse_unsigned("65535", 65535), Ok(65535));
}

#[test]
fn numeral_may_carry_a_plus_sign() {
    assert_eq!(parse_unsigned("+7", 65535), Ok(7));
    assert_eq!(parse_unsigned("++7", 65535), Err(ParseFault::InvalidDigit));
}

#[test]
fn numeral_may_carry_leading_zeros() {
    assert_eq!(parse_unsigned("000065535", 65535), Ok(65535));
    assert_eq!(parse_unsigned("0000000000000000000000000000000000001", 1), Ok(1));
}

#[test]
fn empty_text_is_no_numeral() {
    assert_eq!(parse_unsigned("", 65535), Err(ParseFault::Empty));
}

#[test]
fn lone_sign_is_no_numeral() {
    assert_eq!(parse_unsigned("+", 65535), Err(ParseFault::InvalidDigit));
    assert_eq!(parse_unsigned("-", 65535), Err(ParseFault::InvalidDigit));
}

#[test]
fn negative_number_is_no_unsigned_numeral() {
    assert_eq!(parse_unsigned("-5", 65535), Err(ParseFault::InvalidDigit));
}

#[test]
fn letters_are_no_digits() {
    assert_eq!(parse_unsigned("12a", 65535), Err(ParseFault::InvalidDigit));
    assert_eq!(parse_unsigned("abc", 65535), Err(ParseFault::InvalidDigit));
    assert_eq!(parse_unsigned("1_000", 65535), Err(ParseFault::InvalidDigit));
    assert_eq!(parse_unsigned("0.11", 65535), Err(ParseFault::InvalidDigit));
}

#[test]
fn other_scripts_digits_are_no_digits() {
    assert_eq!(parse_unsigned("\u{0663}", 65535), Err(ParseFault::InvalidDigit));
}

#[test]
fn numeral_beyond_the_limit_is_too_large() {
    assert_eq!(parse_unsigned("65536", 65535), Err(ParseFault::TooLarge));
    assert_eq!(parse_unsigned("4294967296", 0xFFFF_FFFF), Err(ParseFault::TooLarge));
    assert_eq!(parse_unsigned("4294967295", 0xFFFF_FFFF), Ok(4294967295));
}

#[test]
fn the_first_fault_from_the_left_counts() {
    assert_eq!(parse_unsigned("99999x", 65535), Err(ParseFault::TooLarge));
    assert_eq!(parse_unsigned("9x9999", 65535), Err(ParseFault::InvalidDigit));
    assert_eq!(parse_unsigned("6553x", 65535), Err(ParseFault::InvalidDigit));
}

#[test]
fn numeral_at_the_limit_of_the_machine() {
    assert_eq!(parse_unsigned("18446744073709551615", u64::MAX), Ok(u64::MAX));
    assert_eq!(parse_unsigned("18446744073709551616", u64::MAX), Err(ParseFault::TooLarge));
    assert_eq!(
        parse_unsigned("99999999999999999999999999999999999999999", u64::MAX),
        Err(ParseFault::TooLarge)
    );
}

#[test]
fn whitespace_around_a_numeral_is_cut_off() {
    assert_eq!(parse_trimmed("  400\n", 65535), Ok(400));
    assert_eq!(parse_trimmed("\t20\r\n", 65535), Ok(20));
    assert_eq!(parse_trimmed("\u{3000}20\u{85}", 65535), Ok(20));
    assert_eq!(parse_trimmed("20", 65535), Ok(20));
}

#[test]
fn whitespace_inside_a_numeral_is_a_fault() {
    assert_eq!(parse_trimmed(" 4 0 ", 65535), Err(ParseFault::InvalidDigit));
    assert_eq!(parse_trimmed("+ 4", 65535), Err(ParseFault::InvalidDigit));
}

#[test]
fn only_whitespace_is_empty() {
    assert_eq!(parse_trimmed("   \n", 65535), Err(ParseFault::Empty));
    assert_eq!(parse_trimmed("", 65535), Err(ParseFault::Empty));
}

#[test]
fn whitespace_is_what_the_standard_library_calls_whitespace() {
    let mut code: u32 = 0;
    while code <= 0x3100 {
        if let Some(c) = char::from_u32(code) {
            assert_eq!(char_is_whitespace(c), c.is_whitespace(), "U+{:04X}", code);
        }
        code += 1;
    }
    assert!(!char_is_whitespace('\u{FEFF}'));
    assert!(!char_is_whitespace('\u{200B}'));
    assert!(!char_is_whitespace('\u{180E}'));
}

#[test]
fn trimmed_numerals_are_read_as_the_standard_library_reads_them() {
    let samples = [
        "", " ", "0", "7", "+7", "-7", "+", "-", "++1", "+-1", "400", " 400", "400 ", "\n400\n",
        "\u{A0}400\u{2003}", "65535", "65536", "065535", "0000065536", "99999", "99999x", "x99999",
        "9 9", "1e3", "0x10", "12.5", "\u{FEFF}12", "\u{200B}12", "٣", "１２", "4294967295",
        "18446744073709551616", " +0 ", "+00", "\t\u{1680}\u{2028}\u{2029}\u{202F}\u{205F}3",
    ];
    for s in samples.iter() {
        let ours = parse_trimmed(s, 65535);
        let theirs = s.trim().parse::<u16>();
        match (ours, theirs) {
            (Ok(a), Ok(b)) => assert_eq!(a, b as u64, "{:?}", s),
            (Err(_), Err(_)) => {}
            (a, b) => panic!("{:?}: {:?} against {:?}", s, a, b),
        }
        let ours = parse_trimmed(s, 0xFFFF_FFFF);
        let theirs = s.trim().parse::<u32>();
        match (ours, theirs) {
            (Ok(a), Ok(b)) => assert_eq!(a, b as u64, "{:?}", s),
            (Err(_), Err(_)) => {}
            (a, b) => panic!("{:?}: {:?} against {:?}", s, a, b),
        }
    }
}

#[test]
fn parse_faults_are_those_of_the_standard_library() {
    let words = |fault: ParseFault| match fault {
        ParseFault::Empty => "cannot parse integer from empty string",
        ParseFault::InvalidDigit => "invalid digit found in string",
        ParseFault::TooLarge => "number too large to fit in target type",
    };
    for s in ["", "+", "-", "-1", "x", "65536", "99999x", "9x9999", "123456789012345678901x"].iter() {
        let ours = parse_unsigned(s, 65535).unwrap_err();
        let theirs = s.parse::<u16>().unwrap_err();
        assert_eq!(words(ours), theirs.to_string(), "{:?}", s);
    }
}

#[test]
fn number_is_spelled_in_decimal() {
    assert_eq!(format_decimal(0), "0");
    assert_eq!(format_decimal(7), "7");
    assert_eq!(format_decimal(10), "10");
    assert_eq!(format_decimal(400), "400");
    assert_eq!(format_decimal(65535), "65535");
    assert_eq!(format_decimal(u64::MAX), "18446744073709551615");
}

#[test]
fn spelled_number_is_appended() {
    let mut s = String::from("co2=");
    push_decimal(&mut s, 1234567890);
    assert_eq!(s, "co2=1234567890");
}

#[test]
fn spelling_is_that_of_the_standard_library() {
    for n in [0u64, 1, 9, 10, 11, 99, 100, 101, 999, 1000, 32767, 32768, 65535, 65536, 1 << 40].iter() {
        assert_eq!(format_decimal(*n), n.to_string());
    }
}

#[test]
fn written_number_is_read_back() {
    let mut n: u64 = 0;
    while n <= 65535 {
        assert_eq!(parse_trimmed(&format_decimal(n), 65535), Ok(n));
        n += 1;
    }
}

#[test]
fn text_is_cut_at_every_comma() {
    let fields = split_on(&chars_of("a,b,,c"), ',');
    let got: Vec<String> = fields.iter().map(|f| text_of(f)).collect();
    assert_eq!(got, vec!["a", "b", "", "c"]);
}

#[test]
fn empty_text_is_one_empty_field() {
    let fields = split_on(&chars_of(""), ',');
    assert_eq!(fields.len(), 1);
    assert!(fields[0].is_empty());
}

#[test]
fn a_comma_at_either_end_bounds_an_empty_field() {
    let fields = split_on(&chars_of(",x,"), ',');
    let got: Vec<String> = fields.iter().map(|f| text_of(f)).collect();
    assert_eq!(got, vec!["", "x", ""]);
}

#[test]
fn cutting_agrees_with_the_standard_library() {
    for s in ["", ",", ",,", "CPS, 1, CPM, 20", "a", "a,", ",a", "a,,b", "é,ü"].iter() {
        let ours: Vec<String> = split_on(&chars_of(s), ',').iter().map(|f| text_of(f)).collect();
        let theirs: Vec<String> = s.split(',').map(|f| f.to_string()).collect();
        assert_eq!(ours, theirs, "{:?}", s);
    }
}

#[test]
fn bounds_leave_out_the_whitespace() {
    let v = chars_of("  CPS \r\n");
    assert_eq!(trim_bounds(&v), (2, 5));
    let v = chars_of("CPS");
    assert_eq!(trim_bounds(&v), (0, 3));
}

#[test]
fn bounds_of_whitespace_only_are_empty() {
    let v = chars_of(" \t ");
    let (start, end) = trim_bounds(&v);
    assert_eq!(start, end);
    let v = chars_of("");
    assert_eq!(trim_bounds(&v), (0, 0));
}

#[test]
fn bounds_agree_with_the_standard_library() {
    for s in ["", " ", "a", " a", "a ", " a b ", "\u{A0}a\u{3000}", "\n\n", "\u{200B} a"].iter() {
        let v = chars_of(s);
        let (start, end) = trim_bounds(&v);
        assert_eq!(text_of(&v[start..end]), s.trim(), "{:?}", s);
    }
}

#[test]
fn characters_are_those_of_the_text() {
    assert_eq!(chars_of("aé1"), vec!['a', 'é', '1']);
    assert!(chars_of("").is_empty());
}

#[test]
fn text_is_cut_at_every_line_break() {
    let lines: Vec<String> = lines_of(&chars_of("a,b\r\nc\nd\re")).iter().map(|l| text_of(l)).collect();
    assert_eq!(lines, vec!["a,b", "", "c", "d", "e"]);
}

#[test]
fn text_without_line_break_is_one_line() {
    let lines: Vec<String> = lines_of(&chars_of("CPS, 1")).iter().map(|l| text_of(l)).collect();
    assert_eq!(lines, vec!["CPS, 1"]);
    assert_eq!(lines_of(&chars_of("")).len(), 1);
    assert_eq!(lines_of(&chars_of("\n")).len(), 2);
}

#[test]
fn lines_are_those_of_the_standard_library_but_for_the_empty_ones() {
    for s in ["", "a", "a\nb", "a\r\nb\r\n", "\n\na", "CPS, 1\r\nCPS, 2\r\n"].iter() {
        let ours: Vec<String> = lines_of(&chars_of(s))
            .iter()
            .map(|l| text_of(l))
            .filter(|l| !l.is_empty())
            .collect();
        let theirs: Vec<String> =
            s.lines().map(|l| l.to_string()).filter(|l| !l.is_empty()).collect();
        assert_eq!(ours, theirs, "{:?}", s);
    }
}
