use hw_telemetry::number::{
    digit_of, parse_hex_u16, parse_i64, parse_millionths, parse_numeral, parse_u64, parse_usize,
};
use hw_telemetry::text::{
    chars_of, find_first, position_of, replace_all, same_chars, string_of, strip_final_newline,
};

fn chars(s: &str) -> Vec<char> {
    s.chars().collect()
}

#[test]
fn unsigned_numbers_are_read_as_std_reads_them() {
    for text in [
        "0",
        "7",
        "007",
        "+7",
        "18446744073709551615",
        "18446744073709551616",
        "99999999999999999999999",
        "",
        "+",
        "-",
        "-1",
        "++1",
        "1+",
        " 1",
        "1 ",
        "1_000",
        "0x10",
        "1e3",
        "١٢٣",
        "12a",
    ] {
        assert_eq!(parse_u64(&chars(text)), text.parse::<u64>().ok(), "{text:?}");
        assert_eq!(parse_usize(&chars(text)), text.parse::<usize>().ok(), "{text:?}");
    }
}

#[test]
fn signed_numbers_are_read_as_std_reads_them() {
    for text in [
        "0",
        "-0",
        "+0",
        "-1",
        "+1",
        "42",
        "-42",
        "9223372036854775807",
        "9223372036854775808",
        "-9223372036854775808",
        "-9223372036854775809",
        "",
        "-",
        "+",
        "--1",
        "-+1",
        "+-1",
        "- 1",
        "1-",
        "1.0",
    ] {
        assert_eq!(parse_i64(&chars(text)), text.parse::<i64>().ok(), "{text:?}");
    }
}

#[test]
fn hexadecimal_numbers_are_read_as_std_reads_them() {
    for text in [
        "0", "a", "A", "ff", "FfFf", "ffff", "10000", "+1f", "-1f", "0x1f", "g", "", "1002", "73BF",
        "00000000001",
    ] {
        assert_eq!(
            parse_hex_u16(&chars(text)),
            u16::from_str_radix(text, 16).ok(),
            "{text:?}"
        );
    }
}

#[test]
fn a_numeral_is_read_within_its_bound() {
    let text = chars("x255y");
    assert_eq!(parse_numeral(&text, 1, 4, 10, 255), Some(255));
    assert_eq!(parse_numeral(&text, 1, 4, 10, 254), None);
    assert_eq!(parse_numeral(&text, 1, 4, 16, 0xffff), Some(0x255));
    assert_eq!(parse_numeral(&text, 1, 4, 6, 1000), Some(107));
    assert_eq!(parse_numeral(&text, 1, 4, 5, 1000), None);
    assert_eq!(parse_numeral(&text, 0, 4, 10, 1000), None);
    assert_eq!(parse_numeral(&text, 0, 4, 36, u64::MAX), Some(33 * 46656 + 2 * 1296 + 5 * 36 + 5));
    assert_eq!(parse_numeral(&text, 2, 2, 10, 1000), None);
    assert_eq!(parse_numeral(&text, 1, 2, 2, 1000), None);
}

#[test]
fn digits_have_their_worth() {
    assert_eq!(digit_of('0', 10), Some(0));
    assert_eq!(digit_of('9', 10), Some(9));
    assert_eq!(digit_of('9', 9), None);
    assert_eq!(digit_of('a', 16), Some(10));
    assert_eq!(digit_of('F', 16), Some(15));
    assert_eq!(digit_of('g', 16), None);
    assert_eq!(digit_of('z', 36), Some(35));
    assert_eq!(digit_of('/', 36), None);
    assert_eq!(digit_of(':', 36), None);
    assert_eq!(digit_of('٣', 10), None);
}

#[test]
fn millionths_cut_the_fraction_off() {
    assert_eq!(parse_millionths(&chars("3.0000")), Some(3_000_000));
    assert_eq!(parse_millionths(&chars("0.000001")), Some(1));
    assert_eq!(parse_millionths(&chars("0.0000019999")), Some(1));
    assert_eq!(parse_millionths(&chars("0.0000009")), Some(0));
    assert_eq!(parse_millionths(&chars("+12.5")), Some(12_500_000));
    assert_eq!(parse_millionths(&chars("12")), Some(12_000_000));
    assert_eq!(parse_millionths(&chars("")), None);
    assert_eq!(parse_millionths(&chars("+")), None);
    assert_eq!(parse_millionths(&chars("+.")), None);
    assert_eq!(parse_millionths(&chars("1e3")), None);
    assert_eq!(parse_millionths(&chars("1,5")), None);
    assert_eq!(parse_millionths(&chars("1.5x")), None);
    assert_eq!(parse_millionths(&chars("1.0000000x")), None);
    assert_eq!(parse_millionths(&chars("inf")), None);
}

#[test]
fn text_goes_to_characters_and_back() {
    for text in ["", "a", "lscpu", "UIM® Abacus™ 10", "\n\t ", "日本語"] {
        assert_eq!(chars_of(text), chars(text));
        assert_eq!(string_of(&chars(text)), text);
    }
}

#[test]
fn the_first_occurrence_is_found() {
    assert_eq!(find_first(&chars("abcabc"), &chars("bc")), Some(1));
    assert_eq!(find_first(&chars("abcabc"), &chars("abcabc")), Some(0));
    assert_eq!(find_first(&chars("abcabc"), &chars("c")), Some(2));
    assert_eq!(find_first(&chars("abcabc"), &chars("cb")), None);
    assert_eq!(find_first(&chars("abc"), &chars("abcd")), None);
    assert_eq!(find_first(&chars("abc"), &chars("")), Some(0));
    assert_eq!(find_first(&chars(""), &chars("")), Some(0));
    assert_eq!(find_first(&chars(""), &chars("a")), None);
    assert_eq!(find_first(&chars("aab"), &chars("ab")), Some(1));
    assert_eq!(position_of(&chars("a:b:c"), ':', 0), 1);
    assert_eq!(position_of(&chars("a:b:c"), ':', 2), 3);
    assert_eq!(position_of(&chars("a:b:c"), ':', 4), 5);
    assert!(same_chars(&chars("abc"), &chars("abc")));
    assert!(!same_chars(&chars("abc"), &chars("abd")));
    assert!(!same_chars(&chars("abc"), &chars("ab")));
    assert!(same_chars(&chars(""), &chars("")));
}

#[test]
fn replacing_goes_as_std_goes() {
    let cases = [
        ("UIM(R) Abacus(tm) 10", "(R)", "®"),
        ("aaaa", "aa", "b"),
        ("aaa", "aa", "b"),
        ("abab", "ab", "abab"),
        ("", "x", "y"),
        ("xyz", "xyz", ""),
        ("no match", "zz", "y"),
        ("a\nb\n", "\n", ""),
    ];
    for (text, pat, with) in cases {
        assert_eq!(
            string_of(&replace_all(&chars(text), &chars(pat), &chars(with))),
            text.replace(pat, with)
        );
    }
    assert_eq!(string_of(&strip_final_newline(&chars("1\n2\n\n3"))), "1\n2\n\n3");
    assert_eq!(string_of(&strip_final_newline(&chars("12\n"))), "12");
    assert_eq!(string_of(&strip_final_newline(&chars("12\n\n"))), "12\n");
    assert_eq!(string_of(&strip_final_newline(&chars("\n"))), "");
    assert_eq!(string_of(&strip_final_newline(&chars(""))), "");
}
