use stfu::ids::{id_to_string, parse_id};
use stfu::text::{is_white_space_char, split_and_trim, text_chars, trim_range};

#[test]
fn parse_id_accepts_decimal_ids() {
    assert_eq!(parse_id("123"), Some(123));
    assert_eq!(parse_id("+5"), Some(5));
    assert_eq!(parse_id("717435160378867772"), Some(717435160378867772));
    assert_eq!(parse_id("18446744073709551615"), Some(u64::MAX));
    assert_eq!(parse_id("007"), Some(7));
    assert_eq!(parse_id("0"), Some(0));
    assert_eq!(parse_id("+0"), Some(0));
    assert_eq!(parse_id("000"), Some(0));
}

#[test]
fn parse_id_rejects_what_u64_from_str_rejects() {
    for text in ["", "+", "-", "-1", "12a", " 12", "12 ", "18446744073709551616", "99999999999999999999", "1_000", "++1", "١٢"] {
        assert_eq!(parse_id(text), None, "{text:?}");
    }
}

#[test]
fn parse_id_agrees_with_u64_from_str() {
    for text in ["1", "42", "+42", "0", "", "abc", "18446744073709551615", "18446744073709551616", "-3", "+", "0042", "9223372036854775808"] {
        let ours = parse_id(text);
        let theirs = text.parse::<u64>().ok();
        assert_eq!(ours, theirs, "{text:?}");
    }
}

#[test]
fn id_to_string_writes_decimal() {
    assert_eq!(id_to_string(0), "0");
    assert_eq!(id_to_string(7), "7");
    assert_eq!(id_to_string(10), "10");
    assert_eq!(id_to_string(717435160378867772), "717435160378867772");
    assert_eq!(id_to_string(u64::MAX), u64::MAX.to_string());
}

#[test]
fn id_text_round_trips() {
    for n in [0u64, 1, 9, 10, 99, 100, 123456789, 717435160378867772, u64::MAX] {
        assert_eq!(parse_id(&id_to_string(n)), Some(n));
    }
}

#[test]
fn text_chars_keeps_every_char() {
    assert_eq!(text_chars("añ😀b"), vec!['a', 'ñ', '😀', 'b']);
    assert_eq!(text_chars(""), Vec::<char>::new());
}

#[test]
fn split_and_trim_splits_flag_names() {
    assert_eq!(split_and_trim("VIEW_CHANNEL | MUTE_MEMBERS | DEAFEN_MEMBERS", '|'), vec!["VIEW_CHANNEL", "MUTE_MEMBERS", "DEAFEN_MEMBERS"]);
    assert_eq!(split_and_trim("MUTE_MEMBERS", '|'), vec!["MUTE_MEMBERS"]);
    assert_eq!(split_and_trim("", '|'), vec![""]);
    assert_eq!(split_and_trim("|", '|'), vec!["", ""]);
    assert_eq!(split_and_trim("  a |b  ||  c  ", '|'), vec!["a", "b", "", "c"]);
}

#[test]
fn split_and_trim_agrees_with_std() {
    for text in ["a|b", " a | b ", "\u{3000}x\u{2003}|\ty\n", "||", "no separator", "\u{85}|\u{a0}z\u{a0}", " \u{200b} | ", "é | ü"] {
        let ours = split_and_trim(text, '|');
        let theirs: Vec<String> = text.split('|').map(|p| p.trim().to_string()).collect();
        assert_eq!(ours, theirs, "{text:?}");
    }
}

#[test]
fn white_space_agrees_with_std() {
    for c in (0u32..0x3100).filter_map(char::from_u32) {
        assert_eq!(is_white_space_char(c), c.is_whitespace(), "{:x}", c as u32);
    }
}

#[test]
fn trim_range_trims_only_the_range() {
    let v = text_chars("  ab c  |x");
    assert_eq!(trim_range(&v, 0, 8), "ab c");
    assert_eq!(trim_range(&v, 8, 10), "|x");
    assert_eq!(trim_range(&v, 0, 2), "");
}
