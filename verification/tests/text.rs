use jahis::number::{
    char_to_digit, decimal_string, digit_to_char, padded_string, read_small_code,
    read_two_digit_code, signed_padded_string,
};
use jahis::record::{
    is_date_shaped, is_digits_within, is_one_digit, is_weight_shaped, read_line_tag,
    read_version_mark,
};
use jahis::text::{chars_of, is_all_digits, is_digit, is_word, join_strings, split_fields};

#[test]
fn fields_between_commas() {
    assert_eq!(split_fields(""), vec![""]);
    assert_eq!(split_fields(","), vec!["", ""]);
    assert_eq!(split_fields("a"), vec!["a"]);
    assert_eq!(split_fields("1,山田,,x,"), vec!["1", "山田", "", "x", ""]);
    let parts = vec!["1".to_string(), "山田".to_string(), String::new()];
    assert_eq!(join_strings(&parts, ","), "1,山田,");
    assert_eq!(join_strings(&parts, "\r\n"), "1\r\n山田\r\n");
    assert_eq!(join_strings(&Vec::new(), ","), "");
    assert_eq!(split_fields(&join_strings(&parts, ",")), parts);
    assert_eq!(chars_of("a山"), vec!['a', '山']);
}

#[test]
fn character_classes() {
    for c in ['0', '5', '9', '０', '９', '٣'] {
        assert!(is_digit(c), "{}", c);
        assert!(is_word(c), "{}", c);
    }
    for c in ['a', 'Z', '_', '山', 'あ', 'é'] {
        assert!(!is_digit(c), "{}", c);
        assert!(is_word(c), "{}", c);
    }
    for c in [',', ' ', '-', '.', '\n', '。', '一'] {
        assert!(!is_digit(c), "{}", c);
    }
    for c in [',', ' ', '-', '.', '\n', '。', '・'] {
        assert!(!is_word(c), "{}", c);
    }
    assert!(is_all_digits(""));
    assert!(is_all_digits("0123456789"));
    assert!(is_all_digits("１２"));
    assert!(!is_all_digits("12a"));
}

#[test]
fn decimal_numbers() {
    for n in [0u64, 7, 10, 99, 100, 1234567890, u32::MAX as u64, u64::MAX] {
        assert_eq!(decimal_string(n), n.to_string());
        assert_eq!(padded_string(n, 2), format!("{:02}", n));
        assert_eq!(padded_string(n, 4), format!("{:04}", n));
        assert_eq!(padded_string(n, 0), n.to_string());
    }
    for v in [0i64, 5, -5, 42, -42, 2019, -2019, 123456, i64::MAX, i64::MIN + 1] {
        assert_eq!(signed_padded_string(v, 0), format!("{}", v));
        assert_eq!(signed_padded_string(v, 2), format!("{:>02}", v));
        assert_eq!(signed_padded_string(v, 4), format!("{:>04}", v));
    }
    for d in 0..10u32 {
        assert_eq!(char_to_digit(digit_to_char(d)), Some(d));
    }
    assert_eq!(char_to_digit('a'), None);
    assert_eq!(char_to_digit('５'), None);
}

#[test]
fn short_codes() {
    assert_eq!(read_small_code("0"), Some(0));
    assert_eq!(read_small_code("7"), Some(7));
    assert_eq!(read_small_code("10"), Some(10));
    assert_eq!(read_small_code("999"), Some(999));
    for bad in ["", "07", "1000", "a", "-1", "+1", "１", " 1"] {
        assert_eq!(read_small_code(bad), None, "{}", bad);
    }
    assert_eq!(read_two_digit_code("07"), Some(7));
    assert_eq!(read_two_digit_code("47"), Some(47));
    for bad in ["", "7", "007", "4a", "４７"] {
        assert_eq!(read_two_digit_code(bad), None, "{}", bad);
    }
}

#[test]
fn line_tags() {
    assert_eq!(read_line_tag("1,x"), Some(1));
    assert_eq!(read_line_tag("55,"), Some(55));
    assert_eq!(read_line_tag("701,a,b"), Some(701));
    assert_eq!(read_line_tag("0,"), Some(0));
    for line in ["", "1", "201", "01,x", "2011,x", "a,1", ",1", "1 ,x", "JAHISTC06,1", "１,x"] {
        assert_eq!(read_line_tag(line), None, "{}", line);
    }
    assert!(read_version_mark("JAHISTC06,1"));
    assert!(read_version_mark("JAHISTC"));
    assert!(!read_version_mark("JAHIST"));
    assert!(!read_version_mark("jahistc06,1"));
    assert!(!read_version_mark("1,JAHISTC"));
}

#[test]
fn field_shapes() {
    assert!(is_one_digit("1") && is_one_digit("９"));
    assert!(!is_one_digit("") && !is_one_digit("12") && !is_one_digit("a"));
    assert!(is_digits_within("", 0, 2) && is_digits_within("13", 0, 2));
    assert!(!is_digits_within("130", 0, 2) && !is_digits_within("", 1, 2));
    assert!(is_date_shaped("20190501") && is_date_shaped("R010501") && is_date_shaped("X010501"));
    assert!(is_date_shaped("1234567"));
    assert!(is_date_shaped("2019050"));
    assert!(!is_date_shaped("201905011") && !is_date_shaped("") && !is_date_shaped("R01050a"));
    assert!(is_weight_shaped("60") && is_weight_shaped("60.5") && is_weight_shaped(".5"));
    assert!(is_weight_shaped("60."));
    assert!(!is_weight_shaped("") && !is_weight_shaped(".") && !is_weight_shaped("6.0.5"));
    assert!(!is_weight_shaped("6,5") && !is_weight_shaped("６０"));
}
