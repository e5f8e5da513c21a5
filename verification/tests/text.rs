use biiot::strutil::{check_type, StringType};
use biiot::text::{chars_of, find, split, string_of};

fn cs(s: &str) -> Vec<char> {
    s.chars().collect()
}

#[test]
fn characters_and_back() {
    assert_eq!(chars_of("héllo"), cs("héllo"));
    assert_eq!(chars_of(""), Vec::<char>::new());
    assert_eq!(string_of(&cs("héllo"), 1, 4), "éll");
    assert_eq!(string_of(&cs("abc"), 3, 3), "");
}

#[test]
fn find_gives_the_first_place() {
    assert_eq!(find(&cs("a--b--c"), &cs("--"), 0), Some(1));
    assert_eq!(find(&cs("a--b--c"), &cs("--"), 2), Some(4));
    assert_eq!(find(&cs("a--b--c"), &cs("--"), 5), None);
    assert_eq!(find(&cs("abc"), &cs("abcd"), 0), None);
    assert_eq!(find(&cs("abc"), &cs(""), 1), Some(1));
    assert_eq!(find(&cs("abc"), &cs(""), 3), Some(3));
    assert_eq!(find(&cs("abc"), &cs("c"), 9), None);
}

#[test]
fn split_cuts_from_left_to_right() {
    assert_eq!(split(&cs("a, b, c"), &cs(", ")), vec![cs("a"), cs("b"), cs("c")]);
    assert_eq!(split(&cs("abc"), &cs(", ")), vec![cs("abc")]);
    assert_eq!(split(&cs(""), &cs(",")), vec![cs("")]);
    assert_eq!(split(&cs(",a,"), &cs(",")), vec![cs(""), cs("a"), cs("")]);
    assert_eq!(split(&cs("aaa"), &cs("aa")), vec![cs(""), cs("a")]);
    assert_eq!(split(&cs("abc"), &cs("")), vec![cs("abc")]);
}

#[test]
fn kinds_of_text() {
    assert!(check_type(None).is_err());
    assert_eq!(check_type(Some("0x12")).unwrap(), StringType::Hex);
    assert_eq!(check_type(Some("0x")).unwrap(), StringType::Hex);
    assert_eq!(check_type(Some("12")).unwrap(), StringType::Decimal);
    assert_eq!(check_type(Some("+12")).unwrap(), StringType::Decimal);
    assert_eq!(check_type(Some("18446744073709551615")).unwrap(), StringType::Decimal);
    assert_eq!(check_type(Some("18446744073709551616")).unwrap(), StringType::String);
    assert_eq!(check_type(Some("000000000000000000000000000007")).unwrap(), StringType::Decimal);
    assert_eq!(check_type(Some("")).unwrap(), StringType::String);
    assert_eq!(check_type(Some("+")).unwrap(), StringType::String);
    assert_eq!(check_type(Some("-1")).unwrap(), StringType::String);
    assert_eq!(check_type(Some("1a")).unwrap(), StringType::String);
    assert_eq!(check_type(Some("x0")).unwrap(), StringType::String);
    assert_eq!(check_type(Some("١٢")).unwrap(), StringType::String);
    assert_eq!(check_type(None).unwrap_err().0, "Type of given value is not `String`");
}
