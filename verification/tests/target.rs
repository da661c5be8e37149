use suexrs::target::{parse_id, parse_user_group, ParseError};

fn parts(user: &str, group: Option<&str>) -> Result<(String, Option<String>), ParseError> {
    Ok((user.to_string(), group.map(|g| g.to_string())))
}

#[test]
fn user_alone() {
    assert_eq!(parse_user_group("alice"), parts("alice", None));
}

#[test]
fn user_and_group() {
    assert_eq!(parse_user_group("alice:staff"), parts("alice", Some("staff")));
}

#[test]
fn two_separators_are_refused() {
    assert_eq!(parse_user_group("a:b:c"), Err(ParseError::InvalidFormat));
}

#[test]
fn many_separators_are_refused() {
    assert_eq!(parse_user_group("::"), Err(ParseError::InvalidFormat));
    assert_eq!(parse_user_group("a::b"), Err(ParseError::InvalidFormat));
    assert_eq!(parse_user_group(":a:"), Err(ParseError::InvalidFormat));
    assert_eq!(parse_user_group("1000:1000:"), Err(ParseError::InvalidFormat));
}

#[test]
fn empty_parts_are_kept() {
    assert_eq!(parse_user_group(""), parts("", None));
    assert_eq!(parse_user_group(":"), parts("", Some("")));
    assert_eq!(parse_user_group("alice:"), parts("alice", Some("")));
    assert_eq!(parse_user_group(":staff"), parts("", Some("staff")));
}

#[test]
fn numeric_target_is_not_examined() {
    assert_eq!(parse_user_group("1000:1000"), parts("1000", Some("1000")));
    assert_eq!(parse_user_group(" 7 "), parts(" 7 ", None));
}

#[test]
fn characters_beyond_ascii_are_kept_whole() {
    assert_eq!(parse_user_group("zoë:größe"), parts("zoë", Some("größe")));
    assert_eq!(parse_user_group("日本"), parts("日本", None));
}

#[test]
fn parts_agree_with_split() {
    let tokens = ["alice", "alice:staff", "a:b:c", "", ":", "x:", ":y", "::", "é:ü", "0:0", "a:b:c:d"];
    for token in tokens {
        let pieces: Vec<&str> = token.split(':').collect();
        let expected = match pieces.as_slice() {
            [user] => parts(user, None),
            [user, group] => parts(user, Some(group)),
            _ => Err(ParseError::InvalidFormat),
        };
        assert_eq!(parse_user_group(token), expected, "token {:?}", token);
    }
}

#[test]
fn plain_numbers() {
    assert_eq!(parse_id("0"), Some(0));
    assert_eq!(parse_id("7"), Some(7));
    assert_eq!(parse_id("1000"), Some(1000));
    assert_eq!(parse_id("65534"), Some(65534));
}

#[test]
fn largest_identifier() {
    assert_eq!(parse_id("4294967295"), Some(4294967295));
    assert_eq!(parse_id("4294967296"), None);
    assert_eq!(parse_id("4294967300"), None);
    assert_eq!(parse_id("42949672950"), None);
    assert_eq!(parse_id("99999999999999999999999999"), None);
}

#[test]
fn leading_zeros_and_plus() {
    assert_eq!(parse_id("007"), Some(7));
    assert_eq!(parse_id("0000000000000000000001000"), Some(1000));
    assert_eq!(parse_id("+5"), Some(5));
    assert_eq!(parse_id("+0"), Some(0));
    assert_eq!(parse_id("+4294967295"), Some(4294967295));
}

#[test]
fn names_are_not_numbers() {
    assert_eq!(parse_id(""), None);
    assert_eq!(parse_id("+"), None);
    assert_eq!(parse_id("++1"), None);
    assert_eq!(parse_id("-1"), None);
    assert_eq!(parse_id("-0"), None);
    assert_eq!(parse_id("alice"), None);
    assert_eq!(parse_id("12a"), None);
    assert_eq!(parse_id("a12"), None);
    assert_eq!(parse_id(" 12"), None);
    assert_eq!(parse_id("12 "), None);
    assert_eq!(parse_id("1_000"), None);
    assert_eq!(parse_id("0x10"), None);
    assert_eq!(parse_id("1.0"), None);
    assert_eq!(parse_id("1+"), None);
}

#[test]
fn digits_of_other_scripts_are_not_digits() {
    assert_eq!(parse_id("٣"), None);
    assert_eq!(parse_id("１２"), None);
    assert_eq!(parse_id("1²"), None);
}

#[test]
fn numbers_agree_with_the_standard_parser() {
    let tokens = [
        "", "0", "+", "-", "+1", "-1", "1", "10", "0010", "4294967295", "4294967296",
        "429496729", "4294967294", "5000000000", "18446744073709551616", "root", "1a",
        "a1", " 1", "1 ", "+-1", "+ 1", "١", "99", "+00000000004294967295", "1:1",
    ];
    for token in tokens {
        assert_eq!(parse_id(token), token.parse::<u32>().ok(), "token {:?}", token);
    }
}
