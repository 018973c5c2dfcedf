use libaoc::parse::{parse_unsigned_integer, parse_whole_str, ParseError};

#[test]
fn token_parse_leaves_residue() {
    let (rest, v) = parse_unsigned_integer("123abc").unwrap();
    assert_eq!(v, 123);
    assert_eq!(rest, "abc");
}

#[test]
fn token_parse_consumes_whole_digit_run() {
    let (rest, v) = parse_unsigned_integer("007").unwrap();
    assert_eq!(v, 7);
    assert_eq!(rest, "");
}

#[test]
fn token_parse_requires_a_digit() {
    assert_eq!(parse_unsigned_integer("abc").unwrap_err(), ParseError::NoDigit);
    assert_eq!(parse_unsigned_integer("").unwrap_err(), ParseError::NoDigit);
    assert_eq!(parse_unsigned_integer("-12").unwrap_err(), ParseError::NoDigit);
}

#[test]
fn token_parse_overflow() {
    assert_eq!(
        parse_unsigned_integer("18446744073709551615x").unwrap(),
        ("x", u64::MAX)
    );
    assert_eq!(
        parse_unsigned_integer("18446744073709551616").unwrap_err(),
        ParseError::Overflow
    );
    assert_eq!(
        parse_unsigned_integer("99999999999999999999999").unwrap_err(),
        ParseError::Overflow
    );
}

#[test]
fn whole_string_parse_rejects_residue() {
    let r: Result<u64, ParseError> = parse_whole_str("123abc", parse_unsigned_integer);
    assert_eq!(r.unwrap_err(), ParseError::ResidualInput);
}

#[test]
fn whole_string_parse_full_consumption() {
    let r: Result<u64, ParseError> = parse_whole_str("123", parse_unsigned_integer);
    assert_eq!(r.unwrap(), 123);
}

#[test]
fn whole_string_parse_allows_one_trailing_newline() {
    let r: Result<u64, ParseError> = parse_whole_str("123\n", parse_unsigned_integer);
    assert_eq!(r.unwrap(), 123);
    let two: Result<u64, ParseError> = parse_whole_str("123\n\n", parse_unsigned_integer);
    assert_eq!(two.unwrap_err(), ParseError::ResidualInput);
}

#[test]
fn whole_string_parse_propagates_grammar_error() {
    let r: Result<u64, ParseError> = parse_whole_str("abc", parse_unsigned_integer);
    assert_eq!(r.unwrap_err(), ParseError::NoDigit);
}

#[test]
fn whole_string_parse_custom_grammar() {
    fn pair(s: &str) -> Result<(&str, (u64, u64)), ParseError> {
        let (rest, a) = parse_unsigned_integer(s)?;
        let rest = rest.strip_prefix(',').ok_or(ParseError::ResidualInput)?;
        let (rest, b) = parse_unsigned_integer(rest)?;
        Ok((rest, (a, b)))
    }
    let r = parse_whole_str("3,17", pair);
    assert_eq!(r.unwrap(), (3, 17));
    let bad = parse_whole_str("3,17 tail", pair);
    assert_eq!(bad.unwrap_err(), ParseError::ResidualInput);
}
