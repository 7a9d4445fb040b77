use chartscan::errors::ChartError;
use chartscan::numbers::{parse_int, parse_rank};

#[test]
fn parse_int_with_separators() {
    assert_eq!(parse_int("10,000"), Ok(10000));
    assert_eq!(parse_int("1,676,272"), Ok(1676272));
    assert_eq!(parse_int("10"), Ok(10));
}

#[test]
fn parse_int_plain_digits() {
    assert_eq!(parse_int("0"), Ok(0));
    assert_eq!(parse_int("2432888"), Ok(2432888));
}

#[test]
fn parse_int_loose_separator_placement() {
    assert_eq!(parse_int("1,000,"), Ok(1000));
    assert_eq!(parse_int("1,,000"), Ok(1000));
}

#[test]
fn parse_int_rejects_bad_text() {
    assert_eq!(parse_int(""), Err(ChartError::RecordParseError));
    assert_eq!(parse_int(",500"), Err(ChartError::RecordParseError));
    assert_eq!(parse_int("12x4"), Err(ChartError::RecordParseError));
    assert_eq!(parse_int("-5"), Err(ChartError::RecordParseError));
    assert_eq!(parse_int("1 000"), Err(ChartError::RecordParseError));
}

#[test]
fn parse_int_rejects_overflow() {
    assert_eq!(parse_int("9,223,372,036,854,775,807"), Ok(i64::MAX));
    assert_eq!(parse_int("9,223,372,036,854,775,808"), Err(ChartError::RecordParseError));
}

#[test]
fn parse_rank_basic() {
    assert_eq!(parse_rank("1"), Ok(1));
    assert_eq!(parse_rank("200"), Ok(200));
    assert_eq!(parse_rank("32767"), Ok(i16::MAX));
}

#[test]
fn parse_rank_rejects_bad_text() {
    assert_eq!(parse_rank(""), Err(ChartError::RecordParseError));
    assert_eq!(parse_rank("1,0"), Err(ChartError::RecordParseError));
    assert_eq!(parse_rank("-1"), Err(ChartError::RecordParseError));
    assert_eq!(parse_rank("32768"), Err(ChartError::RecordParseError));
}
