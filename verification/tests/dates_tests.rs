use chartscan::dates::{get_previous_day, match_date, serialize_date, verify_date, Date};
use chartscan::errors::ChartError;

#[test]
fn pre_day_20220520() {
    assert_eq!("2022-05-19".to_string(), get_previous_day("2022-05-20").unwrap());
}

#[test]
fn pre_day_20220521() {
    assert_eq!("2022-05-20".to_string(), get_previous_day("2022-05-21").unwrap());
}

#[test]
fn pre_day_20010127() {
    assert_eq!("2001-01-26".to_string(), get_previous_day("2001-01-27").unwrap());
}

#[test]
fn pre_day_20010107() {
    assert_eq!("2001-01-06".to_string(), get_previous_day("2001-01-07").unwrap());
}

#[test]
fn pre_day_month_boundary_non_leap() {
    assert_eq!("2022-02-28".to_string(), get_previous_day("2022-03-01").unwrap());
}

#[test]
fn pre_day_month_boundary_leap() {
    assert_eq!("2020-02-29".to_string(), get_previous_day("2020-03-01").unwrap());
}

#[test]
fn pre_day_year_boundary() {
    assert_eq!("2021-12-31".to_string(), get_previous_day("2022-01-01").unwrap());
}

#[test]
fn pre_day_century_non_leap() {
    assert_eq!("2100-02-28".to_string(), get_previous_day("2100-03-01").unwrap());
}

#[test]
fn verify_date_20001_01_27_invalid() {
    assert!(!verify_date("20001-01-27"));
}

#[test]
fn verify_date_2001_01_270_invalid() {
    assert!(!verify_date("2001-01-270"));
}

#[test]
fn verify_date_2001_1_27_invalid() {
    assert!(!verify_date("2001-1-27"));
}

#[test]
fn verify_date_2001_01_27_valid() {
    assert!(verify_date("2001-01-27"));
}

#[test]
fn verify_date_2022_05_27_valid() {
    assert!(verify_date("2022-05-27"));
}

#[test]
fn match_date_parses_fields() {
    let d = match_date("2022-05-20").unwrap();
    assert_eq!(d, Date { year: 2022, month: 5, day: 20 });
}

#[test]
fn match_date_rejects_bad_shape() {
    assert_eq!(match_date("2001-1-27"), Err(ChartError::InvalidDateFormat));
    assert_eq!(match_date("hello"), Err(ChartError::InvalidDateFormat));
    assert_eq!(match_date("2001/01/27"), Err(ChartError::InvalidDateFormat));
}

#[test]
fn match_date_rejects_impossible_dates() {
    assert_eq!(match_date("2001-13-05"), Err(ChartError::InvalidCalendarDate));
    assert_eq!(match_date("2001-02-30"), Err(ChartError::InvalidCalendarDate));
    assert_eq!(match_date("2100-02-29"), Err(ChartError::InvalidCalendarDate));
    assert_eq!(match_date("2001-00-10"), Err(ChartError::InvalidCalendarDate));
    assert_eq!(match_date("2001-04-31"), Err(ChartError::InvalidCalendarDate));
}

#[test]
fn match_date_accepts_leap_day() {
    let d = match_date("2000-02-29").unwrap();
    assert_eq!(d, Date { year: 2000, month: 2, day: 29 });
}

#[test]
fn serialize_round_trips() {
    for s in ["2022-05-20", "0001-01-01", "2000-02-29", "9999-12-31"] {
        let d = match_date(s).unwrap();
        assert_eq!(serialize_date(&d), s);
    }
}

#[test]
fn pre_day_has_no_predecessor_at_floor() {
    assert_eq!(get_previous_day("0000-01-01"), Err(ChartError::InvalidCalendarDate));
}

#[test]
fn pre_day_rejects_invalid_input() {
    assert_eq!(get_previous_day("not-a-date!"), Err(ChartError::InvalidDateFormat));
    assert_eq!(get_previous_day("2001-02-30"), Err(ChartError::InvalidCalendarDate));
}
