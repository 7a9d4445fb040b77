use chartscan::chart::{from_reader, SpotifyChart, SpotifyEntry};
use chartscan::dates::Date;
use chartscan::errors::ChartError;

const TOP_TEXT: &str = "1*N95*Kendrick Lamar*1,676,272\n2*As It Was*Harry Styles*2,432,888\n3*Wait For U*Future*1,000\n";

const MIX_TEXT: &str =
    "1*Alpha Dawn*Crimson Tide*100\n2*Beta Light*Alpha Wolves*200\n3*Gamma Ray*Delta Force*300\n";

#[test]
fn load_chart_attaches_metadata() {
    let c = SpotifyChart::from_reader(TOP_TEXT, "2022-05-20", "us").unwrap();
    assert_eq!(c.count, 3);
    assert_eq!(c.chart.len(), 3);
    assert_eq!(c.region, "US");
    assert_eq!(c.code, "us");
    assert_eq!(c.date_string, "2022-05-20");
    assert_eq!(c.date, Date { year: 2022, month: 5, day: 20 });
    assert_eq!(c.chart[0], SpotifyEntry::new(1, "N95", "Kendrick Lamar", 1676272));
    assert_eq!(c.chart[2], SpotifyEntry::new(3, "Wait For U", "Future", 1000));
}

#[test]
fn load_unknown_code_gets_sentinel_name() {
    let c = SpotifyChart::from_reader(TOP_TEXT, "2022-05-20", "oo").unwrap();
    assert_eq!(c.region, "Invalid");
    assert_eq!(c.code, "oo");
}

#[test]
fn load_empty_text_gives_empty_chart() {
    let c = SpotifyChart::from_reader("", "2022-05-20", "us").unwrap();
    assert_eq!(c.count, 0);
}

#[test]
fn load_accepts_crlf_and_blank_lines() {
    let text = "1*A*B*10\r\n\r\n2*C*D*20\n\n";
    let entries = from_reader(text).unwrap();
    assert_eq!(entries.len(), 2);
    assert_eq!(entries[0], SpotifyEntry::new(1, "A", "B", 10));
    assert_eq!(entries[1], SpotifyEntry::new(2, "C", "D", 20));
}

#[test]
fn load_fails_on_wrong_field_count() {
    assert!(from_reader("1*only*three\n").is_err());
    assert!(from_reader("1*a*b*10*extra\n").is_err());
}

#[test]
fn load_fails_on_bad_numbers() {
    assert_eq!(
        from_reader("1*t*a*12x4\n").err(),
        Some(ChartError::RecordParseError)
    );
    assert_eq!(
        from_reader("one*t*a*100\n").err(),
        Some(ChartError::RecordParseError)
    );
}

#[test]
fn load_one_bad_row_spoils_the_whole() {
    let text = "1*A*B*10\n2*bad row\n3*C*D*30\n";
    assert_eq!(from_reader(text).err(), Some(ChartError::RecordParseError));
    assert_eq!(
        SpotifyChart::from_reader(text, "2022-05-20", "us").err(),
        Some(ChartError::RecordParseError)
    );
}

#[test]
fn load_reports_record_error_before_date_error() {
    let text = "1*only*three\n";
    assert_eq!(
        SpotifyChart::from_reader(text, "not-a-date", "us").err(),
        Some(ChartError::RecordParseError)
    );
}

#[test]
fn load_checks_the_date() {
    assert_eq!(
        SpotifyChart::from_reader(TOP_TEXT, "2022-5-20", "us").err(),
        Some(ChartError::InvalidDateFormat)
    );
    assert_eq!(
        SpotifyChart::from_reader(TOP_TEXT, "2022-13-01", "us").err(),
        Some(ChartError::InvalidCalendarDate)
    );
}

#[test]
fn load_twice_gives_identical_charts() {
    let a = SpotifyChart::from_reader(TOP_TEXT, "2022-05-20", "us").unwrap();
    let b = SpotifyChart::from_reader(TOP_TEXT, "2022-05-20", "us").unwrap();
    assert_eq!(a.chart, b.chart);
    assert_eq!(a.count, b.count);
}

#[test]
fn new_chart_is_empty_placeholder() {
    let c = SpotifyChart::new();
    assert_eq!(c.count, 0);
    assert_eq!(c.region, "Unknown");
    assert_eq!(c.date, Date { year: 2001, month: 1, day: 27 });
}

#[test]
fn find_by_title_is_case_insensitive() {
    let c = SpotifyChart::from_reader(TOP_TEXT, "2022-05-20", "us").unwrap();
    let hit = c.find_by_title("n95").unwrap();
    assert_eq!(hit.rank, 1);
    assert_eq!(hit.title, "N95");
    assert_eq!(hit.artist, "Kendrick Lamar");
    assert_eq!(hit.streams, 1676272);
    assert!(c.find_by_title("zzz-no-match").is_none());
}

#[test]
fn find_by_title_in_a_full_size_chart() {
    let mut text = String::from("1*N95*Kendrick Lamar*1,676,272\n");
    for i in 2..=200 {
        text.push_str(&format!("{}*Song {}*Artist {}*{}\n", i, i, i, 1000 - i));
    }
    let c = SpotifyChart::from_reader(&text, "2022-05-20", "us").unwrap();
    assert_eq!(c.count, 200);
    let hit = c.find_by_title("n95").unwrap();
    assert_eq!(hit.rank, 1);
    assert_eq!(hit.streams, 1676272);
    assert!(c.find_by_title("zzz-no-match").is_none());
}

#[test]
fn find_takes_first_match_in_rank_order() {
    let c = SpotifyChart::from_reader(MIX_TEXT, "2022-05-20", "us").unwrap();
    let hit = c.find_by_keyword("alpha").unwrap();
    assert_eq!(hit.rank, 1);
}

fn titles(v: &[&SpotifyEntry]) -> Vec<String> {
    v.iter().map(|e| e.title.clone()).collect()
}

#[test]
fn filters_none_at_all_find_nothing() {
    let c = SpotifyChart::from_reader(MIX_TEXT, "2022-05-20", "us").unwrap();
    assert!(c.find_all(None, None, None).is_none());
    assert!(c.find(None, None, None).is_none());
}

#[test]
fn filters_title_only() {
    let c = SpotifyChart::from_reader(MIX_TEXT, "2022-05-20", "us").unwrap();
    let v = c.find_all(Some("alpha"), None, None).unwrap();
    assert_eq!(titles(&v), ["Alpha Dawn"]);
}

#[test]
fn filters_artist_only() {
    let c = SpotifyChart::from_reader(MIX_TEXT, "2022-05-20", "us").unwrap();
    let v = c.find_all(None, Some("alpha"), None).unwrap();
    assert_eq!(titles(&v), ["Beta Light"]);
}

#[test]
fn filters_keyword_only_searches_both_fields() {
    let c = SpotifyChart::from_reader(MIX_TEXT, "2022-05-20", "us").unwrap();
    let v = c.find_all(None, None, Some("alpha")).unwrap();
    assert_eq!(titles(&v), ["Alpha Dawn", "Beta Light"]);
}

#[test]
fn filters_title_and_artist_must_both_hold() {
    let c = SpotifyChart::from_reader(MIX_TEXT, "2022-05-20", "us").unwrap();
    let v = c.find_all(Some("a"), Some("force"), None).unwrap();
    assert_eq!(titles(&v), ["Gamma Ray"]);
}

#[test]
fn filters_keyword_prevails_over_title() {
    let c = SpotifyChart::from_reader(MIX_TEXT, "2022-05-20", "us").unwrap();
    let v = c.find_all(Some("beta"), None, Some("ray")).unwrap();
    assert_eq!(titles(&v), ["Beta Light", "Gamma Ray"]);
}

#[test]
fn filters_keyword_prevails_over_artist() {
    let c = SpotifyChart::from_reader(MIX_TEXT, "2022-05-20", "us").unwrap();
    let v = c.find_all(None, Some("crimson"), Some("wolves")).unwrap();
    assert_eq!(titles(&v), ["Alpha Dawn", "Beta Light"]);
}

#[test]
fn filters_keyword_prevails_over_title_and_artist() {
    let c = SpotifyChart::from_reader(MIX_TEXT, "2022-05-20", "us").unwrap();
    let v = c.find_all(Some("beta"), Some("alpha"), Some("delta")).unwrap();
    assert_eq!(titles(&v), ["Beta Light", "Gamma Ray"]);
}

#[test]
fn empty_match_set_is_absence_not_empty_vector() {
    let c = SpotifyChart::from_reader(MIX_TEXT, "2022-05-20", "us").unwrap();
    assert!(c.find_all_by_title("zzz").is_none());
    assert!(c.find_all_by_artist("zzz").is_none());
    assert!(c.find_all_by_keyword("zzz").is_none());
    assert!(c.find_all_by_title_artist("alpha", "delta").is_none());
}

#[test]
fn find_all_wrappers_agree_with_find_wrappers() {
    let c = SpotifyChart::from_reader(MIX_TEXT, "2022-05-20", "us").unwrap();
    let all = c.find_all_by_artist("alpha").unwrap();
    let first = c.find_by_artist("alpha").unwrap();
    assert_eq!(all[0], first);
    let both = c.find_all_by_title_artist("gamma", "delta").unwrap();
    assert_eq!(titles(&both), ["Gamma Ray"]);
    assert_eq!(c.find_by_title_artist("gamma", "delta").unwrap().rank, 3);
}
