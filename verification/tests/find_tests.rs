use chartscan::chart::SpotifyChart;
use chartscan::errors::ChartError;
use chartscan::find::{dbg_str, run_find, FindOutcome};
use chartscan::resolver::validate_snapshot_key;

fn load(text: &str, date: &str) -> SpotifyChart {
    SpotifyChart::from_reader(text, date, "us").unwrap()
}

const TEXT: &str = "1*Alpha Dawn*Crimson Tide*100\n2*Beta Light*Alpha Wolves*200\n";

#[test]
fn run_find_needs_a_filter() {
    let c = load(TEXT, "2022-05-20");
    let r = run_find(&c, None, None, None, None, false, false);
    assert_eq!(r.err(), Some(ChartError::NoFilterSupplied));
    let r = run_find(&c, None, None, None, None, true, false);
    assert_eq!(r.err(), Some(ChartError::NoFilterSupplied));
}

#[test]
fn run_find_single_by_title() {
    let c = load(TEXT, "2022-05-20");
    match run_find(&c, None, Some("beta"), None, None, false, false).unwrap() {
        FindOutcome::Single(Some(e)) => assert_eq!(e.title, "Beta Light"),
        _ => panic!("expected a single entry"),
    }
}

#[test]
fn run_find_keyword_counts_only_without_title_and_artist() {
    let c = load(TEXT, "2022-05-20");
    match run_find(&c, None, Some("beta"), None, Some("crimson"), false, false).unwrap() {
        FindOutcome::Single(Some(e)) => assert_eq!(e.title, "Beta Light"),
        _ => panic!("expected a single entry"),
    }
    match run_find(&c, None, None, None, Some("crimson"), false, false).unwrap() {
        FindOutcome::Single(Some(e)) => assert_eq!(e.title, "Alpha Dawn"),
        _ => panic!("expected a single entry"),
    }
}

#[test]
fn run_find_all_returns_every_match() {
    let c = load(TEXT, "2022-05-20");
    match run_find(&c, None, None, None, Some("alpha"), true, false).unwrap() {
        FindOutcome::Many(Some(v)) => {
            assert_eq!(v.len(), 2);
            assert_eq!(v[0].title, "Alpha Dawn");
            assert_eq!(v[1].title, "Beta Light");
        },
        _ => panic!("expected all matching entries"),
    }
}

#[test]
fn run_find_gains() {
    let today = load(TEXT, "2022-05-20");
    let yesterday = load("3*Alpha Dawn*Crimson Tide*40\n", "2022-05-19");
    match run_find(&today, Some(&yesterday), Some("alpha dawn"), None, None, false, true).unwrap() {
        FindOutcome::GainOne(g) => {
            assert_eq!(g.today_rank, 1);
            assert_eq!(g.yesterday_rank, 3);
            assert_eq!(g.rank_diff, 2);
            assert_eq!(g.streams_diff, 60);
        },
        _ => panic!("expected one gain"),
    }
    match run_find(&today, Some(&yesterday), None, None, Some("alpha"), true, true).unwrap() {
        FindOutcome::GainMany(Some(v)) => {
            assert_eq!(v.len(), 2);
            assert_eq!(v[0].title, "Alpha Dawn");
            assert_eq!(v[1].title, "Beta Light");
            assert_eq!(v[1].yesterday_rank, 0);
        },
        _ => panic!("expected all gains"),
    }
}

#[test]
fn dbg_str_labels_supplied_filters() {
    let r = dbg_str(&Some("a".to_string()), &None, &Some("k".to_string()));
    assert_eq!(r, " title<\"a\"> keyword<\"k\">");
    let r = dbg_str(&None, &Some("b".to_string()), &None);
    assert_eq!(r, " artist<\"b\">");
    let r = dbg_str(&None, &None, &None);
    assert_eq!(r, "");
}

#[test]
fn validate_snapshot_key_checks_both_parts() {
    assert_eq!(validate_snapshot_key("us", "2022-05-20"), Ok(()));
    assert_eq!(
        validate_snapshot_key("oo", "2022-05-20"),
        Err(ChartError::InvalidRegionCode)
    );
    assert_eq!(
        validate_snapshot_key("us", "2022-5-20"),
        Err(ChartError::InvalidDateFormat)
    );
    assert_eq!(
        validate_snapshot_key("oo", "not-a-date"),
        Err(ChartError::InvalidRegionCode)
    );
}
