use chartscan::chart::{SpotifyChart, SpotifyEntry};
use chartscan::errors::ChartError;
use chartscan::gain::SpotifyGain;
use chartscan::numbers::parse_int;

fn load(text: &str, date: &str) -> SpotifyChart {
    SpotifyChart::from_reader(text, date, "us").unwrap()
}

#[test]
fn from_spotify_entry_valid_1() {
    let title = "As It Was";
    let artist = "Harry Styles";
    let expected = SpotifyGain::new(
        1,
        1,
        title,
        artist,
        parse_int("2,432,888").unwrap(),
        parse_int("2,579,111").unwrap(),
    );

    let en1 = SpotifyEntry::new(1, title, artist, 2432888);
    let en2 = SpotifyEntry::new(1, title, artist, 2579111);

    assert_eq!(expected, SpotifyGain::from_spotify_entry(&en1, &en2).unwrap());
}

#[test]
fn from_spotify_entry_valid_2() {
    let title = "As It Was";
    let artist = "Harry Styles";
    let expected = SpotifyGain::new(
        5,
        10,
        title,
        artist,
        parse_int("2,432").unwrap(),
        parse_int("2,579").unwrap(),
    );

    let en1 = SpotifyEntry::new(5, title, artist, 2432);
    let en2 = SpotifyEntry::new(10, title, artist, 2579);

    assert_eq!(expected, SpotifyGain::from_spotify_entry(&en1, &en2).unwrap());
}

#[test]
fn from_spotify_entry_invalid_1() {}

#[test]
fn from_spotify_entry_invalid_2() {}

#[test]
fn from_spotify_entry_rejects_different_songs() {
    let en1 = SpotifyEntry::new(1, "One", "Artist", 100);
    let en2 = SpotifyEntry::new(2, "Two", "Artist", 200);
    assert_eq!(
        SpotifyGain::from_spotify_entry(&en1, &en2),
        Err(ChartError::EntryMismatch)
    );
    let en3 = SpotifyEntry::new(2, "One", "Other", 200);
    assert_eq!(
        SpotifyGain::from_spotify_entry(&en1, &en3),
        Err(ChartError::EntryMismatch)
    );
}

#[test]
fn gain_new_keeps_exact_differences() {
    let g = SpotifyGain::new(5, 3, "T", "A", 1000, 1500);
    assert_eq!(g.today_rank, 5);
    assert_eq!(g.yesterday_rank, 3);
    assert_eq!(g.rank_diff, -2);
    assert_eq!(g.today_streams, 1000);
    assert_eq!(g.yesterday_streams, 1500);
    assert_eq!(g.streams_diff, -500);
    assert_eq!(g.title, "T");
    assert_eq!(g.artist, "A");
}

#[test]
fn gain_new_entry_case() {
    let today = load("5*X*Y*1,000\n", "2022-05-20");
    let yesterday = load("", "2022-05-19");
    let g = today.song_gain(&yesterday, Some("X"), Some("Y"), None);
    assert_eq!(g.today_rank, 5);
    assert_eq!(g.yesterday_rank, 0);
    assert_eq!(g.yesterday_streams, 0);
    assert_eq!(g.streams_diff, 1000);
    assert_eq!(g.rank_diff, -5);
    assert_eq!(g.title, "X");
    assert_eq!(g.artist, "Y");
}

#[test]
fn gain_dropped_case() {
    let today = load("", "2022-05-20");
    let yesterday = load("3*X*Y*500\n", "2022-05-19");
    let g = today.song_gain(&yesterday, Some("X"), None, None);
    assert_eq!(g.today_rank, 0);
    assert_eq!(g.today_streams, 0);
    assert_eq!(g.yesterday_rank, 3);
    assert_eq!(g.yesterday_streams, 500);
    assert_eq!(g.streams_diff, -500);
    assert_eq!(g.rank_diff, 3);
    assert_eq!(g.title, "X");
    assert_eq!(g.artist, "Y");
}

#[test]
fn gain_found_neither_uses_filters_or_placeholder() {
    let today = load("", "2022-05-20");
    let yesterday = load("", "2022-05-19");
    let g = today.song_gain(&yesterday, Some("X"), None, None);
    assert_eq!(g.title, "X");
    assert_eq!(g.artist, "Unknown");
    assert_eq!(g.today_rank, 0);
    assert_eq!(g.yesterday_rank, 0);
    assert_eq!(g.rank_diff, 0);
    assert_eq!(g.streams_diff, 0);
}

#[test]
fn gain_found_both_takes_todays_naming() {
    let today = load("2*Song Title*Band*2,000\n", "2022-05-20");
    let yesterday = load("4*SONG TITLE*BAND*1,500\n", "2022-05-19");
    let g = today.song_gain(&yesterday, Some("song title"), None, None);
    assert_eq!(g.today_rank, 2);
    assert_eq!(g.yesterday_rank, 4);
    assert_eq!(g.rank_diff, 2);
    assert_eq!(g.today_streams, 2000);
    assert_eq!(g.yesterday_streams, 1500);
    assert_eq!(g.streams_diff, 500);
    assert_eq!(g.title, "Song Title");
    assert_eq!(g.artist, "Band");
}

#[test]
fn song_gain_all_anchors_each_row() {
    let today = load(
        "1*Alpha One*A*1,000\n2*Alpha Two*B*2,000\n3*Other*C*3,000\n4*Alpha Three*D*4,000\n",
        "2022-05-20",
    );
    let yesterday = load("1*Alpha One*A*900\n5*Alpha Three*D*100\n", "2022-05-19");
    let gains = today.song_gain_all(&yesterday, None, None, Some("alpha")).unwrap();
    assert_eq!(gains.len(), 3);

    assert_eq!(gains[0].title, "Alpha One");
    assert_eq!(gains[0].artist, "A");
    assert_eq!(gains[0].yesterday_rank, 1);
    assert_eq!(gains[0].streams_diff, 100);

    assert_eq!(gains[1].title, "Alpha Two");
    assert_eq!(gains[1].yesterday_rank, 0);
    assert_eq!(gains[1].streams_diff, 2000);

    assert_eq!(gains[2].title, "Alpha Three");
    assert_eq!(gains[2].yesterday_rank, 5);
    assert_eq!(gains[2].rank_diff, 1);
    assert_eq!(gains[2].streams_diff, 3900);
}

#[test]
fn song_gain_all_with_no_match_is_absent() {
    let today = load("1*A*B*100\n", "2022-05-20");
    let yesterday = load("", "2022-05-19");
    assert!(today.song_gain_all(&yesterday, None, None, Some("zzz")).is_none());
    assert!(today.song_gain_all(&yesterday, None, None, None).is_none());
}
