use vstd::prelude::*;
use vstd::string::StringExecFns;

use crate::chart::{EntryV, SpotifyChart, SpotifyEntry};
use crate::errors::ChartError;
use crate::query::{matching_entries, opt_seq, ref_entry_views};
use crate::strutil::str_eq;

verus! {

/// A day-over-day comparison for one song. A rank or stream count of 0
/// means the song was absent from that day's chart, never a real rank.
#[derive(Debug)]
pub struct SpotifyGain {
    pub today_rank: i16,
    pub yesterday_rank: i16,
    pub rank_diff: i16,
    pub title: String,
    pub artist: String,
    pub today_streams: i64,
    pub yesterday_streams: i64,
    pub streams_diff: i64,
}

impl PartialEq for SpotifyGain {
    fn eq(&self, other: &Self) -> (r: bool) {
        self.today_rank == other.today_rank && self.yesterday_rank == other.yesterday_rank
            && self.rank_diff == other.rank_diff && str_eq(
            self.title.as_str(),
            other.title.as_str(),
        ) && str_eq(self.artist.as_str(), other.artist.as_str()) && self.today_streams
            == other.today_streams && self.yesterday_streams == other.yesterday_streams
            && self.streams_diff == other.streams_diff
    }
}

impl vstd::std_specs::cmp::PartialEqSpecImpl for SpotifyGain {
    open spec fn obeys_eq_spec() -> bool {
        true
    }

    open spec fn eq_spec(&self, other: &Self) -> bool {
        &&& self.today_rank == other.today_rank
        &&& self.yesterday_rank == other.yesterday_rank
        &&& self.rank_diff == other.rank_diff
        &&& self.title@ == other.title@
        &&& self.artist@ == other.artist@
        &&& self.today_streams == other.today_streams
        &&& self.yesterday_streams == other.yesterday_streams
        &&& self.streams_diff == other.streams_diff
    }
}

/// The filter string a gain takes its name from when no entry supplied
/// one: the filter value if present, else a placeholder.
pub open spec fn name_or_unknown(o: Option<&str>) -> Seq<char> {
    match o {
        Some(s) => s@,
        None => "Unknown"@,
    }
}

/// What a gain record says, given the matching entries of the two days
/// and the fallback title and artist. The two differences are always
/// exactly the stated subtractions, also when one side is the absent
/// sentinel.
pub open spec fn gain_describes(
    g: SpotifyGain,
    mt: Seq<EntryV>,
    my: Seq<EntryV>,
    t0: Seq<char>,
    a0: Seq<char>,
) -> bool {
    &&& g.rank_diff == g.yesterday_rank - g.today_rank
    &&& g.streams_diff == g.today_streams - g.yesterday_streams
    &&& mt.len() == 0 && my.len() == 0 ==> g.today_rank == 0 && g.yesterday_rank == 0
        && g.today_streams == 0 && g.yesterday_streams == 0 && g.title@ == t0 && g.artist@ == a0
    &&& mt.len() == 0 && my.len() > 0 ==> g.today_rank == 0 && g.today_streams == 0
        && g.yesterday_rank == my[0].rank && g.yesterday_streams == my[0].streams && g.title@
        == my[0].title && g.artist@ == my[0].artist
    &&& mt.len() > 0 && my.len() == 0 ==> g.today_rank == mt[0].rank && g.today_streams
        == mt[0].streams && g.yesterday_rank == 0 && g.yesterday_streams == 0 && g.title@
        == mt[0].title && g.artist@ == mt[0].artist
    &&& mt.len() > 0 && my.len() > 0 ==> g.today_rank == mt[0].rank && g.today_streams
        == mt[0].streams && g.yesterday_rank == my[0].rank && g.yesterday_streams == my[0].streams
        && g.title@ == mt[0].title && g.artist@ == mt[0].artist
}

impl SpotifyGain {
    /// Builds a gain record; the differences are exactly the stated
    /// subtractions.
    pub fn new(
        today_rank: i16,
        yesterday_rank: i16,
        title: &str,
        artist: &str,
        today_streams: i64,
        yesterday_streams: i64,
    ) -> (g: Self)
        requires
            i16::MIN <= yesterday_rank - today_rank <= i16::MAX,
            i64::MIN <= today_streams - yesterday_streams <= i64::MAX,
        ensures
            g.today_rank == today_rank,
            g.yesterday_rank == yesterday_rank,
            g.rank_diff == yesterday_rank - today_rank,
            g.title@ == title@,
            g.artist@ == artist@,
            g.today_streams == today_streams,
            g.yesterday_streams == yesterday_streams,
            g.streams_diff == today_streams - yesterday_streams,
    {
        SpotifyGain {
            today_rank,
            yesterday_rank,
            rank_diff: yesterday_rank - today_rank,
            title: String::from_str(title),
            artist: String::from_str(artist),
            today_streams,
            yesterday_streams,
            streams_diff: today_streams - yesterday_streams,
        }
    }

    /// Compares two entries that must describe the same song: same title
    /// and same artist, or the pair is rejected.
    pub fn from_spotify_entry(today: &SpotifyEntry, yesterday: &SpotifyEntry) -> (r: Result<
        SpotifyGain,
        ChartError,
    >)
        requires
            i16::MIN <= yesterday.rank - today.rank <= i16::MAX,
            i64::MIN <= today.streams - yesterday.streams <= i64::MAX,
        ensures
            today.title@ == yesterday.title@ && today.artist@ == yesterday.artist@ ==> (r matches
            Ok(g) && g.today_rank == today.rank && g.yesterday_rank == yesterday.rank && g.rank_diff
                == yesterday.rank - today.rank && g.title@ == today.title@ && g.artist@
                == today.artist@ && g.today_streams == today.streams && g.yesterday_streams
                == yesterday.streams && g.streams_diff == today.streams - yesterday.streams),
            !(today.title@ == yesterday.title@ && today.artist@ == yesterday.artist@) ==> r
                == Err::<SpotifyGain, ChartError>(ChartError::EntryMismatch),
    {
        if str_eq(today.title.as_str(), yesterday.title.as_str()) && str_eq(
            today.artist.as_str(),
            yesterday.artist.as_str(),
        ) {
            Ok(
                SpotifyGain::new(
                    today.rank,
                    yesterday.rank,
                    today.title.as_str(),
                    today.artist.as_str(),
                    today.streams,
                    yesterday.streams,
                ),
            )
        } else {
            Err(ChartError::EntryMismatch)
        }
    }
}

impl SpotifyChart {
    /// The gain for the song the filters select: the first match of each
    /// chart, with 0 standing in for a day the song is absent from, and
    /// the title and artist taken from today's entry, else yesterday's,
    /// else the filters.
    pub fn song_gain(
        &self,
        previous_chart: &SpotifyChart,
        title: Option<&str>,
        artist: Option<&str>,
        keyword: Option<&str>,
    ) -> (g: SpotifyGain)
        requires
            self.wf(),
            previous_chart.wf(),
        ensures
            ({
                let mt = matching_entries(
                    self.entries(),
                    opt_seq(title),
                    opt_seq(artist),
                    opt_seq(keyword),
                );
                let my = matching_entries(
                    previous_chart.entries(),
                    opt_seq(title),
                    opt_seq(artist),
                    opt_seq(keyword),
                );
                gain_describes(g, mt, my, name_or_unknown(title), name_or_unknown(artist))
            }),
    {
        let today = self.find(title, artist, keyword);
        let yesterday = previous_chart.find(title, artist, keyword);

        let title_str: &str = match title {
            Some(t) => t,
            None => "Unknown",
        };
        let artist_str: &str = match artist {
            Some(a) => a,
            None => "Unknown",
        };

        match (today, yesterday) {
            (None, None) => SpotifyGain::new(0, 0, title_str, artist_str, 0, 0),
            (None, Some(entry)) => SpotifyGain::new(
                0,
                entry.rank,
                entry.title.as_str(),
                entry.artist.as_str(),
                0,
                entry.streams,
            ),
            (Some(entry), None) => SpotifyGain::new(
                entry.rank,
                0,
                entry.title.as_str(),
                entry.artist.as_str(),
                entry.streams,
                0,
            ),
            (Some(today), Some(yesterday)) => SpotifyGain::new(
                today.rank,
                yesterday.rank,
                today.title.as_str(),
                today.artist.as_str(),
                today.streams,
                yesterday.streams,
            ),
        }
    }

    /// One gain per matching today-entry. Each row is computed with that
    /// entry's exact title and artist as the filters, so every row is
    /// anchored to one concrete song even when the query was a broad
    /// keyword. Returns nothing both when no filter is supplied and when
    /// today has no match.
    pub fn song_gain_all(
        &self,
        previous_chart: &SpotifyChart,
        title: Option<&str>,
        artist: Option<&str>,
        keyword: Option<&str>,
    ) -> (r: Option<Vec<SpotifyGain>>)
        requires
            self.wf(),
            previous_chart.wf(),
        ensures
            ({
                let mt = matching_entries(
                    self.entries(),
                    opt_seq(title),
                    opt_seq(artist),
                    opt_seq(keyword),
                );
                &&& (r is None <==> mt.len() == 0)
                &&& r matches Some(gs) ==> gs@.len() == mt.len() && forall|i: int|
                    0 <= i < gs@.len() ==> gain_describes(
                        #[trigger] gs@[i],
                        matching_entries(
                            self.entries(),
                            Some(mt[i].title),
                            Some(mt[i].artist),
                            None,
                        ),
                        matching_entries(
                            previous_chart.entries(),
                            Some(mt[i].title),
                            Some(mt[i].artist),
                            None,
                        ),
                        mt[i].title,
                        mt[i].artist,
                    )
            }),
    {
        let today = self.find_all(title, artist, keyword);

        match today {
            None => None,
            Some(entries) => {
                let ghost mt = matching_entries(
                    self.entries(),
                    opt_seq(title),
                    opt_seq(artist),
                    opt_seq(keyword),
                );
                let n = entries.len();
                let mut res: Vec<SpotifyGain> = Vec::new();
                let mut i: usize = 0;
                while i < n
                    invariant
                        i <= n == entries@.len(),
                        self.wf(),
                        previous_chart.wf(),
                        ref_entry_views(entries@) == mt,
                        res@.len() == i,
                        forall|j: int| 0 <= j < i ==> gain_describes(
                            #[trigger] res@[j],
                            matching_entries(
                                self.entries(),
                                Some(mt[j].title),
                                Some(mt[j].artist),
                                None,
                            ),
                            matching_entries(
                                previous_chart.entries(),
                                Some(mt[j].title),
                                Some(mt[j].artist),
                                None,
                            ),
                            mt[j].title,
                            mt[j].artist,
                        ),
                    decreases n - i,
                {
                    proof {
                        assert(ref_entry_views(entries@)[i as int] == entries@[i as int]@);
                    }
                    let entry = entries[i];
                    let g = self.song_gain(
                        previous_chart,
                        Some(entry.title.as_str()),
                        Some(entry.artist.as_str()),
                        None,
                    );
                    res.push(g);
                    i = i + 1;
                }
                Some(res)
            },
        }
    }
}

} // verus!
