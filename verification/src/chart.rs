use vstd::prelude::*;
use vstd::string::StrSliceExecFns;
use vstd::string::StringExecFns;

use crate::dates::{date_shaped, date_valid, day_of, month_of, parsed_date, year_of, Date};
use crate::errors::ChartError;
use crate::numbers::{num_value, parse_int, parse_rank, rank_text_valid, streams_text_valid};
use crate::regions::{display_seq, region_of, RegionString, Regions};
use crate::strutil::{split_seq, split_str, str_eq, views_of};

verus! {

/// The mathematical content of one chart entry.
pub struct EntryV {
    pub rank: int,
    pub title: Seq<char>,
    pub artist: Seq<char>,
    pub streams: int,
}

/// One row of a chart: a rank, a song title, an artist and a play count.
#[derive(Debug)]
pub struct SpotifyEntry {
    pub rank: i16,
    pub title: String,
    pub artist: String,
    pub streams: i64,
}

impl View for SpotifyEntry {
    type V = EntryV;

    open spec fn view(&self) -> EntryV {
        EntryV {
            rank: self.rank as int,
            title: self.title@,
            artist: self.artist@,
            streams: self.streams as int,
        }
    }
}

impl SpotifyEntry {
    pub fn new(rank: i16, title: &str, artist: &str, streams: i64) -> (e: Self)
        ensures
            e.rank == rank,
            e.title@ == title@,
            e.artist@ == artist@,
            e.streams == streams,
    {
        SpotifyEntry {
            rank,
            title: String::from_str(title),
            artist: String::from_str(artist),
            streams,
        }
    }
}

impl PartialEq for SpotifyEntry {
    fn eq(&self, other: &Self) -> (r: bool) {
        self.rank == other.rank && str_eq(self.title.as_str(), other.title.as_str()) && str_eq(
            self.artist.as_str(),
            other.artist.as_str(),
        ) && self.streams == other.streams
    }
}

impl vstd::std_specs::cmp::PartialEqSpecImpl for SpotifyEntry {
    open spec fn obeys_eq_spec() -> bool {
        true
    }

    open spec fn eq_spec(&self, other: &Self) -> bool {
        self@ == other@
    }
}

/// The views of a sequence of entries.
pub open spec fn entry_views(es: Seq<SpotifyEntry>) -> Seq<EntryV> {
    es.map_values(|e: SpotifyEntry| e@)
}

/// A row with a carriage return left by a CRLF terminator has it removed.
pub open spec fn normalize_row(l: Seq<char>) -> Seq<char> {
    if l.len() > 0 && l.last() == '\r' {
        l.drop_last()
    } else {
        l
    }
}

/// The entry a single row denotes, if it is well formed: exactly four
/// fields separated by `*`, a digit rank small enough to hold, and a
/// stream count in the comma-separated digit convention.
pub open spec fn row_entry(l: Seq<char>) -> Option<EntryV> {
    let fs = split_seq(l, '*');
    if fs.len() == 4 && rank_text_valid(fs[0]) && num_value(fs[0]) <= i16::MAX
        && streams_text_valid(fs[3]) && num_value(fs[3]) <= i64::MAX {
        Some(
            EntryV {
                rank: num_value(fs[0]),
                title: fs[1],
                artist: fs[2],
                streams: num_value(fs[3]),
            },
        )
    } else {
        None
    }
}

/// The entries a sequence of rows denotes: empty rows are passed over,
/// and one malformed row spoils the whole.
pub open spec fn rows_entries(rows: Seq<Seq<char>>) -> Option<Seq<EntryV>>
    decreases rows.len(),
{
    if rows.len() == 0 {
        Some(Seq::empty())
    } else {
        let l = normalize_row(rows[0]);
        let rest = rows_entries(rows.drop_first());
        if l.len() == 0 {
            rest
        } else {
            match row_entry(l) {
                None => None,
                Some(e) => match rest {
                    None => None,
                    Some(t) => Some(seq![e] + t),
                },
            }
        }
    }
}

/// The entries a whole chart text denotes: its newline-separated rows,
/// read in order.
pub open spec fn chart_entries(content: Seq<char>) -> Option<Seq<EntryV>> {
    rows_entries(split_seq(content, '\n'))
}

/// Parses delimited chart text into its entries. A single malformed row
/// fails the whole load: no partial chart is ever returned.
pub fn from_reader(content: &str) -> (r: Result<Vec<SpotifyEntry>, ChartError>)
    ensures
        r matches Ok(v) ==> chart_entries(content@) == Some(entry_views(v@)) && forall|j: int|
            0 <= j < v@.len() ==> (#[trigger] v@[j]).rank >= 0 && v@[j].streams >= 0,
        r is Err ==> r == Err::<Vec<SpotifyEntry>, ChartError>(ChartError::RecordParseError)
            && chart_entries(content@) is None,
        chart_entries(content@) is Some ==> r is Ok,
{
    let rows = split_str(content, '\n');
    let nrows = rows.len();
    let mut res: Vec<SpotifyEntry> = Vec::new();
    let mut i: usize = 0;
    proof {
        assert(views_of(rows@).skip(0) =~= views_of(rows@));
        assert(entry_views(res@) =~= Seq::<EntryV>::empty());
    }
    while i < nrows
        invariant
            i <= nrows == rows@.len(),
            views_of(rows@) == split_seq(content@, '\n'),
            rows_entries(views_of(rows@)) == (match rows_entries(
                views_of(rows@).skip(i as int),
            ) {
                None => None::<Seq<EntryV>>,
                Some(t) => Some(entry_views(res@) + t),
            }),
            forall|j: int| 0 <= j < res@.len() ==> (#[trigger] res@[j]).rank >= 0
                && res@[j].streams >= 0,
        decreases nrows - i,
    {
        proof {
            assert(views_of(rows@).skip(i as int).drop_first() =~= views_of(rows@).skip(i + 1));
            assert(views_of(rows@).skip(i as int)[0] == rows@[i as int]@);
        }
        let ghost suffix = views_of(rows@).skip(i as int);
        let row = &rows[i];
        let rowlen = row.as_str().unicode_len();
        let line: &str = if rowlen > 0 && row.as_str().get_char(rowlen - 1) == '\r' {
            let trimmed = row.as_str().substring_char(0, rowlen - 1);
            proof {
                assert(trimmed@ =~= normalize_row(row@));
            }
            trimmed
        } else {
            row.as_str()
        };
        proof {
            assert(line@ == normalize_row(row@));
        }
        if line.unicode_len() > 0 {
            let fields = split_str(line, '*');
            if fields.len() != 4 {
                return Err(ChartError::RecordParseError);
            }
            proof {
                assert(views_of(fields@)[0] == fields@[0]@);
                assert(views_of(fields@)[1] == fields@[1]@);
                assert(views_of(fields@)[2] == fields@[2]@);
                assert(views_of(fields@)[3] == fields@[3]@);
            }
            let rank = match parse_rank(fields[0].as_str()) {
                Ok(v) => v,
                Err(e) => {
                    return Err(e);
                },
            };
            let streams = match parse_int(fields[3].as_str()) {
                Ok(v) => v,
                Err(e) => {
                    return Err(e);
                },
            };
            let entry = SpotifyEntry {
                rank,
                title: fields[1].clone(),
                artist: fields[2].clone(),
                streams,
            };
            proof {
                assert(row_entry(line@) == Some(entry@));
                assert(entry_views(res@.push(entry)) =~= entry_views(res@) + seq![entry@]);
                assert(rows_entries(suffix) == (match rows_entries(suffix.drop_first()) {
                    None => None::<Seq<EntryV>>,
                    Some(t) => Some(seq![entry@] + t),
                }));
                assert forall|t: Seq<EntryV>|
                    true implies entry_views(res@) + (seq![entry@] + t) =~= (entry_views(res@)
                    + seq![entry@]) + t by {}
            }
            res.push(entry);
        }
        i = i + 1;
    }
    proof {
        assert(views_of(rows@).skip(nrows as int) =~= Seq::<Seq<char>>::empty());
        assert(entry_views(res@) + Seq::<EntryV>::empty() =~= entry_views(res@));
    }
    Ok(res)
}

/// A loaded snapshot: the region it covers, the date it was taken, and
/// its entries in the order they were read.
#[derive(Debug)]
pub struct SpotifyChart {
    pub region: String,
    pub code: String,
    pub date: Date,
    pub date_string: String,
    pub chart: Vec<SpotifyEntry>,
    pub count: usize,
}

impl SpotifyChart {
    /// The mathematical content of the entry rows.
    pub open spec fn entries(self) -> Seq<EntryV> {
        entry_views(self.chart@)
    }

    /// Well-formedness: the stored count is the entry count, and no
    /// entry holds a negative rank or play count.
    pub open spec fn wf(self) -> bool {
        &&& self.count == self.chart@.len()
        &&& forall|j: int| 0 <= j < self.chart@.len() ==> (#[trigger] self.chart@[j]).rank >= 0
            && self.chart@[j].streams >= 0
    }

    /// An empty placeholder chart.
    pub fn new() -> (c: Self)
        ensures
            c.region@ == "Unknown"@,
            c.code@ == "Unknown"@,
            c.date_string@ == "Unknown"@,
            c.date == (Date { year: 2001, month: 1, day: 27 }),
            c.entries() =~= Seq::<EntryV>::empty(),
            c.count == 0,
            c.wf(),
    {
        let c = SpotifyChart {
            region: String::from_str("Unknown"),
            code: String::from_str("Unknown"),
            date_string: String::from_str("Unknown"),
            date: Date { year: 2001, month: 1, day: 27 },
            chart: Vec::new(),
            count: 0,
        };
        proof {
            assert(c.entries() =~= Seq::<EntryV>::empty());
        }
        c
    }

    /// Loads a chart from delimited text, attaching the region and date.
    /// A malformed row fails the load; then the date string must denote
    /// a possible calendar date. The region code is not validated here:
    /// an unknown code gives the sentinel's display name.
    pub fn from_reader(content: &str, date: &str, code: &str) -> (r: Result<Self, ChartError>)
        ensures
            r matches Ok(c) ==> {
                &&& chart_entries(content@) == Some(c.entries())
                &&& date_shaped(date@)
                &&& date_valid(year_of(date@), month_of(date@), day_of(date@))
                &&& c.date == parsed_date(date@)
                &&& c.date_string@ == date@
                &&& c.code@ == code@
                &&& c.region@ == display_seq(region_of(code@))
                &&& c.wf()
            },
            chart_entries(content@) is None ==> r == Err::<Self, ChartError>(
                ChartError::RecordParseError,
            ),
            chart_entries(content@) is Some && !date_shaped(date@) ==> r == Err::<
                Self,
                ChartError,
            >(ChartError::InvalidDateFormat),
            chart_entries(content@) is Some && date_shaped(date@) && !date_valid(
                year_of(date@),
                month_of(date@),
                day_of(date@),
            ) ==> r == Err::<Self, ChartError>(ChartError::InvalidCalendarDate),
            chart_entries(content@) is Some && date_shaped(date@) && date_valid(
                year_of(date@),
                month_of(date@),
                day_of(date@),
            ) ==> r is Ok,
    {
        let entries = match from_reader(content) {
            Ok(v) => v,
            Err(e) => {
                return Err(e);
            },
        };
        let parsed = match crate::dates::match_date(date) {
            Ok(d) => d,
            Err(e) => {
                return Err(e);
            },
        };
        let count = entries.len();
        Ok(
            SpotifyChart {
                region: Regions::from(code).to_region_string(),
                code: String::from_str(code),
                date: parsed,
                date_string: String::from_str(date),
                chart: entries,
                count,
            },
        )
    }
}

/// Loading the same text twice gives charts with identical entry
/// sequences: the parse is a pure function of the input characters.
pub proof fn lemma_load_idempotent(c1: SpotifyChart, c2: SpotifyChart, content: Seq<char>)
    requires
        chart_entries(content) == Some(c1.entries()),
        chart_entries(content) == Some(c2.entries()),
    ensures
        c1.entries() == c2.entries(),
{
}

} // verus!
