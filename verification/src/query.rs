use vstd::prelude::*;

use crate::chart::{entry_views, EntryV, SpotifyChart, SpotifyEntry};
use crate::strutil::{contains_lower, str_contains_lower};

verus! {

/// The entry's title contains the pattern, case-insensitively.
pub open spec fn title_matches(e: EntryV, pat: Seq<char>) -> bool {
    contains_lower(e.title, pat)
}

/// The entry's artist contains the pattern, case-insensitively.
pub open spec fn artist_matches(e: EntryV, pat: Seq<char>) -> bool {
    contains_lower(e.artist, pat)
}

/// The keyword is found in the title or in the artist.
pub open spec fn keyword_matches(e: EntryV, kw: Seq<char>) -> bool {
    title_matches(e, kw) || artist_matches(e, kw)
}

/// The view of an optional filter string.
pub open spec fn opt_seq(o: Option<&str>) -> Option<Seq<char>> {
    match o {
        Some(s) => Some(s@),
        None => None,
    }
}

/// The matching predicate across every combination of the three filters.
/// With no filter nothing matches (callers treat that case as an error,
/// not as an empty result). A keyword alone matches title or artist; a
/// keyword beside other filters prevails as an alternative: the entry
/// matches if it satisfies the keyword clause, or independently every
/// other supplied filter.
pub open spec fn entry_matches(
    e: EntryV,
    title: Option<Seq<char>>,
    artist: Option<Seq<char>>,
    keyword: Option<Seq<char>>,
) -> bool {
    match (title, artist, keyword) {
        (Option::None, Option::None, Option::None) => false,
        (Option::None, Option::None, Option::Some(k)) => keyword_matches(e, k),
        (Option::None, Option::Some(a), Option::None) => artist_matches(e, a),
        (Option::Some(t), Option::None, Option::None) => title_matches(e, t),
        (Option::Some(t), Option::Some(a), Option::None) => title_matches(e, t) && artist_matches(
            e,
            a,
        ),
        (Option::None, Option::Some(a), Option::Some(k)) => keyword_matches(e, k)
            || artist_matches(e, a),
        (Option::Some(t), Option::None, Option::Some(k)) => keyword_matches(e, k) || title_matches(
            e,
            t,
        ),
        (Option::Some(t), Option::Some(a), Option::Some(k)) => keyword_matches(e, k) || (
        title_matches(e, t) && artist_matches(e, a)),
    }
}

/// The subsequence of entries that match the filters, in chart order.
pub open spec fn matching_entries(
    es: Seq<EntryV>,
    title: Option<Seq<char>>,
    artist: Option<Seq<char>>,
    keyword: Option<Seq<char>>,
) -> Seq<EntryV>
    decreases es.len(),
{
    if es.len() == 0 {
        Seq::empty()
    } else {
        let rest = matching_entries(es.drop_last(), title, artist, keyword);
        if entry_matches(es.last(), title, artist, keyword) {
            rest.push(es.last())
        } else {
            rest
        }
    }
}

/// The views of a sequence of borrowed entries.
pub open spec fn ref_entry_views(es: Seq<&SpotifyEntry>) -> Seq<EntryV> {
    es.map_values(|e: &SpotifyEntry| e@)
}

/// Whether one entry satisfies the given filters.
fn entry_match(
    e: &SpotifyEntry,
    title: Option<&str>,
    artist: Option<&str>,
    keyword: Option<&str>,
) -> (r: bool)
    ensures
        r == entry_matches(e@, opt_seq(title), opt_seq(artist), opt_seq(keyword)),
{
    match (title, artist, keyword) {
        (Option::None, Option::None, Option::None) => false,
        (Option::None, Option::None, Option::Some(k)) => str_contains_lower(e.title.as_str(), k)
            || str_contains_lower(e.artist.as_str(), k),
        (Option::None, Option::Some(a), Option::None) => str_contains_lower(e.artist.as_str(), a),
        (Option::Some(t), Option::None, Option::None) => str_contains_lower(e.title.as_str(), t),
        (Option::Some(t), Option::Some(a), Option::None) => str_contains_lower(e.title.as_str(), t)
            && str_contains_lower(e.artist.as_str(), a),
        (Option::None, Option::Some(a), Option::Some(k)) => str_contains_lower(e.title.as_str(), k)
            || str_contains_lower(e.artist.as_str(), k) || str_contains_lower(e.artist.as_str(), a),
        (Option::Some(t), Option::None, Option::Some(k)) => str_contains_lower(e.title.as_str(), k)
            || str_contains_lower(e.artist.as_str(), k) || str_contains_lower(e.title.as_str(), t),
        (Option::Some(t), Option::Some(a), Option::Some(k)) => str_contains_lower(
            e.title.as_str(),
            k,
        ) || str_contains_lower(e.artist.as_str(), k) || (str_contains_lower(e.title.as_str(), t)
            && str_contains_lower(e.artist.as_str(), a)),
    }
}

impl SpotifyChart {
    /// All entries matching the filters, in chart order. Returns nothing
    /// at all both when no filter is supplied and when no entry matches:
    /// an empty sequence is never handed back.
    pub fn find_all(
        &self,
        title: Option<&str>,
        artist: Option<&str>,
        keyword: Option<&str>,
    ) -> (r: Option<Vec<&SpotifyEntry>>)
        ensures
            ({
                let ms = matching_entries(
                    self.entries(),
                    opt_seq(title),
                    opt_seq(artist),
                    opt_seq(keyword),
                );
                &&& (r is None <==> ms.len() == 0)
                &&& r matches Some(v) ==> ref_entry_views(v@) == ms && v@.len() > 0 && forall|
                    i: int,
                |
                    0 <= i < v@.len() ==> self.chart@.contains(*#[trigger] v@[i])
            }),
    {
        let ghost ft = opt_seq(title);
        let ghost fa = opt_seq(artist);
        let ghost fk = opt_seq(keyword);
        let mut found: Vec<&SpotifyEntry> = Vec::new();
        let n = self.chart.len();
        let mut i: usize = 0;
        proof {
            assert(entry_views(self.chart@).take(0) =~= Seq::<EntryV>::empty());
            assert(ref_entry_views(found@) =~= Seq::<EntryV>::empty());
        }
        while i < n
            invariant
                i <= n == self.chart@.len(),
                ref_entry_views(found@) == matching_entries(
                    entry_views(self.chart@).take(i as int),
                    ft,
                    fa,
                    fk,
                ),
                ft == opt_seq(title),
                fa == opt_seq(artist),
                fk == opt_seq(keyword),
                forall|j: int| 0 <= j < found@.len() ==> self.chart@.contains(
                    *#[trigger] found@[j],
                ),
            decreases n - i,
        {
            let ghost evs = entry_views(self.chart@);
            proof {
                assert(evs.take(i + 1).drop_last() =~= evs.take(i as int));
                assert(evs.take(i + 1).last() == evs[i as int]);
                assert(evs[i as int] == self.chart@[i as int]@);
            }
            let e = &self.chart[i];
            if entry_match(e, title, artist, keyword) {
                proof {
                    assert(ref_entry_views(found@.push(e)) =~= ref_entry_views(found@).push(e@));
                    assert(self.chart@[i as int] == *e);
                }
                found.push(e);
            }
            i = i + 1;
        }
        proof {
            assert(entry_views(self.chart@).take(n as int) =~= entry_views(self.chart@));
        }
        if found.len() > 0 {
            Some(found)
        } else {
            None
        }
    }

    /// The first entry matching the filters, in chart order.
    pub fn find(&self, title: Option<&str>, artist: Option<&str>, keyword: Option<&str>) -> (r:
        Option<&SpotifyEntry>)
        ensures
            ({
                let ms = matching_entries(
                    self.entries(),
                    opt_seq(title),
                    opt_seq(artist),
                    opt_seq(keyword),
                );
                &&& (r is None <==> ms.len() == 0)
                &&& r matches Some(e) ==> e@ == ms[0] && self.chart@.contains(*e)
            }),
    {
        match self.find_all(title, artist, keyword) {
            None => None,
            Some(v) => {
                let e = v[0];
                proof {
                    assert(ref_entry_views(v@)[0] == v@[0]@);
                }
                Some(e)
            },
        }
    }

    pub fn find_by_title_artist(&self, title: &str, artist: &str) -> (r: Option<&SpotifyEntry>)
        ensures
            ({
                let ms = matching_entries(self.entries(), Some(title@), Some(artist@), None);
                &&& (r is None <==> ms.len() == 0)
                &&& r matches Some(e) ==> e@ == ms[0] && self.chart@.contains(*e)
            }),
    {
        self.find(Some(title), Some(artist), None)
    }

    pub fn find_by_keyword(&self, keyword: &str) -> (r: Option<&SpotifyEntry>)
        ensures
            ({
                let ms = matching_entries(self.entries(), None, None, Some(keyword@));
                &&& (r is None <==> ms.len() == 0)
                &&& r matches Some(e) ==> e@ == ms[0] && self.chart@.contains(*e)
            }),
    {
        self.find(None, None, Some(keyword))
    }

    pub fn find_by_artist(&self, artist: &str) -> (r: Option<&SpotifyEntry>)
        ensures
            ({
                let ms = matching_entries(self.entries(), None, Some(artist@), None);
                &&& (r is None <==> ms.len() == 0)
                &&& r matches Some(e) ==> e@ == ms[0] && self.chart@.contains(*e)
            }),
    {
        self.find(None, Some(artist), None)
    }

    pub fn find_by_title(&self, title: &str) -> (r: Option<&SpotifyEntry>)
        ensures
            ({
                let ms = matching_entries(self.entries(), Some(title@), None, None);
                &&& (r is None <==> ms.len() == 0)
                &&& r matches Some(e) ==> e@ == ms[0] && self.chart@.contains(*e)
            }),
    {
        self.find(Some(title), None, None)
    }

    pub fn find_all_by_title_artist(&self, title: &str, artist: &str) -> (r: Option<
        Vec<&SpotifyEntry>,
    >)
        ensures
            ({
                let ms = matching_entries(self.entries(), Some(title@), Some(artist@), None);
                &&& (r is None <==> ms.len() == 0)
                &&& r matches Some(v) ==> ref_entry_views(v@) == ms && v@.len() > 0
            }),
    {
        self.find_all(Some(title), Some(artist), None)
    }

    pub fn find_all_by_keyword(&self, keyword: &str) -> (r: Option<Vec<&SpotifyEntry>>)
        ensures
            ({
                let ms = matching_entries(self.entries(), None, None, Some(keyword@));
                &&& (r is None <==> ms.len() == 0)
                &&& r matches Some(v) ==> ref_entry_views(v@) == ms && v@.len() > 0
            }),
    {
        self.find_all(None, None, Some(keyword))
    }

    pub fn find_all_by_artist(&self, artist: &str) -> (r: Option<Vec<&SpotifyEntry>>)
        ensures
            ({
                let ms = matching_entries(self.entries(), None, Some(artist@), None);
                &&& (r is None <==> ms.len() == 0)
                &&& r matches Some(v) ==> ref_entry_views(v@) == ms && v@.len() > 0
            }),
    {
        self.find_all(None, Some(artist), None)
    }

    pub fn find_all_by_title(&self, title: &str) -> (r: Option<Vec<&SpotifyEntry>>)
        ensures
            ({
                let ms = matching_entries(self.entries(), Some(title@), None, None);
                &&& (r is None <==> ms.len() == 0)
                &&& r matches Some(v) ==> ref_entry_views(v@) == ms && v@.len() > 0
            }),
    {
        self.find_all(Some(title), None, None)
    }
}

} // verus!
