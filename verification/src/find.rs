use vstd::prelude::*;
use vstd::string::StringExecFns;

use crate::chart::{SpotifyChart, SpotifyEntry};
use crate::errors::ChartError;
use crate::gain::{gain_describes, name_or_unknown, SpotifyGain};
use crate::query::{matching_entries, opt_seq, ref_entry_views};

verus! {

/// What a find request produced: one entry, all entries, one gain, or
/// one gain per match.
pub enum FindOutcome<'a> {
    Single(Option<&'a SpotifyEntry>),
    Many(Option<Vec<&'a SpotifyEntry>>),
    GainOne(SpotifyGain),
    GainMany(Option<Vec<SpotifyGain>>),
}

/// The filters a find request actually applies: the keyword counts only
/// when neither title nor artist was supplied.
pub open spec fn eff_title(t: Option<&str>, a: Option<&str>) -> Option<Seq<char>> {
    if t is None && a is None {
        None
    } else {
        opt_seq(t)
    }
}

pub open spec fn eff_artist(t: Option<&str>, a: Option<&str>) -> Option<Seq<char>> {
    if t is None && a is None {
        None
    } else {
        opt_seq(a)
    }
}

pub open spec fn eff_keyword(t: Option<&str>, a: Option<&str>, k: Option<&str>) -> Option<
    Seq<char>,
> {
    if t is None && a is None {
        opt_seq(k)
    } else {
        None
    }
}

/// Decides a find request over already-loaded charts: which entries or
/// gains it denotes, or the failure when no filter at all was supplied.
/// When gains are requested, the caller supplies the comparison chart.
pub fn run_find<'a>(
    chart: &'a SpotifyChart,
    previous: Option<&SpotifyChart>,
    title: Option<&str>,
    artist: Option<&str>,
    keyword: Option<&str>,
    all: bool,
    gains: bool,
) -> (r: Result<FindOutcome<'a>, ChartError>)
    requires
        chart.wf(),
        gains ==> (previous matches Some(p) && p.wf()),
    ensures
        ({
            let ft = eff_title(title, artist);
            let fa = eff_artist(title, artist);
            let fk = eff_keyword(title, artist, keyword);
            let mt = matching_entries(chart.entries(), ft, fa, fk);
            &&& title is None && artist is None && keyword is None ==> r == Err::<
                FindOutcome<'a>,
                ChartError,
            >(ChartError::NoFilterSupplied)
            &&& !(title is None && artist is None && keyword is None) ==> {
                &&& !gains && !all ==> (r matches Ok(o) && o matches FindOutcome::Single(e) && (
                e is None <==> mt.len() == 0) && (e matches Some(en) ==> en@ == mt[0]))
                &&& !gains && all ==> (r matches Ok(o) && o matches FindOutcome::Many(e) && (
                e is None <==> mt.len() == 0) && (e matches Some(v) ==> ref_entry_views(v@) == mt))
                &&& gains && !all ==> (r matches Ok(o) && o matches FindOutcome::GainOne(g)
                    && gain_describes(
                    g,
                    mt,
                    matching_entries(previous->0.entries(), ft, fa, fk),
                    name_or_unknown(if title is None && artist is None {
                        None
                    } else {
                        title
                    }),
                    name_or_unknown(if title is None && artist is None {
                        None
                    } else {
                        artist
                    }),
                ))
                &&& gains && all ==> (r matches Ok(o) && o matches FindOutcome::GainMany(gs) && (
                gs is None <==> mt.len() == 0) && (gs matches Some(v) ==> v@.len() == mt.len()
                    && forall|i: int|
                    0 <= i < v@.len() ==> gain_describes(
                        #[trigger] v@[i],
                        matching_entries(
                            chart.entries(),
                            Some(mt[i].title),
                            Some(mt[i].artist),
                            None,
                        ),
                        matching_entries(
                            previous->0.entries(),
                            Some(mt[i].title),
                            Some(mt[i].artist),
                            None,
                        ),
                        mt[i].title,
                        mt[i].artist,
                    )))
            }
        }),
{
    let use_keyword = title.is_none() && artist.is_none();
    if use_keyword && keyword.is_none() {
        return Err(ChartError::NoFilterSupplied);
    }
    let ft: Option<&str> = if use_keyword {
        None
    } else {
        title
    };
    let fa: Option<&str> = if use_keyword {
        None
    } else {
        artist
    };
    let fk: Option<&str> = if use_keyword {
        keyword
    } else {
        None
    };
    if gains {
        let prev = match previous {
            Some(p) => p,
            None => {
                proof {
                    assert(false);
                }
                return Err(ChartError::SnapshotNotFound);
            },
        };
        if all {
            Ok(FindOutcome::GainMany(chart.song_gain_all(prev, ft, fa, fk)))
        } else {
            Ok(FindOutcome::GainOne(chart.song_gain(prev, ft, fa, fk)))
        }
    } else {
        if all {
            Ok(FindOutcome::Many(chart.find_all(ft, fa, fk)))
        } else {
            Ok(FindOutcome::Single(chart.find(ft, fa, fk)))
        }
    }
}

/// Builds the note describing which filters a request carried, for
/// reports: one angle-bracketed clause per supplied filter.
pub open spec fn labeled_note(open_lit: Seq<char>, o: Option<String>) -> Seq<char> {
    match o {
        Some(s) => open_lit + s@ + "\">"@,
        None => Seq::<char>::empty(),
    }
}

pub fn dbg_str(title: &Option<String>, artist: &Option<String>, keyword: &Option<String>) -> (r:
    String)
    ensures
        r@ == labeled_note(" title<\""@, *title) + labeled_note(" artist<\""@, *artist)
            + labeled_note(" keyword<\""@, *keyword),
{
    let mut s = String::new();
    match title {
        Some(t) => {
            s.append(" title<\"");
            s.append(t.as_str());
            s.append("\">");
        },
        None => {},
    }
    match artist {
        Some(a) => {
            s.append(" artist<\"");
            s.append(a.as_str());
            s.append("\">");
        },
        None => {},
    }
    match keyword {
        Some(k) => {
            s.append(" keyword<\"");
            s.append(k.as_str());
            s.append("\">");
        },
        None => {},
    }
    proof {
        assert(s@ =~= labeled_note(" title<\""@, *title) + labeled_note(" artist<\""@, *artist)
            + labeled_note(" keyword<\""@, *keyword));
    }
    s
}

} // verus!
