//! The weather store: station id to latest raw report line, wholesale
//! replaced on each successful refresh.  A station id is the first
//! whitespace-delimited token of a report line, at least four characters
//! long; later lines for the same station override earlier ones.

use vstd::prelude::*;

use crate::kvlist::{kv_find, kv_insert, kv_map, kv_unique};
use crate::text::{has_station, split_lines, split_to_lines, station_of, station_token};
use crate::ui::Message;

verus! {

/// The map a sequence of report lines denotes: each line with a station id
/// binds that id to the whole line, later lines overriding earlier ones.
pub open spec fn metar_map_from(lines: Seq<Seq<char>>) -> Map<Seq<char>, Seq<char>>
    decreases lines.len(),
{
    if lines.len() == 0 {
        Map::empty()
    } else {
        let m = metar_map_from(lines.drop_last());
        let line = lines.last();
        if has_station(line) {
            m.insert(station_of(line), line)
        } else {
            m
        }
    }
}

/// The map a whole bulk text feed denotes.
pub open spec fn metar_map_of(text: Seq<char>) -> Map<Seq<char>, Seq<char>> {
    metar_map_from(split_lines(text))
}

/// Witnesses that a stored report is one of the feed's own lines: line
/// `i` carries station `s`, is stored for it verbatim, and no later line
/// of the feed carries that station.
pub open spec fn stored_from_line(lines: Seq<Seq<char>>, s: Seq<char>, i: int) -> bool {
    &&& 0 <= i < lines.len()
    &&& has_station(lines[i])
    &&& station_of(lines[i]) == s
    &&& metar_map_from(lines)[s] == lines[i]
    &&& forall|j: int|
        i < j < lines.len() ==> !(has_station(lines[j]) && station_of(lines[j]) == s)
}

/// A station's stored report is always one of the ingested feed's lines,
/// verbatim: the last line of the feed whose station id it is.
pub proof fn lemma_stored_report_is_feed_line(lines: Seq<Seq<char>>, s: Seq<char>)
    requires
        metar_map_from(lines).dom().contains(s),
    ensures
        exists|i: int| stored_from_line(lines, s, i),
    decreases lines.len(),
{
    let line = lines.last();
    if has_station(line) && station_of(line) == s {
        assert(stored_from_line(lines, s, lines.len() - 1));
    } else {
        assert(metar_map_from(lines.drop_last()).dom().contains(s));
        lemma_stored_report_is_feed_line(lines.drop_last(), s);
        let i = choose|i: int| stored_from_line(lines.drop_last(), s, i);
        assert(lines.drop_last()[i] == lines[i]);
        assert forall|j: int|
            i < j < lines.len() implies !(has_station(lines[j]) && station_of(lines[j])
            == s) by {
            if j < lines.len() - 1 {
                assert(lines.drop_last()[j] == lines[j]);
            }
        }
        assert(stored_from_line(lines, s, i));
    }
}

/// After an ingest of a whole feed, what the store holds for a station is
/// the feed's last line carrying that station id, verbatim.
pub proof fn lemma_lookup_returns_ingested_line(text: Seq<char>, station: Seq<char>)
    requires
        metar_map_of(text).dom().contains(station),
    ensures
        exists|i: int| stored_from_line(split_lines(text), station, i),
{
    lemma_stored_report_is_feed_line(split_lines(text), station);
}

/// In-memory weather store.
pub struct MetarProvider {
    entries: Vec<(String, String)>,
    last_update_successful: bool,
}

impl MetarProvider {
    #[verifier::type_invariant]
    pub closed spec fn wf(&self) -> bool {
        kv_unique(self.entries@)
    }

    /// The stored reports, station id to raw line.
    pub closed spec fn map_view(&self) -> Map<Seq<char>, Seq<char>> {
        kv_map(self.entries@).map_values(|v: String| v@)
    }

    /// Whether the most recent refresh succeeded.
    pub closed spec fn last_ok(&self) -> bool {
        self.last_update_successful
    }

    /// An empty store whose first refresh is still outstanding.
    pub fn new() -> (p: MetarProvider)
        ensures
            p.map_view() == Map::<Seq<char>, Seq<char>>::empty(),
            !p.last_ok(),
    {
        MetarProvider { entries: Vec::new(), last_update_successful: false }
    }

    pub fn last_update_successful(&self) -> (r: bool)
        ensures
            r == self.last_ok(),
    {
        self.last_update_successful
    }

    /// The stored report line for a station, verbatim, if one is held.
    pub fn lookup_metar(&self, station_id: &str) -> (r: Option<String>)
        ensures
            match r {
                Some(line) => self.map_view().dom().contains(station_id@) && line@
                    == self.map_view()[station_id@],
                None => !self.map_view().dom().contains(station_id@),
            },
    {
        proof {
            use_type_invariant(self);
        }
        match kv_find(&self.entries, station_id) {
            Some(i) => Some(self.entries[i].1.clone()),
            None => None,
        }
    }

    /// Replaces the store from a fetched bulk feed, or records the failed
    /// refresh and leaves the store untouched.
    pub fn update(&mut self, fetched: Option<String>) -> (r: bool)
        ensures
            r == (fetched is Some),
            final(self).last_ok() == (fetched is Some),
            fetched matches Some(text) ==> final(self).map_view() == metar_map_of(text@),
            fetched is None ==> final(self).map_view() == old(self).map_view(),
    {
        proof {
            use_type_invariant(&*self);
        }
        match fetched {
            None => {
                self.last_update_successful = false;
                false
            },
            Some(text) => {
                let lines = split_to_lines(text.as_str());
                let ghost line_views: Seq<Seq<char>> = split_lines(text@);
                let mut fresh: Vec<(String, String)> = Vec::new();
                let n: usize = lines.len();
                let mut i: usize = 0;
                proof {
                    assert(line_views.take(0) =~= Seq::<Seq<char>>::empty());
                    assert(kv_map(fresh@).map_values(|v: String| v@) =~= metar_map_from(
                        line_views.take(0),
                    ));
                }
                while i < n
                    invariant
                        n == lines@.len(),
                        i <= n,
                        line_views == split_lines(text@),
                        lines@.len() == line_views.len(),
                        forall|j: int| 0 <= j < n ==> lines@[j]@ == line_views[j],
                        kv_unique(fresh@),
                        kv_map(fresh@).map_values(|v: String| v@) == metar_map_from(
                            line_views.take(i as int),
                        ),
                    decreases n - i,
                {
                    proof {
                        assert(line_views.take(i + 1).drop_last() =~= line_views.take(i as int));
                        assert(line_views.take(i + 1).last() == line_views[i as int]);
                    }
                    let ghost before: Seq<(String, String)> = fresh@;
                    match station_token(lines[i].as_str()) {
                        Some(tok) => {
                            let line = lines[i].clone();
                            proof {
                                assert(tok@ == station_of(line_views[i as int]));
                                assert(line@ == line_views[i as int]);
                            }
                            kv_insert(&mut fresh, tok, line);
                            proof {
                                assert(kv_map(fresh@).map_values(|v: String| v@) =~= metar_map_from(
                                    line_views.take(i + 1),
                                ));
                            }
                        },
                        None => {},
                    }
                    i = i + 1;
                }
                proof {
                    assert(line_views.take(n as int) =~= line_views);
                }
                self.entries = fresh;
                self.last_update_successful = true;
                true
            },
        }
    }

    /// Resolves a manual weather lookup to the notification the user
    /// interface shows for it.
    pub fn try_lookup_metar(&self, station_id: String) -> (r: Message)
        ensures
            self.map_view().dom().contains(station_id@) ==> (r matches Message::MetarRetrieved(
                line,
            ) && line@ == self.map_view()[station_id@]),
            !self.map_view().dom().contains(station_id@) ==> r == Message::MetarNotFound,
    {
        match self.lookup_metar(station_id.as_str()) {
            Some(line) => Message::MetarRetrieved(line),
            None => Message::MetarNotFound,
        }
    }
}

} // verus!
