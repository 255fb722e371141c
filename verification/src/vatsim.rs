//! The network traffic store: one record per callsign, holding the latest
//! identity snapshot and the flight-plan send-once bookkeeping.
//!
//! A record remembers the revision id of the last flight plan handed to the
//! dispatcher.  On a merge, a newly seen plan becomes pending to send only
//! when no revision was sent yet, or when the sent revision is numerically
//! greater than the new one — the comparison the refresh feed relies on;
//! taking the pending plan clears it and records its revision as sent.

use vstd::prelude::*;
use vstd::string::StrSliceExecFns;

use crate::kvlist::{kv_find, kv_insert, kv_map, kv_unique, lemma_kv_map_update};
use crate::text::{parse_i32, parse_i32_spec, parse_u8, parse_u8_spec};

verus! {

/// Flight rules of a filed plan.
#[derive(Debug, Clone, Copy)]
pub enum FlightRules {
    DVFR,
    VFR,
    SVFR,
    IFR,
}

/// A filed flight plan as the network snapshot carries it.  The altitude
/// and time fields stay raw text; the accessors below read them.
pub struct FlightPlan {
    pub flight_rules: FlightRules,
    pub aircraft_type: String,
    pub departure_icao: String,
    pub arrival_icao: String,
    pub alternate_icao: String,
    pub cruise_tas: String,
    pub altitude: String,
    pub departure_time: String,
    pub enroute_time: String,
    pub fuel_time: String,
    pub remarks: String,
    pub route: String,
    pub revision_id: usize,
    pub assigned_transponder: String,
}

impl Clone for FlightPlan {
    fn clone(&self) -> (r: Self)
        ensures
            r == *self,
    {
        FlightPlan {
            flight_rules: self.flight_rules,
            aircraft_type: self.aircraft_type.clone(),
            departure_icao: self.departure_icao.clone(),
            arrival_icao: self.arrival_icao.clone(),
            alternate_icao: self.alternate_icao.clone(),
            cruise_tas: self.cruise_tas.clone(),
            altitude: self.altitude.clone(),
            departure_time: self.departure_time.clone(),
            enroute_time: self.enroute_time.clone(),
            fuel_time: self.fuel_time.clone(),
            remarks: self.remarks.clone(),
            route: self.route.clone(),
            revision_id: self.revision_id,
            assigned_transponder: self.assigned_transponder.clone(),
        }
    }
}

/// The filed cruise level in feet: a bare number stands for itself, and a
/// number after "FL" stands for its hundredfold.  Unreadable text, and a
/// flight level whose hundredfold leaves the `i32` range, count as zero.
pub open spec fn altitude_spec(alt: Seq<char>) -> int {
    match parse_i32_spec(alt) {
        Some(v) => v as int,
        None => {
            if alt.len() > 2 && alt[0] == 'F' && alt[1] == 'L' {
                match parse_i32_spec(alt.skip(2)) {
                    Some(a) => if -21474836 <= a <= 21474836 {
                        a * 100
                    } else {
                        0
                    },
                    None => 0,
                }
            } else {
                0
            }
        },
    }
}

/// The hours part of a four-digit time field: its first two characters
/// read as a number, or zero.  The minutes part of such a field is always
/// reported as zero.
pub open spec fn two_digit_hours(s: Seq<char>) -> u8 {
    if s.len() >= 2 {
        match parse_u8_spec(s.take(2)) {
            Some(h) => h,
            None => 0,
        }
    } else {
        0
    }
}

impl FlightPlan {
    /// Builds a plan from its parts.
    pub fn new(
        flight_rules: FlightRules,
        aircraft_type: String,
        departure_icao: String,
        arrival_icao: String,
        alternate_icao: String,
        cruise_tas: String,
        altitude: String,
        departure_time: String,
        enroute_time: String,
        fuel_time: String,
        remarks: String,
        route: String,
        revision_id: usize,
        assigned_transponder: String,
    ) -> (r: FlightPlan)
        ensures
            r == (FlightPlan {
                flight_rules,
                aircraft_type,
                departure_icao,
                arrival_icao,
                alternate_icao,
                cruise_tas,
                altitude,
                departure_time,
                enroute_time,
                fuel_time,
                remarks,
                route,
                revision_id,
                assigned_transponder,
            }),
    {
        FlightPlan {
            flight_rules,
            aircraft_type,
            departure_icao,
            arrival_icao,
            alternate_icao,
            cruise_tas,
            altitude,
            departure_time,
            enroute_time,
            fuel_time,
            remarks,
            route,
            revision_id,
            assigned_transponder,
        }
    }

    /// The filed cruise level in feet.
    pub fn altitude(&self) -> (r: i32)
        ensures
            r == altitude_spec(self.altitude@),
    {
        match parse_i32(self.altitude.as_str()) {
            Some(v) => v,
            None => {
                let n: usize = self.altitude.as_str().unicode_len();
                if n > 2 && self.altitude.as_str().get_char(0) == 'F' && self.altitude.as_str()
                    .get_char(1) == 'L' {
                    proof {
                        assert(self.altitude@.skip(2) =~= self.altitude@.subrange(2, n as int));
                    }
                    match parse_i32(self.altitude.as_str().substring_char(2, n)) {
                        Some(a) => {
                            if -21474836 <= a && a <= 21474836 {
                                a * 100
                            } else {
                                0
                            }
                        },
                        None => 0,
                    }
                } else {
                    0
                }
            },
        }
    }

    /// Estimated departure time as (hours, minutes); the minutes part is
    /// always zero.
    pub fn departure_time(&self) -> (r: (u8, u8))
        ensures
            r.0 == two_digit_hours(self.departure_time@),
            r.1 == 0,
    {
        (hours_of(self.departure_time.as_str()), 0)
    }

    /// Enroute time as (hours, minutes); the minutes part is always zero.
    pub fn enroute_time(&self) -> (r: (u8, u8))
        ensures
            r.0 == two_digit_hours(self.enroute_time@),
            r.1 == 0,
    {
        (hours_of(self.enroute_time.as_str()), 0)
    }

    /// Fuel endurance as (hours, minutes); the minutes part is always
    /// zero.
    pub fn fuel_time(&self) -> (r: (u8, u8))
        ensures
            r.0 == two_digit_hours(self.fuel_time@),
            r.1 == 0,
    {
        (hours_of(self.fuel_time.as_str()), 0)
    }
}

/// Reads the hours part of a four-digit time field.
fn hours_of(s: &str) -> (r: u8)
    ensures
        r == two_digit_hours(s@),
{
    let n: usize = s.unicode_len();
    if n >= 2 {
        proof {
            assert(s@.take(2) =~= s@.subrange(0, 2));
        }
        match parse_u8(s.substring_char(0, 2)) {
            Some(h) => h,
            None => 0,
        }
    } else {
        0
    }
}

/// The identity snapshot of one network pilot.  QNH is carried in
/// hundredths of an inch of mercury, so that the altimeter-offset rule is
/// exact integer arithmetic.
pub struct Details {
    pub cid: i32,
    pub name: String,
    pub callsign: String,
    pub transponder: String,
    pub altitude: i32,
    pub heading: u32,
    pub qnh_centi_i_hg: i32,
    pub flight_plan: Option<FlightPlan>,
}

impl Clone for Details {
    fn clone(&self) -> (r: Self)
        ensures
            r == *self,
    {
        Details {
            cid: self.cid,
            name: self.name.clone(),
            callsign: self.callsign.clone(),
            transponder: self.transponder.clone(),
            altitude: self.altitude,
            heading: self.heading,
            qnh_centi_i_hg: self.qnh_centi_i_hg,
            flight_plan: match &self.flight_plan {
                Some(fp) => Some(fp.clone()),
                None => None,
            },
        }
    }
}

/// One stored record: the latest snapshot, the plan pending to send, and
/// the revision last handed out.
pub struct VatsimAircraft {
    pub last_sent_flight_plan_revision_id: Option<usize>,
    pub unsent_flight_plan: Option<FlightPlan>,
    pub details: Details,
}

/// A record first seen: any attached plan becomes pending to send, and
/// moves out of the stored snapshot.
pub open spec fn fresh_record(details: Details) -> VatsimAircraft {
    VatsimAircraft {
        last_sent_flight_plan_revision_id: None,
        unsent_flight_plan: details.flight_plan,
        details: Details { flight_plan: None, ..details },
    }
}

/// A record merged with a newer snapshot: the snapshot is replaced
/// wholesale, and the pending plan is recomputed by the revision gate —
/// a plan is pending when none was sent yet, or when the sent revision is
/// numerically greater than the new one (in which case the new revision
/// is recorded as sent).
pub open spec fn merged_record(old_rec: VatsimAircraft, new_details: Details) -> VatsimAircraft {
    match new_details.flight_plan {
        None => VatsimAircraft {
            details: new_details,
            unsent_flight_plan: None,
            ..old_rec
        },
        Some(fp) => match old_rec.last_sent_flight_plan_revision_id {
            None => VatsimAircraft {
                details: new_details,
                unsent_flight_plan: Some(fp),
                ..old_rec
            },
            Some(last) => {
                if last > fp.revision_id {
                    VatsimAircraft {
                        details: new_details,
                        unsent_flight_plan: Some(fp),
                        last_sent_flight_plan_revision_id: Some(fp.revision_id),
                    }
                } else {
                    VatsimAircraft {
                        details: new_details,
                        unsent_flight_plan: None,
                        ..old_rec
                    }
                }
            },
        },
    }
}

/// A record after its pending plan is taken: the pending field clears, and
/// the revision last sent becomes that of the plan just taken (or `None`
/// when nothing was pending).
pub open spec fn taken_record(a: VatsimAircraft) -> VatsimAircraft {
    VatsimAircraft {
        unsent_flight_plan: None,
        last_sent_flight_plan_revision_id: match a.unsent_flight_plan {
            Some(fp) => Some(fp.revision_id),
            None => None,
        },
        ..a
    }
}

impl VatsimAircraft {
    /// Builds the record for a callsign seen for the first time.
    pub fn new(details: Details) -> (r: VatsimAircraft)
        ensures
            r == fresh_record(details),
    {
        let mut details = details;
        let unsent_flight_plan = details.flight_plan.take();
        VatsimAircraft { last_sent_flight_plan_revision_id: None, unsent_flight_plan, details }
    }

    /// Merges a newer snapshot into the record.
    pub fn update(&mut self, new_details: Details)
        ensures
            *final(self) == merged_record(*old(self), new_details),
    {
        self.details = new_details;
        let new_unsent_flight_plan = match &self.details.flight_plan {
            Some(new_flight_plan) => {
                match self.last_sent_flight_plan_revision_id {
                    None => Some(new_flight_plan.clone()),
                    Some(last_sent) => {
                        if last_sent > new_flight_plan.revision_id {
                            let fp = new_flight_plan.clone();
                            self.last_sent_flight_plan_revision_id = Some(fp.revision_id);
                            Some(fp)
                        } else {
                            None
                        }
                    },
                }
            },
            None => None,
        };
        self.unsent_flight_plan = new_unsent_flight_plan;
    }

    /// Hands out the snapshot together with the pending plan, if any; the
    /// plan will not be handed out again for this assignment.
    pub fn get_details_and_flight_plan_to_send(&mut self) -> (r: (Details, Option<FlightPlan>))
        ensures
            *final(self) == taken_record(*old(self)),
            r.0 == old(self).details,
            r.1 == old(self).unsent_flight_plan,
    {
        let details = self.details.clone();
        let flight_plan_to_send = self.unsent_flight_plan.take();
        self.last_sent_flight_plan_revision_id = match &flight_plan_to_send {
            Some(fp) => Some(fp.revision_id),
            None => None,
        };
        (details, flight_plan_to_send)
    }

    /// The plan carried by the stored snapshot, if any.
    pub fn get_flight_plan(&self) -> (r: Option<FlightPlan>)
        ensures
            r == self.details.flight_plan,
    {
        match &self.details.flight_plan {
            Some(fp) => Some(fp.clone()),
            None => None,
        }
    }

    /// The stored snapshot.
    pub fn get_details(&self) -> (r: &Details)
        ensures
            r == &self.details,
    {
        &self.details
    }
}

/// Any plan a record knows: the one in the stored snapshot, or — for a
/// record whose plan still awaits its first transmission — the one
/// pending to send.
pub open spec fn known_plan_of(rec: VatsimAircraft) -> Option<FlightPlan> {
    match rec.details.flight_plan {
        Some(fp) => Some(fp),
        None => rec.unsent_flight_plan,
    }
}

/// Taking a pending flight plan clears it: immediately after a take,
/// nothing is pending, so a second take hands out no plan.
pub proof fn lemma_pending_plan_taken_at_most_once(a: VatsimAircraft)
    ensures
        taken_record(a).unsent_flight_plan is None,
{
}

/// A plan whose revision was just handed out is not re-pended by a merge
/// that carries the same revision again (nor by any merge whose plan does
/// not pass the revision gate).
pub proof fn lemma_taken_plan_not_repended(a: VatsimAircraft, d: Details)
    requires
        a.unsent_flight_plan matches Some(fp) && (d.flight_plan matches Some(nfp)
            && nfp.revision_id >= fp.revision_id),
    ensures
        merged_record(taken_record(a), d).unsent_flight_plan is None,
{
}

/// The whole-store merge of one refresh: records are merged in feed
/// order; a known callsign's record is merged, an unknown one inserted
/// fresh.
pub open spec fn merge_one(m: Map<Seq<char>, VatsimAircraft>, d: Details) -> Map<
    Seq<char>,
    VatsimAircraft,
> {
    if m.dom().contains(d.callsign@) {
        m.insert(d.callsign@, merged_record(m[d.callsign@], d))
    } else {
        m.insert(d.callsign@, fresh_record(d))
    }
}

pub open spec fn merge_all(m: Map<Seq<char>, VatsimAircraft>, recs: Seq<Details>) -> Map<
    Seq<char>,
    VatsimAircraft,
>
    decreases recs.len(),
{
    if recs.len() == 0 {
        m
    } else {
        merge_one(merge_all(m, recs.drop_last()), recs.last())
    }
}

/// In-memory network traffic store.
pub struct VatsimDataProvider {
    entries: Vec<(String, VatsimAircraft)>,
    last_update_successful: bool,
}

impl VatsimDataProvider {
    /// Well-formedness: no callsign is held twice.
    pub closed spec fn wf(&self) -> bool {
        kv_unique(self.entries@)
    }

    /// The stored records, callsign to record.
    pub closed spec fn map_view(&self) -> Map<Seq<char>, VatsimAircraft> {
        kv_map(self.entries@)
    }

    /// Whether the most recent refresh succeeded.
    pub closed spec fn last_ok(&self) -> bool {
        self.last_update_successful
    }

    /// An empty store whose first refresh is still outstanding.
    pub fn new() -> (p: VatsimDataProvider)
        ensures
            p.wf(),
            p.map_view() == Map::<Seq<char>, VatsimAircraft>::empty(),
            !p.last_ok(),
    {
        VatsimDataProvider { entries: Vec::new(), last_update_successful: false }
    }

    pub fn last_update_successful(&self) -> (r: bool)
        ensures
            r == self.last_ok(),
    {
        self.last_update_successful
    }

    /// The stored snapshot for a callsign, if one is held.
    pub fn get_aircraft_details(&self, callsign: &str) -> (r: Option<Details>)
        requires
            self.wf(),
        ensures
            match r {
                Some(d) => self.map_view().dom().contains(callsign@) && d
                    == self.map_view()[callsign@].details,
                None => !self.map_view().dom().contains(callsign@),
            },
    {
        match kv_find(&self.entries, callsign) {
            Some(i) => Some(self.entries[i].1.details.clone()),
            None => None,
        }
    }

    /// Any plan the store knows for a callsign: the snapshot's, or the
    /// one pending to send.
    pub fn get_known_flight_plan(&self, callsign: &str) -> (r: Option<FlightPlan>)
        requires
            self.wf(),
        ensures
            match r {
                Some(fp) => self.map_view().dom().contains(callsign@) && Some(fp) == known_plan_of(
                    self.map_view()[callsign@],
                ),
                None => !self.map_view().dom().contains(callsign@) || known_plan_of(
                    self.map_view()[callsign@],
                ) is None,
            },
    {
        match kv_find(&self.entries, callsign) {
            Some(i) => {
                match &self.entries[i].1.details.flight_plan {
                    Some(fp) => Some(fp.clone()),
                    None => {
                        match &self.entries[i].1.unsent_flight_plan {
                            Some(fp) => Some(fp.clone()),
                            None => None,
                        }
                    },
                }
            },
            None => None,
        }
    }

    /// Merges a fetched batch of records into the store, or records the
    /// failed refresh and leaves the store untouched.
    pub fn update(&mut self, fetched: Option<Vec<Details>>) -> (r: bool)
        requires
            old(self).wf(),
        ensures
            final(self).wf(),
            r == (fetched is Some),
            final(self).last_ok() == (fetched is Some),
            fetched matches Some(recs) ==> final(self).map_view() == merge_all(
                old(self).map_view(),
                recs@,
            ),
            fetched is None ==> final(self).map_view() == old(self).map_view(),
    {
        match fetched {
            None => {
                self.last_update_successful = false;
                false
            },
            Some(recs) => {
                let ghost m0: Map<Seq<char>, VatsimAircraft> = kv_map(self.entries@);
                let n: usize = recs.len();
                let mut i: usize = 0;
                proof {
                    assert(merge_all(m0, recs@.take(0)) == m0);
                }
                while i < n
                    invariant
                        n == recs@.len(),
                        i <= n,
                        kv_unique(self.entries@),
                        kv_map(self.entries@) == merge_all(m0, recs@.take(i as int)),
                    decreases n - i,
                {
                    proof {
                        assert(recs@.take(i + 1).drop_last() =~= recs@.take(i as int));
                        assert(recs@.take(i + 1).last() == recs@[i as int]);
                    }
                    let d = recs[i].clone();
                    self.merge_record(d);
                    i = i + 1;
                }
                proof {
                    assert(recs@.take(n as int) =~= recs@);
                }
                self.last_update_successful = true;
                true
            },
        }
    }

    /// Merges one incoming record under its callsign.
    fn merge_record(&mut self, d: Details)
        requires
            kv_unique(old(self).entries@),
        ensures
            kv_unique(final(self).entries@),
            kv_map(final(self).entries@) == merge_one(kv_map(old(self).entries@), d),
            final(self).last_update_successful == old(self).last_update_successful,
    {
        let found = kv_find(&self.entries, d.callsign.as_str());
        match found {
            Some(i) => {
                let ghost old_entries: Seq<(String, VatsimAircraft)> = self.entries@;
                let slot = &mut self.entries[i];
                slot.1.update(d);
                proof {
                    lemma_kv_map_update(
                        old_entries,
                        i as int,
                        old_entries[i as int].0,
                        self.entries@[i as int].1,
                    );
                    assert(self.entries@ =~= old_entries.update(
                        i as int,
                        (old_entries[i as int].0, self.entries@[i as int].1),
                    ));
                }
            },
            None => {
                let callsign = d.callsign.clone();
                let record = VatsimAircraft::new(d);
                kv_insert(&mut self.entries, callsign, record);
            },
        }
    }

    /// Hands out a callsign's snapshot and pending plan, marking the plan
    /// sent, if the callsign is known.
    pub fn get_details_and_flight_plan_to_send(&mut self, callsign: &str) -> (r: Option<
        (Details, Option<FlightPlan>),
    >)
        requires
            old(self).wf(),
        ensures
            final(self).wf(),
            match r {
                Some(pair) => {
                    &&& old(self).map_view().dom().contains(callsign@)
                    &&& pair.0 == old(self).map_view()[callsign@].details
                    &&& pair.1 == old(self).map_view()[callsign@].unsent_flight_plan
                    &&& final(self).map_view() == old(self).map_view().insert(
                        callsign@,
                        taken_record(old(self).map_view()[callsign@]),
                    )
                },
                None => !old(self).map_view().dom().contains(callsign@) && final(self).map_view()
                    == old(self).map_view(),
            },
            final(self).last_ok() == old(self).last_ok(),
    {
        let found = kv_find(&self.entries, callsign);
        match found {
            Some(i) => {
                let ghost old_entries: Seq<(String, VatsimAircraft)> = self.entries@;
                let slot = &mut self.entries[i];
                let pair = slot.1.get_details_and_flight_plan_to_send();
                proof {
                    lemma_kv_map_update(
                        old_entries,
                        i as int,
                        old_entries[i as int].0,
                        self.entries@[i as int].1,
                    );
                    assert(self.entries@ =~= old_entries.update(
                        i as int,
                        (old_entries[i as int].0, self.entries@[i as int].1),
                    ));
                }
                Some(pair)
            },
            None => None,
        }
    }
}

} // verus!
