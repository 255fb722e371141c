//! The reconciliation worker's decisions: when each refresh fires, and
//! what a simulator aircraft — foreign or own — turns into on the wire.
//! The surrounding application runs the once-a-second loop, performs the
//! fetches and simulator polls, and hands the results to these functions;
//! every decision they make is verified.

use vstd::prelude::*;
use vstd::string::StringExecFns;

use crate::codec::{flight_plan_message_line, fmt_flight_plan_message, fmt_pilot_deregister,
    pilot_deregister_line, wire_plan_of};
use crate::metar::{metar_map_of, MetarProvider};
use crate::prefs::Preferences;
use crate::text::parse_u16_spec;
use crate::ui::Message;
use crate::vatsim::{merge_all, taken_record, Details, VatsimAircraft, VatsimDataProvider};

verus! {

/// When the weather refresh fires: fetching is enabled, and either the
/// last refresh failed — failure overrides the cadence — or the iteration
/// is on the 120-cycle cadence.
pub open spec fn weather_refresh_due_spec(fetch: bool, last_ok: bool, i: nat) -> bool {
    fetch && (!last_ok || i % 120 == 0)
}

/// When the network refresh fires: as the weather refresh, on a 15-cycle
/// cadence.
pub open spec fn network_refresh_due_spec(fetch: bool, last_ok: bool, i: nat) -> bool {
    fetch && (!last_ok || i % 15 == 0)
}

/// When aircraft processing fires: every fourth iteration, regardless of
/// the refreshes.
pub open spec fn aircraft_refresh_due_spec(i: nat) -> bool {
    i % 4 == 0
}

pub fn weather_refresh_due(fetch_metars: bool, last_ok: bool, i: u64) -> (r: bool)
    ensures
        r == weather_refresh_due_spec(fetch_metars, last_ok, i as nat),
{
    fetch_metars && (!last_ok || i % 120 == 0)
}

pub fn network_refresh_due(fetch_flight_plans: bool, last_ok: bool, i: u64) -> (r: bool)
    ensures
        r == network_refresh_due_spec(fetch_flight_plans, last_ok, i as nat),
{
    fetch_flight_plans && (!last_ok || i % 15 == 0)
}

pub fn aircraft_refresh_due(i: u64) -> (r: bool)
    ensures
        r == aircraft_refresh_due_spec(i as nat),
{
    i % 4 == 0
}

/// After a failed refresh, both refreshes fire on every iteration,
/// whatever the iteration count: failure overrides the cadence.
pub proof fn lemma_failed_refresh_fires_every_iteration(i: nat)
    ensures
        weather_refresh_due_spec(true, false, i),
        network_refresh_due_spec(true, false, i),
{
}

/// After a successful refresh, the weather refresh fires exactly on the
/// 120-cycle cadence and the network refresh exactly on the 15-cycle
/// cadence.
pub proof fn lemma_successful_refresh_follows_cadence(i: nat)
    ensures
        weather_refresh_due_spec(true, true, i) <==> i % 120 == 0,
        network_refresh_due_spec(true, true, i) <==> i % 15 == 0,
{
}

/// One weather refresh: replace the store on success, keep it on
/// failure, and report which to the user interface.
pub fn weather_refresh_step(metar: &mut MetarProvider, fetched: Option<String>) -> (m: Message)
    ensures
        fetched matches Some(text) ==> m == Message::MetarsRetrieved && final(metar).map_view()
            == metar_map_of(text@) && final(metar).last_ok(),
        fetched is None ==> m == Message::MetarsDisconnected
            && final(metar).map_view() == old(metar).map_view()
            && !final(metar).last_ok(),
{
    if metar.update(fetched) {
        Message::MetarsRetrieved
    } else {
        Message::MetarsDisconnected
    }
}

/// One network refresh: merge the fetched records on success, keep the
/// store on failure, and report which to the user interface.
pub fn network_refresh_step(vatsim: &mut VatsimDataProvider, fetched: Option<Vec<Details>>) -> (m:
    Message)
    requires
        old(vatsim).wf(),
    ensures
        final(vatsim).wf(),
        fetched matches Some(recs) ==> m == Message::VatsimDataRetrieved
            && final(vatsim).map_view() == merge_all(old(vatsim).map_view(), recs@)
            && final(vatsim).last_ok(),
        fetched is None ==> m == Message::VatsimDataDisconnected && final(vatsim).map_view()
            == old(vatsim).map_view() && !final(vatsim).last_ok(),
{
    if vatsim.update(fetched) {
        Message::VatsimDataRetrieved
    } else {
        Message::VatsimDataDisconnected
    }
}

/// A foreign aircraft as the simulator reports it.  Coordinates are in
/// microdegrees, altitude in feet, the raw heading in the simulator's
/// 16-bit unit.
pub struct TrafficAircraft {
    pub callsign: String,
    pub lat_micro: i64,
    pub lon_micro: i64,
    pub alt_ft: i64,
    pub groundspeed: u32,
    pub heading_raw: u32,
}

/// Own-aircraft telemetry.  The heading is in hundredths of a degree and
/// the local QNH in hundredths of an inch of mercury.
pub struct OwnAircraftData {
    pub lat_micro: i64,
    pub lon_micro: i64,
    pub pressure_alt_ft: i64,
    pub local_qnh_centi_i_hg: i32,
    pub true_heading_centideg: i64,
    pub groundspeed: u32,
}

/// A position update ready for the wire, all fields decided.
pub struct PositionReport {
    pub callsign: String,
    pub squawk: u16,
    pub lat_micro: i64,
    pub lon_micro: i64,
    pub true_alt_ft: i64,
    pub pressure_alt_ft: i64,
    pub groundspeed: u32,
    pub heading_centideg: i64,
    pub on_ground: bool,
}

/// One outbound product of an aircraft step: a position update still to
/// be formatted by the shell, or a protocol line already formatted.
pub enum OutboundItem {
    Position(PositionReport),
    Line(String),
}

/// The altimeter offset in feet a QNH yields: ten feet per hundredth of
/// an inch of mercury above or below the standard 29.92.
pub open spec fn qnh_offset_spec(qnh_centi: int) -> int {
    (qnh_centi - 2992) * 10
}

pub fn qnh_offset_feet(qnh_centi_i_hg: i32) -> (r: i64)
    ensures
        r == qnh_offset_spec(qnh_centi_i_hg as int),
{
    (qnh_centi_i_hg as i64 - 2992) * 10
}

/// The heading in hundredths of a degree that a raw 16-bit simulator
/// heading yields: the whole degrees, floored.
pub open spec fn heading_cdeg_spec(raw: u32) -> int {
    (raw * 360 / 65536) * 100
}

pub fn heading_centideg(raw: u32) -> (r: i64)
    ensures
        r == heading_cdeg_spec(raw),
{
    ((raw as u64 * 360 / 65536) * 100) as i64
}

/// Whether each decimal digit of a transponder code is an octal digit.
pub open spec fn valid_squawk(code: u16) -> bool {
    code / 1000 <= 7 && (code / 100) % 10 <= 7 && (code / 10) % 10 <= 7 && code % 10 <= 7
}

/// The squawk a stored transponder field yields: the field read as a
/// number, kept when it is a valid code; an unreadable field or an
/// invalid code yields the default 2000.
pub open spec fn squawk_spec(s: Seq<char>) -> u16 {
    match parse_u16_spec(s) {
        Some(code) => if valid_squawk(code) {
            code
        } else {
            2000
        },
        None => 2000,
    }
}

pub fn squawk_from(transponder: &str) -> (r: u16)
    ensures
        r == squawk_spec(transponder@),
{
    match crate::text::parse_u16(transponder) {
        Some(code) => {
            if code / 1000 <= 7 && (code / 100) % 10 <= 7 && (code / 10) % 10 <= 7 && code % 10
                <= 7 {
                code
            } else {
                2000
            }
        },
        None => 2000,
    }
}

/// The callsign the bridge flies under: the client's captured callsign
/// when syncing is enabled and one is captured, else the manually
/// configured one, else the placeholder "ME".
pub open spec fn effective_callsign_spec(prefs: Preferences) -> Seq<char> {
    if prefs.use_es_callsign && prefs.es_callsign@.len() > 0 {
        prefs.es_callsign@
    } else if prefs.own_callsign@.len() > 0 {
        prefs.own_callsign@
    } else {
        "ME"@
    }
}

pub fn effective_callsign(prefs: &Preferences) -> (r: String)
    ensures
        r@ == effective_callsign_spec(*prefs),
{
    let synced = if prefs.use_es_callsign() {
        prefs.es_callsign()
    } else {
        None
    };
    match synced {
        Some(cs) => cs,
        None => {
            match prefs.own_callsign() {
                Some(cs) => cs,
                None => String::from_str("ME"),
            }
        },
    }
}

/// What one foreign aircraft yields.  With network fetching on and a
/// record held for the callsign, the record's snapshot and pending plan
/// are taken (marking the plan sent): the position update carries the
/// record's squawk and the QNH-adjusted pressure altitude, and a pending
/// plan follows it as a broadcast line.  Without a record, the aircraft
/// is skipped entirely when only network aircraft are to be shown, and
/// otherwise yields a default position update.
pub fn process_foreign_aircraft(
    prefs: &Preferences,
    vatsim: &mut VatsimDataProvider,
    tcas: &TrafficAircraft,
) -> (r: Vec<OutboundItem>)
    requires
        old(vatsim).wf(),
        -0x100_0000_0000 <= tcas.alt_ft <= 0x100_0000_0000,
    ensures
        final(vatsim).wf(),
        final(vatsim).last_ok() == old(vatsim).last_ok(),
        (if prefs.fetch_flight_plans && old(vatsim).map_view().dom().contains(tcas.callsign@) {
            final(vatsim).map_view() == old(vatsim).map_view().insert(
                tcas.callsign@,
                taken_record(old(vatsim).map_view()[tcas.callsign@]),
            )
        } else {
            final(vatsim).map_view() == old(vatsim).map_view()
        }),
        (if prefs.fetch_flight_plans && old(vatsim).map_view().dom().contains(tcas.callsign@) {
            let rec = old(vatsim).map_view()[tcas.callsign@];
            &&& r@.len() == 1 + (if rec.unsent_flight_plan is Some {
                1int
            } else {
                0int
            })
            &&& (r@[0] matches OutboundItem::Position(pos) && pos == (PositionReport {
                callsign: tcas.callsign,
                squawk: squawk_spec(rec.details.transponder@),
                lat_micro: tcas.lat_micro,
                lon_micro: tcas.lon_micro,
                true_alt_ft: tcas.alt_ft,
                pressure_alt_ft: (tcas.alt_ft - qnh_offset_spec(
                    rec.details.qnh_centi_i_hg as int,
                )) as i64,
                groundspeed: tcas.groundspeed,
                heading_centideg: heading_cdeg_spec(tcas.heading_raw) as i64,
                on_ground: false,
            }))
            &&& (rec.unsent_flight_plan matches Some(fp) ==> (r@[1] matches OutboundItem::Line(l)
                && l@ == flight_plan_message_line("A*"@, tcas.callsign@, wire_plan_of(fp))))
        } else if prefs.only_show_vatsim {
            r@.len() == 0
        } else {
            r@.len() == 1 && (r@[0] matches OutboundItem::Position(pos) && pos == (PositionReport {
                callsign: tcas.callsign,
                squawk: 2000,
                lat_micro: tcas.lat_micro,
                lon_micro: tcas.lon_micro,
                true_alt_ft: tcas.alt_ft,
                pressure_alt_ft: tcas.alt_ft,
                groundspeed: tcas.groundspeed,
                heading_centideg: heading_cdeg_spec(tcas.heading_raw) as i64,
                on_ground: false,
            }))
        }),
{
    let mut out: Vec<OutboundItem> = Vec::new();
    let vatsim_details = if prefs.fetch_flight_plans() {
        vatsim.get_details_and_flight_plan_to_send(tcas.callsign.as_str())
    } else {
        None
    };
    match vatsim_details {
        None => {
            if !prefs.only_show_vatsim() {
                out.push(OutboundItem::Position(PositionReport {
                    callsign: tcas.callsign.clone(),
                    squawk: 2000,
                    lat_micro: tcas.lat_micro,
                    lon_micro: tcas.lon_micro,
                    true_alt_ft: tcas.alt_ft,
                    pressure_alt_ft: tcas.alt_ft,
                    groundspeed: tcas.groundspeed,
                    heading_centideg: heading_centideg(tcas.heading_raw),
                    on_ground: false,
                }));
            }
        },
        Some((details, flight_plan)) => {
            let offset = qnh_offset_feet(details.qnh_centi_i_hg);
            out.push(OutboundItem::Position(PositionReport {
                callsign: tcas.callsign.clone(),
                squawk: squawk_from(details.transponder.as_str()),
                lat_micro: tcas.lat_micro,
                lon_micro: tcas.lon_micro,
                true_alt_ft: tcas.alt_ft,
                pressure_alt_ft: tcas.alt_ft - offset,
                groundspeed: tcas.groundspeed,
                heading_centideg: heading_centideg(tcas.heading_raw),
                on_ground: false,
            }));
            match flight_plan {
                Some(plan) => {
                    let wire = plan.to_wire();
                    let line = fmt_flight_plan_message("A*", tcas.callsign.as_str(), wire);
                    out.push(OutboundItem::Line(line));
                },
                None => {},
            }
        },
    }
    out
}

/// What the own aircraft yields.  The effective callsign is resolved
/// first; when it differs from the callsign last flown under, exactly one
/// deregistration for the old callsign precedes everything else.  Then a
/// position update under the new callsign, carrying the QNH-derived true
/// altitude, and — when a record with a pending plan was taken — a
/// flight-plan broadcast after it.
pub fn process_own_aircraft(
    prefs: &Preferences,
    vatsim: &mut VatsimDataProvider,
    own: &OwnAircraftData,
    last_callsign_sent: &mut String,
) -> (r: Vec<OutboundItem>)
    requires
        old(vatsim).wf(),
        -0x100_0000_0000 <= own.pressure_alt_ft <= 0x100_0000_0000,
    ensures
        final(vatsim).wf(),
        final(vatsim).last_ok() == old(vatsim).last_ok(),
        final(last_callsign_sent)@ == effective_callsign_spec(*prefs),
        ({
            let cs = effective_callsign_spec(*prefs);
            if prefs.fetch_flight_plans && old(vatsim).map_view().dom().contains(cs) {
                final(vatsim).map_view() == old(vatsim).map_view().insert(
                    cs,
                    taken_record(old(vatsim).map_view()[cs]),
                )
            } else {
                final(vatsim).map_view() == old(vatsim).map_view()
            }
        }),
        ({
            let cs = effective_callsign_spec(*prefs);
            let d: int = if old(last_callsign_sent)@.len() > 0 && old(last_callsign_sent)@ != cs {
                1
            } else {
                0
            };
            let rec_opt = if prefs.fetch_flight_plans && old(vatsim).map_view().dom().contains(
                cs,
            ) {
                Some(old(vatsim).map_view()[cs])
            } else {
                None::<VatsimAircraft>
            };
            let p: int = match rec_opt {
                Some(rec) => if rec.unsent_flight_plan is Some {
                    1
                } else {
                    0
                },
                None => 0,
            };
            &&& r@.len() == d + 1 + p
            &&& (d == 1 ==> (r@[0] matches OutboundItem::Line(l) && l@ == pilot_deregister_line(
                old(last_callsign_sent)@,
                "1000000"@,
            )))
            &&& (r@[d] matches OutboundItem::Position(pos) && pos.callsign@ == cs && pos.squawk
                == (match rec_opt {
                Some(rec) => squawk_spec(rec.details.transponder@),
                None => 2000u16,
            }) && pos.lat_micro == own.lat_micro && pos.lon_micro == own.lon_micro
                && pos.pressure_alt_ft == own.pressure_alt_ft && pos.true_alt_ft
                == own.pressure_alt_ft + qnh_offset_spec(own.local_qnh_centi_i_hg as int)
                && pos.groundspeed == own.groundspeed && pos.heading_centideg
                == own.true_heading_centideg && !pos.on_ground)
            &&& (p == 1 ==> (r@[d + 1] matches OutboundItem::Line(l) && (rec_opt matches Some(rec)
                && rec.unsent_flight_plan matches Some(fp) && l@ == flight_plan_message_line(
                "A*"@,
                cs,
                wire_plan_of(fp),
            ))))
        }),
{
    let my_callsign = effective_callsign(prefs);
    let mut out: Vec<OutboundItem> = Vec::new();
    if !last_callsign_sent.as_str().is_empty() && !(*last_callsign_sent == my_callsign) {
        let line = fmt_pilot_deregister(last_callsign_sent.as_str(), "1000000");
        out.push(OutboundItem::Line(line));
    }
    *last_callsign_sent = my_callsign.clone();
    let vatsim_details = if prefs.fetch_flight_plans() {
        vatsim.get_details_and_flight_plan_to_send(my_callsign.as_str())
    } else {
        None
    };
    let offset = qnh_offset_feet(own.local_qnh_centi_i_hg);
    let true_alt: i64 = own.pressure_alt_ft + offset;
    match vatsim_details {
        None => {
            out.push(OutboundItem::Position(PositionReport {
                callsign: my_callsign,
                squawk: 2000,
                lat_micro: own.lat_micro,
                lon_micro: own.lon_micro,
                true_alt_ft: true_alt,
                pressure_alt_ft: own.pressure_alt_ft,
                groundspeed: own.groundspeed,
                heading_centideg: own.true_heading_centideg,
                on_ground: false,
            }));
        },
        Some((details, flight_plan)) => {
            out.push(OutboundItem::Position(PositionReport {
                callsign: my_callsign.clone(),
                squawk: squawk_from(details.transponder.as_str()),
                lat_micro: own.lat_micro,
                lon_micro: own.lon_micro,
                true_alt_ft: true_alt,
                pressure_alt_ft: own.pressure_alt_ft,
                groundspeed: own.groundspeed,
                heading_centideg: own.true_heading_centideg,
                on_ground: false,
            }));
            match flight_plan {
                Some(plan) => {
                    let wire = plan.to_wire();
                    let line = fmt_flight_plan_message("A*", my_callsign.as_str(), wire);
                    out.push(OutboundItem::Line(line));
                },
                None => {},
            }
        },
    }
    out
}

} // verus!
