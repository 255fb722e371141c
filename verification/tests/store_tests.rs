use traffic_viewer::metar::MetarProvider;
use traffic_viewer::prefs::Preferences;
use traffic_viewer::ui::Message;
use traffic_viewer::vatsim::{Details, FlightPlan, FlightRules, VatsimDataProvider};

fn plan(revision_id: usize) -> FlightPlan {
    FlightPlan::new(
        FlightRules::IFR,
        String::from("B738"),
        String::from("EGLL"),
        String::from("EGCC"),
        String::from("EGGP"),
        String::from("430"),
        String::from("FL350"),
        String::from("0230"),
        String::from("0100"),
        String::from("0300"),
        String::from("RMK"),
        String::from("DCT WAL DCT"),
        revision_id,
        String::from("4701"),
    )
}

fn details(callsign: &str, fp: Option<FlightPlan>) -> Details {
    Details {
        cid: 1234567,
        name: String::from("Jane Doe"),
        callsign: String::from(callsign),
        transponder: String::from("4701"),
        altitude: 35000,
        heading: 90,
        qnh_centi_i_hg: 2992,
        flight_plan: fp,
    }
}

#[test]
fn metar_ingest_and_lookup_exact_line() {
    let mut m = MetarProvider::new();
    assert!(!m.last_update_successful());
    let ok = m.update(Some(String::from(
        "EGLL 251150Z 24015KT 9999 FEW035 17/09 Q1019\r\nEGKK 251150Z 25012KT 9999 SCT040 16/08 Q1020\n",
    )));
    assert!(ok);
    assert!(m.last_update_successful());
    assert_eq!(
        m.lookup_metar("EGLL"),
        Some(String::from("EGLL 251150Z 24015KT 9999 FEW035 17/09 Q1019"))
    );
    assert_eq!(
        m.lookup_metar("EGKK"),
        Some(String::from("EGKK 251150Z 25012KT 9999 SCT040 16/08 Q1020"))
    );
    assert_eq!(m.lookup_metar("ZZZZ"), None);
}

#[test]
fn metar_short_station_and_blank_lines_skipped() {
    let mut m = MetarProvider::new();
    m.update(Some(String::from("EGL 251150Z\n\n   \nEGSS 251150Z CAVOK\n")));
    assert_eq!(m.lookup_metar("EGL"), None);
    assert_eq!(m.lookup_metar("EGSS"), Some(String::from("EGSS 251150Z CAVOK")));
}

#[test]
fn metar_empty_feed_clears_store() {
    let mut m = MetarProvider::new();
    m.update(Some(String::from("EGLL 251150Z Q1019")));
    let ok = m.update(Some(String::new()));
    assert!(ok);
    assert!(m.last_update_successful());
    assert_eq!(m.lookup_metar("EGLL"), None);
}

#[test]
fn metar_later_line_overrides_earlier() {
    let mut m = MetarProvider::new();
    m.update(Some(String::from("EGLL OLD LINE\nEGLL NEW LINE")));
    assert_eq!(m.lookup_metar("EGLL"), Some(String::from("EGLL NEW LINE")));
}

#[test]
fn metar_failed_update_keeps_store() {
    let mut m = MetarProvider::new();
    m.update(Some(String::from("EGLL 251150Z Q1019")));
    let ok = m.update(None);
    assert!(!ok);
    assert!(!m.last_update_successful());
    assert_eq!(m.lookup_metar("EGLL"), Some(String::from("EGLL 251150Z Q1019")));
}

#[test]
fn metar_leading_whitespace_token() {
    let mut m = MetarProvider::new();
    m.update(Some(String::from("   EGPH 251150Z Q1001")));
    assert_eq!(m.lookup_metar("EGPH"), Some(String::from("   EGPH 251150Z Q1001")));
}

#[test]
fn try_lookup_metar_messages() {
    let mut m = MetarProvider::new();
    m.update(Some(String::from("EGLL 251150Z Q1019")));
    assert_eq!(
        m.try_lookup_metar(String::from("EGLL")),
        Message::MetarRetrieved(String::from("EGLL 251150Z Q1019"))
    );
    assert_eq!(m.try_lookup_metar(String::from("ZZZZ")), Message::MetarNotFound);
}

#[test]
fn pending_flight_plan_taken_at_most_once() {
    let mut v = VatsimDataProvider::new();
    v.update(Some(vec![details("BAW123", Some(plan(5)))]));
    let (d, fp) = v.get_details_and_flight_plan_to_send("BAW123").unwrap();
    assert_eq!(d.callsign, "BAW123");
    assert_eq!(fp.map(|p| p.revision_id), Some(5));
    // the take cleared the pending plan: a second take hands out nothing
    let (_, fp2) = v.get_details_and_flight_plan_to_send("BAW123").unwrap();
    assert!(fp2.is_none());
}

#[test]
fn same_revision_not_resent_after_take() {
    let mut v = VatsimDataProvider::new();
    v.update(Some(vec![details("BAW123", Some(plan(5)))]));
    let (_, fp) = v.get_details_and_flight_plan_to_send("BAW123").unwrap();
    assert_eq!(fp.map(|p| p.revision_id), Some(5));
    // the same filing seen again is held back
    v.update(Some(vec![details("BAW123", Some(plan(5)))]));
    let (_, fp2) = v.get_details_and_flight_plan_to_send("BAW123").unwrap();
    assert!(fp2.is_none());
}

#[test]
fn revision_gate_forwards_numerically_smaller_revision() {
    // a plan numbered below the one last handed out goes through
    let mut v = VatsimDataProvider::new();
    v.update(Some(vec![details("BAW123", Some(plan(5)))]));
    let _ = v.get_details_and_flight_plan_to_send("BAW123").unwrap();
    v.update(Some(vec![details("BAW123", Some(plan(4)))]));
    let (_, fp) = v.get_details_and_flight_plan_to_send("BAW123").unwrap();
    assert_eq!(fp.map(|p| p.revision_id), Some(4));
    // and holds back a numerically greater one
    v.update(Some(vec![details("BAW123", Some(plan(6)))]));
    let (_, fp2) = v.get_details_and_flight_plan_to_send("BAW123").unwrap();
    assert!(fp2.is_none());
}

#[test]
fn fresh_record_moves_plan_to_pending() {
    let mut v = VatsimDataProvider::new();
    v.update(Some(vec![details("BAW123", Some(plan(5)))]));
    // the stored snapshot no longer carries the plan: it is pending only
    let d = v.get_aircraft_details("BAW123").unwrap();
    assert!(d.flight_plan.is_none());
    assert_eq!(d.name, "Jane Doe");
    assert!(v.get_aircraft_details("EZY456").is_none());
}

#[test]
fn merged_record_keeps_plan_in_snapshot() {
    let mut v = VatsimDataProvider::new();
    v.update(Some(vec![details("BAW123", None)]));
    v.update(Some(vec![details("BAW123", Some(plan(7)))]));
    let d = v.get_aircraft_details("BAW123").unwrap();
    assert_eq!(d.flight_plan.map(|p| p.revision_id), Some(7));
}

#[test]
fn failed_network_update_keeps_store() {
    let mut v = VatsimDataProvider::new();
    v.update(Some(vec![details("BAW123", None)]));
    assert!(v.last_update_successful());
    let ok = v.update(None);
    assert!(!ok);
    assert!(!v.last_update_successful());
    assert!(v.get_aircraft_details("BAW123").is_some());
}

#[test]
fn flight_plan_field_accessors() {
    let p = plan(1);
    assert_eq!(p.altitude(), 35000);
    assert_eq!(p.departure_time(), (2, 0));
    assert_eq!(p.enroute_time(), (1, 0));
    assert_eq!(p.fuel_time(), (3, 0));
}

#[test]
fn flight_plan_altitude_forms() {
    let mut p = plan(1);
    p.altitude = String::from("25000");
    assert_eq!(p.altitude(), 25000);
    p.altitude = String::from("FL090");
    assert_eq!(p.altitude(), 9000);
    p.altitude = String::from("FL");
    assert_eq!(p.altitude(), 0);
    p.altitude = String::from("abc");
    assert_eq!(p.altitude(), 0);
    p.altitude = String::from("FL12X");
    assert_eq!(p.altitude(), 0);
    p.altitude = String::from("-200");
    assert_eq!(p.altitude(), -200);
}

#[test]
fn preferences_roundtrip() {
    let mut p = Preferences::new(false, true, true, false);
    assert_eq!(p.own_callsign(), None);
    assert_eq!(p.es_callsign(), None);
    assert!(!p.use_es_callsign());
    assert!(p.fetch_metars());
    assert!(p.fetch_flight_plans());
    assert!(!p.only_show_vatsim());
    p.set_own_callsign(String::from("EGLL_TWR"));
    assert_eq!(p.own_callsign(), Some(String::from("EGLL_TWR")));
    p.set_es_callsign(String::from("EGKK_APP"));
    assert_eq!(p.es_callsign(), Some(String::from("EGKK_APP")));
    p.set_use_es_callsign(true);
    assert!(p.use_es_callsign());
    p.set_fetch_metars(false);
    assert!(!p.fetch_metars());
    p.set_fetch_flight_plans(false);
    assert!(!p.fetch_flight_plans());
    p.set_only_show_vatsim(true);
    assert!(p.only_show_vatsim());
    p.set_own_callsign(String::new());
    assert_eq!(p.own_callsign(), None);
}
