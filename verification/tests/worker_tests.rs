use traffic_viewer::metar::MetarProvider;
use traffic_viewer::prefs::Preferences;
use traffic_viewer::ui::Message;
use traffic_viewer::vatsim::{Details, FlightPlan, FlightRules, VatsimDataProvider};
use traffic_viewer::worker::{
    aircraft_refresh_due, effective_callsign, heading_centideg, network_refresh_due,
    network_refresh_step, process_foreign_aircraft, process_own_aircraft, qnh_offset_feet,
    squawk_from, weather_refresh_due, weather_refresh_step, OutboundItem, OwnAircraftData,
    TrafficAircraft,
};

fn plan(revision_id: usize) -> FlightPlan {
    FlightPlan::new(
        FlightRules::IFR,
        String::from("B738"),
        String::from("EGLL"),
        String::from("EGCC"),
        String::from("EGGP"),
        String::from("430"),
        String::from("FL350"),
        String::from("0230"),
        String::from("0100"),
        String::from("0300"),
        String::from("RMK"),
        String::from("DCT WAL DCT"),
        revision_id,
        String::from("4701"),
    )
}

fn details(callsign: &str, fp: Option<FlightPlan>) -> Details {
    Details {
        cid: 1234567,
        name: String::from("Jane Doe"),
        callsign: String::from(callsign),
        transponder: String::from("4701"),
        altitude: 35000,
        heading: 90,
        qnh_centi_i_hg: 3012,
        flight_plan: fp,
    }
}

fn tcas(callsign: &str) -> TrafficAircraft {
    TrafficAircraft {
        callsign: String::from(callsign),
        lat_micro: 51_470_000,
        lon_micro: -458_000,
        alt_ft: 2500,
        groundspeed: 140,
        heading_raw: 32768,
    }
}

fn own_data() -> OwnAircraftData {
    OwnAircraftData {
        lat_micro: 51_470_000,
        lon_micro: -458_000,
        pressure_alt_ft: 3000,
        local_qnh_centi_i_hg: 3012,
        true_heading_centideg: 27050,
        groundspeed: 120,
    }
}

#[test]
fn failed_refresh_fires_every_iteration() {
    for i in [0u64, 1, 7, 13, 119, 121] {
        assert!(weather_refresh_due(true, false, i));
        assert!(network_refresh_due(true, false, i));
    }
}

#[test]
fn successful_refresh_follows_cadence() {
    assert!(weather_refresh_due(true, true, 0));
    assert!(weather_refresh_due(true, true, 120));
    assert!(weather_refresh_due(true, true, 240));
    assert!(!weather_refresh_due(true, true, 60));
    assert!(!weather_refresh_due(true, true, 121));
    assert!(network_refresh_due(true, true, 0));
    assert!(network_refresh_due(true, true, 15));
    assert!(network_refresh_due(true, true, 45));
    assert!(!network_refresh_due(true, true, 7));
    assert!(!network_refresh_due(true, true, 16));
}

#[test]
fn disabled_fetch_never_fires() {
    assert!(!weather_refresh_due(false, false, 0));
    assert!(!weather_refresh_due(false, true, 120));
    assert!(!network_refresh_due(false, false, 0));
    assert!(!network_refresh_due(false, true, 15));
}

#[test]
fn aircraft_processing_every_fourth_iteration() {
    assert!(aircraft_refresh_due(0));
    assert!(aircraft_refresh_due(4));
    assert!(aircraft_refresh_due(8));
    assert!(!aircraft_refresh_due(1));
    assert!(!aircraft_refresh_due(2));
    assert!(!aircraft_refresh_due(3));
    assert!(!aircraft_refresh_due(5));
}

#[test]
fn refresh_steps_report_connection_state() {
    let mut m = MetarProvider::new();
    assert_eq!(
        weather_refresh_step(&mut m, Some(String::from("EGLL 251150Z Q1019"))),
        Message::MetarsRetrieved
    );
    assert_eq!(weather_refresh_step(&mut m, None), Message::MetarsDisconnected);
    let mut v = VatsimDataProvider::new();
    assert_eq!(network_refresh_step(&mut v, Some(vec![])), Message::VatsimDataRetrieved);
    assert_eq!(network_refresh_step(&mut v, None), Message::VatsimDataDisconnected);
}

#[test]
fn helpers_compute_exact_values() {
    assert_eq!(qnh_offset_feet(3012), 200);
    assert_eq!(qnh_offset_feet(2992), 0);
    assert_eq!(qnh_offset_feet(2962), -300);
    assert_eq!(heading_centideg(32768), 18000);
    assert_eq!(heading_centideg(0), 0);
    assert_eq!(heading_centideg(65535), 35900);
    assert_eq!(squawk_from("4701"), 4701);
    assert_eq!(squawk_from("1234"), 1234);
    assert_eq!(squawk_from("0000"), 0);
    assert_eq!(squawk_from("8000"), 2000);
    assert_eq!(squawk_from("0800"), 2000);
    assert_eq!(squawk_from("12345"), 2000);
    assert_eq!(squawk_from("abc"), 2000);
    assert_eq!(squawk_from(""), 2000);
}

#[test]
fn effective_callsign_resolution() {
    let mut p = Preferences::new(false, true, true, false);
    assert_eq!(effective_callsign(&p), String::from("ME"));
    p.set_own_callsign(String::from("G-ABCD"));
    assert_eq!(effective_callsign(&p), String::from("G-ABCD"));
    // syncing enabled but no client callsign captured: fall back to the
    // manually configured callsign
    p.set_use_es_callsign(true);
    assert_eq!(effective_callsign(&p), String::from("G-ABCD"));
    p.set_es_callsign(String::from("EGLL_TWR"));
    assert_eq!(effective_callsign(&p), String::from("EGLL_TWR"));
    p.set_own_callsign(String::new());
    p.set_es_callsign(String::new());
    assert_eq!(effective_callsign(&p), String::from("ME"));
}

#[test]
fn only_network_aircraft_filter_skips_unknown() {
    let prefs = Preferences::new(false, true, true, true);
    let mut v = VatsimDataProvider::new();
    let items = process_foreign_aircraft(&prefs, &mut v, &tcas("N123AB"));
    assert_eq!(items.len(), 0);
}

#[test]
fn unknown_aircraft_gets_default_position() {
    let prefs = Preferences::new(false, true, true, false);
    let mut v = VatsimDataProvider::new();
    let items = process_foreign_aircraft(&prefs, &mut v, &tcas("N123AB"));
    assert_eq!(items.len(), 1);
    match &items[0] {
        OutboundItem::Position(pos) => {
            assert_eq!(pos.callsign, "N123AB");
            assert_eq!(pos.squawk, 2000);
            assert_eq!(pos.true_alt_ft, 2500);
            assert_eq!(pos.pressure_alt_ft, 2500);
            assert_eq!(pos.heading_centideg, 18000);
            assert!(!pos.on_ground);
        },
        OutboundItem::Line(_) => panic!("expected a position update"),
    }
}

#[test]
fn known_aircraft_gets_details_and_plan_broadcast() {
    let prefs = Preferences::new(false, true, true, false);
    let mut v = VatsimDataProvider::new();
    v.update(Some(vec![details("BAW123", Some(plan(5)))]));
    let items = process_foreign_aircraft(&prefs, &mut v, &tcas("BAW123"));
    assert_eq!(items.len(), 2);
    match &items[0] {
        OutboundItem::Position(pos) => {
            assert_eq!(pos.callsign, "BAW123");
            assert_eq!(pos.squawk, 4701);
            assert_eq!(pos.true_alt_ft, 2500);
            // QNH 30.12 inHg: 20 hundredths above standard, 200 ft offset
            assert_eq!(pos.pressure_alt_ft, 2300);
        },
        OutboundItem::Line(_) => panic!("expected a position update first"),
    }
    let expected_plan = fsd_interface::FlightPlan {
        flight_rules: fsd_interface::FlightRules::IFR,
        ac_type: String::from("B738"),
        filed_tas: 430,
        origin: String::from("EGLL"),
        etd: 230,
        atd: 230,
        cruise_level: fsd_interface::Level::Altitude(35000),
        destination: String::from("EGCC"),
        hours_enroute: 1,
        mins_enroute: 0,
        hours_fuel: 3,
        mins_fuel: 0,
        alternate: String::from("EGGP"),
        remarks: String::from("RMK"),
        route: String::from("DCT WAL DCT"),
    };
    let expected =
        fsd_interface::messages::FlightPlanMessage::new("A*", "BAW123", expected_plan).to_string();
    match &items[1] {
        OutboundItem::Line(line) => assert_eq!(line, &expected),
        OutboundItem::Position(_) => panic!("expected a flight plan broadcast"),
    }
    // the broadcast marked the plan sent: a second pass sends no plan
    let items2 = process_foreign_aircraft(&prefs, &mut v, &tcas("BAW123"));
    assert_eq!(items2.len(), 1);
}

#[test]
fn callsign_change_emits_one_deregistration_first() {
    let mut prefs = Preferences::new(false, true, false, false);
    prefs.set_own_callsign(String::from("NEWCS"));
    let mut v = VatsimDataProvider::new();
    let mut last = String::from("OLDCS");
    let items = process_own_aircraft(&prefs, &mut v, &own_data(), &mut last);
    assert_eq!(items.len(), 2);
    let expected_dereg =
        fsd_interface::messages::PilotDeregisterMessage::new("OLDCS", "1000000").to_string();
    match &items[0] {
        OutboundItem::Line(line) => assert_eq!(line, &expected_dereg),
        OutboundItem::Position(_) => panic!("deregistration must come first"),
    }
    match &items[1] {
        OutboundItem::Position(pos) => {
            assert_eq!(pos.callsign, "NEWCS");
            assert_eq!(pos.squawk, 2000);
            assert_eq!(pos.pressure_alt_ft, 3000);
            assert_eq!(pos.true_alt_ft, 3200);
            assert_eq!(pos.heading_centideg, 27050);
        },
        OutboundItem::Line(_) => panic!("expected a position update"),
    }
    assert_eq!(last, "NEWCS");
}

#[test]
fn unchanged_callsign_emits_no_deregistration() {
    let mut prefs = Preferences::new(false, true, false, false);
    prefs.set_own_callsign(String::from("NEWCS"));
    let mut v = VatsimDataProvider::new();
    let mut last = String::from("NEWCS");
    let items = process_own_aircraft(&prefs, &mut v, &own_data(), &mut last);
    assert_eq!(items.len(), 1);
    match &items[0] {
        OutboundItem::Position(pos) => assert_eq!(pos.callsign, "NEWCS"),
        OutboundItem::Line(_) => panic!("expected only a position update"),
    }
}

#[test]
fn first_iteration_emits_no_deregistration() {
    let mut prefs = Preferences::new(false, true, false, false);
    prefs.set_own_callsign(String::from("NEWCS"));
    let mut v = VatsimDataProvider::new();
    let mut last = String::new();
    let items = process_own_aircraft(&prefs, &mut v, &own_data(), &mut last);
    assert_eq!(items.len(), 1);
    assert_eq!(last, "NEWCS");
}
