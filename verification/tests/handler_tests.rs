use traffic_viewer::handler::handle_line;
use traffic_viewer::metar::MetarProvider;
use traffic_viewer::prefs::Preferences;
use traffic_viewer::ui::Message;
use traffic_viewer::util::{
    byte_slice_to_string, frame_line, solid_colour, split_words, string_to_byte_slice, wide_null,
};
use traffic_viewer::vatsim::{Details, FlightPlan, FlightRules, VatsimDataProvider};

fn plan(revision_id: usize) -> FlightPlan {
    FlightPlan::new(
        FlightRules::IFR,
        String::from("B738"),
        String::from("EGLL"),
        String::from("EGCC"),
        String::from("EGGP"),
        String::from("430"),
        String::from("FL350"),
        String::from("0230"),
        String::from("0100"),
        String::from("0300"),
        String::from("RMK"),
        String::from("DCT WAL DCT"),
        revision_id,
        String::from("4701"),
    )
}

fn details(callsign: &str, fp: Option<FlightPlan>) -> Details {
    Details {
        cid: 1234567,
        name: String::from("Jane Doe"),
        callsign: String::from(callsign),
        transponder: String::from("4701"),
        altitude: 35000,
        heading: 90,
        qnh_centi_i_hg: 2992,
        flight_plan: fp,
    }
}

#[test]
fn registration_is_welcomed_and_captured() {
    let mut prefs = Preferences::new(true, true, true, false);
    let vatsim = VatsimDataProvider::new();
    let metar = MetarProvider::new();
    let (replies, notices) = handle_line(
        "#AAEGLL_TWR:SERVER:Jane Doe:1234567:secret:7:9",
        &mut prefs,
        &vatsim,
        &metar,
    );
    let expected = fsd_interface::messages::TextMessage::new(
        "SERVER",
        "EGLL_TWR",
        "Connected to Traffic Viewer. Welcome!",
    )
    .to_string();
    assert_eq!(replies, vec![expected]);
    assert_eq!(notices, vec![Message::EuroscopeConnected(String::from("EGLL_TWR"))]);
    assert_eq!(prefs.es_callsign(), Some(String::from("EGLL_TWR")));
}

#[test]
fn weather_request_returns_stored_line_verbatim() {
    let mut prefs = Preferences::new(true, true, true, false);
    let vatsim = VatsimDataProvider::new();
    let mut metar = MetarProvider::new();
    metar.update(Some(String::from("EGLL 251150Z 24015KT 9999 FEW035 17/09 Q1019")));
    let (replies, notices) =
        handle_line("$AXEGLL_TWR:SERVER:METAR:EGLL", &mut prefs, &vatsim, &metar);
    let expected = fsd_interface::messages::MetarResponseMessage::new(
        "SERVER",
        "EGLL_TWR",
        "EGLL 251150Z 24015KT 9999 FEW035 17/09 Q1019",
    )
    .to_string();
    assert_eq!(replies, vec![expected]);
    assert!(notices.is_empty());
}

#[test]
fn weather_request_for_unknown_station_is_silent() {
    let mut prefs = Preferences::new(true, true, true, false);
    let vatsim = VatsimDataProvider::new();
    let mut metar = MetarProvider::new();
    metar.update(Some(String::from("EGLL 251150Z Q1019")));
    let (replies, notices) =
        handle_line("$AXEGLL_TWR:SERVER:METAR:ZZZZ", &mut prefs, &vatsim, &metar);
    assert!(replies.is_empty());
    assert!(notices.is_empty());
}

#[test]
fn real_name_query_answered_from_store() {
    let mut prefs = Preferences::new(true, true, true, false);
    let mut vatsim = VatsimDataProvider::new();
    vatsim.update(Some(vec![details("BAW123", None)]));
    let metar = MetarProvider::new();
    let (replies, _) = handle_line("$CQEGLL_TWR:BAW123:RN", &mut prefs, &vatsim, &metar);
    let expected = fsd_interface::messages::ClientQueryResponseMessage::real_name(
        "BAW123",
        "EGLL_TWR",
        "Jane Doe",
        "",
        1,
    )
    .to_string();
    assert_eq!(replies, vec![expected]);
    let (none_replies, _) = handle_line("$CQEGLL_TWR:EZY456:RN", &mut prefs, &vatsim, &metar);
    assert!(none_replies.is_empty());
}

#[test]
fn flight_plan_query_answered_from_any_known_plan() {
    let mut prefs = Preferences::new(true, true, true, false);
    let mut vatsim = VatsimDataProvider::new();
    vatsim.update(Some(vec![details("BAW123", Some(plan(5))), details("EZY456", None)]));
    let metar = MetarProvider::new();
    let expected_plan = fsd_interface::FlightPlan {
        flight_rules: fsd_interface::FlightRules::IFR,
        ac_type: String::from("B738"),
        filed_tas: 430,
        origin: String::from("EGLL"),
        etd: 230,
        atd: 230,
        cruise_level: fsd_interface::Level::Altitude(35000),
        destination: String::from("EGCC"),
        hours_enroute: 1,
        mins_enroute: 0,
        hours_fuel: 3,
        mins_fuel: 0,
        alternate: String::from("EGGP"),
        remarks: String::from("RMK"),
        route: String::from("DCT WAL DCT"),
    };
    let expected =
        fsd_interface::messages::FlightPlanMessage::new("EGLL_TWR", "BAW123", expected_plan)
            .to_string();
    // a freshly inserted record knows its plan only as pending-to-send;
    // the query answers from it all the same
    let (replies0, _) = handle_line("$CQEGLL_TWR:SERVER:FP:BAW123", &mut prefs, &vatsim, &metar);
    assert_eq!(replies0, vec![expected.clone()]);
    // after a second merge the plan sits in the stored snapshot
    vatsim.update(Some(vec![details("BAW123", Some(plan(5)))]));
    let (replies, _) = handle_line("$CQEGLL_TWR:SERVER:FP:BAW123", &mut prefs, &vatsim, &metar);
    assert_eq!(replies, vec![expected]);
    // a record with no plan at all, and an unknown callsign, yield none
    let (no_plan, _) = handle_line("$CQEGLL_TWR:SERVER:FP:EZY456", &mut prefs, &vatsim, &metar);
    assert!(no_plan.is_empty());
    let (unknown, _) = handle_line("$CQEGLL_TWR:SERVER:FP:DLH9CK", &mut prefs, &vatsim, &metar);
    assert!(unknown.is_empty());
}

#[test]
fn malformed_and_unhandled_lines_are_dropped() {
    let mut prefs = Preferences::new(true, true, true, false);
    let vatsim = VatsimDataProvider::new();
    let metar = MetarProvider::new();
    let (replies, notices) = handle_line("not a protocol line", &mut prefs, &vatsim, &metar);
    assert!(replies.is_empty());
    assert!(notices.is_empty());
    // recognised by the wire grammar but unanswered: a ping
    let (replies2, notices2) = handle_line("$PIEGLL_TWR:SERVER:123", &mut prefs, &vatsim, &metar);
    assert!(replies2.is_empty());
    assert!(notices2.is_empty());
}

#[test]
fn hostile_lines_are_dropped_without_panicking() {
    let mut prefs = Preferences::new(true, true, true, false);
    let vatsim = VatsimDataProvider::new();
    let metar = MetarProvider::new();
    // shapes whose wire-grammar parse paths are unsafe never reach the
    // codec; truncated answerable shapes reach it and come back as errors
    let hostile = [
        "#SB:X",
        "$CQA:B:NEWATIS:ATIS Z:31016KTQ1022",
        "%A:x\u{E9}00:1:2:3:4:5",
        "#TMA:@B",
        "$CQA:B:C?",
        "$CQ",
        "#AA",
        "$AXZZZZ",
    ];
    for line in hostile {
        let (replies, notices) = handle_line(line, &mut prefs, &vatsim, &metar);
        assert!(replies.is_empty());
        assert!(notices.is_empty());
    }
}

#[test]
fn ascii_framing_roundtrip() {
    let bytes = string_to_byte_slice("#TMSERVER:EGLL_TWR:hi\r\n");
    assert_eq!(bytes, b"#TMSERVER:EGLL_TWR:hi\r\n".to_vec());
    let text = byte_slice_to_string(&bytes);
    assert_eq!(text, "#TMSERVER:EGLL_TWR:hi\r\n");
    // narrowing is lossy above one byte per character
    assert_eq!(string_to_byte_slice("é"), vec![0xE9]);
    assert_eq!(byte_slice_to_string(&[0x41, 0xFF]), "A\u{FF}");
    assert_eq!(frame_line("ok"), b"ok\r\n".to_vec());
    assert_eq!(frame_line(""), b"\r\n".to_vec());
}

#[test]
fn wide_null_encodes_utf16_with_terminator() {
    assert_eq!(wide_null("AB"), vec![0x41, 0x42, 0]);
    assert_eq!(wide_null(""), vec![0]);
    assert_eq!(wide_null("€"), vec![0x20AC, 0]);
    assert_eq!(wide_null("𝄞"), vec![0xD834, 0xDD1E, 0]);
    assert_eq!(wide_null("é"), "é".encode_utf16().chain(Some(0)).collect::<Vec<u16>>());
}

#[test]
fn packed_word_helpers() {
    assert_eq!(solid_colour(5, 150, 5), 0x05_96_05);
    assert_eq!(solid_colour(255, 0, 0), 0x00_00_FF);
    assert_eq!(split_words(0x0012_ABCD), (0x0012, 0xABCD));
    assert_eq!(split_words(0xFFFF_FFFF), (0xFFFF, 0xFFFF));
}
