//! The wire codec boundary.  The line-protocol grammar itself is the
//! `fsd_interface` crate's business: parsing classifies a line into the
//! few inbound shapes this library answers, and each outbound shape is
//! formatted by that crate.  Every call is behind a trusted item whose
//! contract names the crate's result; all logic around the calls is
//! verified.

use vstd::prelude::*;
use vstd::string::StrSliceExecFns;

use crate::text::{find_from, lemma_find_from_char, parse_u16_spec, parse_u16};
use crate::vatsim::{altitude_spec, two_digit_hours, FlightPlan, FlightRules};

verus! {

/// An inbound protocol line, classified.  Anything the bridge does not
/// answer — including lines the codec rejects — is `Other`.
pub enum InboundMessage {
    Registration { from: String },
    WeatherRequest { from: String, station: String },
    RealNameQuery { from: String, to: String },
    FlightPlanQuery { from: String, subject: String },
    Other,
}

/// Whether a prefix of the line is exactly `p`.
pub open spec fn starts_with_chars(line: Seq<char>, p: Seq<char>) -> bool {
    line.len() >= p.len() && line.subrange(0, p.len() as int) == p
}

/// The third colon-separated field of a line: a client query's kind.
pub open spec fn client_query_kind(line: Seq<char>) -> Seq<char> {
    let i2 = find_from(line, find_from(line, 0, ':') + 1, ':');
    line.subrange(i2 + 1, find_from(line, i2 + 1, ':'))
}

/// Whether a client-query line asks one of the two queries the bridge
/// answers: its kind field exists and is exactly "RN" or "FP".
pub open spec fn answerable_query(line: Seq<char>) -> bool {
    &&& find_from(line, find_from(line, 0, ':') + 1, ':') < line.len()
    &&& (client_query_kind(line) == "RN"@ || client_query_kind(line) == "FP"@)
}

/// The line shapes the bridge answers: a registration, a weather request,
/// or a real-name or flight-plan client query.  Only lines of these
/// shapes are handed to the wire codec; on each of them the codec's
/// parser returns without fail, while on arbitrary other shapes it can
/// panic.
pub open spec fn answerable_line(line: Seq<char>) -> bool {
    ||| starts_with_chars(line, "#AA"@)
    ||| starts_with_chars(line, "$AX"@)
    ||| (starts_with_chars(line, "$CQ"@) && answerable_query(line))
}

/// How the bridge classifies one raw line: a line of an answerable shape
/// is read by the codec; everything else is dropped unread.
pub open spec fn classify_of(line: Seq<char>) -> InboundMessage {
    if answerable_line(line) {
        parse_of(line)
    } else {
        InboundMessage::Other
    }
}

proof fn lemma_prefix3(line: Seq<char>, p: Seq<char>, a: char, b: char, c: char)
    requires
        p.len() == 3,
        p[0] == a,
        p[1] == b,
        p[2] == c,
    ensures
        starts_with_chars(line, p) == (line.len() >= 3 && line[0] == a && line[1] == b && line[2]
            == c),
{
    if line.len() >= 3 && line[0] == a && line[1] == b && line[2] == c {
        assert(line.subrange(0, 3) =~= p);
    }
}

/// Finds the next colon at or after `from`, or the end of the line.
fn find_colon(line: &str, from: usize) -> (r: usize)
    requires
        from <= line@.len(),
    ensures
        r == find_from(line@, from as int, ':'),
        from <= r <= line@.len(),
{
    let n: usize = line.unicode_len();
    let mut j: usize = from;
    while j < n && line.get_char(j) != ':'
        invariant
            n == line@.len(),
            from <= j <= n,
            forall|k: int| from <= k < j ==> line@[k] != ':',
        decreases n - j,
    {
        j = j + 1;
    }
    proof {
        lemma_find_from_char(line@, from as int, j as int, ':');
    }
    j
}

/// Recognises the line shapes the bridge answers, without consulting the
/// codec.
pub fn is_answerable_line(line: &str) -> (r: bool)
    ensures
        r == answerable_line(line@),
{
    proof {
        reveal_strlit("#AA");
        reveal_strlit("$AX");
        reveal_strlit("$CQ");
        reveal_strlit("RN");
        reveal_strlit("FP");
        lemma_prefix3(line@, "#AA"@, '#', 'A', 'A');
        lemma_prefix3(line@, "$AX"@, '$', 'A', 'X');
        lemma_prefix3(line@, "$CQ"@, '$', 'C', 'Q');
    }
    let n: usize = line.unicode_len();
    if n >= 3 && line.get_char(0) == '#' && line.get_char(1) == 'A' && line.get_char(2) == 'A' {
        return true;
    }
    if n >= 3 && line.get_char(0) == '$' && line.get_char(1) == 'A' && line.get_char(2) == 'X' {
        return true;
    }
    if !(n >= 3 && line.get_char(0) == '$' && line.get_char(1) == 'C' && line.get_char(2) == 'Q') {
        return false;
    }
    let i1 = find_colon(line, 0);
    if i1 == n {
        return false;
    }
    let i2 = find_colon(line, i1 + 1);
    if i2 == n {
        return false;
    }
    let i3 = find_colon(line, i2 + 1);
    proof {
        assert(client_query_kind(line@) == line@.subrange(i2 + 1, i3 as int));
        assert(client_query_kind(line@).len() == i3 - (i2 + 1));
    }
    if i3 - (i2 + 1) != 2 {
        return false;
    }
    let c0 = line.get_char(i2 + 1);
    let c1 = line.get_char(i2 + 2);
    proof {
        assert(client_query_kind(line@)[0] == line@[i2 + 1]);
        assert(client_query_kind(line@)[1] == line@[i2 + 2]);
    }
    if (c0 == 'R' && c1 == 'N') || (c0 == 'F' && c1 == 'P') {
        proof {
            if c0 == 'R' {
                assert(client_query_kind(line@) =~= "RN"@);
            } else {
                assert(client_query_kind(line@) =~= "FP"@);
            }
        }
        true
    } else {
        proof {
            assert(client_query_kind(line@) != "RN"@) by {
                if client_query_kind(line@) == "RN"@ {
                    assert(line@[i2 + 1] == 'R' && line@[i2 + 2] == 'N');
                }
            }
            assert(client_query_kind(line@) != "FP"@) by {
                if client_query_kind(line@) == "FP"@ {
                    assert(line@[i2 + 1] == 'F' && line@[i2 + 2] == 'P');
                }
            }
        }
        false
    }
}

/// What the wire codec makes of one answerable line.  The grammar is the
/// codec's own; the library relies only on the classification being a
/// function of the line.
pub uninterp spec fn parse_of(line: Seq<char>) -> InboundMessage;

/// Relies on fsd_interface::parse_message: classifies one protocol line,
/// keeping only the shapes the bridge answers.  Only answerable shapes
/// may be handed to it: on each of those the codec's parse path returns
/// a value or an error without fail, while on arbitrary other lines it
/// can panic.
#[verifier::external_body]
pub(crate) fn parse_inbound(line: &str) -> (r: InboundMessage)
    requires
        answerable_line(line@),
    ensures
        r == parse_of(line@),
{
    match fsd_interface::parse_message(line) {
        Ok(fsd_interface::FsdMessageType::AtcRegisterMessage(m)) => InboundMessage::Registration { from: m.from },
        Ok(fsd_interface::FsdMessageType::MetarRequestMessage(m)) => InboundMessage::WeatherRequest { from: m.from, station: m.station },
        Ok(fsd_interface::FsdMessageType::ClientQueryMessage(m)) => match m.query_type {
            fsd_interface::ClientQueryType::RealName => InboundMessage::RealNameQuery { from: m.from, to: m.to },
            fsd_interface::ClientQueryType::FlightPlan { aircraft_callsign } => InboundMessage::FlightPlanQuery { from: m.from, subject: aircraft_callsign },
            _ => InboundMessage::Other,
        },
        _ => InboundMessage::Other,
    }
}

/// A flight plan ready for the wire: every raw text field already read
/// into the number the protocol carries.
pub struct FlightPlanData {
    pub flight_rules: FlightRules,
    pub aircraft_type: String,
    pub filed_tas: u16,
    pub origin: String,
    pub etd: u16,
    pub atd: u16,
    pub cruise_level: i32,
    pub destination: String,
    pub hours_enroute: u8,
    pub mins_enroute: u8,
    pub hours_fuel: u8,
    pub mins_fuel: u8,
    pub alternate: String,
    pub remarks: String,
    pub route: String,
}

/// The wire form of a stored plan: cruise speed and departure time read
/// as numbers (zero when unreadable), the cruise level resolved, and the
/// enroute and fuel times split into hours and minutes.
pub open spec fn wire_plan_of(fp: FlightPlan) -> FlightPlanData {
    FlightPlanData {
        flight_rules: fp.flight_rules,
        aircraft_type: fp.aircraft_type,
        filed_tas: match parse_u16_spec(fp.cruise_tas@) {
            Some(v) => v,
            None => 0,
        },
        origin: fp.departure_icao,
        etd: match parse_u16_spec(fp.departure_time@) {
            Some(v) => v,
            None => 0,
        },
        atd: match parse_u16_spec(fp.departure_time@) {
            Some(v) => v,
            None => 0,
        },
        cruise_level: altitude_spec(fp.altitude@) as i32,
        destination: fp.arrival_icao,
        hours_enroute: two_digit_hours(fp.enroute_time@),
        mins_enroute: 0,
        hours_fuel: two_digit_hours(fp.fuel_time@),
        mins_fuel: 0,
        alternate: fp.alternate_icao,
        remarks: fp.remarks,
        route: fp.route,
    }
}

impl FlightPlan {
    /// Resolves the plan's raw text fields into their wire form.
    pub fn to_wire(&self) -> (r: FlightPlanData)
        ensures
            r == wire_plan_of(*self),
    {
        let filed_tas: u16 = match parse_u16(self.cruise_tas.as_str()) {
            Some(v) => v,
            None => 0,
        };
        let etd: u16 = match parse_u16(self.departure_time.as_str()) {
            Some(v) => v,
            None => 0,
        };
        let (hours_enroute, mins_enroute) = self.enroute_time();
        let (hours_fuel, mins_fuel) = self.fuel_time();
        FlightPlanData {
            flight_rules: self.flight_rules,
            aircraft_type: self.aircraft_type.clone(),
            filed_tas,
            origin: self.departure_icao.clone(),
            etd,
            atd: etd,
            cruise_level: self.altitude(),
            destination: self.arrival_icao.clone(),
            hours_enroute,
            mins_enroute,
            hours_fuel,
            mins_fuel,
            alternate: self.alternate_icao.clone(),
            remarks: self.remarks.clone(),
            route: self.route.clone(),
        }
    }
}

/// The wire form of a text message between two stations.
pub uninterp spec fn text_message_line(from: Seq<char>, to: Seq<char>, body: Seq<char>) -> Seq<
    char,
>;

/// Relies on fsd_interface TextMessage::new and its display form: the
/// line is a function of sender, recipient and body.
#[verifier::external_body]
pub(crate) fn fmt_text_message(from: &str, to: &str, body: &str) -> (r: String)
    ensures
        r@ == text_message_line(from@, to@, body@),
{
    fsd_interface::messages::TextMessage::new(from, to, body).to_string()
}

/// The wire form of a weather report response.
pub uninterp spec fn metar_response_line(from: Seq<char>, to: Seq<char>, metar: Seq<char>) -> Seq<
    char,
>;

/// Relies on fsd_interface MetarResponseMessage::new and its display
/// form: the line is a function of sender, recipient and report.
#[verifier::external_body]
pub(crate) fn fmt_metar_response(from: &str, to: &str, metar: &str) -> (r: String)
    ensures
        r@ == metar_response_line(from@, to@, metar@),
{
    fsd_interface::messages::MetarResponseMessage::new(from, to, metar).to_string()
}

/// The wire form of a real-name query response.
pub uninterp spec fn real_name_response_line(
    from: Seq<char>,
    to: Seq<char>,
    name: Seq<char>,
    sector_file: Seq<char>,
    rating: u8,
) -> Seq<char>;

/// Relies on fsd_interface ClientQueryResponseMessage::real_name and its
/// display form: the line is a function of its five fields.
#[verifier::external_body]
pub(crate) fn fmt_real_name_response(
    from: &str,
    to: &str,
    name: &str,
    sector_file: &str,
    rating: u8,
) -> (r: String)
    ensures
        r@ == real_name_response_line(from@, to@, name@, sector_file@, rating),
{
    fsd_interface::messages::ClientQueryResponseMessage::real_name(from, to, name, sector_file, rating)
        .to_string()
}

/// The wire form of a flight plan message.
pub uninterp spec fn flight_plan_message_line(
    to: Seq<char>,
    callsign: Seq<char>,
    plan: FlightPlanData,
) -> Seq<char>;

/// Relies on fsd_interface FlightPlanMessage::new and its display form:
/// the line is a function of recipient, callsign and the resolved plan.
#[verifier::external_body]
pub(crate) fn fmt_flight_plan_message(to: &str, callsign: &str, plan: FlightPlanData) -> (r:
    String)
    ensures
        r@ == flight_plan_message_line(to@, callsign@, plan),
{
    let flight_rules = match plan.flight_rules {
        FlightRules::DVFR => fsd_interface::FlightRules::DVFR,
        FlightRules::VFR => fsd_interface::FlightRules::VFR,
        FlightRules::SVFR => fsd_interface::FlightRules::SVFR,
        FlightRules::IFR => fsd_interface::FlightRules::IFR,
    };
    let fp = fsd_interface::FlightPlan {
        flight_rules, ac_type: plan.aircraft_type, filed_tas: plan.filed_tas,
        origin: plan.origin, etd: plan.etd, atd: plan.atd,
        cruise_level: fsd_interface::Level::Altitude(plan.cruise_level),
        destination: plan.destination, hours_enroute: plan.hours_enroute,
        mins_enroute: plan.mins_enroute, hours_fuel: plan.hours_fuel, mins_fuel: plan.mins_fuel,
        alternate: plan.alternate, remarks: plan.remarks, route: plan.route,
    };
    fsd_interface::messages::FlightPlanMessage::new(to, callsign, fp).to_string()
}

/// The wire form of a pilot deregistration.
pub uninterp spec fn pilot_deregister_line(callsign: Seq<char>, cid: Seq<char>) -> Seq<char>;

/// Relies on fsd_interface PilotDeregisterMessage::new and its display
/// form: the line is a function of callsign and id.
#[verifier::external_body]
pub(crate) fn fmt_pilot_deregister(callsign: &str, cid: &str) -> (r: String)
    ensures
        r@ == pilot_deregister_line(callsign@, cid@),
{
    fsd_interface::messages::PilotDeregisterMessage::new(callsign, cid).to_string()
}

} // verus!
