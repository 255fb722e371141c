//! The inbound dispatcher: what one line from the connected client does
//! to the shared state, and which reply lines and user-interface notices
//! it produces.  Lines the codec rejects, and message kinds the bridge
//! does not answer, are dropped silently.

use vstd::prelude::*;

use crate::codec::{classify_of, flight_plan_message_line, fmt_flight_plan_message,
    fmt_metar_response, fmt_real_name_response, fmt_text_message, is_answerable_line,
    metar_response_line, parse_inbound, real_name_response_line, text_message_line, wire_plan_of,
    InboundMessage};
use crate::metar::MetarProvider;
use crate::prefs::Preferences;
use crate::ui::Message;
use crate::vatsim::{known_plan_of, VatsimDataProvider};

verus! {

/// What handling one classified message means: how the preferences
/// change, and exactly which reply lines and notices come out.
pub open spec fn handled(
    msg: InboundMessage,
    prefs0: Preferences,
    prefs1: Preferences,
    vatsim: VatsimDataProvider,
    metar: MetarProvider,
    replies: Seq<String>,
    notices: Seq<Message>,
) -> bool {
    match msg {
        InboundMessage::Registration { from } => {
            &&& prefs1 == (Preferences { es_callsign: from, ..prefs0 })
            &&& notices.len() == 1 && notices[0] == Message::EuroscopeConnected(from)
            &&& replies.len() == 1 && replies[0]@ == text_message_line(
                "SERVER"@,
                from@,
                "Connected to Traffic Viewer. Welcome!"@,
            )
        },
        InboundMessage::WeatherRequest { from, station } => {
            &&& prefs1 == prefs0
            &&& notices.len() == 0
            &&& (metar.map_view().dom().contains(station@) ==> replies.len() == 1 && replies[0]@
                == metar_response_line("SERVER"@, from@, metar.map_view()[station@]))
            &&& (!metar.map_view().dom().contains(station@) ==> replies.len() == 0)
        },
        InboundMessage::RealNameQuery { from, to } => {
            &&& prefs1 == prefs0
            &&& notices.len() == 0
            &&& (vatsim.map_view().dom().contains(to@) ==> replies.len() == 1 && replies[0]@
                == real_name_response_line(
                to@,
                from@,
                vatsim.map_view()[to@].details.name@,
                ""@,
                1,
            ))
            &&& (!vatsim.map_view().dom().contains(to@) ==> replies.len() == 0)
        },
        InboundMessage::FlightPlanQuery { from, subject } => {
            &&& prefs1 == prefs0
            &&& notices.len() == 0
            &&& ((vatsim.map_view().dom().contains(subject@)
                && known_plan_of(vatsim.map_view()[subject@]) is Some) ==> replies.len() == 1
                && (known_plan_of(vatsim.map_view()[subject@]) matches Some(fp)
                && replies[0]@ == flight_plan_message_line(from@, subject@, wire_plan_of(fp))))
            &&& (!(vatsim.map_view().dom().contains(subject@)
                && known_plan_of(vatsim.map_view()[subject@]) is Some) ==> replies.len() == 0)
        },
        InboundMessage::Other => {
            &&& prefs1 == prefs0
            &&& notices.len() == 0
            &&& replies.len() == 0
        },
    }
}

/// Dispatches one classified inbound message: a registration captures the
/// sender's callsign and is welcomed; a weather request is answered with
/// the stored line verbatim when the station is known; a real-name or
/// flight-plan query is answered from the network store when the target
/// is known; everything else is dropped.  A lookup that finds nothing
/// sends no reply at all.
pub fn handle_inbound(
    msg: InboundMessage,
    prefs: &mut Preferences,
    vatsim: &VatsimDataProvider,
    metar: &MetarProvider,
) -> (r: (Vec<String>, Vec<Message>))
    requires
        vatsim.wf(),
    ensures
        handled(msg, *old(prefs), *final(prefs), *vatsim, *metar, r.0@, r.1@),
{
    let mut replies: Vec<String> = Vec::new();
    let mut notices: Vec<Message> = Vec::new();
    match msg {
        InboundMessage::Registration { from } => {
            prefs.set_es_callsign(from.clone());
            notices.push(Message::EuroscopeConnected(from.clone()));
            replies.push(
                fmt_text_message("SERVER", from.as_str(), "Connected to Traffic Viewer. Welcome!"),
            );
        },
        InboundMessage::WeatherRequest { from, station } => {
            match metar.lookup_metar(station.as_str()) {
                Some(line) => {
                    replies.push(fmt_metar_response("SERVER", from.as_str(), line.as_str()));
                },
                None => {},
            }
        },
        InboundMessage::RealNameQuery { from, to } => {
            match vatsim.get_aircraft_details(to.as_str()) {
                Some(details) => {
                    replies.push(
                        fmt_real_name_response(
                            to.as_str(),
                            from.as_str(),
                            details.name.as_str(),
                            "",
                            1,
                        ),
                    );
                },
                None => {},
            }
        },
        InboundMessage::FlightPlanQuery { from, subject } => {
            match vatsim.get_known_flight_plan(subject.as_str()) {
                Some(fp) => {
                    let wire = fp.to_wire();
                    replies.push(fmt_flight_plan_message(from.as_str(), subject.as_str(), wire));
                },
                None => {},
            }
        },
        InboundMessage::Other => {},
    }
    (replies, notices)
}

/// Classifies and dispatches one raw line from the connection.  Only
/// lines of the shapes the bridge answers are read by the codec; every
/// other line is dropped without a reply.
pub fn handle_line(
    line: &str,
    prefs: &mut Preferences,
    vatsim: &VatsimDataProvider,
    metar: &MetarProvider,
) -> (r: (Vec<String>, Vec<Message>))
    requires
        vatsim.wf(),
    ensures
        handled(classify_of(line@), *old(prefs), *final(prefs), *vatsim, *metar, r.0@, r.1@),
{
    let msg = if is_answerable_line(line) {
        parse_inbound(line)
    } else {
        InboundMessage::Other
    };
    handle_inbound(msg, prefs, vatsim, metar)
}

} // verus!
