//! The connection lifecycle's decisions.  The surrounding application
//! owns the listener, the socket and the threads; these functions decide
//! what each loop does next, so that the policy — serve one connection at
//! a time, sleep when idle, stop on a real error, start every connection
//! from a clean slate — is verified.

use vstd::prelude::*;

use crate::prefs::Preferences;
use crate::queue::OutboundQueue;

verus! {

/// What one accept attempt came back with.
pub enum AcceptEvent {
    Connection,
    WouldBlock,
    OtherError,
}

/// What the accept loop does next.
pub enum AcceptAction {
    ServeConnection,
    SleepAndRetry,
    StopServing,
}

/// The accept loop's policy: serve a connection, sleep through a
/// would-block, and stop on any other error.
pub fn accept_decision(ev: &AcceptEvent) -> (a: AcceptAction)
    ensures
        a == (match ev {
            AcceptEvent::Connection => AcceptAction::ServeConnection,
            AcceptEvent::WouldBlock => AcceptAction::SleepAndRetry,
            AcceptEvent::OtherError => AcceptAction::StopServing,
        }),
{
    match ev {
        AcceptEvent::Connection => AcceptAction::ServeConnection,
        AcceptEvent::WouldBlock => AcceptAction::SleepAndRetry,
        AcceptEvent::OtherError => AcceptAction::StopServing,
    }
}

/// A fresh connection starts from a clean slate: the outbound queue is
/// drained — nothing enqueued for an earlier client is ever written to
/// this one — and the captured client callsign is forgotten.
pub fn on_new_connection(queue: &mut OutboundQueue, prefs: &mut Preferences)
    ensures
        final(queue).inv(),
        final(queue).pending() == Seq::<Seq<char>>::empty(),
        final(queue).enqueued() == Seq::<Seq<char>>::empty(),
        final(queue).delivered() == Seq::<Seq<char>>::empty(),
        final(prefs).es_callsign@ == Seq::<char>::empty(),
        final(prefs).own_callsign == old(prefs).own_callsign,
        final(prefs).use_es_callsign == old(prefs).use_es_callsign,
        final(prefs).fetch_metars == old(prefs).fetch_metars,
        final(prefs).fetch_flight_plans == old(prefs).fetch_flight_plans,
        final(prefs).only_show_vatsim == old(prefs).only_show_vatsim,
{
    queue.drain();
    prefs.set_es_callsign(String::new());
}

/// What the connection writer does next.
pub enum WriterStep {
    Write(String),
    Wait,
    Stop,
}

/// The writer loop's policy: stop when shutdown is requested or the
/// reader saw the connection end; otherwise write the oldest pending line
/// or wait for one.
pub fn writer_step(shutdown: bool, connection_ended: bool, queue: &mut OutboundQueue) -> (s:
    WriterStep)
    requires
        old(queue).inv(),
    ensures
        final(queue).inv(),
        final(queue).enqueued() == old(queue).enqueued(),
        (shutdown || connection_ended) ==> s is Stop && *final(queue) == *old(queue),
        (!shutdown && !connection_ended && old(queue).pending().len() == 0) ==> s is Wait
            && *final(queue) == *old(queue),
        (!shutdown && !connection_ended && old(queue).pending().len() > 0) ==> (s matches
            WriterStep::Write(msg)
            && msg@ == old(queue).pending()[0]
            && final(queue).pending() == old(queue).pending().skip(1)
            && final(queue).delivered() == old(queue).delivered().push(msg@)),
{
    if shutdown || connection_ended {
        return WriterStep::Stop;
    }
    match queue.try_deliver() {
        Some(msg) => WriterStep::Write(msg),
        None => WriterStep::Wait,
    }
}

} // verus!
