//! Verified core of a single-client air-traffic-control bridge.
//!
//! The library merges two asynchronously refreshed data sources — simulator
//! telemetry and a network-wide traffic snapshot — into line-oriented
//! protocol messages for one connected client, and answers ad hoc queries
//! (weather, real name, flight plan) over the same connection.  All state
//! reconciliation, refresh cadence, and send-once bookkeeping is verified;
//! sockets, HTTP and the GUI live outside the library.

pub mod codec;
pub mod handler;
pub mod kvlist;
pub mod metar;
pub mod prefs;
pub mod queue;
pub mod server;
pub mod text;
pub mod ui;
pub mod util;
pub mod vatsim;
pub mod worker;
