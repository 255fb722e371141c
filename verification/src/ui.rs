//! One-way notifications for the user interface, and the channel they are
//! dispatched over.  The library only produces these values; delivering
//! them to a real display is the surrounding application's business.

use vstd::prelude::*;

verus! {

/// A status notification for the user interface.
#[derive(Debug, Clone, PartialEq)]
pub enum Message {
    MsfsConnected,
    MsfsDisconnected,
    EuroscopeConnected(String),
    EuroscopeDisconnected,
    MetarsRetrieved,
    MetarsDisconnected,
    MetarNotFound,
    MetarRetrieved(String),
    VatsimDataRetrieved,
    VatsimDataDisconnected,
}

/// A sink for notifications, implemented by the user-interface shell.
pub trait Ui: Clone + Send {
    fn dispatch_message(&self, message: Message);
}

} // verus!
