//! Shared configuration read on every worker iteration and every inbound
//! message: the operator's own callsign, the callsign captured from the
//! connected client, and four independent feature toggles.

use vstd::prelude::*;

verus! {

/// Configuration state.  The surrounding application decides how the value
/// is shared between threads; the library only describes what each read and
/// write means.
pub struct Preferences {
    pub own_callsign: String,
    pub es_callsign: String,
    pub use_es_callsign: bool,
    pub fetch_metars: bool,
    pub fetch_flight_plans: bool,
    pub only_show_vatsim: bool,
}

impl Preferences {
    /// A fresh configuration: both callsigns empty, toggles as given.
    pub fn new(use_es_callsign: bool, fetch_metars: bool, fetch_flight_plans: bool, only_show_vatsim: bool) -> (p: Preferences)
        ensures
            p.own_callsign@ == Seq::<char>::empty(),
            p.es_callsign@ == Seq::<char>::empty(),
            p.use_es_callsign == use_es_callsign,
            p.fetch_metars == fetch_metars,
            p.fetch_flight_plans == fetch_flight_plans,
            p.only_show_vatsim == only_show_vatsim,
    {
        Preferences {
            own_callsign: String::new(),
            es_callsign: String::new(),
            use_es_callsign,
            fetch_metars,
            fetch_flight_plans,
            only_show_vatsim,
        }
    }

    /// The manually configured callsign, or `None` while it is unset.
    pub fn own_callsign(&self) -> (r: Option<String>)
        ensures
            self.own_callsign@.len() == 0 ==> r is None,
            self.own_callsign@.len() > 0 ==> r == Some(self.own_callsign),
    {
        if self.own_callsign.as_str().is_empty() {
            None
        } else {
            Some(self.own_callsign.clone())
        }
    }

    /// The callsign captured from the connected client, or `None` while it
    /// is unset.
    pub fn es_callsign(&self) -> (r: Option<String>)
        ensures
            self.es_callsign@.len() == 0 ==> r is None,
            self.es_callsign@.len() > 0 ==> r == Some(self.es_callsign),
    {
        if self.es_callsign.as_str().is_empty() {
            None
        } else {
            Some(self.es_callsign.clone())
        }
    }

    pub fn use_es_callsign(&self) -> (r: bool)
        ensures
            r == self.use_es_callsign,
    {
        self.use_es_callsign
    }

    pub fn fetch_metars(&self) -> (r: bool)
        ensures
            r == self.fetch_metars,
    {
        self.fetch_metars
    }

    pub fn fetch_flight_plans(&self) -> (r: bool)
        ensures
            r == self.fetch_flight_plans,
    {
        self.fetch_flight_plans
    }

    pub fn only_show_vatsim(&self) -> (r: bool)
        ensures
            r == self.only_show_vatsim,
    {
        self.only_show_vatsim
    }

    pub fn set_own_callsign(&mut self, callsign: String)
        ensures
            *final(self) == (Preferences { own_callsign: callsign, ..*old(self) }),
    {
        self.own_callsign = callsign;
    }

    pub fn set_es_callsign(&mut self, callsign: String)
        ensures
            *final(self) == (Preferences { es_callsign: callsign, ..*old(self) }),
    {
        self.es_callsign = callsign;
    }

    pub fn set_use_es_callsign(&mut self, val: bool)
        ensures
            *final(self) == (Preferences { use_es_callsign: val, ..*old(self) }),
    {
        self.use_es_callsign = val;
    }

    pub fn set_fetch_metars(&mut self, val: bool)
        ensures
            *final(self) == (Preferences { fetch_metars: val, ..*old(self) }),
    {
        self.fetch_metars = val;
    }

    pub fn set_fetch_flight_plans(&mut self, val: bool)
        ensures
            *final(self) == (Preferences { fetch_flight_plans: val, ..*old(self) }),
    {
        self.fetch_flight_plans = val;
    }

    pub fn set_only_show_vatsim(&mut self, val: bool)
        ensures
            *final(self) == (Preferences { only_show_vatsim: val, ..*old(self) }),
    {
        self.only_show_vatsim = val;
    }
}

} // verus!
