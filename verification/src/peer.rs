//! Peers and the events that tell of them.

use crate::address::IpAddress;
use crate::error::{ErrorView, PeerDiscoveryError};
use crate::string_map::Properties;
use vstd::prelude::*;
use vstd::std_specs::cmp::PartialEqSpecImpl;

verus! {

/// A peer found on the network, as last heard of.
#[derive(Debug)]
pub struct Peer {
    /// The full name that the protocol gave the service instance. It
    /// identifies the peer.
    pub name: String,
    pub ip: IpAddress,
    pub port: u16,
    pub service_type: String,
    pub properties: Properties,
}

/// A peer as a plain value.
pub struct PeerView {
    pub name: Seq<char>,
    pub ip: IpAddress,
    pub port: u16,
    pub service_type: Seq<char>,
    pub properties: Map<Seq<char>, Seq<char>>,
}

impl View for Peer {
    type V = PeerView;

    open spec fn view(&self) -> PeerView {
        PeerView {
            name: self.name@,
            ip: self.ip,
            port: self.port,
            service_type: self.service_type@,
            properties: self.properties@,
        }
    }
}

impl Clone for Peer {
    fn clone(&self) -> (c: Self)
        ensures
            c@ == self@,
    {
        Peer {
            name: self.name.clone(),
            ip: self.ip,
            port: self.port,
            service_type: self.service_type.clone(),
            properties: self.properties.clone(),
        }
    }
}

impl PartialEqSpecImpl for Peer {
    open spec fn obeys_eq_spec() -> bool {
        true
    }

    open spec fn eq_spec(&self, other: &Peer) -> bool {
        self@ == other@
    }
}

impl PartialEq for Peer {
    /// Two records are equal where they hold the same values; the order in
    /// which the properties were put in plays no part.
    fn eq(&self, other: &Peer) -> (same: bool) {
        let same = self.name == other.name && self.ip.same_as(&other.ip) && self.port == other.port
            && self.service_type == other.service_type && self.properties.same_entries(
            &other.properties,
        );
        same
    }
}

/// What the discovery service tells its observers.
#[derive(Debug)]
pub enum PeerEvent {
    /// A peer was resolved: new, or heard of again.
    PeerDiscovered(Peer),
    /// A known peer left; the event carries the last record of it.
    PeerLost(Peer),
    ServiceStarted,
    ServiceStopped,
    /// A raw event could not be turned into a peer.
    Error(PeerDiscoveryError),
}

/// An event as a plain value.
pub enum PeerEventView {
    PeerDiscovered(PeerView),
    PeerLost(PeerView),
    ServiceStarted,
    ServiceStopped,
    Error(ErrorView),
}

impl View for PeerEvent {
    type V = PeerEventView;

    open spec fn view(&self) -> PeerEventView {
        match self {
            PeerEvent::PeerDiscovered(p) => PeerEventView::PeerDiscovered(p@),
            PeerEvent::PeerLost(p) => PeerEventView::PeerLost(p@),
            PeerEvent::ServiceStarted => PeerEventView::ServiceStarted,
            PeerEvent::ServiceStopped => PeerEventView::ServiceStopped,
            PeerEvent::Error(e) => PeerEventView::Error(e@),
        }
    }
}

impl Clone for PeerEvent {
    fn clone(&self) -> (c: Self)
        ensures
            c@ == self@,
    {
        match self {
            PeerEvent::PeerDiscovered(p) => PeerEvent::PeerDiscovered(p.clone()),
            PeerEvent::PeerLost(p) => PeerEvent::PeerLost(p.clone()),
            PeerEvent::ServiceStarted => PeerEvent::ServiceStarted,
            PeerEvent::ServiceStopped => PeerEvent::ServiceStopped,
            PeerEvent::Error(e) => PeerEvent::Error(e.clone()),
        }
    }
}

} // verus!
