//! Peers and settings in the shape that an embedding application takes
//! them.

use crate::config::{DiscoveryConfig, DiscoveryConfigView, TimeSpan};
use crate::peer::{Peer, PeerView};
use crate::string_map::{Properties, StringMap};
use vstd::prelude::*;
use vstd::std_specs::convert::FromSpecImpl;
use vstd::string::StringExecFns;

verus! {

/// A peer as an embedding application sees it: the address as text, and
/// the kind of device as a field of its own.
#[derive(Debug)]
pub struct FlutterPeer {
    /// The peer's name again: it serves as its identifier.
    pub id: String,
    pub name: String,
    pub ip: String,
    pub port: u16,
    /// The property `device_type`, or `unknown` where the peer has none.
    pub device_type: String,
    pub properties: Properties,
}

/// An application-side peer as a plain value.
pub struct FlutterPeerView {
    pub id: Seq<char>,
    pub name: Seq<char>,
    pub ip: Seq<char>,
    pub port: u16,
    pub device_type: Seq<char>,
    pub properties: Map<Seq<char>, Seq<char>>,
}

impl View for FlutterPeer {
    type V = FlutterPeerView;

    open spec fn view(&self) -> FlutterPeerView {
        FlutterPeerView {
            id: self.id@,
            name: self.name@,
            ip: self.ip@,
            port: self.port,
            device_type: self.device_type@,
            properties: self.properties@,
        }
    }
}

impl Clone for FlutterPeer {
    fn clone(&self) -> (c: Self)
        ensures
            c@ == self@,
    {
        FlutterPeer {
            id: self.id.clone(),
            name: self.name.clone(),
            ip: self.ip.clone(),
            port: self.port,
            device_type: self.device_type.clone(),
            properties: self.properties.clone(),
        }
    }
}

/// The application-side form of a peer.
pub open spec fn flutter_peer_of(peer: PeerView) -> FlutterPeerView {
    FlutterPeerView {
        id: peer.name,
        name: peer.name,
        ip: peer.ip.text(),
        port: peer.port,
        device_type: if peer.properties.contains_key("device_type"@) {
            peer.properties["device_type"@]
        } else {
            "unknown"@
        },
        properties: peer.properties,
    }
}

impl FromSpecImpl<Peer> for FlutterPeer {
    open spec fn obeys_from_spec() -> bool {
        false
    }

    open spec fn from_spec(peer: Peer) -> Self {
        arbitrary()
    }
}

impl From<Peer> for FlutterPeer {
    fn from(peer: Peer) -> (made: Self)
        ensures
            made@ == flutter_peer_of(peer@),
    {
        let device_type = match peer.properties.get("device_type") {
            Some(kind) => kind.clone(),
            None => String::from_str("unknown"),
        };
        FlutterPeer {
            id: peer.name.clone(),
            ip: peer.ip.to_string(),
            name: peer.name,
            port: peer.port,
            device_type,
            properties: peer.properties,
        }
    }
}

/// The view of each application-side peer of a sequence.
pub open spec fn flutter_peer_views(peers: Seq<FlutterPeer>) -> Seq<FlutterPeerView> {
    peers.map_values(|p: FlutterPeer| p@)
}

/// The application-side form of each peer, in the same order.
pub fn flutter_peers(peers: Vec<Peer>) -> (made: Vec<FlutterPeer>)
    ensures
        flutter_peer_views(made@) == crate::registry::peer_views(peers@).map_values(
            |p: PeerView| flutter_peer_of(p),
        ),
{
    let mut made: Vec<FlutterPeer> = Vec::new();
    let ghost all = crate::registry::peer_views(peers@);
    for peer in it: peers
        invariant
            all == crate::registry::peer_views(it.seq()),
            made.len() == it.index(),
            forall|j: int| 0 <= j < made.len() ==> made[j]@ == flutter_peer_of(all[j]),
    {
        made.push(FlutterPeer::from(peer));
    }
    made
}

/// The version of the engine that an application embeds.
pub fn get_version() -> (version: String)
    ensures
        version@ == "1.0.0"@,
{
    String::from_str("1.0.0")
}

/// How long a discovery that the application asks for waits: the seconds
/// it names. An engine whose discovery was not started refuses.
pub fn discovery_timeout(started: bool, timeout_seconds: u64) -> (span: Result<TimeSpan, String>)
    ensures
        match span {
            Ok(wait) => started && wait == (TimeSpan { secs: timeout_seconds, nanos: 0 }),
            Err(reason) => !started && reason@ == "Discovery not started"@,
        },
{
    if started {
        Ok(TimeSpan::from_secs(timeout_seconds))
    } else {
        Err(String::from_str("Discovery not started"))
    }
}

/// The settings with which an application's device takes part.
pub open spec fn engine_config_of(device_name: Seq<char>, device_type: Seq<char>) -> DiscoveryConfigView {
    DiscoveryConfigView {
        service_type: "_qopyapp._tcp.local."@,
        service_name: device_name,
        port: 8080,
        properties: Map::empty().insert("version"@, "1.0.0"@).insert("device_type"@, device_type),
        discovery_timeout: TimeSpan { secs: 10, nanos: 0 },
        announce_interval: TimeSpan { secs: 30, nanos: 0 },
    }
}

/// The settings with which an application's device takes part: the device's
/// name as the service name, and its kind and the engine's version as
/// properties.
pub fn engine_config(device_name: String, device_type: String) -> (config: DiscoveryConfig)
    ensures
        config@ == engine_config_of(device_name@, device_type@),
{
    let mut properties: Properties = StringMap::new();
    properties.insert(String::from_str("version"), get_version());
    properties.insert(String::from_str("device_type"), device_type);
    DiscoveryConfig {
        service_type: String::from_str("_qopyapp._tcp.local."),
        service_name: device_name,
        port: 8080,
        properties,
        discovery_timeout: TimeSpan::from_secs(10),
        announce_interval: TimeSpan::from_secs(30),
    }
}

} // verus!
