//! Peer discovery on the local network: the decisions of a multicast
//! service-discovery front end, kept apart from the sockets and tasks that
//! carry them out.
//!
//! The crate tracks which peers are known, turns the raw events of the
//! protocol engine into peer events, carries those events to its
//! subscribers, and runs the start/stop lifecycle of the discovery service.
//! Every operation is synchronous and says in its result what the caller has
//! to do next: register, browse, unregister.

pub mod address;
pub mod api;
pub mod browse;
pub mod config;
pub mod error;
pub mod event_bus;
pub mod laws;
pub mod peer;
pub mod peer_discovery;
pub mod registry;
pub mod string_map;

pub use address::IpAddress;
pub use api::FlutterPeer;
pub use browse::{RawEvent, ResolvedRecord, TxtProperty};
pub use config::{DiscoveryConfig, NetworkInterface, TimeSpan};
pub use error::{ErrorKind, PeerDiscoveryError};
pub use event_bus::{EventBus, EventReceiver, TryRecvError};
pub use peer::{Peer, PeerEvent};
pub use peer_discovery::{
    Command, DiscoverPlan, Lifecycle, PeerDiscovery, ServiceRegistration, StartStep,
    EVENT_CAPACITY,
};
pub use registry::PeerRegistry;
pub use string_map::{Properties, StringMap};
