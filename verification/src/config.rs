//! The settings of the discovery service, and the choice of the address
//! that the local service is announced on.

use crate::address::IpAddress;
use crate::error::{ErrorKind, ErrorView, PeerDiscoveryError};
use crate::string_map::{Properties, StringMap};
use vstd::prelude::*;
use vstd::string::StringExecFns;

verus! {

/// A span of time: whole seconds, and the billionths of a second beyond
/// them.
#[derive(Clone, Copy, Debug, PartialEq, Eq, Structural)]
pub struct TimeSpan {
    pub secs: u64,
    pub nanos: u32,
}

impl TimeSpan {
    /// A span of `secs` whole seconds.
    pub fn from_secs(secs: u64) -> (span: TimeSpan)
        ensures
            span == (TimeSpan { secs, nanos: 0 }),
    {
        TimeSpan { secs, nanos: 0 }
    }

    /// A span of `millis` thousandths of a second.
    pub fn from_millis(millis: u64) -> (span: TimeSpan)
        ensures
            span.secs == millis / 1000,
            span.nanos == (millis % 1000) * 1_000_000,
    {
        let rest: u32 = (millis % 1000) as u32;
        TimeSpan { secs: millis / 1000, nanos: rest * 1_000_000 }
    }
}

/// One address of one network interface of this host.
#[derive(Debug)]
pub struct NetworkInterface {
    pub name: String,
    pub ip: IpAddress,
    pub is_loopback: bool,
}

/// An interface address as a plain value.
pub struct NetworkInterfaceView {
    pub name: Seq<char>,
    pub ip: IpAddress,
    pub is_loopback: bool,
}

impl View for NetworkInterface {
    type V = NetworkInterfaceView;

    open spec fn view(&self) -> NetworkInterfaceView {
        NetworkInterfaceView { name: self.name@, ip: self.ip, is_loopback: self.is_loopback }
    }
}

impl Clone for NetworkInterface {
    fn clone(&self) -> (c: Self)
        ensures
            c@ == self@,
    {
        NetworkInterface { name: self.name.clone(), ip: self.ip, is_loopback: self.is_loopback }
    }
}

/// The view of each interface address of a sequence.
pub open spec fn interface_views(interfaces: Seq<NetworkInterface>) -> Seq<NetworkInterfaceView> {
    interfaces.map_values(|i: NetworkInterface| i@)
}

/// Whether the local service can be announced on this interface address: it
/// is a four-octet address and no loopback.
pub open spec fn usable(interface: NetworkInterfaceView) -> bool {
    !interface.is_loopback && interface.ip is V4
}

/// The address of the first usable interface, if there is one.
pub open spec fn first_usable(interfaces: Seq<NetworkInterfaceView>) -> Option<IpAddress>
    decreases interfaces.len(),
{
    if interfaces.len() == 0 {
        None
    } else if usable(interfaces[0]) {
        Some(interfaces[0].ip)
    } else {
        first_usable(interfaces.drop_first())
    }
}

/// `first_usable` picks the usable interface of least index, and finds none
/// only where none is usable.
pub proof fn first_usable_is_least(interfaces: Seq<NetworkInterfaceView>)
    ensures
        match first_usable(interfaces) {
            Some(ip) => exists|i: int|
                0 <= i < interfaces.len() && usable(#[trigger] interfaces[i]) && interfaces[i].ip == ip
                    && forall|j: int| 0 <= j < i ==> !usable(#[trigger] interfaces[j]),
            None => forall|i: int| 0 <= i < interfaces.len() ==> !usable(#[trigger] interfaces[i]),
        },
    decreases interfaces.len(),
{
    if interfaces.len() > 0 && !usable(interfaces[0]) {
        let rest = interfaces.drop_first();
        first_usable_is_least(rest);
        match first_usable(rest) {
            Some(ip) => {
                let i = choose|i: int|
                    0 <= i < rest.len() && usable(#[trigger] rest[i]) && rest[i].ip == ip && forall|
                        j: int,
                    | 0 <= j < i ==> !usable(#[trigger] rest[j]);
                assert forall|j: int| 0 <= j < i + 1 implies !usable(#[trigger] interfaces[j]) by {
                    if j > 0 {
                        assert(rest[j - 1] == interfaces[j]);
                    }
                }
            },
            None => {
                assert forall|i: int| 0 <= i < interfaces.len() implies !usable(
                    #[trigger] interfaces[i],
                ) by {
                    if i > 0 {
                        assert(rest[i - 1] == interfaces[i]);
                    }
                }
            },
        }
    }
}

/// The settings of the discovery service.
#[derive(Debug)]
pub struct DiscoveryConfig {
    /// The type of service to announce and to look for, with its domain, as
    /// in `_http._tcp.local.`.
    pub service_type: String,
    /// The name under which the local service is announced.
    pub service_name: String,
    pub port: u16,
    pub properties: Properties,
    /// How long a discovery waits before it reports, where the caller names
    /// no other span.
    pub discovery_timeout: TimeSpan,
    /// Kept with the settings; nothing in this crate acts on it.
    pub announce_interval: TimeSpan,
}

/// The settings as a plain value.
pub struct DiscoveryConfigView {
    pub service_type: Seq<char>,
    pub service_name: Seq<char>,
    pub port: u16,
    pub properties: Map<Seq<char>, Seq<char>>,
    pub discovery_timeout: TimeSpan,
    pub announce_interval: TimeSpan,
}

impl View for DiscoveryConfig {
    type V = DiscoveryConfigView;

    open spec fn view(&self) -> DiscoveryConfigView {
        DiscoveryConfigView {
            service_type: self.service_type@,
            service_name: self.service_name@,
            port: self.port,
            properties: self.properties@,
            discovery_timeout: self.discovery_timeout,
            announce_interval: self.announce_interval,
        }
    }
}

impl Clone for DiscoveryConfig {
    fn clone(&self) -> (c: Self)
        ensures
            c@ == self@,
    {
        DiscoveryConfig {
            service_type: self.service_type.clone(),
            service_name: self.service_name.clone(),
            port: self.port,
            properties: self.properties.clone(),
            discovery_timeout: self.discovery_timeout,
            announce_interval: self.announce_interval,
        }
    }
}

/// The settings that `DiscoveryConfig::default()` gives.
pub open spec fn default_config() -> DiscoveryConfigView {
    DiscoveryConfigView {
        service_type: "_qopyapp._tcp.local."@,
        service_name: "qopyapp-device"@,
        port: 8080,
        properties: Map::empty(),
        discovery_timeout: TimeSpan { secs: 10, nanos: 0 },
        announce_interval: TimeSpan { secs: 30, nanos: 0 },
    }
}

impl Default for DiscoveryConfig {
    fn default() -> (c: Self)
        ensures
            c@ == default_config(),
    {
        DiscoveryConfig {
            service_type: String::from_str("_qopyapp._tcp.local."),
            service_name: String::from_str("qopyapp-device"),
            port: 8080,
            properties: StringMap::new(),
            discovery_timeout: TimeSpan::from_secs(10),
            announce_interval: TimeSpan::from_secs(30),
        }
    }
}

/// The failure that a host without a usable interface gives.
pub open spec fn no_interface_error() -> ErrorView {
    ErrorView { kind: ErrorKind::NetworkInterface, detail: "No suitable network interface found"@ }
}

/// The failure that a host gives that cannot list its interfaces.
pub open spec fn listing_error(reason: Seq<char>) -> ErrorView {
    ErrorView { kind: ErrorKind::Io, detail: reason }
}

/// What `ip_address` makes of a listing of the interfaces: the first usable
/// address; a network-interface failure where none is usable; an I/O failure
/// with the host's reason where the host could not list them.
pub open spec fn local_address(listing: Result<Seq<NetworkInterfaceView>, Seq<char>>) -> Result<
    IpAddress,
    ErrorView,
> {
    match listing {
        Ok(interfaces) => match first_usable(interfaces) {
            Some(ip) => Ok(ip),
            None => Err(no_interface_error()),
        },
        Err(reason) => Err(listing_error(reason)),
    }
}

/// A listing of the interfaces, or the reason why there is none, as a plain
/// value.
pub open spec fn listing_view(listing: Result<Vec<NetworkInterface>, String>) -> Result<
    Seq<NetworkInterfaceView>,
    Seq<char>,
> {
    match listing {
        Ok(interfaces) => Ok(interface_views(interfaces@)),
        Err(reason) => Err(reason@),
    }
}

impl DiscoveryConfig {
    /// The address to announce the local service on: that of the first
    /// listed interface that is no loopback and has a four-octet address.
    /// `listing` is what the host said of its interfaces: their addresses, or
    /// the reason why it could not list them, which becomes the detail of an
    /// I/O failure.
    pub fn ip_address(listing: &Result<Vec<NetworkInterface>, String>) -> (chosen: Result<
        IpAddress,
        PeerDiscoveryError,
    >)
        ensures
            match chosen {
                Ok(ip) => local_address(listing_view(*listing)) == Ok::<IpAddress, ErrorView>(ip),
                Err(e) => local_address(listing_view(*listing)) == Err::<IpAddress, ErrorView>(e@),
            },
    {
        match listing {
            Ok(interfaces) => {
                let mut i: usize = 0;
                assert(interface_views(interfaces@).skip(0) =~= interface_views(interfaces@));
                while i < interfaces.len()
                    invariant
                        i <= interfaces.len(),
                        listing_view(*listing) == Ok::<Seq<NetworkInterfaceView>, Seq<char>>(
                            interface_views(interfaces@),
                        ),
                        first_usable(interface_views(interfaces@)) == first_usable(
                            interface_views(interfaces@).skip(i as int),
                        ),
                    decreases interfaces.len() - i,
                {
                    let ghost rest = interface_views(interfaces@).skip(i as int);
                    assert(rest.drop_first() =~= interface_views(interfaces@).skip(i + 1));
                    if !interfaces[i].is_loopback && interfaces[i].ip.is_ipv4() {
                        return Ok(interfaces[i].ip);
                    }
                    i += 1;
                }
                Err(
                    PeerDiscoveryError::NetworkInterfaceError(
                        String::from_str("No suitable network interface found"),
                    ),
                )
            },
            Err(reason) => Err(PeerDiscoveryError::IoError(reason.clone())),
        }
    }
}

} // verus!
