use p2p_core::{ErrorKind, PeerDiscoveryError};

#[test]
fn each_kind_has_its_heading() {
    let d = || "why".to_string();
    assert_eq!(PeerDiscoveryError::MdnsError(d()).to_string(), "mDNS service error: why");
    assert_eq!(
        PeerDiscoveryError::NetworkInterfaceError(d()).to_string(),
        "Network interface error: why"
    );
    assert_eq!(
        PeerDiscoveryError::ServiceRegistrationFailed(d()).to_string(),
        "Service registration failed: why"
    );
    assert_eq!(
        PeerDiscoveryError::ServiceDiscoveryFailed(d()).to_string(),
        "Service discovery failed: why"
    );
    assert_eq!(PeerDiscoveryError::InvalidServiceType(d()).to_string(), "Invalid service type: why");
    assert_eq!(
        PeerDiscoveryError::DiscoveryTimeout(d()).to_string(),
        "Timeout waiting for discovery: why"
    );
    assert_eq!(PeerDiscoveryError::IoError(d()).to_string(), "IO error: why");
    assert_eq!(PeerDiscoveryError::IoError(String::new()).to_string(), "IO error: ");
}

#[test]
fn kind_and_detail() {
    let e = PeerDiscoveryError::ServiceDiscoveryFailed("no daemon".to_string());
    assert_eq!(e.kind(), ErrorKind::ServiceDiscoveryFailed);
    assert_eq!(e.detail(), "no daemon");
    assert_eq!(PeerDiscoveryError::MdnsError(String::new()).kind(), ErrorKind::Mdns);
    assert_eq!(
        PeerDiscoveryError::NetworkInterfaceError(String::new()).kind(),
        ErrorKind::NetworkInterface
    );
    assert_eq!(
        PeerDiscoveryError::ServiceRegistrationFailed(String::new()).kind(),
        ErrorKind::ServiceRegistrationFailed
    );
    assert_eq!(
        PeerDiscoveryError::InvalidServiceType(String::new()).kind(),
        ErrorKind::InvalidServiceType
    );
    assert_eq!(PeerDiscoveryError::DiscoveryTimeout(String::new()).kind(), ErrorKind::DiscoveryTimeout);
    assert_eq!(PeerDiscoveryError::IoError(String::new()).kind(), ErrorKind::Io);
    let copy = e.clone();
    assert_eq!(copy.to_string(), e.to_string());
}

#[test]
fn engine_failures_become_mdns_errors() {
    let e = PeerDiscoveryError::from(mdns_sd::Error::Msg("socket busy".to_string()));
    assert!(matches!(e, PeerDiscoveryError::MdnsError(_)));
    assert_eq!(e.to_string(), "mDNS service error: socket busy");
    let e = PeerDiscoveryError::from(mdns_sd::Error::Again);
    assert_eq!(e.to_string(), "mDNS service error: try again");
    let e: PeerDiscoveryError = mdns_sd::Error::ParseIpAddr("bad".to_string()).into();
    assert_eq!(e.to_string(), "mDNS service error: parsing of ip addr failed, reason: bad");
}

#[test]
fn io_failures_become_io_errors() {
    let io = std::io::Error::new(std::io::ErrorKind::Other, "disk on fire");
    let e = PeerDiscoveryError::from(io);
    assert!(matches!(e, PeerDiscoveryError::IoError(_)));
    assert_eq!(e.to_string(), "IO error: disk on fire");
}
