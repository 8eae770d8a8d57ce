use p2p_core::api::{discovery_timeout, engine_config, flutter_peers, get_version};
use p2p_core::{FlutterPeer, IpAddress, Peer, Properties, StringMap, TimeSpan};

fn peer(name: &str, ip: IpAddress, device: Option<&str>) -> Peer {
    let mut properties: Properties = StringMap::new();
    properties.insert("version".to_string(), "1.0.0".to_string());
    if let Some(device) = device {
        properties.insert("device_type".to_string(), device.to_string());
    }
    Peer {
        name: name.to_string(),
        ip,
        port: 8080,
        service_type: "_qopyapp._tcp.local.".to_string(),
        properties,
    }
}

#[test]
fn a_peer_in_application_form() {
    let made = FlutterPeer::from(peer("alice", IpAddress::V4([10, 0, 0, 5]), Some("phone")));
    assert_eq!(made.id, "alice");
    assert_eq!(made.name, "alice");
    assert_eq!(made.ip, "10.0.0.5");
    assert_eq!(made.port, 8080);
    assert_eq!(made.device_type, "phone");
    assert_eq!(made.properties.len(), 2);
    assert_eq!(made.properties.get("version").unwrap(), "1.0.0");
    let copy = made.clone();
    assert_eq!(copy.device_type, "phone");
}

#[test]
fn a_peer_without_device_type_is_unknown() {
    let made: FlutterPeer = peer("bob", IpAddress::V6([0xfe80, 0, 0, 0, 0, 0, 0, 2]), None).into();
    assert_eq!(made.device_type, "unknown");
    assert_eq!(made.ip, "fe80::2");
    assert_eq!(made.properties.len(), 1);
}

#[test]
fn peers_keep_their_order() {
    let made = flutter_peers(vec![
        peer("alice", IpAddress::V4([10, 0, 0, 5]), Some("phone")),
        peer("bob", IpAddress::V4([10, 0, 0, 6]), None),
    ]);
    assert_eq!(made.len(), 2);
    assert_eq!(made[0].name, "alice");
    assert_eq!(made[1].name, "bob");
    assert_eq!(made[1].device_type, "unknown");
    assert!(flutter_peers(Vec::new()).is_empty());
}

#[test]
fn engine_settings() {
    assert_eq!(get_version(), "1.0.0");
    let config = engine_config("kitchen-tablet".to_string(), "tablet".to_string());
    assert_eq!(config.service_type, "_qopyapp._tcp.local.");
    assert_eq!(config.service_name, "kitchen-tablet");
    assert_eq!(config.port, 8080);
    assert_eq!(config.properties.len(), 2);
    assert_eq!(config.properties.get("version").unwrap(), "1.0.0");
    assert_eq!(config.properties.get("device_type").unwrap(), "tablet");
    assert_eq!(config.discovery_timeout, TimeSpan::from_secs(10));
    assert_eq!(config.announce_interval, TimeSpan::from_secs(30));
}

#[test]
fn an_engine_that_was_not_started_refuses_to_discover() {
    assert_eq!(discovery_timeout(false, 5).unwrap_err(), "Discovery not started");
    assert_eq!(discovery_timeout(true, 5).unwrap(), TimeSpan { secs: 5, nanos: 0 });
    assert_eq!(discovery_timeout(true, 0).unwrap(), TimeSpan { secs: 0, nanos: 0 });
}
