use p2p_core::{IpAddress, Peer, PeerRegistry, Properties, StringMap};

fn peer(name: &str, last: u8, port: u16) -> Peer {
    let mut properties: Properties = StringMap::new();
    properties.insert("version".to_string(), "1.0.0".to_string());
    Peer {
        name: name.to_string(),
        ip: IpAddress::V4([10, 0, 0, last]),
        port,
        service_type: "_qopyapp._tcp.local.".to_string(),
        properties,
    }
}

#[test]
fn a_new_registry_is_empty() {
    let registry = PeerRegistry::new();
    assert!(registry.is_empty());
    assert_eq!(registry.len(), 0);
    assert!(registry.snapshot().is_empty());
    assert!(registry.get("alice").is_none());
}

#[test]
fn upsert_adds_and_replaces() {
    let mut registry = PeerRegistry::new();
    assert!(registry.upsert(peer("alice", 5, 8080)).is_none());
    assert!(registry.upsert(peer("bob", 6, 8081)).is_none());
    assert_eq!(registry.len(), 2);

    let earlier = registry.upsert(peer("alice", 7, 9090)).unwrap();
    assert_eq!(earlier, peer("alice", 5, 8080));
    assert_eq!(registry.len(), 2);
    assert_eq!(registry.get("alice").unwrap(), peer("alice", 7, 9090));
    assert_eq!(registry.get("bob").unwrap(), peer("bob", 6, 8081));
}

#[test]
fn remove_hands_the_record_back() {
    let mut registry = PeerRegistry::new();
    registry.upsert(peer("alice", 5, 8080));
    registry.upsert(peer("bob", 6, 8081));
    registry.upsert(peer("carol", 7, 8082));

    assert!(registry.remove("dave").is_none());
    assert_eq!(registry.len(), 3);
    assert_eq!(registry.remove("bob").unwrap(), peer("bob", 6, 8081));
    assert!(registry.remove("bob").is_none());
    assert_eq!(registry.len(), 2);
    assert!(registry.get("bob").is_none());
    assert_eq!(registry.get("alice").unwrap().port, 8080);
    assert_eq!(registry.get("carol").unwrap().port, 8082);
}

#[test]
fn snapshot_holds_each_peer_once() {
    let mut registry = PeerRegistry::new();
    registry.upsert(peer("alice", 5, 8080));
    registry.upsert(peer("bob", 6, 8081));
    registry.upsert(peer("alice", 5, 8083));
    let mut names: Vec<String> = registry.snapshot().into_iter().map(|p| p.name).collect();
    names.sort();
    assert_eq!(names, vec!["alice".to_string(), "bob".to_string()]);
}

#[test]
fn clear_forgets_every_peer() {
    let mut registry = PeerRegistry::new();
    registry.upsert(peer("alice", 5, 8080));
    registry.upsert(peer("bob", 6, 8081));
    registry.clear();
    assert!(registry.is_empty());
    assert!(registry.get("alice").is_none());
    assert!(registry.snapshot().is_empty());
}

#[test]
fn peers_are_equal_whatever_the_order_of_their_properties() {
    let mut one = peer("alice", 5, 8080);
    one.properties.insert("device_type".to_string(), "phone".to_string());
    let mut other = peer("alice", 5, 8080);
    other.properties = StringMap::new();
    other.properties.insert("device_type".to_string(), "phone".to_string());
    other.properties.insert("version".to_string(), "1.0.0".to_string());
    assert_eq!(one, other);
    assert_eq!(one.clone(), one);

    other.properties.insert("device_type".to_string(), "desktop".to_string());
    assert_ne!(one, other);
    assert_ne!(peer("alice", 5, 8080), peer("alice", 5, 8081));
    assert_ne!(peer("alice", 5, 8080), peer("alice", 6, 8080));
    assert_ne!(peer("alice", 5, 8080), peer("alicf", 5, 8080));
    assert_ne!(peer("alice", 5, 8080), one);
}

#[test]
fn string_map_operations() {
    let mut map: StringMap<String> = StringMap::new();
    assert!(map.is_empty());
    assert!(map.insert("a".to_string(), "1".to_string()).is_none());
    assert!(map.insert("b".to_string(), "2".to_string()).is_none());
    assert_eq!(map.insert("a".to_string(), "3".to_string()).unwrap(), "1");
    assert_eq!(map.len(), 2);
    assert!(map.contains_key("a"));
    assert!(!map.contains_key("c"));
    assert_eq!(map.get("a").unwrap(), "3");
    assert_eq!(map.get("b").unwrap(), "2");
    assert!(map.get("c").is_none());
    assert_eq!(map.keys().len(), 2);
    assert_eq!(map.values().len(), 2);
    for (key, value) in map.keys().iter().zip(map.values().iter()) {
        assert_eq!(map.get(key).unwrap(), value);
    }

    let copy = map.clone();
    assert!(copy.same_entries(&map));
    assert_eq!(map.remove("a").unwrap(), "3");
    assert!(map.remove("a").is_none());
    assert!(!copy.same_entries(&map));
    assert_eq!(map.len(), 1);
    assert_eq!(map.get("b").unwrap(), "2");
    map.clear();
    assert!(map.is_empty());
    assert_eq!(copy.len(), 2);
}
