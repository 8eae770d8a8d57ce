use p2p_core::{IpAddress, PeerDiscoveryError, Properties, ServiceRegistration, StringMap};

fn registration(ip: IpAddress) -> ServiceRegistration {
    ServiceRegistration {
        service_type: "_qopyapp._tcp.local.".to_string(),
        service_name: "desk".to_string(),
        host_name: "desk.local.".to_string(),
        ip,
        port: 4242,
        properties: StringMap::new(),
    }
}

fn with_properties(pairs: &[(&str, &str)]) -> ServiceRegistration {
    let mut properties: Properties = StringMap::new();
    for (key, value) in pairs {
        properties.insert(key.to_string(), value.to_string());
    }
    let mut made = registration(IpAddress::V4([10, 0, 0, 5]));
    made.properties = properties;
    made
}

fn groups_of(seed: u64) -> [u16; 8] {
    // a small generator that favours zero groups
    let mut state = seed.wrapping_mul(6364136223846793005).wrapping_add(1442695040888963407);
    let mut groups = [0u16; 8];
    for group in groups.iter_mut() {
        state = state.wrapping_mul(6364136223846793005).wrapping_add(1442695040888963407);
        let pick = (state >> 33) % 4;
        *group = if pick < 2 { 0 } else if pick == 2 { 0xffff } else { (state >> 40) as u16 };
    }
    groups
}

fn read_back(ip: IpAddress) -> Vec<String> {
    let info = registration(ip).service_info().unwrap();
    info.get_addresses().iter().map(|a| a.to_string()).collect()
}

#[test]
fn the_engine_record_holds_the_registration() {
    let info = registration(IpAddress::V4([192, 168, 1, 100])).service_info().unwrap();
    assert_eq!(info.get_fullname(), "desk._qopyapp._tcp.local.");
    assert_eq!(info.get_type(), "_qopyapp._tcp.local.");
    assert_eq!(info.get_hostname(), "desk.local.");
    assert_eq!(info.get_port(), 4242);
    assert!(info.get_properties().is_empty());
    assert_eq!(read_back(IpAddress::V4([192, 168, 1, 100])), vec!["192.168.1.100".to_string()]);
}

#[test]
fn the_engine_reads_every_address_text_back_as_written() {
    for seed in 0..3000u64 {
        let ip = IpAddress::V6(groups_of(seed));
        assert_eq!(read_back(ip), vec![ip.to_string()]);
    }
    for a in [0u8, 1, 9, 10, 99, 100, 199, 200, 255] {
        for b in [0u8, 7, 42, 128, 255] {
            let ip = IpAddress::V4([a, b, b, a]);
            assert_eq!(read_back(ip), vec![ip.to_string()]);
        }
    }
}

#[test]
fn the_engine_record_holds_the_properties() {
    let info = with_properties(&[("version", "1.0.0"), ("device_type", "tablet"), ("empty", "")])
        .service_info()
        .unwrap();
    assert_eq!(info.get_properties().len(), 3);
    assert_eq!(info.get_property_val_str("version"), Some("1.0.0"));
    assert_eq!(info.get_property_val_str("device_type"), Some("tablet"));
    assert_eq!(info.get_property_val_str("empty"), Some(""));
    assert_eq!(info.get_property_val_str("missing"), None);
}

#[test]
fn the_engine_refuses_keys_that_are_not_plain() {
    let failed = with_properties(&[("ok", "1"), ("a=b", "2")]).service_info().unwrap_err();
    assert!(matches!(failed, PeerDiscoveryError::MdnsError(_)));
    assert_eq!(failed.to_string(), "mDNS service error: TXT property key a=b contains '='");

    let failed = with_properties(&[("caf\u{e9}", "2")]).service_info().unwrap_err();
    assert!(matches!(failed, PeerDiscoveryError::MdnsError(_)));
    assert_eq!(failed.to_string(), "mDNS service error: TXT property key caf\u{e9} is not ASCII");

    assert!(with_properties(&[("plain-key_1", "caf\u{e9}=x")]).service_info().is_ok());
}

#[test]
fn pairs_list_every_entry_once() {
    let made = with_properties(&[("a", "1"), ("b", "2"), ("a", "3")]);
    let mut pairs = made.properties.pairs();
    pairs.sort();
    assert_eq!(
        pairs,
        vec![("a".to_string(), "3".to_string()), ("b".to_string(), "2".to_string())]
    );
    let none: Properties = StringMap::new();
    assert!(none.pairs().is_empty());
}
