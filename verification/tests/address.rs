use p2p_core::IpAddress;

fn v6(groups: [u16; 8]) -> String {
    IpAddress::V6(groups).to_string()
}

#[test]
fn dotted_quads() {
    assert_eq!(IpAddress::V4([10, 0, 0, 5]).to_string(), "10.0.0.5");
    assert_eq!(IpAddress::V4([0, 0, 0, 0]).to_string(), "0.0.0.0");
    assert_eq!(IpAddress::V4([255, 255, 255, 255]).to_string(), "255.255.255.255");
    assert_eq!(IpAddress::V4([192, 168, 1, 100]).to_string(), "192.168.1.100");
    assert_eq!(IpAddress::V4([9, 10, 99, 100]).to_string(), "9.10.99.100");
    assert_eq!(IpAddress::V4([127, 0, 0, 1]).to_string(), "127.0.0.1");
    assert_eq!(IpAddress::V4([1, 20, 201, 109]).to_string(), "1.20.201.109");
}

#[test]
fn colon_groups_shorten_the_longest_zero_run() {
    assert_eq!(v6([0, 0, 0, 0, 0, 0, 0, 0]), "::");
    assert_eq!(v6([0, 0, 0, 0, 0, 0, 0, 1]), "::1");
    assert_eq!(v6([0x2001, 0xdb8, 0, 0, 0, 0, 0, 1]), "2001:db8::1");
    assert_eq!(v6([0xfe80, 0, 0, 0, 0x1234, 0xabcd, 0xf, 0x10]), "fe80::1234:abcd:f:10");
    assert_eq!(v6([1, 0, 0, 0, 0, 0, 0, 0]), "1::");
    assert_eq!(v6([0, 0, 1, 0, 0, 0, 0, 0]), "0:0:1::");
    assert_eq!(v6([1, 2, 3, 4, 5, 6, 7, 8]), "1:2:3:4:5:6:7:8");
    assert_eq!(v6([0xffff, 0xffff, 0xffff, 0xffff, 0xffff, 0xffff, 0xffff, 0xffff]),
        "ffff:ffff:ffff:ffff:ffff:ffff:ffff:ffff");
}

#[test]
fn of_two_runs_of_one_length_the_first_is_shortened() {
    assert_eq!(v6([1, 0, 0, 2, 0, 0, 3, 4]), "1::2:0:0:3:4");
    assert_eq!(v6([1, 0, 0, 2, 0, 0, 0, 3]), "1:0:0:2::3");
    assert_eq!(v6([0, 0, 1, 0, 0, 2, 0, 0]), "::1:0:0:2:0:0");
}

#[test]
fn a_single_zero_group_is_written_out() {
    assert_eq!(v6([1, 0, 2, 0, 3, 0, 4, 0]), "1:0:2:0:3:0:4:0");
    assert_eq!(v6([0, 1, 2, 3, 4, 5, 6, 7]), "0:1:2:3:4:5:6:7");
    assert_eq!(v6([1, 2, 3, 4, 5, 6, 7, 0]), "1:2:3:4:5:6:7:0");
}

#[test]
fn an_embedded_four_octet_address_is_a_dotted_quad() {
    assert_eq!(v6([0, 0, 0, 0, 0, 0xffff, 0xc0a8, 0x0164]), "::ffff:192.168.1.100");
    assert_eq!(v6([0, 0, 0, 0, 0, 0xffff, 0, 0]), "::ffff:0.0.0.0");
    // not embedded: the sixth group is not ffff
    assert_eq!(v6([0, 0, 0, 0, 0, 0, 0xc0a8, 0x0164]), "::c0a8:164");
    assert_eq!(v6([0, 0, 0, 0, 1, 0xffff, 0xc0a8, 0x0164]), "::1:ffff:c0a8:164");
}

#[test]
fn kinds_and_equality() {
    let four = IpAddress::V4([10, 0, 0, 5]);
    let six = IpAddress::V6([0, 0, 0, 0, 0, 0, 0, 1]);
    assert!(four.is_ipv4());
    assert!(!six.is_ipv4());
    assert!(four.same_as(&IpAddress::V4([10, 0, 0, 5])));
    assert!(!four.same_as(&IpAddress::V4([10, 0, 0, 6])));
    assert!(!four.same_as(&six));
    assert!(six.same_as(&IpAddress::V6([0, 0, 0, 0, 0, 0, 0, 1])));
    assert!(!six.same_as(&IpAddress::V6([0, 0, 0, 0, 0, 0, 1, 1])));
}
