use arp_resolver::addr::{Ipv4Address, MacAddress};

#[test]
fn broadcast_is_all_ones() {
    assert_eq!(MacAddress::broadcast(), MacAddress(0xff, 0xff, 0xff, 0xff, 0xff, 0xff));
    assert!(MacAddress::broadcast().is_broadcast());
    assert!(!MacAddress(0xff, 0xff, 0xff, 0xff, 0xff, 0xfe).is_broadcast());
    assert!(!MacAddress(0, 0xff, 0xff, 0xff, 0xff, 0xff).is_broadcast());
}

#[test]
fn mac_octets_keep_their_order() {
    let mac = MacAddress::from_octets([1, 2, 3, 4, 5, 6]);
    assert_eq!(mac, MacAddress(1, 2, 3, 4, 5, 6));
    assert_eq!(mac.octets(), [1, 2, 3, 4, 5, 6]);
}

#[test]
fn ipv4_octets_keep_their_order() {
    let ip = Ipv4Address::from_octets([192, 168, 1, 20]);
    assert_eq!(ip, Ipv4Address(192, 168, 1, 20));
    assert_eq!(ip.octets(), [192, 168, 1, 20]);
}
