//! Tests for the interface record builder and the get/set pipeline run
//! against the interface table model.

use ifaddr::addr::{AddrRecord, IfError, IpAddress, AF_INET};
use ifaddr::iface::{get_ip, set_ip, IfReq, IFNAMSIZ};
use ifaddr::table::InterfaceTable;

#[test]
fn from_name_accepts_short_name() {
    let ifr = IfReq::from_name(b"eth0").unwrap();
    assert_eq!(ifr.name.len(), IFNAMSIZ);
    assert_eq!(&ifr.name[..4], &b"eth0"[..]);
    assert!(ifr.name[4..].iter().all(|&b| b == 0));
    assert_eq!(ifr.addr.family, 0);
    assert_eq!(ifr.addr.data, vec![0u8; 14]);
}

#[test]
fn from_name_accepts_name_just_under_limit() {
    // 15 bytes: the longest name that still leaves room for the NUL.
    let name = b"abcdefghijklmno";
    assert_eq!(name.len(), 15);
    let ifr = IfReq::from_name(name).unwrap();
    assert_eq!(&ifr.name[..15], &name[..]);
    assert_eq!(ifr.name[15], 0);
}

#[test]
fn from_name_rejects_name_at_limit() {
    let name = b"abcdefghijklmnop";
    assert_eq!(name.len(), 16);
    assert_eq!(IfReq::from_name(name).unwrap_err(), IfError::NameTooLong);
}

#[test]
fn from_name_rejects_name_over_limit() {
    let name = b"averylonginterfacename0";
    assert!(name.len() > 16);
    assert_eq!(IfReq::from_name(name).unwrap_err(), IfError::NameTooLong);
}

#[test]
fn from_name_rejects_interior_nul() {
    assert_eq!(
        IfReq::from_name(b"eth\0").unwrap_err(),
        IfError::MalformedName
    );
}

#[test]
fn set_ip_embeds_ipv4_record() {
    let mut ifr = IfReq::from_name(b"eth0").unwrap();
    set_ip(&mut ifr, &IpAddress::V4(10, 0, 0, 1)).unwrap();
    assert_eq!(ifr.addr.family, AF_INET);
    assert_eq!(ifr.addr.data, vec![0, 0, 10, 0, 0, 1, 0, 0, 0, 0, 0, 0, 0, 0]);
}

#[test]
fn set_ip_rejects_ipv6_and_leaves_record_alone() {
    let mut ifr = IfReq::from_name(b"eth0").unwrap();
    let r = set_ip(&mut ifr, &IpAddress::V6(0, 0, 0, 0, 0, 0, 0, 1));
    assert_eq!(r.unwrap_err(), IfError::UnsupportedFamily);
    assert_eq!(ifr.addr.family, 0);
    assert_eq!(ifr.addr.data, vec![0u8; 14]);
}

#[test]
fn set_then_get_round_trip_through_table() {
    let mut table = InterfaceTable::new();
    let base = IfReq::from_name(b"eth0").unwrap();
    table.add_interface(base.name.clone(), AddrRecord::zeroed());

    // Set: embed the target address and issue the set control call.
    let mut ifr = IfReq::from_name(b"eth0").unwrap();
    set_ip(&mut ifr, &IpAddress::V4(192, 168, 1, 10)).unwrap();
    table.control_set(&ifr).unwrap();

    // Get: a fresh record, the get control call, then decode.
    let mut ifr2 = IfReq::from_name(b"eth0").unwrap();
    table.control_get(&mut ifr2).unwrap();
    assert_eq!(get_ip(&ifr2), Ok(IpAddress::V4(192, 168, 1, 10)));
}

#[test]
fn get_on_nonexistent_interface_is_a_control_error() {
    let table = InterfaceTable::new();
    let mut ifr = IfReq::from_name(b"doesnotexist0").unwrap();
    assert_eq!(
        table.control_get(&mut ifr).unwrap_err(),
        IfError::NoSuchInterface
    );
}

#[test]
fn set_on_nonexistent_interface_is_a_control_error() {
    let mut table = InterfaceTable::new();
    let mut other = IfReq::from_name(b"eth1").unwrap();
    table.add_interface(other.name.clone(), AddrRecord::zeroed());
    let mut ifr = IfReq::from_name(b"doesnotexist0").unwrap();
    set_ip(&mut ifr, &IpAddress::V4(10, 0, 0, 1)).unwrap();
    assert_eq!(table.control_set(&ifr).unwrap_err(), IfError::NoSuchInterface);
    // The other interface's record is untouched.
    table.control_get(&mut other).unwrap();
    assert_eq!(other.addr.family, 0);
}

#[test]
fn set_changes_only_the_named_interface() {
    let mut table = InterfaceTable::new();
    let a = IfReq::from_name(b"eth0").unwrap();
    let b = IfReq::from_name(b"eth1").unwrap();
    table.add_interface(a.name.clone(), AddrRecord::zeroed());
    table.add_interface(b.name.clone(), AddrRecord::zeroed());

    let mut ifr = IfReq::from_name(b"eth0").unwrap();
    set_ip(&mut ifr, &IpAddress::V4(10, 0, 0, 1)).unwrap();
    table.control_set(&ifr).unwrap();

    let mut ifr_b = IfReq::from_name(b"eth1").unwrap();
    table.control_get(&mut ifr_b).unwrap();
    assert_eq!(ifr_b.addr.family, 0);

    let mut ifr_a = IfReq::from_name(b"eth0").unwrap();
    table.control_get(&mut ifr_a).unwrap();
    assert_eq!(get_ip(&ifr_a), Ok(IpAddress::V4(10, 0, 0, 1)));
}
