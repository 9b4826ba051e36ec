use trading_post::error::Error;
use trading_post::topology::{contact_points, rewrite, SocketAddress, VirtualTopology};

#[test]
fn rewrite_moves_the_network_part() {
    let addr = SocketAddress::V4 { ip: [10, 0, 0, 7], port: 9042 };
    let r = rewrite(&addr, &[255, 255, 255, 0], &[127, 0, 0, 0]);
    assert!(matches!(r, Ok(SocketAddress::V4 { ip: [127, 0, 0, 7], port: 9042 })));
}

#[test]
fn rewrite_mixes_bits_within_an_octet() {
    let addr = SocketAddress::V4 { ip: [192, 168, 0xAB, 0xCD], port: 1 };
    let r = rewrite(&addr, &[255, 255, 0xF0, 0], &[10, 1, 0x20, 0xFF]);
    assert!(matches!(r, Ok(SocketAddress::V4 { ip: [10, 1, 0x2B, 0xCD], port: 1 })));
}

#[test]
fn rewrite_refuses_ipv6() {
    let addr = SocketAddress::V6 { segments: [0, 0, 0, 0, 0, 0, 0, 1], port: 9042 };
    let r = rewrite(&addr, &[255, 255, 255, 0], &[127, 0, 0, 0]);
    assert!(matches!(r, Err(Error::ConfigurationFatal(_))));
}

#[test]
fn topology_applies_its_fixed_mask() {
    let topology = VirtualTopology::new([255, 255, 0, 0], [172, 16, 0, 0]);
    let r = topology.connection_address(&SocketAddress::V4 { ip: [10, 9, 8, 7], port: 7000 });
    assert_eq!(r.ok(), Some(SocketAddress::V4 { ip: [172, 16, 8, 7], port: 7000 }));
}

#[test]
fn unparsed_contact_points_are_skipped() {
    let a = SocketAddress::V4 { ip: [1, 2, 3, 4], port: 9042 };
    let b = SocketAddress::V4 { ip: [5, 6, 7, 8], port: 9043 };
    assert_eq!(contact_points(&vec![None, Some(a), None, Some(b)]), vec![a, b]);
    assert!(contact_points(&vec![None]).is_empty());
}
