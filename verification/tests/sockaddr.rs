use ucx_sys::sockaddr::{
    from_storage, sockaddr_net_bytes, storage_from_net_bytes, FlowinfoOrder, SockAddr,
    SockAddrStorage, SockaddrHost, SocketAddr, AF_UNSPEC, SOCKADDR_IN6_LEN,
};

const LINUX_LE: SockaddrHost = SockaddrHost { af_inet: 2, af_inet6: 10, big_endian: false };

fn v6_sample() -> SocketAddr {
    SocketAddr::V6 {
        ip: 0x2001_0db8_0000_0000_0000_0000_0000_0001,
        port: 0x1234,
        flowinfo: 0x0102_0304,
        scope_id: 7,
    }
}

#[test]
fn ipv6_bytes_with_network_flowinfo() {
    let s = SockAddr::new(&v6_sample());
    let bytes = sockaddr_net_bytes(&s, FlowinfoOrder::Network, LINUX_LE);
    assert_eq!(bytes.len(), SOCKADDR_IN6_LEN as usize);
    assert_eq!(
        bytes,
        vec![
            10, 0, 0x12, 0x34, 1, 2, 3, 4, 0x20, 0x01, 0x0d, 0xb8, 0, 0, 0, 0, 0, 0, 0, 0, 0, 0,
            0, 1, 7, 0, 0, 0
        ]
    );
}

#[test]
fn ipv6_bytes_with_host_flowinfo() {
    let s = SockAddr::new(&v6_sample());
    let bytes = sockaddr_net_bytes(&s, FlowinfoOrder::Host, LINUX_LE);
    assert_eq!(&bytes[0..4], &[10, 0, 0x12, 0x34]);
    assert_eq!(&bytes[4..8], &[4, 3, 2, 1]);
    assert_eq!(&bytes[24..28], &[7, 0, 0, 0]);
}

#[test]
fn ipv6_bytes_read_back_in_either_order() {
    let s = SockAddr::new(&v6_sample());
    for order in [FlowinfoOrder::Network, FlowinfoOrder::Host] {
        let bytes = sockaddr_net_bytes(&s, order, LINUX_LE);
        assert_eq!(storage_from_net_bytes(&bytes, order, LINUX_LE), Some(s.storage));
    }
    let bytes = sockaddr_net_bytes(&s, FlowinfoOrder::Network, LINUX_LE);
    let back = storage_from_net_bytes(&bytes, FlowinfoOrder::Network, LINUX_LE).unwrap();
    assert_eq!(
        from_storage(&back),
        Some(SocketAddr::V6 {
            ip: 0x2001_0db8_0000_0000_0000_0000_0000_0001,
            port: 0x1234,
            flowinfo: 0,
            scope_id: 0
        })
    );
}

#[test]
fn port_is_written_most_significant_byte_first() {
    let s = SockAddr::new(&SocketAddr::V4 { ip: 0x0a00_0001, port: 0x1f90 });
    let bytes = sockaddr_net_bytes(&s, FlowinfoOrder::Network, LINUX_LE);
    assert_eq!(&bytes[2..4], &[0x1f, 0x90]);
    assert_eq!(&bytes[4..8], &[10, 0, 0, 1]);
}

#[test]
fn other_families_have_no_bytes() {
    let s = SockAddr {
        storage: SockAddrStorage { family: 1, port: 0, addr: 0, flowinfo: 0, scope_id: 0 },
        addrlen: 0,
    };
    assert!(sockaddr_net_bytes(&s, FlowinfoOrder::Network, LINUX_LE).is_empty());
}

#[test]
fn short_bytes_are_not_read_and_other_families_read_as_unspecified() {
    assert_eq!(storage_from_net_bytes(&[2], FlowinfoOrder::Network, LINUX_LE), None);
    assert_eq!(storage_from_net_bytes(&[2, 0, 0, 42, 127, 0, 0, 1], FlowinfoOrder::Network, LINUX_LE), None);
    assert_eq!(storage_from_net_bytes(&[10, 0, 0, 42], FlowinfoOrder::Host, LINUX_LE), None);
    let other = storage_from_net_bytes(&[1, 0, 0, 0], FlowinfoOrder::Host, LINUX_LE).unwrap();
    assert_eq!(
        other,
        SockAddrStorage { family: AF_UNSPEC, port: 0, addr: 0, flowinfo: 0, scope_id: 0 }
    );
    assert_eq!(from_storage(&other), None);
}

#[test]
fn big_endian_host_stores_family_scope_and_host_flowinfo_most_significant_first() {
    let host = SockaddrHost { af_inet: 2, af_inet6: 10, big_endian: true };
    let s = SockAddr::new(&v6_sample());
    let bytes = sockaddr_net_bytes(&s, FlowinfoOrder::Host, host);
    assert_eq!(&bytes[0..2], &[0, 10]);
    assert_eq!(&bytes[2..4], &[0x12, 0x34]);
    assert_eq!(&bytes[4..8], &[1, 2, 3, 4]);
    assert_eq!(&bytes[24..28], &[0, 0, 0, 7]);
    assert_eq!(storage_from_net_bytes(&bytes, FlowinfoOrder::Host, host), Some(s.storage));
    let v4 = SockAddr::new(&SocketAddr::V4 { ip: 0x7f00_0001, port: 42 });
    let bytes = sockaddr_net_bytes(&v4, FlowinfoOrder::Network, host);
    assert_eq!(bytes, vec![0, 2, 0, 42, 127, 0, 0, 1, 0, 0, 0, 0, 0, 0, 0, 0]);
}

#[test]
fn host_family_numbers_are_written_and_read_back() {
    let host = SockaddrHost { af_inet: 2, af_inet6: 23, big_endian: false };
    let s = SockAddr::new(&v6_sample());
    let bytes = sockaddr_net_bytes(&s, FlowinfoOrder::Network, host);
    assert_eq!(&bytes[0..2], &[23, 0]);
    let back = storage_from_net_bytes(&bytes, FlowinfoOrder::Network, host).unwrap();
    assert_eq!(back, s.storage);
    assert_eq!(back.family, 10);
    // Linux's IPv6 number means nothing to such a host.
    let linux_bytes = sockaddr_net_bytes(&s, FlowinfoOrder::Network, LINUX_LE);
    let other = storage_from_net_bytes(&linux_bytes, FlowinfoOrder::Network, host).unwrap();
    assert_eq!(other.family, AF_UNSPEC);
    assert_eq!(from_storage(&other), None);
}
