use ucx_sys::listener::{
    socket_address_params, ConnRequest, ConnRequestAttr, ConnRequestFields, Listener,
    ListenerAttr, ListenerParamFields, ParamsBuilder, UCP_LISTENER_PARAM_FIELD_ACCEPT_HANDLER,
    UCP_LISTENER_PARAM_FIELD_CONN_HANDLER, UCP_LISTENER_PARAM_FIELD_SOCK_ADDR,
};
use ucx_sys::sockaddr::{
    from_storage, sockaddr_net_bytes, storage_from_net_bytes, FlowinfoOrder, SockAddr,
    SockAddrStorage, SockaddrHost, SocketAddr, SOCKADDR_IN_LEN,
};
use ucx_sys::ucs_status_t;

const LINUX_LE: SockaddrHost = SockaddrHost { af_inet: 2, af_inet6: 10, big_endian: false };

#[test]
fn masks_and_ipv4_conversion() {
    assert_eq!(UCP_LISTENER_PARAM_FIELD_SOCK_ADDR, 1);
    let addr = SocketAddr::V4 { ip: 0x7f00_0001, port: 42 };
    let raw = socket_address_params(&addr).sockaddr;
    assert_eq!(raw.addrlen, SOCKADDR_IN_LEN);
    assert_eq!(raw.addrlen, 16);
    let bytes = sockaddr_net_bytes(&raw, FlowinfoOrder::Network, LINUX_LE);
    assert_eq!(bytes.len(), raw.addrlen as usize);
    assert_eq!(bytes, vec![2, 0, 0, 42, 127, 0, 0, 1, 0, 0, 0, 0, 0, 0, 0, 0]);
    let ss = storage_from_net_bytes(&bytes, FlowinfoOrder::Network, LINUX_LE).unwrap();
    assert_eq!(from_storage(&ss), Some(addr));
}

#[test]
fn listener_params_builder_sets_fields() {
    let sock = SockAddr::new(&SocketAddr::V4 { ip: 1, port: 2 });
    let p = ParamsBuilder::new().sockaddr(sock).accept_handler(0x10, 0x11).conn_handler(0x20, 0x21).build();
    assert_eq!(
        p.field_mask,
        UCP_LISTENER_PARAM_FIELD_SOCK_ADDR
            | UCP_LISTENER_PARAM_FIELD_ACCEPT_HANDLER
            | UCP_LISTENER_PARAM_FIELD_CONN_HANDLER
    );
    assert_eq!(p.sockaddr, sock);
    assert_eq!(p.accept_handler.cb, 0x10);
    assert_eq!(p.accept_handler.arg, 0x11);
    assert_eq!(p.conn_handler.cb, 0x20);
    assert_eq!(p.conn_handler.arg, 0x21);
    let empty: ParamsBuilder = Default::default();
    assert_eq!(empty.build().field_mask, 0);
    assert_eq!(ListenerParamFields::all().bits(), 7);
}

#[test]
fn listener_and_conn_request_handles() {
    let l = Listener::from_create(ucs_status_t::UCS_OK, 0x300).unwrap();
    assert_eq!(l.as_raw(), 0x300);
    assert!(matches!(
        Listener::from_create(ucs_status_t::UCS_ERR_BUSY, 0),
        Err(ucs_status_t::UCS_ERR_BUSY)
    ));
    let c = ConnRequest::from_raw(0x400);
    assert_eq!(c.as_raw(), 0x400);
}

#[test]
fn listener_attr_reads_bound_address() {
    let storage = SockAddrStorage { family: 10, port: 4000, addr: 1, flowinfo: 5, scope_id: 6 };
    let a = ListenerAttr::from_query(ucs_status_t::UCS_OK, storage).unwrap();
    assert_eq!(a.sockaddr, storage);
    assert_eq!(
        a.socket_addr,
        Some(SocketAddr::V6 { ip: 1, port: 4000, flowinfo: 0, scope_id: 0 })
    );
    assert!(ListenerAttr::from_query(ucs_status_t::UCS_ERR_INVALID_PARAM, storage).is_err());
}

#[test]
fn conn_request_attr_reports_requested_fields() {
    let storage = SockAddrStorage { family: 2, port: 80, addr: 0x0a00_0001, flowinfo: 0, scope_id: 0 };
    let both = ConnRequestFields::CLIENT_ADDR() | ConnRequestFields::CLIENT_ID();
    let a = ConnRequestAttr::from_query(both, ucs_status_t::UCS_OK, storage, 77).unwrap();
    assert_eq!(a.client_address, Some(SocketAddr::V4 { ip: 0x0a00_0001, port: 80 }));
    assert_eq!(a.client_id, Some(77));
    let id_only = ConnRequestAttr::from_query(ConnRequestFields::CLIENT_ID(), ucs_status_t::UCS_OK, storage, 77)
        .unwrap();
    assert_eq!(id_only.client_address, None);
    assert_eq!(id_only.client_id, Some(77));
    let bad = SockAddrStorage { family: 1, port: 0, addr: 0, flowinfo: 0, scope_id: 0 };
    let unknown = ConnRequestAttr::from_query(both, ucs_status_t::UCS_OK, bad, 1).unwrap();
    assert_eq!(unknown.client_address, None);
    assert!(matches!(
        ConnRequestAttr::from_query(both, ucs_status_t::UCS_ERR_NOT_CONNECTED, storage, 1),
        Err(ucs_status_t::UCS_ERR_NOT_CONNECTED)
    ));
}

#[test]
fn socket_address_round_trip() {
    let v4 = SocketAddr::V4 { ip: 0xc0a8_0001, port: 8080 };
    let s = SockAddr::new(&v4);
    assert_eq!(s.storage.family, 2);
    assert_eq!(from_storage(&s.storage), Some(v4));
    let v6 = SocketAddr::V6 { ip: 0x2001_0db8 << 96, port: 443, flowinfo: 9, scope_id: 3 };
    let s6 = SockAddr::new(&v6);
    assert_eq!(s6.addrlen, 28);
    assert_eq!(s6.storage.family, 10);
    assert_eq!(s6.storage.flowinfo, 9);
    assert_eq!(
        from_storage(&s6.storage),
        Some(SocketAddr::V6 { ip: 0x2001_0db8 << 96, port: 443, flowinfo: 0, scope_id: 0 })
    );
}
