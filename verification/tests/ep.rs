use ucx_sys::ep::{
    EpAttr, EpAttrFields, ModifyParamsBuilder, ParamsBuilder, ParamsFlags, UcpEpFields,
    ucp_ep_attr_t, Ep, EpHandle, UCP_EP_PARAM_FIELD_CONN_REQUEST, UCP_EP_PARAM_FIELD_ERR_HANDLER,
    UCP_EP_PARAM_FIELD_ERR_HANDLING_MODE, UCP_EP_PARAM_FIELD_FLAGS, UCP_EP_PARAM_FIELD_LOCAL_SOCK_ADDR,
    UCP_EP_PARAM_FIELD_NAME, UCP_EP_PARAM_FIELD_REMOTE_ADDRESS, UCP_EP_PARAM_FIELD_SOCK_ADDR,
    UCP_EP_PARAM_FIELD_USER_DATA,
};
use ucx_sys::sockaddr::{SockAddr, SocketAddr};
use ucx_sys::types::ucp_err_handling_mode_t;
use ucx_sys::ucs_status_t;
use ucx_sys::worker::RemoteWorkerAddress;

#[test]
fn test_ep_fields_none_has_zero_bits() {
    let fields = UcpEpFields::NoneMode();
    assert_eq!(fields.bits(), 0);
    assert!(fields.is_empty());
}

#[test]
fn test_ep_fields_peer() {
    let fields = UcpEpFields::Peer();
    assert!(fields.contains(UcpEpFields::Peer()));
    assert!(!fields.is_empty());
}

#[test]
fn test_ucp_ep_fields_all() {
    let fields = UcpEpFields::all();
    assert!(!fields.is_empty());
}

#[test]
fn test_ucp_ep_fields_clone_copy() {
    let a = UcpEpFields::Peer();
    #[allow(clippy::clone_on_copy)]
    let b = a.clone();
    assert_eq!(a, b);
    let c = a;
    assert_eq!(a, c);
}

#[test]
fn test_params_flags_empty() {
    let flags = ParamsFlags::empty();
    assert!(flags.is_empty());
    assert!(!flags.contains(ParamsFlags::ClientServer()));
    assert!(!flags.contains(ParamsFlags::NoLoopback()));
}

#[test]
fn test_params_flags_client_server() {
    let flags = ParamsFlags::ClientServer();
    assert!(flags.contains(ParamsFlags::ClientServer()));
    assert!(!flags.contains(ParamsFlags::NoLoopback()));
}

#[test]
fn test_params_flags_no_loopback() {
    let flags = ParamsFlags::NoLoopback();
    assert!(!flags.contains(ParamsFlags::ClientServer()));
    assert!(flags.contains(ParamsFlags::NoLoopback()));
}

#[test]
fn test_params_flags_send_client_id() {
    let flags = ParamsFlags::SendClientId();
    assert!(!flags.contains(ParamsFlags::ClientServer()));
    assert!(!flags.contains(ParamsFlags::NoLoopback()));
    assert!(flags.contains(ParamsFlags::SendClientId()));
}

#[test]
fn test_params_flags_all() {
    let flags = ParamsFlags::all();
    assert!(flags.contains(ParamsFlags::ClientServer()));
    assert!(flags.contains(ParamsFlags::NoLoopback()));
    assert!(flags.contains(ParamsFlags::SendClientId()));
}

#[test]
fn test_params_flags_clone_copy() {
    let a = ParamsFlags::ClientServer() | ParamsFlags::NoLoopback();
    #[allow(clippy::clone_on_copy)]
    let b = a.clone();
    assert_eq!(a, b);
}

#[test]
fn test_params_flags_debug() {
    let flags = ParamsFlags::ClientServer();
    let debug_str = format!("{:?}", flags);
    assert!(!debug_str.is_empty());
}

#[test]
fn test_params_builder_new() {
    let builder = ParamsBuilder::new();
    assert_eq!(builder.field_mask, 0u64);
}

#[test]
fn test_params_builder_default() {
    let builder: ParamsBuilder = Default::default();
    assert_eq!(builder.field_mask, 0u64);
}

#[test]
fn test_params_builder_build_empty() {
    let mut builder = ParamsBuilder::new();
    let params = builder.build();
    assert_eq!(params.handle.field_mask, 0u64);
}

#[test]
fn test_params_builder_name() {
    let mut builder = ParamsBuilder::new();
    let _ = builder.name("test_ep");
    let params = builder.build();
    assert!(params.handle.field_mask & UCP_EP_PARAM_FIELD_NAME != 0);
}

#[test]
fn test_params_builder_chaining_returns_mut_ref() {
    let mut builder = ParamsBuilder::new();
    let result = builder.name("chained").unwrap();
    let _ = result.name("overridden");
    let params = builder.build();
    assert!(params.handle.field_mask & UCP_EP_PARAM_FIELD_NAME != 0);
    assert_eq!(params.name.unwrap(), b"overridden".to_vec());
}

#[test]
fn test_ep_params_field_remote_address_is_bit_0() {
    assert_eq!(UCP_EP_PARAM_FIELD_REMOTE_ADDRESS, 1);
}

#[test]
fn test_ep_params_field_err_handling_mode_is_bit_1() {
    assert_eq!(UCP_EP_PARAM_FIELD_ERR_HANDLING_MODE, 2);
}

#[test]
fn test_ep_params_field_err_handler_is_bit_2() {
    assert_eq!(UCP_EP_PARAM_FIELD_ERR_HANDLER, 4);
}

#[test]
fn test_ep_params_field_user_data_is_bit_3() {
    assert_eq!(UCP_EP_PARAM_FIELD_USER_DATA, 8);
}

#[test]
fn test_ep_params_field_sock_addr_is_bit_4() {
    assert_eq!(UCP_EP_PARAM_FIELD_SOCK_ADDR, 16);
}

#[test]
fn test_ep_params_field_flags_is_bit_5() {
    assert_eq!(UCP_EP_PARAM_FIELD_FLAGS, 32);
}

#[test]
fn test_ep_params_field_conn_request_is_bit_6() {
    assert_eq!(UCP_EP_PARAM_FIELD_CONN_REQUEST, 64);
}

#[test]
fn test_ep_params_field_name_is_bit_7() {
    assert_eq!(UCP_EP_PARAM_FIELD_NAME, 128);
}

#[test]
fn test_ep_params_field_local_sock_addr_is_bit_8() {
    assert_eq!(UCP_EP_PARAM_FIELD_LOCAL_SOCK_ADDR, 256);
}

#[test]
fn test_ep_params_fields_all_distinct() {
    let fields = [
        UCP_EP_PARAM_FIELD_REMOTE_ADDRESS,
        UCP_EP_PARAM_FIELD_ERR_HANDLING_MODE,
        UCP_EP_PARAM_FIELD_ERR_HANDLER,
        UCP_EP_PARAM_FIELD_USER_DATA,
        UCP_EP_PARAM_FIELD_SOCK_ADDR,
        UCP_EP_PARAM_FIELD_FLAGS,
        UCP_EP_PARAM_FIELD_CONN_REQUEST,
        UCP_EP_PARAM_FIELD_NAME,
        UCP_EP_PARAM_FIELD_LOCAL_SOCK_ADDR,
    ];
    for i in 0..fields.len() {
        for j in (i + 1)..fields.len() {
            assert_eq!(fields[i] & fields[j], 0, "Fields {} and {} should be distinct", i, j);
        }
    }
}

#[test]
fn modify_params_only_sets_supported_fields() {
    let mut builder = ModifyParamsBuilder::new();
    let params = builder.user_data(0).build();
    assert_eq!(params.handle.field_mask, UCP_EP_PARAM_FIELD_USER_DATA);
}

#[test]
fn modify_params_sets_error_handler_argument() {
    let argument = 42usize;
    let mut builder = ModifyParamsBuilder::new();
    let params = builder.err_handler_arg(argument).build();
    assert_eq!(params.handle.err_handler.arg, argument);
}

#[test]
fn params_builder_sets_error_handling_mode() {
    let mut builder = ParamsBuilder::new();
    let params = builder.err_mode(ucp_err_handling_mode_t::UCP_ERR_HANDLING_MODE_PEER).build();
    assert_ne!(params.handle.field_mask & UCP_EP_PARAM_FIELD_ERR_HANDLING_MODE, 0);
    assert_eq!(params.handle.err_mode, ucp_err_handling_mode_t::UCP_ERR_HANDLING_MODE_PEER);
}

#[test]
fn params_builder_sets_error_callback_fields() {
    let callback = 0x4000usize;
    let mut builder = ParamsBuilder::new();
    let params = builder.err_handler(callback).user_data(0).build();
    assert_ne!(params.handle.field_mask & UCP_EP_PARAM_FIELD_ERR_HANDLER, 0);
    assert_ne!(params.handle.field_mask & UCP_EP_PARAM_FIELD_USER_DATA, 0);
    assert_eq!(params.handle.err_handler.cb, callback);
}

#[test]
fn err_handler_arg_alone_does_not_advertise_callback() {
    let mut builder = ParamsBuilder::new();
    let params = builder.err_handler_arg(0).build();
    assert_eq!(params.handle.field_mask & UCP_EP_PARAM_FIELD_ERR_HANDLER, 0);
}

#[test]
fn params_builder_rejects_name_with_interior_nul() {
    let mut builder = ParamsBuilder::new();
    let err = builder.name("bad\0name").unwrap_err();
    assert_eq!(err.nul_position, 3);
    let params = builder.build();
    assert_eq!(params.handle.field_mask & UCP_EP_PARAM_FIELD_NAME, 0);
}

#[test]
fn params_builder_addresses_and_flags() {
    let remote = RemoteWorkerAddress::new(vec![1, 2, 3]);
    let sock = SockAddr::new(&SocketAddr::V4 { ip: 0x7f00_0001, port: 13337 });
    let mut builder = ParamsBuilder::new();
    builder
        .address(&remote)
        .sockaddr(&sock)
        .conn_request(0x77)
        .params_flags(ParamsFlags::ClientServer() | ParamsFlags::SendClientId());
    let params = builder.build();
    assert_eq!(
        params.handle.field_mask,
        UCP_EP_PARAM_FIELD_REMOTE_ADDRESS
            | UCP_EP_PARAM_FIELD_SOCK_ADDR
            | UCP_EP_PARAM_FIELD_CONN_REQUEST
            | UCP_EP_PARAM_FIELD_FLAGS
    );
    assert_eq!(params.address.unwrap(), vec![1, 2, 3]);
    assert_eq!(params.sockaddr.unwrap(), sock);
    assert_eq!(params.handle.conn_request, 0x77);
    assert_eq!(params.handle.flags, 0x1 | 0x4);
}

#[test]
fn ep_from_create_and_handle() {
    let ep = Ep::from_create(ucs_status_t::UCS_OK, 0xabc0).unwrap();
    assert_eq!(ep.handle(), EpHandle(0xabc0));
    assert!(matches!(
        Ep::from_create(ucs_status_t::UCS_ERR_UNREACHABLE, 0),
        Err(ucs_status_t::UCS_ERR_UNREACHABLE)
    ));
}

#[test]
fn ep_attr_reports_only_requested_fields() {
    let raw = ucp_ep_attr_t {
        name: "ep0".to_string(),
        local_sockaddr: ucx_sys::sockaddr::SockAddrStorage {
            family: 2,
            port: 1,
            addr: 2,
            flowinfo: 0,
            scope_id: 0,
        },
        remote_sockaddr: ucx_sys::sockaddr::SockAddrStorage {
            family: 2,
            port: 3,
            addr: 4,
            flowinfo: 0,
            scope_id: 0,
        },
        transports: ucx_sys::ep::Transports { entries: vec![] },
        user_data: 9,
    };
    let a: EpAttr = EpAttr::from_query(
        EpAttrFields::NAME() | EpAttrFields::USER_DATA(),
        ucs_status_t::UCS_OK,
        raw.clone(),
    )
    .unwrap();
    assert_eq!(a.name, "ep0");
    assert!(a.local_sockaddr.is_none());
    assert!(a.remote_sockaddr.is_none());
    assert!(a.transports.is_none());
    assert_eq!(a.user_data, Some(9));
    assert!(matches!(
        EpAttr::from_query(EpAttrFields::all(), ucs_status_t::UCS_ERR_NO_ELEM, raw),
        Err(ucs_status_t::UCS_ERR_NO_ELEM)
    ));
}
