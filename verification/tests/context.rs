use ucx_sys::context::{
    config_c_strings, Config, ConfigError, Context, ContextAttr, Flags, ParamsBuilder,
    UCP_CONTEXT_ATTR_FIELD_NAME, UCP_CONTEXT_ATTR_FIELD_REQUEST_SIZE, UCP_PARAM_FIELD_FEATURES,
    UCP_PARAM_FIELD_MT_WORKERS_SHARED, UCP_PARAM_FIELD_NAME,
};
use ucx_sys::{ucs_status_t, ucs_thread_mode_t};

#[test]
fn config_read_rejects_interior_nul() {
    assert!(matches!(config_c_strings("bad\0name", ""), Err(ConfigError::Nul(_))));
}

#[test]
fn config_modify_rejects_interior_nul() {
    let result = config_c_strings("bad\0name", "y");
    assert!(matches!(result, Err(ConfigError::Nul(_))));
}

#[test]
fn config_modify_rejects_nul_in_value() {
    let result = config_c_strings("PROTO_ENABLE", "y\0");
    assert!(matches!(result, Err(ConfigError::Nul(_))));
}

#[test]
fn context_params_name_rejects_interior_nul() {
    let mut builder = ParamsBuilder::new();
    assert!(builder.name("bad\0name").is_err());
}

#[test]
fn context_rejects_missing_features_before_ffi() {
    let params = ParamsBuilder::new().mt_workers_shared(1).build();
    assert!(matches!(
        Context::check_params(&params),
        Err(ucs_status_t::UCS_ERR_INVALID_PARAM)
    ));
}

#[test]
fn context_rejects_unshared_mt_context() {
    let params = ParamsBuilder::new().features(Flags::Tag()).build();
    assert!(matches!(
        Context::check_params(&params),
        Err(ucs_status_t::UCS_ERR_INVALID_PARAM)
    ));
}

#[test]
fn context_accepts_features_with_shared_workers() {
    let params = ParamsBuilder::new()
        .features(Flags::Tag() | Flags::Rma())
        .mt_workers_shared(1)
        .build();
    assert_eq!(Context::check_params(&params), Ok(()));
    assert_eq!(
        params.handle.field_mask,
        UCP_PARAM_FIELD_FEATURES | UCP_PARAM_FIELD_MT_WORKERS_SHARED
    );
    assert_eq!(params.handle.features, Flags::Tag().bits() | Flags::Rma().bits());
    assert!(params.mt_workers_shared);
}

#[test]
fn context_rejects_empty_features_and_zero_sharing() {
    let params = ParamsBuilder::new().features(Flags::empty()).mt_workers_shared(1).build();
    assert_eq!(Context::check_params(&params), Err(ucs_status_t::UCS_ERR_INVALID_PARAM));
    let params = ParamsBuilder::new().features(Flags::Am()).mt_workers_shared(0).build();
    assert_eq!(Context::check_params(&params), Err(ucs_status_t::UCS_ERR_INVALID_PARAM));
}

#[test]
fn config_c_strings_accepts_clean_strings() {
    let (a, b) = config_c_strings("ucx", "file.conf").unwrap();
    assert_eq!(a, b"ucx".to_vec());
    assert_eq!(b, b"file.conf".to_vec());
    match config_c_strings("ok", "x\0y") {
        Err(ConfigError::Nul(e)) => {
            assert_eq!(e.nul_position, 1);
            assert_eq!(e.bytes, b"x\0y".to_vec());
        }
        _ => panic!("the value holds a NUL"),
    }
}

#[test]
fn config_and_context_from_ucx_results() {
    let c = Config::from_read(ucs_status_t::UCS_OK, 0x1234).unwrap();
    assert_eq!(c.handle, 0x1234);
    assert_eq!(
        Config::from_read(ucs_status_t::UCS_ERR_NO_ELEM, 0).unwrap_err(),
        ConfigError::Ucs(ucs_status_t::UCS_ERR_NO_ELEM)
    );
    let ctx = Context::from_init(ucs_status_t::UCS_OK, 0x99).unwrap();
    assert_eq!(ctx.handle, 0x99);
    assert!(matches!(
        Context::from_init(ucs_status_t::UCS_ERR_NO_DEVICE, 0),
        Err(ucs_status_t::UCS_ERR_NO_DEVICE)
    ));
}

#[test]
fn context_params_name_sets_field() {
    let mut builder = ParamsBuilder::new();
    builder.name("ctx").unwrap();
    let params = builder.build();
    assert_ne!(params.handle.field_mask & UCP_PARAM_FIELD_NAME, 0);
    assert_eq!(params.name.unwrap(), b"ctx".to_vec());
}

#[test]
fn context_attr_name_only_when_asked() {
    let a = ContextAttr::from_query(
        ucs_status_t::UCS_OK,
        UCP_CONTEXT_ATTR_FIELD_REQUEST_SIZE,
        64,
        ucs_thread_mode_t::UCS_THREAD_MODE_MULTI,
        1,
        "n".to_string(),
    )
    .unwrap();
    assert_eq!(a.request_size, 64);
    assert_eq!(a.name, "");
    let b = ContextAttr::from_query(
        ucs_status_t::UCS_OK,
        UCP_CONTEXT_ATTR_FIELD_NAME,
        0,
        ucs_thread_mode_t::UCS_THREAD_MODE_SINGLE,
        0,
        "named".to_string(),
    )
    .unwrap();
    assert_eq!(b.name, "named");
    assert!(matches!(
        ContextAttr::from_query(
            ucs_status_t::UCS_ERR_INVALID_PARAM,
            0,
            0,
            ucs_thread_mode_t::UCS_THREAD_MODE_SINGLE,
            0,
            String::new()
        ),
        Err(ucs_status_t::UCS_ERR_INVALID_PARAM)
    ));
}

#[test]
fn context_flags_union_and_membership() {
    let f = Flags::Tag() | Flags::Stream();
    assert!(f.contains(Flags::Tag()));
    assert!(f.contains(Flags::Stream()));
    assert!(!f.contains(Flags::Rma()));
    assert!(Flags::all().contains(f));
    assert_eq!(Flags::from_bits(f.bits()), Some(f));
    assert_eq!(Flags::from_bits(1u64 << 63), None);
    assert_eq!(Flags::from_bits_truncate(u64::MAX), Flags::all());
}
