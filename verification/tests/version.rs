use ucx_sys::version::{init_raw, LibAttr, UCP_LIB_ATTR_FIELD_MAX_THREAD_LEVEL};
use ucx_sys::{ucs_status_t, ucs_thread_mode_t};

#[test]
fn lib_attr_from_query() {
    assert_eq!(UCP_LIB_ATTR_FIELD_MAX_THREAD_LEVEL, 1);
    let a = LibAttr::from_query(ucs_status_t::UCS_OK, ucs_thread_mode_t::UCS_THREAD_MODE_MULTI).unwrap();
    assert_eq!(a.max_thread_level, ucs_thread_mode_t::UCS_THREAD_MODE_MULTI);
    assert!(matches!(
        LibAttr::from_query(ucs_status_t::UCS_ERR_UNSUPPORTED, ucs_thread_mode_t::UCS_THREAD_MODE_SINGLE),
        Err(ucs_status_t::UCS_ERR_UNSUPPORTED)
    ));
}

#[test]
fn legacy_init_is_unsupported() {
    assert_eq!(init_raw(), Err(ucs_status_t::UCS_ERR_UNSUPPORTED));
}
