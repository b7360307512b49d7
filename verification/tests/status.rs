use ucx_sys::request::Request;
use ucx_sys::status::{status_as_ptr, status_ptr_is_err};
use ucx_sys::{status_from_ptr, status_ptr_to_result, status_to_result, ucs_status_t};

#[test]
fn status_ptr_to_result_immediate_completion() {
    assert!(matches!(status_ptr_to_result(0usize), Ok(None)));
}

#[test]
fn status_ptr_to_result_decodes_error() {
    let ptr = (ucs_status_t::UCS_ERR_NO_MEMORY.code() as isize) as usize;
    assert!(matches!(status_ptr_to_result(ptr), Err(ucs_status_t::UCS_ERR_NO_MEMORY)));
}

#[test]
fn status_from_ptr_unknown_error_is_generic() {
    assert_eq!(status_from_ptr((-101i32) as isize as usize), ucs_status_t::UCS_ERR_LAST);
}

#[test]
fn request_check_finished_on_freed_handle_is_complete() {
    let request = Request { handle: None };
    assert_eq!(request.check_finished(ucs_status_t::UCS_INPROGRESS), Ok(true));
}

#[test]
fn status_ptr_to_result_returns_request_for_addresses() {
    match status_ptr_to_result(0x1000) {
        Ok(Some(r)) => assert_eq!(r.handle, Some(0x1000)),
        _ => panic!("a request address must give a request"),
    }
}

#[test]
fn status_to_result_splits_errors_from_success() {
    assert_eq!(status_to_result(ucs_status_t::UCS_OK), Ok(()));
    assert_eq!(status_to_result(ucs_status_t::UCS_INPROGRESS), Ok(()));
    assert_eq!(
        status_to_result(ucs_status_t::UCS_ERR_NO_MESSAGE),
        Err(ucs_status_t::UCS_ERR_NO_MESSAGE)
    );
    assert_eq!(
        status_to_result(ucs_status_t::UCS_ERR_LAST),
        Err(ucs_status_t::UCS_ERR_LAST)
    );
}

#[test]
fn status_codes_round_trip() {
    let all = [
        ucs_status_t::UCS_OK,
        ucs_status_t::UCS_INPROGRESS,
        ucs_status_t::UCS_ERR_NO_MESSAGE,
        ucs_status_t::UCS_ERR_NO_RESOURCE,
        ucs_status_t::UCS_ERR_IO_ERROR,
        ucs_status_t::UCS_ERR_NO_MEMORY,
        ucs_status_t::UCS_ERR_INVALID_PARAM,
        ucs_status_t::UCS_ERR_UNREACHABLE,
        ucs_status_t::UCS_ERR_TIMED_OUT,
        ucs_status_t::UCS_ERR_UNSUPPORTED,
        ucs_status_t::UCS_ERR_CONNECTION_RESET,
        ucs_status_t::UCS_ERR_FIRST_LINK_FAILURE,
        ucs_status_t::UCS_ERR_LAST_LINK_FAILURE,
        ucs_status_t::UCS_ERR_FIRST_ENDPOINT_FAILURE,
        ucs_status_t::UCS_ERR_ENDPOINT_TIMEOUT,
        ucs_status_t::UCS_ERR_LAST_ENDPOINT_FAILURE,
        ucs_status_t::UCS_ERR_LAST,
    ];
    for s in all {
        assert_eq!(ucs_status_t::from_code(s.code()), Some(s));
    }
    assert_eq!(ucs_status_t::UCS_ERR_NO_MEMORY.code(), -4);
    assert_eq!(ucs_status_t::UCS_ERR_CONNECTION_RESET.code(), -25);
    assert_eq!(ucs_status_t::UCS_ERR_LAST.code(), -100);
    assert_eq!(ucs_status_t::from_code(-26), None);
    assert_eq!(ucs_status_t::from_code(2), None);
}

#[test]
fn status_pointer_round_trip_for_errors() {
    let errors = [
        ucs_status_t::UCS_ERR_IO_ERROR,
        ucs_status_t::UCS_ERR_UNREACHABLE,
        ucs_status_t::UCS_ERR_ENDPOINT_TIMEOUT,
        ucs_status_t::UCS_ERR_LAST,
    ];
    for e in errors {
        let ptr = status_as_ptr(e);
        assert!(status_ptr_is_err(ptr));
        assert!(matches!(status_ptr_to_result(ptr), Err(x) if x == e));
    }
    assert_eq!(status_as_ptr(ucs_status_t::UCS_OK), 0);
    assert_eq!(status_as_ptr(ucs_status_t::UCS_ERR_NO_MEMORY), usize::MAX - 3);
    assert!(!status_ptr_is_err(usize::MAX - 100));
    assert!(status_ptr_is_err(usize::MAX - 99));
}

#[test]
fn status_from_ptr_non_error_low_value_is_generic() {
    assert_eq!(status_from_ptr(usize::MAX - 50), ucs_status_t::UCS_ERR_LAST);
}
