use ucx_sys::request::Request;
use ucx_sys::tag::{map_tag_recv_test_status, tag_recv_test_result, ucp_tag_recv_info_t, MessageHandle};
use ucx_sys::ucs_status_t;

#[test]
fn tag_recv_test_maps_completed_status_to_info() {
    let info = ucp_tag_recv_info_t { sender_tag: 0xfeed, length: 37 };
    let result = map_tag_recv_test_status(ucs_status_t::UCS_OK, info);
    let info = result
        .expect("completed status should succeed")
        .expect("completed status should include info");
    assert_eq!(info.sender_tag(), 0xfeed);
    assert_eq!(info.len(), 37);
}

#[test]
fn tag_recv_test_maps_inprogress_status_to_none() {
    let unset = ucp_tag_recv_info_t { sender_tag: 0, length: 0 };
    let result = map_tag_recv_test_status(ucs_status_t::UCS_INPROGRESS, unset);
    assert!(result.expect("in-progress status should succeed").is_none());
}

#[test]
fn tag_recv_test_maps_error_status_to_error() {
    let unset = ucp_tag_recv_info_t { sender_tag: 0, length: 0 };
    let result = map_tag_recv_test_status(ucs_status_t::UCS_ERR_IO_ERROR, unset);
    assert!(matches!(result, Err(ucs_status_t::UCS_ERR_IO_ERROR)));
}

#[test]
fn tag_recv_test_of_released_request_reports_nothing() {
    let info = ucp_tag_recv_info_t { sender_tag: 1, length: 2 };
    let released = Request { handle: None };
    assert!(matches!(tag_recv_test_result(&released, ucs_status_t::UCS_OK, info), Ok(None)));
    let live = Request { handle: Some(0x10) };
    let r = tag_recv_test_result(&live, ucs_status_t::UCS_OK, info).unwrap().unwrap();
    assert_eq!(r.sender_tag(), 1);
    assert!(!r.is_empty());
}

#[test]
fn tag_probe_results() {
    let info = ucp_tag_recv_info_t { sender_tag: 0x1234, length: 0 };
    assert!(MessageHandle::from_probe(0, info, true).is_none());
    let m = MessageHandle::from_probe(0x88, info, true).unwrap();
    assert_eq!(m.sender_tag(), 0x1234);
    assert_eq!(m.len(), 0);
    assert!(m.is_empty());
    assert!(m.is_removed());
    let kept = MessageHandle::from_probe(0x88, info, false).unwrap();
    assert!(!kept.is_removed());
}
