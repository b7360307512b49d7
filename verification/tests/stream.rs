use ucx_sys::request::Request;
use ucx_sys::status::status_as_ptr;
use ucx_sys::stream::{stream_recv_data_result, stream_recv_result, StreamData};
use ucx_sys::ucs_status_t;

#[test]
fn stream_recv_data_interprets_pointer() {
    assert!(matches!(stream_recv_data_result(0x10, 0, 5), Ok(None)));
    let err = status_as_ptr(ucs_status_t::UCS_ERR_NOT_CONNECTED);
    assert!(matches!(
        stream_recv_data_result(0x10, err, 5),
        Err(ucs_status_t::UCS_ERR_NOT_CONNECTED)
    ));
    let d: StreamData = stream_recv_data_result(0x10, 0x2000, 5).unwrap().unwrap();
    assert_eq!(d.ep, 0x10);
    assert_eq!(d.data, 0x2000);
    assert_eq!(d.len(), 5);
    assert!(!d.is_empty());
    let e = stream_recv_data_result(0x10, 0x2000, 0).unwrap().unwrap();
    assert!(e.is_empty());
}

#[test]
fn stream_recv_reports_length_with_request() {
    assert!(matches!(stream_recv_result(0, 12), Ok((None, 12))));
    match stream_recv_result(0x3000, 0) {
        Ok((Some(Request { handle: Some(0x3000) }), 0)) => {}
        other => panic!("unexpected {:?}", other),
    }
    let err = status_as_ptr(ucs_status_t::UCS_ERR_CANCELED);
    assert!(matches!(stream_recv_result(err, 3), Err(ucs_status_t::UCS_ERR_CANCELED)));
}
