use ucx_sys::request::{Request, RequestParam, UCP_OP_ATTR_FIELD_REPLY_BUFFER};
use ucx_sys::rma::{
    amo_operand_len, amo_post, fetch_amo_result, frame_rkey_payload, unframe_rkey_payload, FetchAmoRequest,
    RemoteKey,
};
use ucx_sys::types::ucp_atomic_op_t;
use ucx_sys::ucs_status_t;

#[test]
fn rma_rkey_framing_round_trip_preserves_payload() {
    let payload = [0x12u8, 0x34, 0xab, 0xcd];
    let framed = frame_rkey_payload(&payload).unwrap();
    assert_eq!(&framed[..4], &(payload.len() as u32).to_le_bytes());
    assert_eq!(unframe_rkey_payload(&framed).unwrap(), payload);
}

#[test]
fn atomic_rkey_framing_round_trip_preserves_payload() {
    let payload = [0x12u8, 0x34, 0xab, 0xcd];
    let framed = frame_rkey_payload(&payload).unwrap();
    assert_eq!(&framed[..4], &(payload.len() as u32).to_le_bytes());
    assert_eq!(unframe_rkey_payload(&framed).unwrap(), payload);
}

#[test]
fn rma_rkey_unpack_accepts_public_framed_bytes() {
    let payload = [0x12u8, 0x34, 0xab, 0xcd];
    let framed = frame_rkey_payload(&payload).unwrap();
    assert_eq!(unframe_rkey_payload(&framed).unwrap(), payload);
}

#[test]
fn atomic_rkey_unpack_accepts_public_framed_bytes() {
    let payload = [0x12u8, 0x34, 0xab, 0xcd];
    let framed = frame_rkey_payload(&payload).unwrap();
    assert_eq!(unframe_rkey_payload(&framed).unwrap(), payload);
}

#[test]
fn rma_remote_key_compare_rejects_dead_worker_before_ffi() {
    let worker = 0x5000usize;
    let first = RemoteKey { handle: 0, owner: worker };
    let second = RemoteKey { handle: 0, owner: worker };
    assert_eq!(
        first.compare_check(&second, worker, false, false),
        Err(ucs_status_t::UCS_ERR_INVALID_PARAM)
    );
}

#[test]
fn atomic_remote_key_compare_rejects_dead_worker_before_ffi() {
    let worker = 0x5000usize;
    let first = RemoteKey { handle: 0, owner: worker };
    let second = RemoteKey { handle: 0, owner: worker };
    assert_eq!(
        first.compare_check(&second, worker, false, false),
        Err(ucs_status_t::UCS_ERR_INVALID_PARAM)
    );
}

#[test]
fn atomic_test_rkey_ptr_invalid() {
    let key = RemoteKey { handle: 0, owner: 1 };
    let result = key.check_handle();
    assert!(result.is_err(), "Expected error for null rkey, got {:?}", result);
    assert_eq!(
        result.unwrap_err(),
        ucs_status_t::UCS_ERR_INVALID_PARAM,
        "Expected UCS_ERR_INVALID_PARAM for null rkey"
    );
}

#[test]
fn unframe_rejects_short_and_mislabelled_buffers() {
    assert_eq!(unframe_rkey_payload(&[1, 0, 0]), Err(ucs_status_t::UCS_ERR_INVALID_PARAM));
    assert_eq!(unframe_rkey_payload(&[2, 0, 0, 0, 9]), Err(ucs_status_t::UCS_ERR_INVALID_PARAM));
    assert_eq!(unframe_rkey_payload(&[0, 0, 0, 0, 9]), Err(ucs_status_t::UCS_ERR_INVALID_PARAM));
    let empty: &[u8] = &[];
    assert_eq!(unframe_rkey_payload(&[0, 0, 0, 0]), Ok(empty));
    assert_eq!(unframe_rkey_payload(&[1, 0, 0, 0, 7]), Ok(&[7u8][..]));
}

#[test]
fn frame_writes_little_endian_length() {
    let payload = vec![5u8; 0x0102];
    let framed = frame_rkey_payload(&payload).unwrap();
    assert_eq!(&framed[..4], &[0x02, 0x01, 0x00, 0x00]);
    assert_eq!(framed.len(), 4 + 0x0102);
    assert_eq!(frame_rkey_payload(&[]).unwrap(), vec![0, 0, 0, 0]);
}

#[test]
fn reframing_a_well_formed_buffer_gives_it_back() {
    let buffer = [3u8, 0, 0, 0, 1, 2, 3];
    let payload = unframe_rkey_payload(&buffer).unwrap();
    assert_eq!(frame_rkey_payload(payload).unwrap(), buffer.to_vec());
}

#[test]
fn remote_key_compare_checks_liveness_and_owner() {
    let a = RemoteKey { handle: 0x10, owner: 7 };
    let b = RemoteKey { handle: 0x20, owner: 7 };
    let c = RemoteKey { handle: 0x30, owner: 8 };
    assert_eq!(a.compare_check(&b, 7, true, true), Ok(()));
    assert_eq!(a.compare_check(&b, 8, true, true), Err(ucs_status_t::UCS_ERR_INVALID_PARAM));
    assert_eq!(a.compare_check(&c, 7, true, true), Err(ucs_status_t::UCS_ERR_INVALID_PARAM));
    assert_eq!(a.compare_check(&b, 7, true, false), Err(ucs_status_t::UCS_ERR_INVALID_PARAM));
    assert_eq!(RemoteKey::compare_result(ucs_status_t::UCS_OK, 0), Ok(true));
    assert_eq!(RemoteKey::compare_result(ucs_status_t::UCS_OK, 1), Ok(false));
    assert_eq!(
        RemoteKey::compare_result(ucs_status_t::UCS_ERR_UNSUPPORTED, 0),
        Err(ucs_status_t::UCS_ERR_UNSUPPORTED)
    );
}

#[test]
fn remote_key_unpack_and_pointer_results() {
    let k = RemoteKey::from_unpack(ucs_status_t::UCS_OK, 0xaa, 3).unwrap();
    assert_eq!(k.as_raw(), 0xaa);
    assert_eq!(k.owner, 3);
    assert_eq!(k.check_handle(), Ok(()));
    assert!(matches!(
        RemoteKey::from_unpack(ucs_status_t::UCS_ERR_INVALID_PARAM, 0, 3),
        Err(ucs_status_t::UCS_ERR_INVALID_PARAM)
    ));
    assert_eq!(RemoteKey::rkey_ptr_result(ucs_status_t::UCS_OK, 0x100), Ok(0x100));
    assert_eq!(
        RemoteKey::rkey_ptr_result(ucs_status_t::UCS_OK, 0),
        Err(ucs_status_t::UCS_ERR_INVALID_ADDR)
    );
    assert_eq!(
        RemoteKey::rkey_ptr_result(ucs_status_t::UCS_ERR_UNREACHABLE, 0x100),
        Err(ucs_status_t::UCS_ERR_UNREACHABLE)
    );
}

#[test]
fn remote_key_pack_frames_payload() {
    assert_eq!(
        RemoteKey::pack_result(ucs_status_t::UCS_OK, &[9, 8]).unwrap(),
        vec![2, 0, 0, 0, 9, 8]
    );
    assert_eq!(
        RemoteKey::pack_result(ucs_status_t::UCS_ERR_NO_MEMORY, &[9, 8]),
        Err(ucs_status_t::UCS_ERR_NO_MEMORY)
    );
}

#[test]
fn amo_operand_sizes() {
    assert_eq!(amo_operand_len(ucp_atomic_op_t::UCP_ATOMIC_OP_ADD, 8), 8);
    assert_eq!(amo_operand_len(ucp_atomic_op_t::UCP_ATOMIC_OP_XOR, 4), 4);
    assert_eq!(amo_operand_len(ucp_atomic_op_t::UCP_ATOMIC_OP_CSWAP, 8), 16);
    assert_eq!(amo_operand_len(ucp_atomic_op_t::UCP_ATOMIC_OP_CSWAP, 4), 8);
}

#[test]
fn fetch_amo_request_completion() {
    let done: FetchAmoRequest = fetch_amo_result(None);
    assert_eq!(done.check_finished(ucs_status_t::UCS_INPROGRESS), Ok(true));
    assert!(done.into_inner().is_none());
    let pending = fetch_amo_result(Some(Request { handle: Some(0x40) }));
    assert_eq!(pending.check_finished(ucs_status_t::UCS_INPROGRESS), Ok(false));
    assert_eq!(pending.check_finished(ucs_status_t::UCS_OK), Ok(true));
    assert_eq!(
        pending.check_finished(ucs_status_t::UCS_ERR_CANCELED),
        Err(ucs_status_t::UCS_ERR_CANCELED)
    );
    assert_eq!(pending.into_inner().unwrap().handle, Some(0x40));
}

#[test]
fn fetch_params_set_only_the_reply_buffer() {
    let p = RequestParam::fetch_params(0x7000);
    assert_eq!(p.handle.op_attr_mask, UCP_OP_ATTR_FIELD_REPLY_BUFFER);
    assert_eq!(p.handle.reply_buffer, 0x7000);
    assert_eq!(p.handle.flags, 0);
}

#[test]
fn amo_post_orders_compare_and_swap_operands() {
    let p = amo_post(ucp_atomic_op_t::UCP_ATOMIC_OP_CSWAP, 8, 5, 9);
    assert_eq!(p.op, ucp_atomic_op_t::UCP_ATOMIC_OP_CSWAP);
    assert_eq!(p.operands, vec![5, 9]);
    assert_eq!(p.len, 16);
    let p = amo_post(ucp_atomic_op_t::UCP_ATOMIC_OP_CSWAP, 4, 1, 2);
    assert_eq!(p.operands, vec![1, 2]);
    assert_eq!(p.len, 8);
}

#[test]
fn amo_post_carries_one_operand_for_other_ops() {
    let p = amo_post(ucp_atomic_op_t::UCP_ATOMIC_OP_ADD, 8, 7, 0);
    assert_eq!(p.op, ucp_atomic_op_t::UCP_ATOMIC_OP_ADD);
    assert_eq!(p.operands, vec![7]);
    assert_eq!(p.len, 8);
    let p = amo_post(ucp_atomic_op_t::UCP_ATOMIC_OP_XOR, 4, 3, 99);
    assert_eq!(p.operands, vec![3]);
    assert_eq!(p.len, 4);
}
