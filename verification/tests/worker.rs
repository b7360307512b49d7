use ucx_sys::worker::{
    ucp_worker_attr_t, CpuSet, MtWorker, ParamsBuilder, RemoteWorkerAddress, UcpWorkerFlags,
    Worker, WorkerAddress, WorkerAddressAttr, WorkerAttr, WorkerAttrFields,
    UCP_WORKER_PARAM_FIELD_FLAGS, UCP_WORKER_PARAM_FIELD_NAME, UCP_WORKER_PARAM_FIELD_THREAD_MODE,
};
use ucx_sys::{ucs_status_t, ucs_thread_mode_t};

#[test]
fn single_mode_worker_cannot_be_wrapped() {
    let mut params = ParamsBuilder::new();
    params.thread_mode(ucs_thread_mode_t::UCS_THREAD_MODE_SINGLE);
    let built = params.build();
    assert_eq!(built.handle.thread_mode, ucs_thread_mode_t::UCS_THREAD_MODE_SINGLE);
    let worker = Worker::from_create(ucs_status_t::UCS_OK, 0x100).unwrap();
    assert!(matches!(
        MtWorker::new(worker, Ok(Some(ucs_thread_mode_t::UCS_THREAD_MODE_SINGLE))),
        Err(ucs_status_t::UCS_ERR_INVALID_PARAM)
    ));
}

#[test]
fn serialized_mode_worker_can_progress_through_wrapper() {
    let worker = Worker::from_create(ucs_status_t::UCS_OK, 0x100).unwrap();
    let worker = MtWorker::new(worker, Ok(Some(ucs_thread_mode_t::UCS_THREAD_MODE_SERIALIZED)))
        .expect("UCX should grant a threaded worker");
    assert_eq!(worker.worker.handle, 0x100);
    assert_eq!(worker.thread_mode, ucs_thread_mode_t::UCS_THREAD_MODE_SERIALIZED);
}

#[test]
fn mt_worker_admission_rules() {
    let w = || Worker { handle: 1 };
    assert!(MtWorker::new(w(), Ok(Some(ucs_thread_mode_t::UCS_THREAD_MODE_MULTI))).is_ok());
    assert!(matches!(MtWorker::new(w(), Ok(None)), Err(ucs_status_t::UCS_ERR_INVALID_PARAM)));
    assert!(matches!(
        MtWorker::new(w(), Ok(Some(ucs_thread_mode_t::UCS_THREAD_MODE_LAST))),
        Err(ucs_status_t::UCS_ERR_INVALID_PARAM)
    ));
    assert!(matches!(
        MtWorker::new(w(), Err(ucs_status_t::UCS_ERR_NO_RESOURCE)),
        Err(ucs_status_t::UCS_ERR_NO_RESOURCE)
    ));
}

#[test]
fn worker_from_create_reports_errors() {
    assert!(matches!(
        Worker::from_create(ucs_status_t::UCS_ERR_NO_MEMORY, 0),
        Err(ucs_status_t::UCS_ERR_NO_MEMORY)
    ));
}

#[test]
fn worker_params_builder_fields() {
    let mut b = ParamsBuilder::new();
    b.thread_mode(ucs_thread_mode_t::UCS_THREAD_MODE_MULTI).flags(UcpWorkerFlags::IgnoreRequestLeak());
    b.name("w0").unwrap();
    let p = b.build();
    assert_eq!(
        p.handle.field_mask,
        UCP_WORKER_PARAM_FIELD_THREAD_MODE | UCP_WORKER_PARAM_FIELD_FLAGS | UCP_WORKER_PARAM_FIELD_NAME
    );
    assert_eq!(p.handle.flags, 1);
    let mut bad = ParamsBuilder::new();
    assert!(bad.name("w\0").is_err());
    assert_eq!(bad.build().handle.field_mask, 0);
    let set = CpuSet::new();
    assert!(set.words.iter().all(|w| *w == 0));
}

#[test]
fn worker_attr_keeps_requested_fields() {
    let raw = ucp_worker_attr_t {
        thread_mode: ucs_thread_mode_t::UCS_THREAD_MODE_SERIALIZED,
        address: 0x900,
        address_length: 48,
        address_flags: 1,
        max_am_header: 4096,
        name: "worker".to_string(),
        max_debug_string: 128,
    };
    let mask = WorkerAttrFields::THREAD_MODE() | WorkerAttrFields::ADDRESS() | WorkerAttrFields::NAME();
    let a: WorkerAttr = WorkerAttr::from_query(mask, ucs_status_t::UCS_OK, raw.clone()).unwrap();
    assert_eq!(a.thread_mode, Some(ucs_thread_mode_t::UCS_THREAD_MODE_SERIALIZED));
    assert_eq!(a.address, Some(WorkerAddressAttr { address: 0x900, length: 48 }));
    assert_eq!(a.address_flags, None);
    assert_eq!(a.max_am_header, None);
    assert_eq!(a.name.as_deref(), Some("worker"));
    assert_eq!(a.max_info_string, None);
    let none = WorkerAttr::from_query(WorkerAttrFields::empty(), ucs_status_t::UCS_OK, raw.clone()).unwrap();
    assert_eq!(none.thread_mode, None);
    assert_eq!(none.name, None);
    assert!(matches!(
        WorkerAttr::from_query(mask, ucs_status_t::UCS_ERR_IO_ERROR, raw),
        Err(ucs_status_t::UCS_ERR_IO_ERROR)
    ));
}

#[test]
fn worker_addresses() {
    let remote = RemoteWorkerAddress::new(vec![4, 5, 6]);
    let (bytes, len) = remote.get_handle();
    assert_eq!(bytes, &[4, 5, 6]);
    assert_eq!(len, 3);
    let local = WorkerAddress::from_pack(ucs_status_t::UCS_OK, 0x77, vec![1, 2]).unwrap();
    assert_eq!(local.to_vec(), vec![1, 2]);
    assert_eq!(local.to_slice(), &[1, 2]);
    assert_eq!(local.handle, 0x77);
    assert!(matches!(
        WorkerAddress::from_pack(ucs_status_t::UCS_ERR_NO_MEMORY, 0, vec![]),
        Err(ucs_status_t::UCS_ERR_NO_MEMORY)
    ));
}
