use ucx_sys::bindings_dt;
use ucx_sys::dt::{
    dt_make_contig, dt_make_iov, DataTypeAttr, UCP_DATATYPE_CONTIG, UCP_DATATYPE_SHIFT,
};
use ucx_sys::ucs_status_t;

#[test]
fn dt_test_dt_make_contig() {
    let dt1 = bindings_dt::dt_make_contig(1);
    assert_eq!(dt1, 0);
    let dt4 = bindings_dt::dt_make_contig(4);
    assert_ne!(dt4, 0);
    let dt0 = bindings_dt::dt_make_contig(0);
    assert_eq!(dt0, 0);

    assert_eq!(dt_make_contig(0), 0);
    assert_eq!(dt_make_contig(1), 8);
    assert_eq!(dt_make_contig(4), 32);
    assert_eq!(dt_make_contig(8), 64);
}

#[test]
fn dt_test_dt_make_iov() {
    let dt = bindings_dt::dt_make_iov();
    assert_eq!(dt, 2);
    let dt = dt_make_iov();
    assert_eq!(dt, 2);
}

#[test]
fn dt_test_dt_query_contig() {
    let dt = bindings_dt::dt_make_contig(4);
    assert_ne!(dt, bindings_dt::dt_make_contig(8));
    assert_eq!(bindings_dt::dt_make_contig(1), bindings_dt::UCP_DATATYPE_CONTIG);

    let dt = dt_make_contig(4);
    assert_ne!(dt, dt_make_contig(8));
    assert_eq!(dt_make_contig(1), 8);
    assert_eq!(dt_make_contig(4), 32);
    assert_eq!(dt_make_contig(8), 64);
}

#[test]
fn test_dt_make_contig_composes_size_shift_and_class() {
    let shift = UCP_DATATYPE_SHIFT;
    let class = UCP_DATATYPE_CONTIG;
    for elem_size in [2usize, 16] {
        assert_eq!(dt_make_contig(elem_size), ((elem_size as u64) << shift) | class);
    }
}

#[test]
fn bindings_dt_larger_sizes_keep_size_less_one_with_bit_16() {
    assert_eq!(bindings_dt::dt_make_contig(2), 0x1_0001);
    assert_eq!(bindings_dt::dt_make_contig(4), 0x1_0003);
    assert_eq!(bindings_dt::dt_make_contig(8), 0x1_0007);
    assert_eq!(bindings_dt::dt_make_contig(0x1_0001), 0x1_0000);
}

#[test]
fn dt_make_contig_reads_back_the_size() {
    for size in [0usize, 1, 3, 4096, 1 << 40] {
        let dt = dt_make_contig(size);
        assert_eq!(dt >> 3, size as u64);
        assert_eq!(dt & 7, 0);
    }
}

#[test]
fn datatype_attr_from_query() {
    let a = DataTypeAttr::from_query(ucs_status_t::UCS_OK, 64, 0x1000, 16).unwrap();
    assert_eq!(a.packed_size, 64);
    assert_eq!(a.buffer, 0x1000);
    assert_eq!(a.count, 16);
    assert!(matches!(
        DataTypeAttr::from_query(ucs_status_t::UCS_ERR_INVALID_PARAM, 64, 0x1000, 16),
        Err(ucs_status_t::UCS_ERR_INVALID_PARAM)
    ));
}
