use ucx_sys::memh::{
    ucp_mem_attr_t, MemAdviseParamsBuilder, MemAttr, MemHandle, MemMapParamsBuilder,
    MemhPackParamsBuilder, PackedMemhBuffer, PackedRkeyBuffer, UCP_MEMH_PACK_PARAM_FIELD_FLAGS,
    UCP_MEM_ADVISE_PARAM_FIELD_ADDRESS, UCP_MEM_ADVISE_PARAM_FIELD_ADVICE,
    UCP_MEM_ADVISE_PARAM_FIELD_LENGTH, UCP_MEM_ATTR_FIELD_ADDRESS, UCP_MEM_ATTR_FIELD_LENGTH,
    UCP_MEM_ATTR_FIELD_MEM_TYPE, UCP_MEM_MAP_PARAM_FIELD_ADDRESS,
    UCP_MEM_MAP_PARAM_FIELD_EXPORTED_MEMH_BUFFER, UCP_MEM_MAP_PARAM_FIELD_FLAGS,
    UCP_MEM_MAP_PARAM_FIELD_LENGTH, UCP_MEM_MAP_PARAM_FIELD_MEMORY_TYPE,
    UCP_MEM_MAP_PARAM_FIELD_PROT,
};
use ucx_sys::types::ucp_mem_advice_t;
use ucx_sys::{ucs_memory_type_t, ucs_status_t};

#[test]
fn test_mem_map_params_builder_new() {
    let builder = MemMapParamsBuilder::new();
    assert_eq!(builder.field_mask, 0u64);
}

#[test]
fn test_mem_map_params_builder_default() {
    let builder: MemMapParamsBuilder = Default::default();
    assert_eq!(builder.field_mask, 0u64);
}

#[test]
fn test_mem_map_params_builder_build_empty() {
    let mut builder = MemMapParamsBuilder::new();
    let params = builder.build();
    assert_eq!(params.handle.field_mask, 0u64);
}

#[test]
fn test_mem_map_params_builder_address() {
    let mut builder = MemMapParamsBuilder::new();
    let data: [u8; 64] = [0; 64];
    builder.address(data.as_ptr() as usize);
    let params = builder.build();
    assert!(params.handle.field_mask & UCP_MEM_MAP_PARAM_FIELD_ADDRESS != 0);
    assert_eq!(params.handle.address, data.as_ptr() as usize);
}

#[test]
fn test_mem_map_params_builder_length() {
    let mut builder = MemMapParamsBuilder::new();
    builder.length(4096);
    let params = builder.build();
    assert!(params.handle.field_mask & UCP_MEM_MAP_PARAM_FIELD_LENGTH != 0);
    assert_eq!(params.handle.length, 4096);
}

#[test]
fn test_mem_map_params_builder_flags() {
    let mut builder = MemMapParamsBuilder::new();
    builder.flags(0);
    let params = builder.build();
    assert!(params.handle.field_mask & UCP_MEM_MAP_PARAM_FIELD_FLAGS != 0);
}

#[test]
fn test_mem_map_params_builder_prot() {
    let mut builder = MemMapParamsBuilder::new();
    builder.prot(0x3);
    let params = builder.build();
    assert!(params.handle.field_mask & UCP_MEM_MAP_PARAM_FIELD_PROT != 0);
    assert_eq!(params.handle.prot, 0x3);
}

#[test]
fn test_mem_map_params_builder_memory_type() {
    let mut builder = MemMapParamsBuilder::new();
    builder.memory_type(ucs_memory_type_t::UCS_MEMORY_TYPE_HOST);
    let params = builder.build();
    assert!(params.handle.field_mask & UCP_MEM_MAP_PARAM_FIELD_MEMORY_TYPE != 0);
}

#[test]
fn test_mem_map_params_builder_full_chain() {
    let mut builder = MemMapParamsBuilder::new();
    let data: [u8; 4096] = [0; 4096];
    builder
        .address(data.as_ptr() as usize)
        .length(4096)
        .flags(0)
        .prot(0x3)
        .memory_type(ucs_memory_type_t::UCS_MEMORY_TYPE_HOST);
    let params = builder.build();
    assert!(params.handle.field_mask & UCP_MEM_MAP_PARAM_FIELD_ADDRESS != 0);
    assert!(params.handle.field_mask & UCP_MEM_MAP_PARAM_FIELD_LENGTH != 0);
    assert!(params.handle.field_mask & UCP_MEM_MAP_PARAM_FIELD_FLAGS != 0);
    assert!(params.handle.field_mask & UCP_MEM_MAP_PARAM_FIELD_PROT != 0);
    assert!(params.handle.field_mask & UCP_MEM_MAP_PARAM_FIELD_MEMORY_TYPE != 0);
}

#[test]
fn test_mem_map_params_builder_chaining_returns_mut_ref() {
    let mut builder = MemMapParamsBuilder::new();
    let data: [u8; 128] = [0; 128];
    let result = builder.address(data.as_ptr() as usize);
    result.length(128);
    let params = builder.build();
    assert_eq!(params.handle.length, 128);
}

#[test]
fn test_mem_advise_params_builder_new() {
    let builder = MemAdviseParamsBuilder::new();
    assert_eq!(builder.field_mask, 0u64);
}

#[test]
fn test_mem_advise_params_builder_default() {
    let builder: MemAdviseParamsBuilder = Default::default();
    assert_eq!(builder.field_mask, 0u64);
}

#[test]
fn test_mem_advise_params_builder_build_empty() {
    let mut builder = MemAdviseParamsBuilder::new();
    let params = builder.build();
    assert_eq!(params.handle.field_mask, 0u64);
}

#[test]
fn test_mem_advise_params_builder_address() {
    let mut builder = MemAdviseParamsBuilder::new();
    let data: [u8; 64] = [0; 64];
    builder.address(data.as_ptr() as usize);
    let params = builder.build();
    assert!(params.handle.field_mask & UCP_MEM_ADVISE_PARAM_FIELD_ADDRESS != 0);
}

#[test]
fn test_mem_advise_params_builder_length() {
    let mut builder = MemAdviseParamsBuilder::new();
    builder.length(2048);
    let params = builder.build();
    assert!(params.handle.field_mask & UCP_MEM_ADVISE_PARAM_FIELD_LENGTH != 0);
    assert_eq!(params.handle.length, 2048);
}

#[test]
fn test_mem_advise_params_builder_advice_normal() {
    let mut builder = MemAdviseParamsBuilder::new();
    builder.advice(ucp_mem_advice_t::UCP_MADV_NORMAL);
    let params = builder.build();
    assert!(params.handle.field_mask & UCP_MEM_ADVISE_PARAM_FIELD_ADVICE != 0);
}

#[test]
fn test_mem_advise_params_builder_advice_dont_need() {
    let mut builder = MemAdviseParamsBuilder::new();
    builder.advice(ucp_mem_advice_t::UCP_MADV_WILLNEED);
    let params = builder.build();
    assert!(params.handle.field_mask & UCP_MEM_ADVISE_PARAM_FIELD_ADVICE != 0);
}

#[test]
fn test_mem_advise_params_builder_full_chain() {
    let mut builder = MemAdviseParamsBuilder::new();
    let data: [u8; 1024] = [0; 1024];
    builder
        .address(data.as_ptr() as usize)
        .length(1024)
        .advice(ucp_mem_advice_t::UCP_MADV_NORMAL);
    let params = builder.build();
    assert!(params.handle.field_mask & UCP_MEM_ADVISE_PARAM_FIELD_ADDRESS != 0);
    assert!(params.handle.field_mask & UCP_MEM_ADVISE_PARAM_FIELD_LENGTH != 0);
    assert!(params.handle.field_mask & UCP_MEM_ADVISE_PARAM_FIELD_ADVICE != 0);
}

#[test]
fn test_memh_pack_params_builder_new() {
    let builder = MemhPackParamsBuilder::new();
    assert_eq!(builder.field_mask, 0u64);
}

#[test]
fn test_memh_pack_params_builder_default() {
    let builder: MemhPackParamsBuilder = Default::default();
    assert_eq!(builder.field_mask, 0u64);
}

#[test]
fn test_memh_pack_params_builder_build_empty() {
    let mut builder = MemhPackParamsBuilder::new();
    let params = builder.build();
    assert_eq!(params.handle.field_mask, 0u64);
}

#[test]
fn test_memh_pack_params_builder_flags() {
    let mut builder = MemhPackParamsBuilder::new();
    builder.flags(0);
    let params = builder.build();
    assert!(params.handle.field_mask & UCP_MEMH_PACK_PARAM_FIELD_FLAGS != 0);
}

#[test]
fn test_packed_memh_buffer_empty_constructor() {
    let buf = PackedMemhBuffer { buffer: 0, length: 0 };
    assert!(buf.is_empty());
    assert_eq!(buf.len(), 0);
    assert!(!buf.has_bytes());
    assert_eq!(buf.as_ptr(), 0);
}

#[test]
fn test_packed_rkey_buffer_empty_constructor() {
    let buf = PackedRkeyBuffer { buffer: 0, size: 0 };
    assert_eq!(buf.size(), 0);
    assert!(!buf.has_bytes());
    assert_eq!(buf.as_ptr(), 0);
}

#[test]
fn test_mem_map_field_address_is_bit_0() {
    assert_eq!(UCP_MEM_MAP_PARAM_FIELD_ADDRESS, 1);
}

#[test]
fn test_mem_map_field_length_is_bit_1() {
    assert_eq!(UCP_MEM_MAP_PARAM_FIELD_LENGTH, 2);
}

#[test]
fn test_mem_map_field_flags_is_bit_2() {
    assert_eq!(UCP_MEM_MAP_PARAM_FIELD_FLAGS, 4);
}

#[test]
fn test_mem_map_field_prot_is_bit_3() {
    assert_eq!(UCP_MEM_MAP_PARAM_FIELD_PROT, 8);
}

#[test]
fn test_mem_map_field_memory_type_is_bit_4() {
    assert_eq!(UCP_MEM_MAP_PARAM_FIELD_MEMORY_TYPE, 16);
}

#[test]
fn test_mem_map_field_exported_memh_buffer_is_bit_5() {
    assert_eq!(UCP_MEM_MAP_PARAM_FIELD_EXPORTED_MEMH_BUFFER, 32);
}

#[test]
fn test_mem_map_fields_all_distinct() {
    let fields = [
        UCP_MEM_MAP_PARAM_FIELD_ADDRESS,
        UCP_MEM_MAP_PARAM_FIELD_LENGTH,
        UCP_MEM_MAP_PARAM_FIELD_FLAGS,
        UCP_MEM_MAP_PARAM_FIELD_PROT,
        UCP_MEM_MAP_PARAM_FIELD_MEMORY_TYPE,
        UCP_MEM_MAP_PARAM_FIELD_EXPORTED_MEMH_BUFFER,
    ];
    for i in 0..fields.len() {
        for j in (i + 1)..fields.len() {
            assert_eq!(fields[i] & fields[j], 0, "Fields {} and {} should be distinct", i, j);
        }
    }
}

#[test]
fn test_mem_advise_field_address_is_bit_0() {
    assert_eq!(UCP_MEM_ADVISE_PARAM_FIELD_ADDRESS, 1);
}

#[test]
fn test_mem_advise_field_length_is_bit_1() {
    assert_eq!(UCP_MEM_ADVISE_PARAM_FIELD_LENGTH, 2);
}

#[test]
fn test_mem_advise_field_advice_is_bit_2() {
    assert_eq!(UCP_MEM_ADVISE_PARAM_FIELD_ADVICE, 4);
}

#[test]
fn test_mem_advise_fields_all_distinct() {
    let fields = [
        UCP_MEM_ADVISE_PARAM_FIELD_ADDRESS,
        UCP_MEM_ADVISE_PARAM_FIELD_LENGTH,
        UCP_MEM_ADVISE_PARAM_FIELD_ADVICE,
    ];
    for i in 0..fields.len() {
        for j in (i + 1)..fields.len() {
            assert_eq!(fields[i] & fields[j], 0, "Fields {} and {} should be distinct", i, j);
        }
    }
}

#[test]
fn mem_handle_from_map_and_query() {
    let memh = MemHandle::from_map(ucs_status_t::UCS_OK, 0x10, 0x20).unwrap();
    assert_eq!(memh.as_raw(), 0x20);
    assert_eq!(memh.context, 0x10);
    assert!(matches!(
        MemHandle::from_map(ucs_status_t::UCS_ERR_NO_MEMORY, 0x10, 0),
        Err(ucs_status_t::UCS_ERR_NO_MEMORY)
    ));
    assert_eq!(
        MemHandle::query_mask(),
        UCP_MEM_ATTR_FIELD_ADDRESS | UCP_MEM_ATTR_FIELD_LENGTH | UCP_MEM_ATTR_FIELD_MEM_TYPE
    );
    let raw = ucp_mem_attr_t {
        field_mask: 7,
        address: 0x1000,
        length: 4096,
        mem_type: ucs_memory_type_t::UCS_MEMORY_TYPE_HOST,
    };
    let attr = MemAttr::from_query(ucs_status_t::UCS_OK, raw).unwrap();
    assert_eq!(attr.address(), 0x1000);
    assert_eq!(attr.length(), 4096);
    assert_eq!(attr.mem_type(), ucs_memory_type_t::UCS_MEMORY_TYPE_HOST);
    assert!(MemAttr::from_query(ucs_status_t::UCS_ERR_INVALID_PARAM, raw).is_err());
}

#[test]
fn packed_buffers_from_pack() {
    let b = PackedMemhBuffer::from_pack(ucs_status_t::UCS_OK, 0x40, 12).unwrap();
    assert!(b.has_bytes());
    assert_eq!(b.len(), 12);
    assert!(!b.is_empty());
    assert!(PackedMemhBuffer::from_pack(ucs_status_t::UCS_ERR_UNSUPPORTED, 0, 0).is_err());
    let r = PackedRkeyBuffer::from_pack(ucs_status_t::UCS_OK, 0x80, 0).unwrap();
    assert!(!r.has_bytes());
    assert!(matches!(
        PackedRkeyBuffer::from_pack(ucs_status_t::UCS_ERR_IO_ERROR, 0, 0),
        Err(ucs_status_t::UCS_ERR_IO_ERROR)
    ));
}

#[test]
fn mem_map_builder_keeps_last_value_and_only_set_bits() {
    let mut builder = MemMapParamsBuilder::new();
    builder.length(1).prot(0x1).length(4096);
    let params = builder.build();
    assert_eq!(
        params.handle.field_mask,
        UCP_MEM_MAP_PARAM_FIELD_LENGTH | UCP_MEM_MAP_PARAM_FIELD_PROT
    );
    assert_eq!(params.handle.length, 4096);
    assert_eq!(params.handle.prot, 0x1);
    assert_eq!(params.handle.address, 0);
    assert_eq!(params.handle.flags, 0);
}
