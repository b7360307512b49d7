//! UCP datatype descriptors.
use vstd::prelude::*;
use crate::status::{status_to_result, ucs_status_t};

verus! {

/// Datatype class for contiguous buffers.
pub const UCP_DATATYPE_CONTIG: u64 = 0;
/// Datatype class for I/O vectors.
pub const UCP_DATATYPE_IOV: u64 = 2;
/// Datatype class for generic (user-packed) datatypes.
pub const UCP_DATATYPE_GENERIC: u64 = 7;
/// Number of low bits that hold the datatype class.
pub const UCP_DATATYPE_SHIFT: u64 = 3;
/// Mask selecting the datatype class bits.
pub const UCP_DATATYPE_CLASS_MASK: u64 = 7;

/// The contiguous datatype descriptor for elements of `elem_size` bytes:
/// the size sits above the class bits, truncated to 64 bits.
pub open spec fn spec_dt_make_contig(elem_size: u64) -> u64 {
    ((elem_size as int * 8) % 0x1_0000_0000_0000_0000) as u64
}

/// Contiguous datatype with the given element size, `(elem_size << 3) | CONTIG`.
pub fn dt_make_contig(elem_size: usize) -> (dt: u64)
    ensures
        dt == spec_dt_make_contig(elem_size as u64),
        dt & UCP_DATATYPE_CLASS_MASK == UCP_DATATYPE_CONTIG,
{
    let size = elem_size as u64;
    let dt = (size << 3u64) | UCP_DATATYPE_CONTIG;
    assert(dt == ((size as int * 8) % 0x1_0000_0000_0000_0000) as u64 && dt & 7 == 0) by (bit_vector)
        requires dt == (size << 3u64) | 0u64;
    dt
}

/// An element size below 2^61 reads back from its descriptor: the
/// descriptor is the size times 8, so distinct sizes give distinct
/// descriptors, all of the contiguous class.
pub proof fn lemma_dt_make_contig_size_readable(elem_size: u64)
    requires
        elem_size < 0x2000_0000_0000_0000,
    ensures
        spec_dt_make_contig(elem_size) == elem_size * 8,
        spec_dt_make_contig(elem_size) / 8 == elem_size,
        spec_dt_make_contig(elem_size) % 8 == 0,
{
}

/// The I/O vector datatype descriptor.
pub fn dt_make_iov() -> (dt: u64)
    ensures
        dt == UCP_DATATYPE_IOV,
{
    UCP_DATATYPE_IOV
}

/// `ucp_datatype_attr_field`: which datatype attributes a query asks for.
pub const UCP_DT_ATTR_FIELD_PACKED_SIZE: u64 = 1;
pub const UCP_DT_ATTR_FIELD_BUFFER: u64 = 2;
pub const UCP_DT_ATTR_FIELD_COUNT: u64 = 4;

/// Attributes of a datatype: its packed size, the buffer it describes (by
/// address) and its element count.
#[derive(Debug, Clone, Copy)]
pub struct DataTypeAttr {
    pub packed_size: usize,
    pub buffer: usize,
    pub count: usize,
}

impl DataTypeAttr {
    /// The attributes of a datatype query (`ucp_dt_query`) that reported
    /// `status` and filled in the three values.
    pub fn from_query(status: ucs_status_t, packed_size: usize, buffer: usize, count: usize) -> (r: Result<DataTypeAttr, ucs_status_t>)
        ensures
            status.spec_is_err() ==> (r matches Err(e) && e == status),
            !status.spec_is_err() ==> (r matches Ok(a) && a.packed_size == packed_size && a.buffer
                == buffer && a.count == count),
    {
        match status_to_result(status) {
            Ok(()) => Ok(DataTypeAttr { packed_size, buffer, count }),
            Err(e) => Err(e),
        }
    }
}

} // verus!
