//! The datatype descriptors of the standalone binding layer, which encodes
//! contiguous element sizes in its own way.
use vstd::prelude::*;

verus! {

/// The contiguous datatype descriptor of single-byte elements.
pub const UCP_DATATYPE_CONTIG: u64 = 0;
/// The I/O vector datatype descriptor.
pub const UCP_DATATYPE_IOV: u64 = 2;

/// The element size a descriptor is made for: a size of 0 counts as 1.
pub open spec fn spec_effective_size(elem_size: usize) -> usize {
    if elem_size == 0 {
        1
    } else {
        elem_size
    }
}

/// Single-byte elements give [`UCP_DATATYPE_CONTIG`]; larger elements give
/// the size less one, with bit 16 set.
pub open spec fn spec_dt_make_contig(elem_size: usize) -> u64 {
    let size = spec_effective_size(elem_size);
    if size == 1 {
        UCP_DATATYPE_CONTIG
    } else {
        ((size - 1) as u64) | 0x1_0000u64
    }
}

/// The contiguous datatype descriptor for elements of `elem_size` bytes.
pub fn dt_make_contig(elem_size: usize) -> (dt: u64)
    ensures
        dt == spec_dt_make_contig(elem_size),
{
    let size: usize = if elem_size == 0 {
        1
    } else {
        elem_size
    };
    if size == 1 {
        UCP_DATATYPE_CONTIG
    } else {
        let high: u64 = 1u64 << 16u64;
        assert(high == 0x1_0000u64) by (bit_vector)
            requires
                high == 1u64 << 16u64,
        ;
        ((size - 1) as u64) | high
    }
}

/// The I/O vector datatype descriptor.
pub fn dt_make_iov() -> (dt: u64)
    ensures
        dt == UCP_DATATYPE_IOV,
{
    UCP_DATATYPE_IOV
}

/// Sizes 0 and 1 give the same descriptor, and every larger size gives one
/// that differs from it.
pub proof fn lemma_dt_make_contig_single_byte(elem_size: usize)
    ensures
        spec_dt_make_contig(0) == spec_dt_make_contig(1),
        elem_size > 1 ==> spec_dt_make_contig(elem_size) != UCP_DATATYPE_CONTIG,
{
    if elem_size > 1 {
        let x = (elem_size - 1) as u64;
        assert((x | 0x1_0000u64) != 0u64) by (bit_vector);
    }
}

} // verus!
