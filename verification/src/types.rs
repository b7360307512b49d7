//! Plain enumerations of the UCP/UCS C API that the library reasons about.
use vstd::prelude::*;

verus! {

/// Threading contract of a worker or context (`ucs_thread_mode_t`).
#[allow(non_camel_case_types)]
#[derive(Debug, Clone, Copy, PartialEq, Eq, Structural, Hash)]
pub enum ucs_thread_mode_t {
    UCS_THREAD_MODE_SINGLE,
    UCS_THREAD_MODE_SERIALIZED,
    UCS_THREAD_MODE_MULTI,
    UCS_THREAD_MODE_LAST,
}

impl ucs_thread_mode_t {
    pub open spec fn spec_code(self) -> u32 {
        match self {
            ucs_thread_mode_t::UCS_THREAD_MODE_SINGLE => 0,
            ucs_thread_mode_t::UCS_THREAD_MODE_SERIALIZED => 1,
            ucs_thread_mode_t::UCS_THREAD_MODE_MULTI => 2,
            ucs_thread_mode_t::UCS_THREAD_MODE_LAST => 3,
        }
    }

    /// The C enumerator value.
    pub fn code(&self) -> (c: u32)
        ensures
            c == self.spec_code(),
    {
        match self {
            ucs_thread_mode_t::UCS_THREAD_MODE_SINGLE => 0,
            ucs_thread_mode_t::UCS_THREAD_MODE_SERIALIZED => 1,
            ucs_thread_mode_t::UCS_THREAD_MODE_MULTI => 2,
            ucs_thread_mode_t::UCS_THREAD_MODE_LAST => 3,
        }
    }

    /// The enumerator with C value `code`, if there is one.
    pub fn from_code(code: u32) -> (m: Option<ucs_thread_mode_t>)
        ensures
            m matches Some(x) ==> x.spec_code() == code,
            m is None <==> code > 3,
    {
        if code == 0 {
            Some(ucs_thread_mode_t::UCS_THREAD_MODE_SINGLE)
        } else if code == 1 {
            Some(ucs_thread_mode_t::UCS_THREAD_MODE_SERIALIZED)
        } else if code == 2 {
            Some(ucs_thread_mode_t::UCS_THREAD_MODE_MULTI)
        } else if code == 3 {
            Some(ucs_thread_mode_t::UCS_THREAD_MODE_LAST)
        } else {
            None
        }
    }
}

/// Memory type of a buffer (`ucs_memory_type_t`).
#[allow(non_camel_case_types)]
#[derive(Debug, Clone, Copy, PartialEq, Eq, Structural, Hash)]
pub enum ucs_memory_type_t {
    UCS_MEMORY_TYPE_HOST,
    UCS_MEMORY_TYPE_CUDA,
    UCS_MEMORY_TYPE_CUDA_MANAGED,
    UCS_MEMORY_TYPE_ROCM,
    UCS_MEMORY_TYPE_ROCM_MANAGED,
    UCS_MEMORY_TYPE_RDMA,
    UCS_MEMORY_TYPE_ZE_HOST,
    UCS_MEMORY_TYPE_ZE_DEVICE,
    UCS_MEMORY_TYPE_ZE_MANAGED,
    UCS_MEMORY_TYPE_UNKNOWN,
}

impl ucs_memory_type_t {
    pub open spec fn spec_code(self) -> u32 {
        match self {
            ucs_memory_type_t::UCS_MEMORY_TYPE_HOST => 0,
            ucs_memory_type_t::UCS_MEMORY_TYPE_CUDA => 1,
            ucs_memory_type_t::UCS_MEMORY_TYPE_CUDA_MANAGED => 2,
            ucs_memory_type_t::UCS_MEMORY_TYPE_ROCM => 3,
            ucs_memory_type_t::UCS_MEMORY_TYPE_ROCM_MANAGED => 4,
            ucs_memory_type_t::UCS_MEMORY_TYPE_RDMA => 5,
            ucs_memory_type_t::UCS_MEMORY_TYPE_ZE_HOST => 6,
            ucs_memory_type_t::UCS_MEMORY_TYPE_ZE_DEVICE => 7,
            ucs_memory_type_t::UCS_MEMORY_TYPE_ZE_MANAGED => 8,
            ucs_memory_type_t::UCS_MEMORY_TYPE_UNKNOWN => 9,
        }
    }

    /// The C enumerator value.
    pub fn code(&self) -> (c: u32)
        ensures
            c == self.spec_code(),
    {
        match self {
            ucs_memory_type_t::UCS_MEMORY_TYPE_HOST => 0,
            ucs_memory_type_t::UCS_MEMORY_TYPE_CUDA => 1,
            ucs_memory_type_t::UCS_MEMORY_TYPE_CUDA_MANAGED => 2,
            ucs_memory_type_t::UCS_MEMORY_TYPE_ROCM => 3,
            ucs_memory_type_t::UCS_MEMORY_TYPE_ROCM_MANAGED => 4,
            ucs_memory_type_t::UCS_MEMORY_TYPE_RDMA => 5,
            ucs_memory_type_t::UCS_MEMORY_TYPE_ZE_HOST => 6,
            ucs_memory_type_t::UCS_MEMORY_TYPE_ZE_DEVICE => 7,
            ucs_memory_type_t::UCS_MEMORY_TYPE_ZE_MANAGED => 8,
            ucs_memory_type_t::UCS_MEMORY_TYPE_UNKNOWN => 9,
        }
    }

    /// The memory type with C value `code`; values past the known range are `UNKNOWN`.
    pub fn from_code(code: u32) -> (m: ucs_memory_type_t)
        ensures
            code <= 9 ==> m.spec_code() == code,
            code > 9 ==> m == ucs_memory_type_t::UCS_MEMORY_TYPE_UNKNOWN,
    {
        if code == 0 {
            ucs_memory_type_t::UCS_MEMORY_TYPE_HOST
        } else if code == 1 {
            ucs_memory_type_t::UCS_MEMORY_TYPE_CUDA
        } else if code == 2 {
            ucs_memory_type_t::UCS_MEMORY_TYPE_CUDA_MANAGED
        } else if code == 3 {
            ucs_memory_type_t::UCS_MEMORY_TYPE_ROCM
        } else if code == 4 {
            ucs_memory_type_t::UCS_MEMORY_TYPE_ROCM_MANAGED
        } else if code == 5 {
            ucs_memory_type_t::UCS_MEMORY_TYPE_RDMA
        } else if code == 6 {
            ucs_memory_type_t::UCS_MEMORY_TYPE_ZE_HOST
        } else if code == 7 {
            ucs_memory_type_t::UCS_MEMORY_TYPE_ZE_DEVICE
        } else if code == 8 {
            ucs_memory_type_t::UCS_MEMORY_TYPE_ZE_MANAGED
        } else {
            ucs_memory_type_t::UCS_MEMORY_TYPE_UNKNOWN
        }
    }
}

/// Endpoint error handling mode (`ucp_err_handling_mode_t`).
#[allow(non_camel_case_types)]
#[derive(Debug, Clone, Copy, PartialEq, Eq, Structural, Hash)]
pub enum ucp_err_handling_mode_t {
    UCP_ERR_HANDLING_MODE_NONE,
    UCP_ERR_HANDLING_MODE_PEER,
}

impl ucp_err_handling_mode_t {
    pub open spec fn spec_code(self) -> u32 {
        match self {
            ucp_err_handling_mode_t::UCP_ERR_HANDLING_MODE_NONE => 0,
            ucp_err_handling_mode_t::UCP_ERR_HANDLING_MODE_PEER => 1,
        }
    }

    /// The C enumerator value.
    pub fn code(&self) -> (c: u32)
        ensures
            c == self.spec_code(),
    {
        match self {
            ucp_err_handling_mode_t::UCP_ERR_HANDLING_MODE_NONE => 0,
            ucp_err_handling_mode_t::UCP_ERR_HANDLING_MODE_PEER => 1,
        }
    }
}

/// Remote atomic operation (`ucp_atomic_op_t`).
#[allow(non_camel_case_types)]
#[derive(Debug, Clone, Copy, PartialEq, Eq, Structural, Hash)]
pub enum ucp_atomic_op_t {
    UCP_ATOMIC_OP_ADD,
    UCP_ATOMIC_OP_SWAP,
    UCP_ATOMIC_OP_CSWAP,
    UCP_ATOMIC_OP_AND,
    UCP_ATOMIC_OP_OR,
    UCP_ATOMIC_OP_XOR,
}

impl ucp_atomic_op_t {
    pub open spec fn spec_code(self) -> u32 {
        match self {
            ucp_atomic_op_t::UCP_ATOMIC_OP_ADD => 0,
            ucp_atomic_op_t::UCP_ATOMIC_OP_SWAP => 1,
            ucp_atomic_op_t::UCP_ATOMIC_OP_CSWAP => 2,
            ucp_atomic_op_t::UCP_ATOMIC_OP_AND => 3,
            ucp_atomic_op_t::UCP_ATOMIC_OP_OR => 4,
            ucp_atomic_op_t::UCP_ATOMIC_OP_XOR => 5,
        }
    }

    /// The C enumerator value.
    pub fn code(&self) -> (c: u32)
        ensures
            c == self.spec_code(),
    {
        match self {
            ucp_atomic_op_t::UCP_ATOMIC_OP_ADD => 0,
            ucp_atomic_op_t::UCP_ATOMIC_OP_SWAP => 1,
            ucp_atomic_op_t::UCP_ATOMIC_OP_CSWAP => 2,
            ucp_atomic_op_t::UCP_ATOMIC_OP_AND => 3,
            ucp_atomic_op_t::UCP_ATOMIC_OP_OR => 4,
            ucp_atomic_op_t::UCP_ATOMIC_OP_XOR => 5,
        }
    }
}

/// Memory access advice (`ucp_mem_advice_t`).
#[allow(non_camel_case_types)]
#[derive(Debug, Clone, Copy, PartialEq, Eq, Structural, Hash)]
pub enum ucp_mem_advice_t {
    UCP_MADV_NORMAL,
    UCP_MADV_WILLNEED,
}

impl ucp_mem_advice_t {
    pub open spec fn spec_code(self) -> u32 {
        match self {
            ucp_mem_advice_t::UCP_MADV_NORMAL => 0,
            ucp_mem_advice_t::UCP_MADV_WILLNEED => 1,
        }
    }

    /// The C enumerator value.
    pub fn code(&self) -> (c: u32)
        ensures
            c == self.spec_code(),
    {
        match self {
            ucp_mem_advice_t::UCP_MADV_NORMAL => 0,
            ucp_mem_advice_t::UCP_MADV_WILLNEED => 1,
        }
    }
}

/// UCX's C value of every thread mode: `SINGLE` 0, `SERIALIZED` 1, `MULTI` 2,
/// `LAST` 3; and the mode decoded from each value is the one with that value.
pub proof fn lemma_thread_mode_c_values()
    ensures
        ucs_thread_mode_t::UCS_THREAD_MODE_SINGLE.spec_code() == 0,
        ucs_thread_mode_t::UCS_THREAD_MODE_SERIALIZED.spec_code() == 1,
        ucs_thread_mode_t::UCS_THREAD_MODE_MULTI.spec_code() == 2,
        ucs_thread_mode_t::UCS_THREAD_MODE_LAST.spec_code() == 3,
        forall|m1: ucs_thread_mode_t, m2: ucs_thread_mode_t| m1.spec_code() == m2.spec_code() ==> m1 == m2,
{
}

/// UCX's C value of every memory type: `HOST` 0, `CUDA` 1, `CUDA_MANAGED` 2,
/// `ROCM` 3, `ROCM_MANAGED` 4, `RDMA` 5, `ZE_HOST` 6, `ZE_DEVICE` 7,
/// `ZE_MANAGED` 8, `UNKNOWN` 9; no two types share a value.
pub proof fn lemma_memory_type_c_values()
    ensures
        ucs_memory_type_t::UCS_MEMORY_TYPE_HOST.spec_code() == 0,
        ucs_memory_type_t::UCS_MEMORY_TYPE_CUDA.spec_code() == 1,
        ucs_memory_type_t::UCS_MEMORY_TYPE_CUDA_MANAGED.spec_code() == 2,
        ucs_memory_type_t::UCS_MEMORY_TYPE_ROCM.spec_code() == 3,
        ucs_memory_type_t::UCS_MEMORY_TYPE_ROCM_MANAGED.spec_code() == 4,
        ucs_memory_type_t::UCS_MEMORY_TYPE_RDMA.spec_code() == 5,
        ucs_memory_type_t::UCS_MEMORY_TYPE_ZE_HOST.spec_code() == 6,
        ucs_memory_type_t::UCS_MEMORY_TYPE_ZE_DEVICE.spec_code() == 7,
        ucs_memory_type_t::UCS_MEMORY_TYPE_ZE_MANAGED.spec_code() == 8,
        ucs_memory_type_t::UCS_MEMORY_TYPE_UNKNOWN.spec_code() == 9,
        forall|m1: ucs_memory_type_t, m2: ucs_memory_type_t| m1.spec_code() == m2.spec_code() ==> m1 == m2,
{
}

/// UCX's opcode of every remote atomic operation: `ADD` 0, `SWAP` 1, `CSWAP` 2,
/// `AND` 3, `OR` 4, `XOR` 5; no two operations share an opcode.
pub proof fn lemma_atomic_op_c_values()
    ensures
        ucp_atomic_op_t::UCP_ATOMIC_OP_ADD.spec_code() == 0,
        ucp_atomic_op_t::UCP_ATOMIC_OP_SWAP.spec_code() == 1,
        ucp_atomic_op_t::UCP_ATOMIC_OP_CSWAP.spec_code() == 2,
        ucp_atomic_op_t::UCP_ATOMIC_OP_AND.spec_code() == 3,
        ucp_atomic_op_t::UCP_ATOMIC_OP_OR.spec_code() == 4,
        ucp_atomic_op_t::UCP_ATOMIC_OP_XOR.spec_code() == 5,
        forall|a: ucp_atomic_op_t, b: ucp_atomic_op_t| a.spec_code() == b.spec_code() ==> a == b,
{
}

/// UCX's C value of the error handling modes (`NONE` 0, `PEER` 1) and of the
/// memory advice values (`NORMAL` 0, `WILLNEED` 1).
pub proof fn lemma_err_mode_and_advice_c_values()
    ensures
        ucp_err_handling_mode_t::UCP_ERR_HANDLING_MODE_NONE.spec_code() == 0,
        ucp_err_handling_mode_t::UCP_ERR_HANDLING_MODE_PEER.spec_code() == 1,
        ucp_mem_advice_t::UCP_MADV_NORMAL.spec_code() == 0,
        ucp_mem_advice_t::UCP_MADV_WILLNEED.spec_code() == 1,
{
}

} // verus!
