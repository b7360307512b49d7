//! Library-wide attributes.
use vstd::prelude::*;
use crate::status::{status_to_result, ucs_status_t};
use crate::types::ucs_thread_mode_t;

verus! {

/// `UCP_LIB_ATTR_FIELD_MAX_THREAD_LEVEL`: a library query asks for the highest
/// thread mode the library supports.
pub const UCP_LIB_ATTR_FIELD_MAX_THREAD_LEVEL: u64 = 1;

/// Library attributes.
#[derive(Debug, Clone, Copy)]
pub struct LibAttr {
    pub max_thread_level: ucs_thread_mode_t,
}

impl LibAttr {
    /// The attributes of a library query (`ucp_lib_query`) that reported
    /// `status` and filled in `max_thread_level`.
    pub fn from_query(status: ucs_status_t, max_thread_level: ucs_thread_mode_t) -> (r: Result<LibAttr, ucs_status_t>)
        ensures
            !status.spec_is_err() ==> (r matches Ok(a) && a.max_thread_level == max_thread_level),
            status.spec_is_err() ==> (r matches Err(e) && e == status),
    {
        match status_to_result(status) {
            Ok(()) => Ok(LibAttr { max_thread_level }),
            Err(e) => Err(e),
        }
    }
}

/// The legacy initialisation entry point, which this UCX no longer has: it
/// always fails with `UCS_ERR_UNSUPPORTED`.
pub fn init_raw() -> (r: Result<usize, ucs_status_t>)
    ensures
        r == Err::<usize, ucs_status_t>(ucs_status_t::UCS_ERR_UNSUPPORTED),
{
    Err(ucs_status_t::UCS_ERR_UNSUPPORTED)
}

} // verus!
