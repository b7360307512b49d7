//! Active messages: what a receive callback hands to the user's handler.
use vstd::prelude::*;
use crate::status::ucs_status_t;

verus! {

/// Whether a buffer that UCX passes to a receive callback can be read: a
/// null buffer is acceptable only when it is empty.
pub open spec fn spec_am_buffer_ok(is_null: bool, length: usize) -> bool {
    !is_null || length == 0
}

/// Checks the header and data buffers of an active-message callback before
/// the user's handler sees them; a null buffer with a nonzero length is
/// refused with `UCS_ERR_INVALID_PARAM`.
pub fn am_callback_check(header_is_null: bool, header_length: usize, data_is_null: bool, length: usize) -> (r: Result<(), ucs_status_t>)
    ensures
        (spec_am_buffer_ok(header_is_null, header_length) && spec_am_buffer_ok(data_is_null, length))
            ==> r == Ok::<(), ucs_status_t>(()),
        !(spec_am_buffer_ok(header_is_null, header_length) && spec_am_buffer_ok(data_is_null, length))
            ==> r == Err::<(), ucs_status_t>(ucs_status_t::UCS_ERR_INVALID_PARAM),
{
    if header_is_null && header_length != 0 {
        return Err(ucs_status_t::UCS_ERR_INVALID_PARAM);
    }
    if data_is_null && length != 0 {
        return Err(ucs_status_t::UCS_ERR_INVALID_PARAM);
    }
    Ok(())
}

/// The status an active-message callback returns to UCX. A handler whose
/// lock is poisoned is not run again, and a handler that panicked has no
/// status: both are reported as `UCS_ERR_IO_ERROR`. Otherwise the handler's
/// own status is returned.
pub fn am_callback_status(lock_poisoned: bool, handler_status: Option<ucs_status_t>) -> (s: ucs_status_t)
    ensures
        lock_poisoned ==> s == ucs_status_t::UCS_ERR_IO_ERROR,
        !lock_poisoned && handler_status is None ==> s == ucs_status_t::UCS_ERR_IO_ERROR,
        !lock_poisoned ==> (handler_status matches Some(h) ==> s == h),
{
    if lock_poisoned {
        return ucs_status_t::UCS_ERR_IO_ERROR;
    }
    match handler_status {
        Some(h) => h,
        None => ucs_status_t::UCS_ERR_IO_ERROR,
    }
}

} // verus!
