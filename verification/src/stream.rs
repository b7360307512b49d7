//! The stream protocol: what a stream receive hands back.
use vstd::prelude::*;
use crate::request::Request;
use crate::status::{
    spec_status_from_ptr, spec_status_ptr_is_err, spec_status_ptr_to_result, status_from_ptr,
    status_ptr_is_err, status_ptr_to_result, ucs_status_t,
};

verus! {

/// A buffer of stream data that UCX allocated for endpoint `ep`, by address,
/// holding `length` bytes; it is handed back to UCX when released.
#[derive(Debug)]
pub struct StreamData {
    pub ep: usize,
    pub data: usize,
    pub length: usize,
}

impl StreamData {
    /// Number of bytes received.
    pub fn len(&self) -> (l: usize)
        ensures
            l == self.length,
    {
        self.length
    }

    /// Whether the received data is empty.
    pub fn is_empty(&self) -> (b: bool)
        ensures
            b == (self.length == 0),
    {
        self.length == 0
    }
}

/// What `ucp_stream_recv_data_nb` on endpoint `ep` hands back: no data for a
/// null pointer, the decoded error for an error pointer, otherwise the data
/// buffer with the length UCX reported.
pub open spec fn spec_stream_recv_data(ep: usize, ptr: usize, length: usize) -> Result<Option<StreamData>, ucs_status_t> {
    if ptr == 0 {
        Ok(None)
    } else if spec_status_ptr_is_err(ptr) {
        Err(spec_status_from_ptr(ptr))
    } else {
        Ok(Some(StreamData { ep, data: ptr, length }))
    }
}

/// Interprets the pointer and length returned by `ucp_stream_recv_data_nb`.
pub fn stream_recv_data_result(ep: usize, ptr: usize, length: usize) -> (r: Result<Option<StreamData>, ucs_status_t>)
    ensures
        r == spec_stream_recv_data(ep, ptr, length),
{
    if ptr == 0 {
        return Ok(None);
    }
    if status_ptr_is_err(ptr) {
        return Err(status_from_ptr(ptr));
    }
    Ok(Some(StreamData { ep, data: ptr, length }))
}

/// Interprets a stream receive (`ucp_stream_recv_nbx`): the request or
/// immediate completion its status pointer denotes, with the number of bytes
/// received so far, or the error.
pub fn stream_recv_result(ptr: usize, length: usize) -> (r: Result<(Option<Request>, usize), ucs_status_t>)
    requires
        ptr != 1,
    ensures
        match spec_status_ptr_to_result(ptr) {
            Ok(q) => r == Ok::<(Option<Request>, usize), ucs_status_t>((q, length)),
            Err(e) => r == Err::<(Option<Request>, usize), ucs_status_t>(e),
        },
{
    match status_ptr_to_result(ptr) {
        Ok(q) => Ok((q, length)),
        Err(e) => Err(e),
    }
}

} // verus!
