//! UCS status codes and the decoding of UCX status values and status pointers.
use vstd::prelude::*;
use crate::request::Request;

verus! {

/// A UCS status code (`ucs_status_t`). Success values are non-negative,
/// errors are negative.
#[allow(non_camel_case_types)]
#[derive(Debug, Clone, Copy, PartialEq, Eq, Structural, Hash)]
pub enum ucs_status_t {
    UCS_OK,
    UCS_INPROGRESS,
    UCS_ERR_NO_MESSAGE,
    UCS_ERR_NO_RESOURCE,
    UCS_ERR_IO_ERROR,
    UCS_ERR_NO_MEMORY,
    UCS_ERR_INVALID_PARAM,
    UCS_ERR_UNREACHABLE,
    UCS_ERR_INVALID_ADDR,
    UCS_ERR_NOT_IMPLEMENTED,
    UCS_ERR_MESSAGE_TRUNCATED,
    UCS_ERR_NO_PROGRESS,
    UCS_ERR_BUFFER_TOO_SMALL,
    UCS_ERR_NO_ELEM,
    UCS_ERR_SOME_CONNECTS_FAILED,
    UCS_ERR_NO_DEVICE,
    UCS_ERR_BUSY,
    UCS_ERR_CANCELED,
    UCS_ERR_SHMEM_SEGMENT,
    UCS_ERR_ALREADY_EXISTS,
    UCS_ERR_OUT_OF_RANGE,
    UCS_ERR_TIMED_OUT,
    UCS_ERR_EXCEEDS_LIMIT,
    UCS_ERR_UNSUPPORTED,
    UCS_ERR_REJECTED,
    UCS_ERR_NOT_CONNECTED,
    UCS_ERR_CONNECTION_RESET,
    UCS_ERR_FIRST_LINK_FAILURE,
    UCS_ERR_LAST_LINK_FAILURE,
    UCS_ERR_FIRST_ENDPOINT_FAILURE,
    UCS_ERR_ENDPOINT_TIMEOUT,
    UCS_ERR_LAST_ENDPOINT_FAILURE,
    UCS_ERR_LAST,
}

/// The status with C value `code`, if `code` is one of the known values.
pub open spec fn spec_status_from_code(code: int) -> Option<ucs_status_t> {
    if code == 0 {
        Some(ucs_status_t::UCS_OK)
    } else if code == 1 {
        Some(ucs_status_t::UCS_INPROGRESS)
    } else if code == -1 {
        Some(ucs_status_t::UCS_ERR_NO_MESSAGE)
    } else if code == -2 {
        Some(ucs_status_t::UCS_ERR_NO_RESOURCE)
    } else if code == -3 {
        Some(ucs_status_t::UCS_ERR_IO_ERROR)
    } else if code == -4 {
        Some(ucs_status_t::UCS_ERR_NO_MEMORY)
    } else if code == -5 {
        Some(ucs_status_t::UCS_ERR_INVALID_PARAM)
    } else if code == -6 {
        Some(ucs_status_t::UCS_ERR_UNREACHABLE)
    } else if code == -7 {
        Some(ucs_status_t::UCS_ERR_INVALID_ADDR)
    } else if code == -8 {
        Some(ucs_status_t::UCS_ERR_NOT_IMPLEMENTED)
    } else if code == -9 {
        Some(ucs_status_t::UCS_ERR_MESSAGE_TRUNCATED)
    } else if code == -10 {
        Some(ucs_status_t::UCS_ERR_NO_PROGRESS)
    } else if code == -11 {
        Some(ucs_status_t::UCS_ERR_BUFFER_TOO_SMALL)
    } else if code == -12 {
        Some(ucs_status_t::UCS_ERR_NO_ELEM)
    } else if code == -13 {
        Some(ucs_status_t::UCS_ERR_SOME_CONNECTS_FAILED)
    } else if code == -14 {
        Some(ucs_status_t::UCS_ERR_NO_DEVICE)
    } else if code == -15 {
        Some(ucs_status_t::UCS_ERR_BUSY)
    } else if code == -16 {
        Some(ucs_status_t::UCS_ERR_CANCELED)
    } else if code == -17 {
        Some(ucs_status_t::UCS_ERR_SHMEM_SEGMENT)
    } else if code == -18 {
        Some(ucs_status_t::UCS_ERR_ALREADY_EXISTS)
    } else if code == -19 {
        Some(ucs_status_t::UCS_ERR_OUT_OF_RANGE)
    } else if code == -20 {
        Some(ucs_status_t::UCS_ERR_TIMED_OUT)
    } else if code == -21 {
        Some(ucs_status_t::UCS_ERR_EXCEEDS_LIMIT)
    } else if code == -22 {
        Some(ucs_status_t::UCS_ERR_UNSUPPORTED)
    } else if code == -23 {
        Some(ucs_status_t::UCS_ERR_REJECTED)
    } else if code == -24 {
        Some(ucs_status_t::UCS_ERR_NOT_CONNECTED)
    } else if code == -25 {
        Some(ucs_status_t::UCS_ERR_CONNECTION_RESET)
    } else if code == -40 {
        Some(ucs_status_t::UCS_ERR_FIRST_LINK_FAILURE)
    } else if code == -59 {
        Some(ucs_status_t::UCS_ERR_LAST_LINK_FAILURE)
    } else if code == -60 {
        Some(ucs_status_t::UCS_ERR_FIRST_ENDPOINT_FAILURE)
    } else if code == -80 {
        Some(ucs_status_t::UCS_ERR_ENDPOINT_TIMEOUT)
    } else if code == -89 {
        Some(ucs_status_t::UCS_ERR_LAST_ENDPOINT_FAILURE)
    } else if code == -100 {
        Some(ucs_status_t::UCS_ERR_LAST)
    } else {
        None
    }
}

impl ucs_status_t {
    /// The C value of this status.
    pub open spec fn spec_code(self) -> int {
        match self {
            ucs_status_t::UCS_OK => 0,
            ucs_status_t::UCS_INPROGRESS => 1,
            ucs_status_t::UCS_ERR_NO_MESSAGE => -1,
            ucs_status_t::UCS_ERR_NO_RESOURCE => -2,
            ucs_status_t::UCS_ERR_IO_ERROR => -3,
            ucs_status_t::UCS_ERR_NO_MEMORY => -4,
            ucs_status_t::UCS_ERR_INVALID_PARAM => -5,
            ucs_status_t::UCS_ERR_UNREACHABLE => -6,
            ucs_status_t::UCS_ERR_INVALID_ADDR => -7,
            ucs_status_t::UCS_ERR_NOT_IMPLEMENTED => -8,
            ucs_status_t::UCS_ERR_MESSAGE_TRUNCATED => -9,
            ucs_status_t::UCS_ERR_NO_PROGRESS => -10,
            ucs_status_t::UCS_ERR_BUFFER_TOO_SMALL => -11,
            ucs_status_t::UCS_ERR_NO_ELEM => -12,
            ucs_status_t::UCS_ERR_SOME_CONNECTS_FAILED => -13,
            ucs_status_t::UCS_ERR_NO_DEVICE => -14,
            ucs_status_t::UCS_ERR_BUSY => -15,
            ucs_status_t::UCS_ERR_CANCELED => -16,
            ucs_status_t::UCS_ERR_SHMEM_SEGMENT => -17,
            ucs_status_t::UCS_ERR_ALREADY_EXISTS => -18,
            ucs_status_t::UCS_ERR_OUT_OF_RANGE => -19,
            ucs_status_t::UCS_ERR_TIMED_OUT => -20,
            ucs_status_t::UCS_ERR_EXCEEDS_LIMIT => -21,
            ucs_status_t::UCS_ERR_UNSUPPORTED => -22,
            ucs_status_t::UCS_ERR_REJECTED => -23,
            ucs_status_t::UCS_ERR_NOT_CONNECTED => -24,
            ucs_status_t::UCS_ERR_CONNECTION_RESET => -25,
            ucs_status_t::UCS_ERR_FIRST_LINK_FAILURE => -40,
            ucs_status_t::UCS_ERR_LAST_LINK_FAILURE => -59,
            ucs_status_t::UCS_ERR_FIRST_ENDPOINT_FAILURE => -60,
            ucs_status_t::UCS_ERR_ENDPOINT_TIMEOUT => -80,
            ucs_status_t::UCS_ERR_LAST_ENDPOINT_FAILURE => -89,
            ucs_status_t::UCS_ERR_LAST => -100,
        }
    }

    /// Whether this status is an error (its C value is negative).
    pub open spec fn spec_is_err(self) -> bool {
        self.spec_code() < 0
    }

    /// The C value of this status.
    pub fn code(&self) -> (c: i32)
        ensures
            c == self.spec_code(),
    {
        match self {
            ucs_status_t::UCS_OK => 0,
            ucs_status_t::UCS_INPROGRESS => 1,
            ucs_status_t::UCS_ERR_NO_MESSAGE => -1,
            ucs_status_t::UCS_ERR_NO_RESOURCE => -2,
            ucs_status_t::UCS_ERR_IO_ERROR => -3,
            ucs_status_t::UCS_ERR_NO_MEMORY => -4,
            ucs_status_t::UCS_ERR_INVALID_PARAM => -5,
            ucs_status_t::UCS_ERR_UNREACHABLE => -6,
            ucs_status_t::UCS_ERR_INVALID_ADDR => -7,
            ucs_status_t::UCS_ERR_NOT_IMPLEMENTED => -8,
            ucs_status_t::UCS_ERR_MESSAGE_TRUNCATED => -9,
            ucs_status_t::UCS_ERR_NO_PROGRESS => -10,
            ucs_status_t::UCS_ERR_BUFFER_TOO_SMALL => -11,
            ucs_status_t::UCS_ERR_NO_ELEM => -12,
            ucs_status_t::UCS_ERR_SOME_CONNECTS_FAILED => -13,
            ucs_status_t::UCS_ERR_NO_DEVICE => -14,
            ucs_status_t::UCS_ERR_BUSY => -15,
            ucs_status_t::UCS_ERR_CANCELED => -16,
            ucs_status_t::UCS_ERR_SHMEM_SEGMENT => -17,
            ucs_status_t::UCS_ERR_ALREADY_EXISTS => -18,
            ucs_status_t::UCS_ERR_OUT_OF_RANGE => -19,
            ucs_status_t::UCS_ERR_TIMED_OUT => -20,
            ucs_status_t::UCS_ERR_EXCEEDS_LIMIT => -21,
            ucs_status_t::UCS_ERR_UNSUPPORTED => -22,
            ucs_status_t::UCS_ERR_REJECTED => -23,
            ucs_status_t::UCS_ERR_NOT_CONNECTED => -24,
            ucs_status_t::UCS_ERR_CONNECTION_RESET => -25,
            ucs_status_t::UCS_ERR_FIRST_LINK_FAILURE => -40,
            ucs_status_t::UCS_ERR_LAST_LINK_FAILURE => -59,
            ucs_status_t::UCS_ERR_FIRST_ENDPOINT_FAILURE => -60,
            ucs_status_t::UCS_ERR_ENDPOINT_TIMEOUT => -80,
            ucs_status_t::UCS_ERR_LAST_ENDPOINT_FAILURE => -89,
            ucs_status_t::UCS_ERR_LAST => -100,
        }
    }

    /// The status with C value `code`, if it is a known one.
    pub fn from_code(code: i32) -> (s: Option<ucs_status_t>)
        ensures
            s == spec_status_from_code(code as int),
    {
        if code == 0 {
            Some(ucs_status_t::UCS_OK)
        } else if code == 1 {
            Some(ucs_status_t::UCS_INPROGRESS)
        } else if code == -1 {
            Some(ucs_status_t::UCS_ERR_NO_MESSAGE)
        } else if code == -2 {
            Some(ucs_status_t::UCS_ERR_NO_RESOURCE)
        } else if code == -3 {
            Some(ucs_status_t::UCS_ERR_IO_ERROR)
        } else if code == -4 {
            Some(ucs_status_t::UCS_ERR_NO_MEMORY)
        } else if code == -5 {
            Some(ucs_status_t::UCS_ERR_INVALID_PARAM)
        } else if code == -6 {
            Some(ucs_status_t::UCS_ERR_UNREACHABLE)
        } else if code == -7 {
            Some(ucs_status_t::UCS_ERR_INVALID_ADDR)
        } else if code == -8 {
            Some(ucs_status_t::UCS_ERR_NOT_IMPLEMENTED)
        } else if code == -9 {
            Some(ucs_status_t::UCS_ERR_MESSAGE_TRUNCATED)
        } else if code == -10 {
            Some(ucs_status_t::UCS_ERR_NO_PROGRESS)
        } else if code == -11 {
            Some(ucs_status_t::UCS_ERR_BUFFER_TOO_SMALL)
        } else if code == -12 {
            Some(ucs_status_t::UCS_ERR_NO_ELEM)
        } else if code == -13 {
            Some(ucs_status_t::UCS_ERR_SOME_CONNECTS_FAILED)
        } else if code == -14 {
            Some(ucs_status_t::UCS_ERR_NO_DEVICE)
        } else if code == -15 {
            Some(ucs_status_t::UCS_ERR_BUSY)
        } else if code == -16 {
            Some(ucs_status_t::UCS_ERR_CANCELED)
        } else if code == -17 {
            Some(ucs_status_t::UCS_ERR_SHMEM_SEGMENT)
        } else if code == -18 {
            Some(ucs_status_t::UCS_ERR_ALREADY_EXISTS)
        } else if code == -19 {
            Some(ucs_status_t::UCS_ERR_OUT_OF_RANGE)
        } else if code == -20 {
            Some(ucs_status_t::UCS_ERR_TIMED_OUT)
        } else if code == -21 {
            Some(ucs_status_t::UCS_ERR_EXCEEDS_LIMIT)
        } else if code == -22 {
            Some(ucs_status_t::UCS_ERR_UNSUPPORTED)
        } else if code == -23 {
            Some(ucs_status_t::UCS_ERR_REJECTED)
        } else if code == -24 {
            Some(ucs_status_t::UCS_ERR_NOT_CONNECTED)
        } else if code == -25 {
            Some(ucs_status_t::UCS_ERR_CONNECTION_RESET)
        } else if code == -40 {
            Some(ucs_status_t::UCS_ERR_FIRST_LINK_FAILURE)
        } else if code == -59 {
            Some(ucs_status_t::UCS_ERR_LAST_LINK_FAILURE)
        } else if code == -60 {
            Some(ucs_status_t::UCS_ERR_FIRST_ENDPOINT_FAILURE)
        } else if code == -80 {
            Some(ucs_status_t::UCS_ERR_ENDPOINT_TIMEOUT)
        } else if code == -89 {
            Some(ucs_status_t::UCS_ERR_LAST_ENDPOINT_FAILURE)
        } else if code == -100 {
            Some(ucs_status_t::UCS_ERR_LAST)
        } else {
            None
        }
    }

    /// Whether this status is an error.
    pub fn is_err(&self) -> (b: bool)
        ensures
            b == self.spec_is_err(),
    {
        self.code() < 0
    }
}

/// UCX's C value of every status, as `ucs_status.h` fixes it: `UCS_OK` is 0,
/// `UCS_INPROGRESS` 1, the errors count down from -1 to -25 and then take the
/// link, endpoint and last values; decoding each value gives its status.
pub proof fn lemma_status_c_values()
    ensures
        ucs_status_t::UCS_OK.spec_code() == 0,
        spec_status_from_code(0) == Some(ucs_status_t::UCS_OK),
        ucs_status_t::UCS_INPROGRESS.spec_code() == 1,
        spec_status_from_code(1) == Some(ucs_status_t::UCS_INPROGRESS),
        ucs_status_t::UCS_ERR_NO_MESSAGE.spec_code() == -1,
        spec_status_from_code(-1) == Some(ucs_status_t::UCS_ERR_NO_MESSAGE),
        ucs_status_t::UCS_ERR_NO_RESOURCE.spec_code() == -2,
        spec_status_from_code(-2) == Some(ucs_status_t::UCS_ERR_NO_RESOURCE),
        ucs_status_t::UCS_ERR_IO_ERROR.spec_code() == -3,
        spec_status_from_code(-3) == Some(ucs_status_t::UCS_ERR_IO_ERROR),
        ucs_status_t::UCS_ERR_NO_MEMORY.spec_code() == -4,
        spec_status_from_code(-4) == Some(ucs_status_t::UCS_ERR_NO_MEMORY),
        ucs_status_t::UCS_ERR_INVALID_PARAM.spec_code() == -5,
        spec_status_from_code(-5) == Some(ucs_status_t::UCS_ERR_INVALID_PARAM),
        ucs_status_t::UCS_ERR_UNREACHABLE.spec_code() == -6,
        spec_status_from_code(-6) == Some(ucs_status_t::UCS_ERR_UNREACHABLE),
        ucs_status_t::UCS_ERR_INVALID_ADDR.spec_code() == -7,
        spec_status_from_code(-7) == Some(ucs_status_t::UCS_ERR_INVALID_ADDR),
        ucs_status_t::UCS_ERR_NOT_IMPLEMENTED.spec_code() == -8,
        spec_status_from_code(-8) == Some(ucs_status_t::UCS_ERR_NOT_IMPLEMENTED),
        ucs_status_t::UCS_ERR_MESSAGE_TRUNCATED.spec_code() == -9,
        spec_status_from_code(-9) == Some(ucs_status_t::UCS_ERR_MESSAGE_TRUNCATED),
        ucs_status_t::UCS_ERR_NO_PROGRESS.spec_code() == -10,
        spec_status_from_code(-10) == Some(ucs_status_t::UCS_ERR_NO_PROGRESS),
        ucs_status_t::UCS_ERR_BUFFER_TOO_SMALL.spec_code() == -11,
        spec_status_from_code(-11) == Some(ucs_status_t::UCS_ERR_BUFFER_TOO_SMALL),
        ucs_status_t::UCS_ERR_NO_ELEM.spec_code() == -12,
        spec_status_from_code(-12) == Some(ucs_status_t::UCS_ERR_NO_ELEM),
        ucs_status_t::UCS_ERR_SOME_CONNECTS_FAILED.spec_code() == -13,
        spec_status_from_code(-13) == Some(ucs_status_t::UCS_ERR_SOME_CONNECTS_FAILED),
        ucs_status_t::UCS_ERR_NO_DEVICE.spec_code() == -14,
        spec_status_from_code(-14) == Some(ucs_status_t::UCS_ERR_NO_DEVICE),
        ucs_status_t::UCS_ERR_BUSY.spec_code() == -15,
        spec_status_from_code(-15) == Some(ucs_status_t::UCS_ERR_BUSY),
        ucs_status_t::UCS_ERR_CANCELED.spec_code() == -16,
        spec_status_from_code(-16) == Some(ucs_status_t::UCS_ERR_CANCELED),
        ucs_status_t::UCS_ERR_SHMEM_SEGMENT.spec_code() == -17,
        spec_status_from_code(-17) == Some(ucs_status_t::UCS_ERR_SHMEM_SEGMENT),
        ucs_status_t::UCS_ERR_ALREADY_EXISTS.spec_code() == -18,
        spec_status_from_code(-18) == Some(ucs_status_t::UCS_ERR_ALREADY_EXISTS),
        ucs_status_t::UCS_ERR_OUT_OF_RANGE.spec_code() == -19,
        spec_status_from_code(-19) == Some(ucs_status_t::UCS_ERR_OUT_OF_RANGE),
        ucs_status_t::UCS_ERR_TIMED_OUT.spec_code() == -20,
        spec_status_from_code(-20) == Some(ucs_status_t::UCS_ERR_TIMED_OUT),
        ucs_status_t::UCS_ERR_EXCEEDS_LIMIT.spec_code() == -21,
        spec_status_from_code(-21) == Some(ucs_status_t::UCS_ERR_EXCEEDS_LIMIT),
        ucs_status_t::UCS_ERR_UNSUPPORTED.spec_code() == -22,
        spec_status_from_code(-22) == Some(ucs_status_t::UCS_ERR_UNSUPPORTED),
        ucs_status_t::UCS_ERR_REJECTED.spec_code() == -23,
        spec_status_from_code(-23) == Some(ucs_status_t::UCS_ERR_REJECTED),
        ucs_status_t::UCS_ERR_NOT_CONNECTED.spec_code() == -24,
        spec_status_from_code(-24) == Some(ucs_status_t::UCS_ERR_NOT_CONNECTED),
        ucs_status_t::UCS_ERR_CONNECTION_RESET.spec_code() == -25,
        spec_status_from_code(-25) == Some(ucs_status_t::UCS_ERR_CONNECTION_RESET),
        ucs_status_t::UCS_ERR_FIRST_LINK_FAILURE.spec_code() == -40,
        spec_status_from_code(-40) == Some(ucs_status_t::UCS_ERR_FIRST_LINK_FAILURE),
        ucs_status_t::UCS_ERR_LAST_LINK_FAILURE.spec_code() == -59,
        spec_status_from_code(-59) == Some(ucs_status_t::UCS_ERR_LAST_LINK_FAILURE),
        ucs_status_t::UCS_ERR_FIRST_ENDPOINT_FAILURE.spec_code() == -60,
        spec_status_from_code(-60) == Some(ucs_status_t::UCS_ERR_FIRST_ENDPOINT_FAILURE),
        ucs_status_t::UCS_ERR_ENDPOINT_TIMEOUT.spec_code() == -80,
        spec_status_from_code(-80) == Some(ucs_status_t::UCS_ERR_ENDPOINT_TIMEOUT),
        ucs_status_t::UCS_ERR_LAST_ENDPOINT_FAILURE.spec_code() == -89,
        spec_status_from_code(-89) == Some(ucs_status_t::UCS_ERR_LAST_ENDPOINT_FAILURE),
        ucs_status_t::UCS_ERR_LAST.spec_code() == -100,
        spec_status_from_code(-100) == Some(ucs_status_t::UCS_ERR_LAST),
{
}

/// Decoding a C value gives a status only of that value: every other code
/// decodes to nothing.
pub proof fn lemma_status_from_code_inverse(code: int)
    ensures
        spec_status_from_code(code) matches Some(s) ==> s.spec_code() == code,
{
}

/// Converting a status to its C value and back gives the status again.
pub proof fn lemma_status_code_roundtrip(s: ucs_status_t)
    ensures
        spec_status_from_code(s.spec_code()) == Some(s),
{
}

/// Every error status lies in the range `UCS_ERR_LAST ..= -1`.
pub proof fn lemma_status_error_range(s: ucs_status_t)
    ensures
        s.spec_is_err() ==> -100 <= s.spec_code() <= -1,
        !s.spec_is_err() ==> 0 <= s.spec_code() <= 1,
{
}

/// `Err(status)` when `status` is an error, `Ok(())` otherwise.
pub open spec fn spec_status_to_result(status: ucs_status_t) -> Result<(), ucs_status_t> {
    if status.spec_is_err() {
        Err(status)
    } else {
        Ok(())
    }
}

/// Maps a plain status return to `Ok(())` for success values and `Err` for errors.
pub fn status_to_result(status: ucs_status_t) -> (r: Result<(), ucs_status_t>)
    ensures
        r == spec_status_to_result(status),
{
    if status.is_err() {
        Err(status)
    } else {
        Ok(())
    }
}

/// The signed value of the low 32 bits of a status pointer (what C reads back
/// as an `int` status).
pub open spec fn spec_ptr_low_i32(ptr: usize) -> int {
    let low = ptr as int % 0x1_0000_0000;
    if low >= 0x8000_0000 {
        low - 0x1_0000_0000
    } else {
        low
    }
}

/// A status pointer carries an error when it lies in the top `UCS_ERR_LAST`
/// values of the address space (the negative status values, read as addresses).
pub open spec fn spec_status_ptr_is_err(ptr: usize) -> bool {
    ptr as int >= usize::MAX as int - 99
}

/// The error status that a status pointer denotes: the known error with the
/// pointer's low 32-bit value, and `UCS_ERR_LAST` for any other value.
pub open spec fn spec_status_from_ptr(ptr: usize) -> ucs_status_t {
    match spec_status_from_code(spec_ptr_low_i32(ptr)) {
        Some(s) => if s.spec_is_err() {
            s
        } else {
            ucs_status_t::UCS_ERR_LAST
        },
        None => ucs_status_t::UCS_ERR_LAST,
    }
}

/// The status pointer value that C produces for `status` (`(void*)(intptr_t)status`).
pub open spec fn spec_status_as_ptr(status: ucs_status_t) -> usize {
    if status.spec_code() >= 0 {
        status.spec_code() as usize
    } else {
        (usize::MAX as int + 1 + status.spec_code()) as usize
    }
}

/// The status pointer value that C produces for `status`.
pub fn status_as_ptr(status: ucs_status_t) -> (ptr: usize)
    ensures
        ptr == spec_status_as_ptr(status),
{
    let code = status.code();
    if code >= 0 {
        code as usize
    } else {
        let back = (-code) as usize;
        usize::MAX - (back - 1)
    }
}

/// Decodes the error status carried by a status pointer. Values that are not
/// a known error status decode to `UCS_ERR_LAST`.
pub fn status_from_ptr(ptr: usize) -> (s: ucs_status_t)
    ensures
        s == spec_status_from_ptr(ptr),
        s.spec_is_err(),
{
    let wide = ptr as u64;
    let low = wide & 0xffff_ffffu64;
    assert(low == wide % 0x1_0000_0000) by (bit_vector)
        requires
            low == wide & 0xffff_ffffu64,
    ;
    let code: i64 = if low >= 0x8000_0000 {
        low as i64 - 0x1_0000_0000i64
    } else {
        low as i64
    };
    assert(code == spec_ptr_low_i32(ptr));
    match ucs_status_t::from_code(code as i32) {
        Some(st) => {
            if st.is_err() {
                st
            } else {
                ucs_status_t::UCS_ERR_LAST
            }
        },
        None => ucs_status_t::UCS_ERR_LAST,
    }
}

/// Whether a status pointer carries an error status rather than a request or
/// an immediate completion.
pub fn status_ptr_is_err(ptr: usize) -> (b: bool)
    ensures
        b == spec_status_ptr_is_err(ptr),
{
    ptr >= usize::MAX - 99
}

/// The result that a status pointer denotes: an error, an immediate
/// completion (`UCS_OK`), or an outstanding request at that address.
pub open spec fn spec_status_ptr_to_result(ptr: usize) -> Result<Option<Request>, ucs_status_t> {
    if spec_status_ptr_is_err(ptr) {
        Err(spec_status_from_ptr(ptr))
    } else if ptr <= 1 {
        Ok(None)
    } else {
        Ok(Some(Request { handle: Some(ptr) }))
    }
}

/// Translates a UCX status pointer into an error, an immediate completion, or
/// a request. Status-pointer APIs never return `UCS_INPROGRESS` (they return a
/// request instead), so that value is outside this function's domain.
pub fn status_ptr_to_result(ptr: usize) -> (r: Result<Option<Request>, ucs_status_t>)
    requires
        ptr != 1,
    ensures
        r == spec_status_ptr_to_result(ptr),
{
    if status_ptr_is_err(ptr) {
        return Err(status_from_ptr(ptr));
    }
    if ptr <= 1 {
        return Ok(None);
    }
    Ok(Some(Request { handle: Some(ptr) }))
}

/// The low 32 bits of the pointer that encodes an error status read back as
/// that status's value.
pub proof fn lemma_low_i32_of_error_ptr(code: int)
    requires
        -100 <= code <= -1,
    ensures
        spec_ptr_low_i32((usize::MAX as int + 1 + code) as usize) == code,
{
    let p = usize::MAX as int + 1 + code;
    if usize::MAX == 0xffff_ffff {
        assert(p % 0x1_0000_0000 == 0x1_0000_0000 + code);
    } else {
        assert(usize::MAX == 0xffff_ffff_ffff_ffff);
        assert(p == 0xffff_ffff * 0x1_0000_0000 + (0x1_0000_0000 + code));
        assert(p % 0x1_0000_0000 == 0x1_0000_0000 + code);
    }
}

/// Encoding an error status as a status pointer and decoding it again gives
/// `Err` of that status; encoding `UCS_OK` gives an immediate completion.
pub proof fn lemma_status_ptr_roundtrip(s: ucs_status_t)
    ensures
        s.spec_is_err() ==> spec_status_ptr_to_result(spec_status_as_ptr(s)) == Err::<
            Option<Request>,
            ucs_status_t,
        >(s),
        s == ucs_status_t::UCS_OK ==> spec_status_ptr_to_result(spec_status_as_ptr(s)) == Ok::<
            Option<Request>,
            ucs_status_t,
        >(None),
{
    if s.spec_is_err() {
        lemma_low_i32_of_error_ptr(s.spec_code());
        lemma_status_code_roundtrip(s);
    }
}

/// The two status helpers agree: a status that is an error comes back as that
/// same error whether it arrives as a plain status or as a status pointer,
/// and `UCS_OK` is success through both.
pub proof fn lemma_status_tiers_agree(s: ucs_status_t)
    ensures
        s.spec_is_err() ==> (spec_status_to_result(s) == Err::<(), ucs_status_t>(s)
            && spec_status_ptr_to_result(spec_status_as_ptr(s)) == Err::<Option<Request>, ucs_status_t>(s)),
        s == ucs_status_t::UCS_OK ==> (spec_status_to_result(s) == Ok::<(), ucs_status_t>(())
            && spec_status_ptr_to_result(spec_status_as_ptr(s)) == Ok::<Option<Request>, ucs_status_t>(None)),
{
    lemma_status_ptr_roundtrip(s);
}

} // verus!
