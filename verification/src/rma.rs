//! Remote memory access: packed remote keys, remote-key handles and the
//! completions of fetching atomic operations.
use vstd::prelude::*;
use crate::request::{Request, spec_finished_from_status};
use crate::status::{status_to_result, ucs_status_t};
use crate::types::ucp_atomic_op_t;

verus! {

/// The four little-endian bytes of `n`.
pub open spec fn spec_le_bytes_u32(n: u32) -> Seq<u8> {
    seq![
        (n & 0xffu32) as u8,
        ((n >> 8u32) & 0xffu32) as u8,
        ((n >> 16u32) & 0xffu32) as u8,
        ((n >> 24u32) & 0xffu32) as u8,
    ]
}

/// The `u32` whose little-endian bytes are `b0, b1, b2, b3`.
pub open spec fn spec_le_u32(b0: u8, b1: u8, b2: u8, b3: u8) -> u32 {
    (b0 as u32) | ((b1 as u32) << 8u32) | ((b2 as u32) << 16u32) | ((b3 as u32) << 24u32)
}

/// A packed remote key on the wire: the payload's length as four
/// little-endian bytes, then the payload.
pub open spec fn spec_frame(payload: Seq<u8>) -> Seq<u8> {
    spec_le_bytes_u32(payload.len() as u32) + payload
}

/// Reading a framed remote key back: the payload, when the buffer holds a
/// length prefix that counts exactly the bytes after it.
pub open spec fn spec_unframe(buffer: Seq<u8>) -> Result<Seq<u8>, ucs_status_t> {
    if buffer.len() < 4 {
        Err(ucs_status_t::UCS_ERR_INVALID_PARAM)
    } else if spec_le_u32(buffer[0], buffer[1], buffer[2], buffer[3]) as int != buffer.len() - 4 {
        Err(ucs_status_t::UCS_ERR_INVALID_PARAM)
    } else {
        Ok(buffer.subrange(4, buffer.len() as int))
    }
}

proof fn lemma_le_bytes_decode(n: u32)
    ensures
        spec_le_u32(
            (n & 0xffu32) as u8,
            ((n >> 8u32) & 0xffu32) as u8,
            ((n >> 16u32) & 0xffu32) as u8,
            ((n >> 24u32) & 0xffu32) as u8,
        ) == n,
{
    assert(((n & 0xffu32) as u8) as u32 | ((((n >> 8u32) & 0xffu32) as u8) as u32) << 8u32 | ((((n
        >> 16u32) & 0xffu32) as u8) as u32) << 16u32 | ((((n >> 24u32) & 0xffu32) as u8) as u32)
        << 24u32 == n) by (bit_vector);
}

proof fn lemma_le_bytes_encode(b0: u8, b1: u8, b2: u8, b3: u8)
    ensures
        spec_le_bytes_u32(spec_le_u32(b0, b1, b2, b3)) == seq![b0, b1, b2, b3],
{
    let n = spec_le_u32(b0, b1, b2, b3);
    assert(n == (b0 as u32) | ((b1 as u32) << 8u32) | ((b2 as u32) << 16u32) | ((b3 as u32)
        << 24u32));
    assert((n & 0xffu32) as u8 == b0 && ((n >> 8u32) & 0xffu32) as u8 == b1 && ((n >> 16u32)
        & 0xffu32) as u8 == b2 && ((n >> 24u32) & 0xffu32) as u8 == b3) by (bit_vector)
        requires
            n == (b0 as u32) | ((b1 as u32) << 8u32) | ((b2 as u32) << 16u32) | ((b3 as u32)
                << 24u32),
    ;
    assert(spec_le_bytes_u32(n) =~= seq![b0, b1, b2, b3]);
}

/// Frames a packed remote key as `[4-byte little-endian length][payload]`.
/// A payload whose length does not fit the 4-byte prefix is refused with
/// `UCS_ERR_OUT_OF_RANGE`.
pub fn frame_rkey_payload(payload: &[u8]) -> (r: Result<Vec<u8>, ucs_status_t>)
    ensures
        payload@.len() > u32::MAX ==> r == Err::<Vec<u8>, ucs_status_t>(
            ucs_status_t::UCS_ERR_OUT_OF_RANGE,
        ),
        payload@.len() <= u32::MAX ==> (r matches Ok(v) && v@ == spec_frame(payload@)),
{
    if payload.len() > 0xffff_ffffusize {
        return Err(ucs_status_t::UCS_ERR_OUT_OF_RANGE);
    }
    let n: u32 = payload.len() as u32;
    let mut framed: Vec<u8> = Vec::new();
    framed.push((n & 0xff) as u8);
    framed.push(((n >> 8u32) & 0xff) as u8);
    framed.push(((n >> 16u32) & 0xff) as u8);
    framed.push(((n >> 24u32) & 0xff) as u8);
    assert(framed@ =~= spec_le_bytes_u32(n));
    let mut i: usize = 0;
    while i < payload.len()
        invariant
            0 <= i <= payload@.len(),
            framed@ =~= spec_le_bytes_u32(n) + payload@.subrange(0, i as int),
        decreases payload@.len() - i,
    {
        framed.push(payload[i]);
        assert(payload@.subrange(0, i + 1) =~= payload@.subrange(0, i as int).push(payload@[i as int]));
        i = i + 1;
    }
    assert(payload@.subrange(0, payload@.len() as int) =~= payload@);
    Ok(framed)
}

/// Reads a framed remote key: the payload after the 4-byte little-endian
/// length prefix. A buffer shorter than the prefix, or whose prefix does not
/// count exactly the bytes after it, is refused with `UCS_ERR_INVALID_PARAM`.
pub fn unframe_rkey_payload(buffer: &[u8]) -> (r: Result<&[u8], ucs_status_t>)
    ensures
        match r {
            Ok(p) => spec_unframe(buffer@) == Ok::<Seq<u8>, ucs_status_t>(p@),
            Err(e) => spec_unframe(buffer@) == Err::<Seq<u8>, ucs_status_t>(e),
        },
{
    if buffer.len() < 4 {
        return Err(ucs_status_t::UCS_ERR_INVALID_PARAM);
    }
    let b0: u8 = buffer[0];
    let b1: u8 = buffer[1];
    let b2: u8 = buffer[2];
    let b3: u8 = buffer[3];
    let payload_len: u32 = (b0 as u32) | ((b1 as u32) << 8u32) | ((b2 as u32) << 16u32) | ((
    b3 as u32) << 24u32);
    if payload_len as usize != buffer.len() - 4 {
        return Err(ucs_status_t::UCS_ERR_INVALID_PARAM);
    }
    Ok(vstd::slice::slice_subrange(buffer, 4, buffer.len()))
}

/// A payload that fits the length prefix reads back unchanged from its frame.
pub proof fn lemma_unframe_frame(payload: Seq<u8>)
    requires
        payload.len() <= u32::MAX,
    ensures
        spec_unframe(spec_frame(payload)) == Ok::<Seq<u8>, ucs_status_t>(payload),
{
    let n = payload.len() as u32;
    let framed = spec_frame(payload);
    lemma_le_bytes_decode(n);
    assert(framed[0] == (n & 0xffu32) as u8);
    assert(framed[1] == ((n >> 8u32) & 0xffu32) as u8);
    assert(framed[2] == ((n >> 16u32) & 0xffu32) as u8);
    assert(framed[3] == ((n >> 24u32) & 0xffu32) as u8);
    assert(framed.subrange(4, framed.len() as int) =~= payload);
}

/// Every buffer that reads back is exactly the frame of what it reads back
/// to: framing and reading are inverse on well-formed buffers.
pub proof fn lemma_frame_unframe(buffer: Seq<u8>)
    requires
        spec_unframe(buffer) is Ok,
    ensures
        spec_unframe(buffer) matches Ok(p) && spec_frame(p) == buffer,
{
    let p = buffer.subrange(4, buffer.len() as int);
    lemma_le_bytes_encode(buffer[0], buffer[1], buffer[2], buffer[3]);
    assert(p.len() as u32 == spec_le_u32(buffer[0], buffer[1], buffer[2], buffer[3]));
    assert(spec_frame(p) =~= buffer);
}

/// A remote key (`ucp_rkey_h`) by address, with the identity of the worker
/// whose endpoint unpacked it.
#[derive(Debug)]
pub struct RemoteKey {
    pub handle: usize,
    pub owner: usize,
}

impl RemoteKey {
    /// The key `ucp_ep_rkey_unpack` produced on an endpoint of worker
    /// `owner`, or the error it reported.
    pub fn from_unpack(status: ucs_status_t, handle: usize, owner: usize) -> (r: Result<RemoteKey, ucs_status_t>)
        ensures
            !status.spec_is_err() ==> r == Ok::<RemoteKey, ucs_status_t>(
                RemoteKey { handle, owner },
            ),
            status.spec_is_err() ==> r == Err::<RemoteKey, ucs_status_t>(status),
    {
        match status_to_result(status) {
            Ok(()) => Ok(RemoteKey { handle, owner }),
            Err(e) => Err(e),
        }
    }

    /// The raw key handle.
    pub fn as_raw(&self) -> (h: usize)
        ensures
            h == self.handle,
    {
        self.handle
    }

    /// A key that refers to nothing cannot be used: a null handle is refused
    /// with `UCS_ERR_INVALID_PARAM`.
    pub fn check_handle(&self) -> (r: Result<(), ucs_status_t>)
        ensures
            self.handle == 0 ==> r == Err::<(), ucs_status_t>(ucs_status_t::UCS_ERR_INVALID_PARAM),
            self.handle != 0 ==> r == Ok::<(), ucs_status_t>(()),
    {
        if self.handle == 0 {
            Err(ucs_status_t::UCS_ERR_INVALID_PARAM)
        } else {
            Ok(())
        }
    }

    /// Two keys may be compared only on the live worker that both came from;
    /// otherwise the comparison is refused with `UCS_ERR_INVALID_PARAM`.
    /// `self_alive` and `other_alive` are the liveness flags of the keys'
    /// workers.
    pub fn compare_check(&self, other: &RemoteKey, worker: usize, self_alive: bool, other_alive: bool) -> (r: Result<(), ucs_status_t>)
        ensures
            (self_alive && other_alive && self.owner == other.owner && self.owner == worker) ==> r
                == Ok::<(), ucs_status_t>(()),
            !(self_alive && other_alive && self.owner == other.owner && self.owner == worker) ==> r
                == Err::<(), ucs_status_t>(ucs_status_t::UCS_ERR_INVALID_PARAM),
    {
        if !self_alive || !other_alive || self.owner != other.owner || self.owner != worker {
            Err(ucs_status_t::UCS_ERR_INVALID_PARAM)
        } else {
            Ok(())
        }
    }

    /// The answer of `ucp_rkey_compare`: the keys denote the same memory when
    /// the call succeeded and its result is zero.
    pub fn compare_result(status: ucs_status_t, result: i32) -> (r: Result<bool, ucs_status_t>)
        ensures
            !status.spec_is_err() ==> r == Ok::<bool, ucs_status_t>(result == 0),
            status.spec_is_err() ==> r == Err::<bool, ucs_status_t>(status),
    {
        match status_to_result(status) {
            Ok(()) => Ok(result == 0),
            Err(e) => Err(e),
        }
    }

    /// The local address `ucp_rkey_ptr` mapped remote memory to: its error
    /// when the call failed, `UCS_ERR_INVALID_ADDR` for a null address.
    pub fn rkey_ptr_result(status: ucs_status_t, addr: usize) -> (r: Result<usize, ucs_status_t>)
        ensures
            status.spec_is_err() ==> r == Err::<usize, ucs_status_t>(status),
            !status.spec_is_err() && addr == 0 ==> r == Err::<usize, ucs_status_t>(
                ucs_status_t::UCS_ERR_INVALID_ADDR,
            ),
            !status.spec_is_err() && addr != 0 ==> r == Ok::<usize, ucs_status_t>(addr),
    {
        match status_to_result(status) {
            Err(e) => Err(e),
            Ok(()) => {
                if addr == 0 {
                    Err(ucs_status_t::UCS_ERR_INVALID_ADDR)
                } else {
                    Ok(addr)
                }
            },
        }
    }

    /// Packing a memory handle's key: the error of `ucp_rkey_pack`, or the
    /// packed bytes framed as [`frame_rkey_payload`] does.
    pub fn pack_result(status: ucs_status_t, payload: &[u8]) -> (r: Result<Vec<u8>, ucs_status_t>)
        ensures
            status.spec_is_err() ==> r == Err::<Vec<u8>, ucs_status_t>(status),
            !status.spec_is_err() && payload@.len() > u32::MAX ==> r == Err::<
                Vec<u8>,
                ucs_status_t,
            >(ucs_status_t::UCS_ERR_OUT_OF_RANGE),
            !status.spec_is_err() && payload@.len() <= u32::MAX ==> (r matches Ok(v)
                && v@ == spec_frame(payload@)),
    {
        match status_to_result(status) {
            Err(e) => Err(e),
            Ok(()) => frame_rkey_payload(payload),
        }
    }
}

/// Size in bytes of the operand of a remote atomic on `width`-byte words:
/// compare-and-swap carries two words (expected value, replacement), the
/// others one.
pub fn amo_operand_len(op: ucp_atomic_op_t, width: usize) -> (n: usize)
    requires
        width == 4 || width == 8,
    ensures
        op == ucp_atomic_op_t::UCP_ATOMIC_OP_CSWAP ==> n == 2 * width,
        op != ucp_atomic_op_t::UCP_ATOMIC_OP_CSWAP ==> n == width,
{
    match op {
        ucp_atomic_op_t::UCP_ATOMIC_OP_CSWAP => 2 * width,
        _ => width,
    }
}

/// A remote atomic ready to post on an endpoint: the operation, its operand
/// words in the order UCX reads them, and the operand's size in bytes.
#[derive(Debug, Clone)]
pub struct AmoPost {
    pub op: ucp_atomic_op_t,
    pub operands: Vec<u64>,
    pub len: usize,
}

/// What an endpoint atomic `op` on `width`-byte words posts. A
/// compare-and-swap carries `[first, second]` (the expected value, then the
/// replacement); every other operation carries `[first]` alone. The size is
/// the operand words times `width`.
pub fn amo_post(op: ucp_atomic_op_t, width: usize, first: u64, second: u64) -> (p: AmoPost)
    requires
        width == 4 || width == 8,
    ensures
        p.op == op,
        op == ucp_atomic_op_t::UCP_ATOMIC_OP_CSWAP ==> p.operands@ == seq![first, second],
        op != ucp_atomic_op_t::UCP_ATOMIC_OP_CSWAP ==> p.operands@ == seq![first],
        p.len == p.operands@.len() * width,
{
    let len = amo_operand_len(op, width);
    let operands = match op {
        ucp_atomic_op_t::UCP_ATOMIC_OP_CSWAP => vec![first, second],
        _ => vec![first],
    };
    assert(operands@.len() == 2 ==> operands@.len() * width == 2 * width);
    AmoPost { op, operands, len }
}

/// A fetching atomic's request; the fetched value lands in the reply buffer
/// it was posted with, which stays borrowed until the request settles.
/// `request` is `None` when the operation completed in place.
#[derive(Debug)]
pub struct FetchAmoRequest {
    pub request: Option<Request>,
}

impl FetchAmoRequest {
    /// Completion state, given the status UCX reports for the request: an
    /// operation without a request, or with a released one, is complete.
    pub fn check_finished(&self, reported: ucs_status_t) -> (r: Result<bool, ucs_status_t>)
        ensures
            (self.request is None || (self.request matches Some(q) && q.handle is None)) ==> r
                == Ok::<bool, ucs_status_t>(true),
            (self.request matches Some(q) && q.handle is Some) ==> r == spec_finished_from_status(
                reported,
            ),
    {
        match &self.request {
            None => Ok(true),
            Some(q) => q.check_finished(reported),
        }
    }

    /// Takes the underlying request out, leaving none behind.
    pub fn into_inner(self) -> (r: Option<Request>)
        ensures
            r == self.request,
    {
        self.request
    }
}

/// The completion object of a posted fetching atomic.
pub fn fetch_amo_result(request: Option<Request>) -> (f: FetchAmoRequest)
    ensures
        f.request == request,
{
    FetchAmoRequest { request }
}

} // verus!
