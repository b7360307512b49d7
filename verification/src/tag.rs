//! Tag-matched messaging: receive information and probed messages.
use vstd::prelude::*;
use crate::request::Request;
use crate::status::ucs_status_t;

verus! {

/// What a completed tagged receive reports (`ucp_tag_recv_info_t`).
#[allow(non_camel_case_types)]
#[derive(Debug, Clone, Copy, PartialEq, Eq, Structural)]
pub struct ucp_tag_recv_info_t {
    pub sender_tag: u64,
    pub length: usize,
}

/// Receive information of a completed tagged receive.
#[derive(Debug, Clone, Copy)]
pub struct TagInfo {
    pub handle: ucp_tag_recv_info_t,
}

impl TagInfo {
    /// Number of bytes received.
    pub fn len(&self) -> (l: usize)
        ensures
            l == self.handle.length,
    {
        self.handle.length
    }

    /// Whether nothing was received.
    pub fn is_empty(&self) -> (b: bool)
        ensures
            b == (self.handle.length == 0),
    {
        self.handle.length == 0
    }

    /// The tag the sender used.
    pub fn sender_tag(&self) -> (t: u64)
        ensures
            t == self.handle.sender_tag,
    {
        self.handle.sender_tag
    }
}

/// A message found by probing the unexpected-message queue, by address, with
/// its receive information and whether the probe removed it from the queue.
#[derive(Debug)]
pub struct MessageHandle {
    pub handle: usize,
    pub info: ucp_tag_recv_info_t,
    pub removed: bool,
}

impl MessageHandle {
    /// The message a probe found, if any: a null message handle means none.
    pub fn from_probe(handle: usize, info: ucp_tag_recv_info_t, removed: bool) -> (m: Option<MessageHandle>)
        ensures
            handle == 0 ==> m is None,
            handle != 0 ==> m == Some(MessageHandle { handle, info, removed }),
    {
        if handle == 0 {
            None
        } else {
            Some(MessageHandle { handle, info, removed })
        }
    }

    /// Number of bytes in the message.
    pub fn len(&self) -> (l: usize)
        ensures
            l == self.info.length,
    {
        self.info.length
    }

    /// Whether the message is empty.
    pub fn is_empty(&self) -> (b: bool)
        ensures
            b == (self.info.length == 0),
    {
        self.info.length == 0
    }

    /// The tag the sender used.
    pub fn sender_tag(&self) -> (t: u64)
        ensures
            t == self.info.sender_tag,
    {
        self.info.sender_tag
    }

    /// Whether the probe removed the message from the queue; only such a
    /// message may be received.
    pub fn is_removed(&self) -> (b: bool)
        ensures
            b == self.removed,
    {
        self.removed
    }
}

/// The result of testing a tagged receive: its information once complete
/// (`UCS_OK`), nothing while in progress, the error otherwise.
pub open spec fn spec_tag_recv_test(status: ucs_status_t, info: ucp_tag_recv_info_t) -> Result<Option<TagInfo>, ucs_status_t> {
    match status {
        ucs_status_t::UCS_OK => Ok(Some(TagInfo { handle: info })),
        ucs_status_t::UCS_INPROGRESS => Ok(None),
        _ => Err(status),
    }
}

/// Maps the status of a tagged receive test to its result; `info` is read
/// only for a completed receive.
pub fn map_tag_recv_test_status(status: ucs_status_t, info: ucp_tag_recv_info_t) -> (r: Result<Option<TagInfo>, ucs_status_t>)
    ensures
        r == spec_tag_recv_test(status, info),
        r == Ok::<Option<TagInfo>, ucs_status_t>(Some(TagInfo { handle: info })) <==> status
            == ucs_status_t::UCS_OK,
        r == Ok::<Option<TagInfo>, ucs_status_t>(None) <==> status == ucs_status_t::UCS_INPROGRESS,
        r is Err <==> (status != ucs_status_t::UCS_OK && status != ucs_status_t::UCS_INPROGRESS),
        r matches Err(e) ==> e == status,
{
    match status {
        ucs_status_t::UCS_OK => Ok(Some(TagInfo { handle: info })),
        ucs_status_t::UCS_INPROGRESS => Ok(None),
        _ => Err(status),
    }
}

/// The result of testing the tagged receive `request`: a released request has
/// nothing to report; a live one maps what UCX reported.
pub fn tag_recv_test_result(request: &Request, status: ucs_status_t, info: ucp_tag_recv_info_t) -> (r: Result<Option<TagInfo>, ucs_status_t>)
    ensures
        request.handle is None ==> r == Ok::<Option<TagInfo>, ucs_status_t>(None),
        request.handle is Some ==> r == spec_tag_recv_test(status, info),
{
    match request.handle {
        None => Ok(None),
        Some(_) => map_tag_recv_test_status(status, info),
    }
}

/// What testing a tagged receive answers, for every status UCX can report:
/// the receive's information exactly when it completed (`UCS_OK`), nothing
/// exactly while it is in progress (`UCS_INPROGRESS`), and the status itself
/// as the error for every other status, truncation and cancellation included.
pub proof fn lemma_tag_recv_test_outcomes(status: ucs_status_t, info: ucp_tag_recv_info_t)
    ensures
        (spec_tag_recv_test(status, info) is Ok && spec_tag_recv_test(status, info)->Ok_0 is Some)
            <==> status == ucs_status_t::UCS_OK,
        spec_tag_recv_test(status, info) matches Ok(Some(t)) ==> t.handle == info,
        spec_tag_recv_test(status, info) == Ok::<Option<TagInfo>, ucs_status_t>(None) <==> status
            == ucs_status_t::UCS_INPROGRESS,
        spec_tag_recv_test(status, info) is Err <==> (status != ucs_status_t::UCS_OK && status
            != ucs_status_t::UCS_INPROGRESS),
        spec_tag_recv_test(status, info) matches Err(e) ==> e == status,
{
}

} // verus!
