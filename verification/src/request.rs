//! Outstanding UCX requests and the parameters that operations are posted with.
use vstd::prelude::*;
use crate::status::ucs_status_t;
use crate::types::ucs_memory_type_t;

verus! {

/// An outstanding UCX request, identified by the request's address.
/// `handle` is `None` once the request has been released.
#[derive(Debug)]
pub struct Request {
    pub handle: Option<usize>,
}

/// What a request's completion query (`ucp_request_check_status`) reports:
/// finished on `UCS_OK`, still running on `UCS_INPROGRESS`, failed otherwise.
pub open spec fn spec_finished_from_status(status: ucs_status_t) -> Result<bool, ucs_status_t> {
    match status {
        ucs_status_t::UCS_OK => Ok(true),
        ucs_status_t::UCS_INPROGRESS => Ok(false),
        _ => Err(status),
    }
}

impl Request {
    /// The request at address `ptr`; a null address denotes no request.
    pub fn new(ptr: usize) -> (r: Option<Request>)
        ensures
            ptr == 0 ==> r is None,
            ptr != 0 ==> r == Some(Request { handle: Some(ptr) }),
    {
        if ptr == 0 {
            None
        } else {
            Some(Request { handle: Some(ptr) })
        }
    }

    /// The request at address `ptr`, released already when the address is null.
    pub fn from_raw(ptr: usize) -> (r: Request)
        ensures
            ptr == 0 ==> r.handle is None,
            ptr != 0 ==> r.handle == Some(ptr),
    {
        if ptr == 0 {
            Request { handle: None }
        } else {
            Request { handle: Some(ptr) }
        }
    }

    /// Completion state of this request, given the status UCX reports for its
    /// handle. A released request is complete whatever is reported.
    pub fn check_finished(&self, reported: ucs_status_t) -> (r: Result<bool, ucs_status_t>)
        ensures
            self.handle is None ==> r == Ok::<bool, ucs_status_t>(true),
            self.handle is Some ==> r == spec_finished_from_status(reported),
    {
        match self.handle {
            None => Ok(true),
            Some(_) => match reported {
                ucs_status_t::UCS_OK => Ok(true),
                ucs_status_t::UCS_INPROGRESS => Ok(false),
                _ => Err(reported),
            },
        }
    }

    /// Whether the request still has a live handle.
    pub fn is_live(&self) -> (b: bool)
        ensures
            b == self.handle is Some,
    {
        self.handle.is_some()
    }
}

/// `ucp_op_attr_t`: the operation attribute bits of a request parameter's
/// `op_attr_mask`. The `FIELD_*` bits say which fields are valid, the `FLAG_*`
/// bits select completion behaviour.
pub const UCP_OP_ATTR_FIELD_REQUEST: u32 = 0x1;
pub const UCP_OP_ATTR_FIELD_CALLBACK: u32 = 0x2;
pub const UCP_OP_ATTR_FIELD_USER_DATA: u32 = 0x4;
pub const UCP_OP_ATTR_FIELD_DATATYPE: u32 = 0x8;
pub const UCP_OP_ATTR_FIELD_FLAGS: u32 = 0x10;
pub const UCP_OP_ATTR_FIELD_REPLY_BUFFER: u32 = 0x20;
pub const UCP_OP_ATTR_FIELD_MEMORY_TYPE: u32 = 0x40;
pub const UCP_OP_ATTR_FIELD_RECV_INFO: u32 = 0x80;
pub const UCP_OP_ATTR_FIELD_MEMH: u32 = 0x100;
pub const UCP_OP_ATTR_FLAG_NO_IMM_CMPL: u32 = 0x1_0000;
pub const UCP_OP_ATTR_FLAG_FAST_CMPL: u32 = 0x2_0000;
pub const UCP_OP_ATTR_FLAG_FORCE_IMM_CMPL: u32 = 0x4_0000;
pub const UCP_OP_ATTR_FLAG_MULTI_SEND: u32 = 0x8_0000;

/// The request parameter record handed to UCX's `*_nbx` operations
/// (`ucp_request_param_t`); addresses are carried as integers.
#[allow(non_camel_case_types)]
#[derive(Debug, Clone, Copy, PartialEq, Eq, Structural)]
pub struct ucp_request_param_t {
    pub op_attr_mask: u32,
    pub flags: u32,
    pub datatype: u64,
    pub reply_buffer: usize,
    pub user_data: usize,
    pub memory_type: ucs_memory_type_t,
}

/// Built request parameters.
#[derive(Debug, Clone, Copy)]
pub struct RequestParam {
    pub handle: ucp_request_param_t,
}

impl RequestParam {
    /// Parameters of an endpoint close: the close `flags` with no field
    /// marked valid, everything else empty.
    pub fn close_params(flags: u32) -> (p: RequestParam)
        ensures
            p.handle == (ucp_request_param_t { flags, ..spec_empty_request_param() }),
    {
        let mut b = RequestParamBuilder::new();
        b.param.flags = flags;
        b.build()
    }

    /// Parameters of a fetching atomic: the fetched value is written to the
    /// buffer at address `reply`; nothing else is set.
    pub fn fetch_params(reply: usize) -> (p: RequestParam)
        ensures
            p.handle == (ucp_request_param_t {
                op_attr_mask: UCP_OP_ATTR_FIELD_REPLY_BUFFER,
                reply_buffer: reply,
                ..spec_empty_request_param()
            }),
    {
        let mut b = RequestParamBuilder::new();
        b.reply_buffer(reply);
        proof {
            assert(0u32 | 0x20u32 == 0x20u32) by (bit_vector);
        }
        b.build()
    }
}

/// An empty parameter record: no field is valid and no flag is set.
pub open spec fn spec_empty_request_param() -> ucp_request_param_t {
    ucp_request_param_t {
        op_attr_mask: 0,
        flags: 0,
        datatype: 0,
        reply_buffer: 0,
        user_data: 0,
        memory_type: ucs_memory_type_t::UCS_MEMORY_TYPE_HOST,
    }
}

/// A request must not ask for both "never complete immediately" and "always
/// complete immediately".
pub open spec fn spec_completion_modes_exclusive(mask: u32) -> bool {
    !(mask & UCP_OP_ATTR_FLAG_NO_IMM_CMPL != 0 && mask & UCP_OP_ATTR_FLAG_FORCE_IMM_CMPL != 0)
}

/// Builder for [`RequestParam`].
#[derive(Debug, Clone, Copy)]
pub struct RequestParamBuilder {
    pub param: ucp_request_param_t,
}

impl RequestParamBuilder {
    /// A builder with no field set.
    pub fn new() -> (b: RequestParamBuilder)
        ensures
            b.param == spec_empty_request_param(),
    {
        RequestParamBuilder {
            param: ucp_request_param_t {
                op_attr_mask: 0,
                flags: 0,
                datatype: 0,
                reply_buffer: 0,
                user_data: 0,
                memory_type: ucs_memory_type_t::UCS_MEMORY_TYPE_HOST,
            },
        }
    }

    /// Sets the operation-specific `flags` field and marks it valid.
    pub fn flags(&mut self, flags: u32) -> (r: &mut RequestParamBuilder)
        ensures
            r.param == (ucp_request_param_t {
                op_attr_mask: old(self).param.op_attr_mask | UCP_OP_ATTR_FIELD_FLAGS,
                flags: flags,
                ..old(self).param
            }),
            *final(self) == *final(r),
    {
        self.param.op_attr_mask = self.param.op_attr_mask | UCP_OP_ATTR_FIELD_FLAGS;
        self.param.flags = flags;
        self
    }

    /// Sets the buffer that receives the reply of a fetching operation.
    pub fn reply_buffer(&mut self, buffer: usize) -> (r: &mut RequestParamBuilder)
        ensures
            r.param == (ucp_request_param_t {
                op_attr_mask: old(self).param.op_attr_mask | UCP_OP_ATTR_FIELD_REPLY_BUFFER,
                reply_buffer: buffer,
                ..old(self).param
            }),
            *final(self) == *final(r),
    {
        self.param.op_attr_mask = self.param.op_attr_mask | UCP_OP_ATTR_FIELD_REPLY_BUFFER;
        self.param.reply_buffer = buffer;
        self
    }

    /// Sets the datatype of the operation's buffer.
    pub fn datatype(&mut self, datatype: u64) -> (r: &mut RequestParamBuilder)
        ensures
            r.param == (ucp_request_param_t {
                op_attr_mask: old(self).param.op_attr_mask | UCP_OP_ATTR_FIELD_DATATYPE,
                datatype: datatype,
                ..old(self).param
            }),
            *final(self) == *final(r),
    {
        self.param.op_attr_mask = self.param.op_attr_mask | UCP_OP_ATTR_FIELD_DATATYPE;
        self.param.datatype = datatype;
        self
    }

    /// Sets the memory type of the operation's buffer.
    pub fn memory_type(&mut self, memory_type: ucs_memory_type_t) -> (r: &mut RequestParamBuilder)
        ensures
            r.param == (ucp_request_param_t {
                op_attr_mask: old(self).param.op_attr_mask | UCP_OP_ATTR_FIELD_MEMORY_TYPE,
                memory_type: memory_type,
                ..old(self).param
            }),
            *final(self) == *final(r),
    {
        self.param.op_attr_mask = self.param.op_attr_mask | UCP_OP_ATTR_FIELD_MEMORY_TYPE;
        self.param.memory_type = memory_type;
        self
    }

    /// Sets the user data passed to the completion callback.
    pub fn user_data(&mut self, data: usize) -> (r: &mut RequestParamBuilder)
        ensures
            r.param == (ucp_request_param_t {
                op_attr_mask: old(self).param.op_attr_mask | UCP_OP_ATTR_FIELD_USER_DATA,
                user_data: data,
                ..old(self).param
            }),
            *final(self) == *final(r),
    {
        self.param.op_attr_mask = self.param.op_attr_mask | UCP_OP_ATTR_FIELD_USER_DATA;
        self.param.user_data = data;
        self
    }

    /// Asks UCX never to complete the operation in place: a request is always
    /// returned. Excludes [`Self::force_imm_cmpl`].
    pub fn no_imm_cmpl(&mut self) -> (r: &mut RequestParamBuilder)
        requires
            old(self).param.op_attr_mask & UCP_OP_ATTR_FLAG_FORCE_IMM_CMPL == 0,
        ensures
            r.param == (ucp_request_param_t {
                op_attr_mask: old(self).param.op_attr_mask | UCP_OP_ATTR_FLAG_NO_IMM_CMPL,
                ..old(self).param
            }),
            *final(self) == *final(r),
    {
        self.param.op_attr_mask = self.param.op_attr_mask | UCP_OP_ATTR_FLAG_NO_IMM_CMPL;
        self
    }

    /// Asks UCX to complete the operation in place or fail. Excludes
    /// [`Self::no_imm_cmpl`].
    pub fn force_imm_cmpl(&mut self) -> (r: &mut RequestParamBuilder)
        requires
            old(self).param.op_attr_mask & UCP_OP_ATTR_FLAG_NO_IMM_CMPL == 0,
        ensures
            r.param == (ucp_request_param_t {
                op_attr_mask: old(self).param.op_attr_mask | UCP_OP_ATTR_FLAG_FORCE_IMM_CMPL,
                ..old(self).param
            }),
            *final(self) == *final(r),
    {
        self.param.op_attr_mask = self.param.op_attr_mask | UCP_OP_ATTR_FLAG_FORCE_IMM_CMPL;
        self
    }

    /// Asks UCX to report completion quickly, possibly before remote completion.
    pub fn fast_cmpl(&mut self) -> (r: &mut RequestParamBuilder)
        ensures
            r.param == (ucp_request_param_t {
                op_attr_mask: old(self).param.op_attr_mask | UCP_OP_ATTR_FLAG_FAST_CMPL,
                ..old(self).param
            }),
            *final(self) == *final(r),
    {
        self.param.op_attr_mask = self.param.op_attr_mask | UCP_OP_ATTR_FLAG_FAST_CMPL;
        self
    }

    /// The parameters built so far.
    pub fn build(&mut self) -> (p: RequestParam)
        ensures
            p.handle == old(self).param,
            *final(self) == *old(self),
    {
        RequestParam { handle: self.param }
    }
}

impl Default for RequestParamBuilder {
    fn default() -> (b: RequestParamBuilder)
        ensures
            b.param == spec_empty_request_param(),
    {
        RequestParamBuilder::new()
    }
}

/// Setting one flag bit keeps every other bit of the mask as it was.
pub proof fn lemma_set_bit_keeps_others(mask: u32, bit: u32, other: u32)
    requires
        bit & other == 0,
    ensures
        (mask | bit) & other == mask & other,
        (mask | bit) & bit == bit,
{
    assert((mask | bit) & other == mask & other && (mask | bit) & bit == bit) by (bit_vector)
        requires
            bit & other == 0,
    ;
}

/// Every builder step except the two completion-mode flags keeps the
/// completion-mode bits as they were, and each completion-mode flag may only
/// be added when the other is absent: built parameters never carry both.
pub proof fn lemma_builder_keeps_completion_modes_exclusive(mask: u32, field: u32)
    requires
        spec_completion_modes_exclusive(mask),
        field == UCP_OP_ATTR_FIELD_FLAGS || field == UCP_OP_ATTR_FIELD_REPLY_BUFFER
            || field == UCP_OP_ATTR_FIELD_DATATYPE || field == UCP_OP_ATTR_FIELD_MEMORY_TYPE
            || field == UCP_OP_ATTR_FIELD_USER_DATA || field == UCP_OP_ATTR_FLAG_FAST_CMPL,
    ensures
        spec_completion_modes_exclusive(mask | field),
        mask & UCP_OP_ATTR_FLAG_FORCE_IMM_CMPL == 0 ==> spec_completion_modes_exclusive(
            mask | UCP_OP_ATTR_FLAG_NO_IMM_CMPL,
        ),
        mask & UCP_OP_ATTR_FLAG_NO_IMM_CMPL == 0 ==> spec_completion_modes_exclusive(
            mask | UCP_OP_ATTR_FLAG_FORCE_IMM_CMPL,
        ),
{
    assert(spec_completion_modes_exclusive(mask | field)) by {
        assert(((mask | field) & 0x1_0000u32 == mask & 0x1_0000u32) && ((mask | field)
            & 0x4_0000u32 == mask & 0x4_0000u32)) by (bit_vector)
            requires
                field == 0x10u32 || field == 0x20u32 || field == 0x8u32 || field == 0x40u32
                    || field == 0x4u32 || field == 0x2_0000u32,
        ;
    }
    assert(mask & 0x4_0000u32 == 0 ==> (mask | 0x1_0000u32) & 0x4_0000u32 == 0) by (bit_vector);
    assert(mask & 0x1_0000u32 == 0 ==> (mask | 0x4_0000u32) & 0x1_0000u32 == 0) by (bit_vector);
}

/// Upper bound on the progress rounds spent waiting for one request.
pub const MAX_PROGRESS_ROUNDS: usize = 1_000_000;

/// What to do after one completion check of a request.
#[derive(Debug, Clone, Copy)]
pub enum WaitStep {
    /// The check settled the request: it finished, or it failed.
    Finished(Result<bool, ucs_status_t>),
    /// The request is still running: progress the worker and check again.
    Progress,
}

/// One completion check of a wait that has spent `rounds` progress rounds:
/// the rounds spent afterwards, and what to do next.
pub open spec fn spec_wait_step(rounds: nat, check: Result<bool, ucs_status_t>) -> (nat, WaitStep) {
    if check == Ok::<bool, ucs_status_t>(false) {
        (rounds + 1, WaitStep::Progress)
    } else {
        (rounds, WaitStep::Finished(check))
    }
}

/// A bounded wait for one request: the worker is progressed at most
/// [`MAX_PROGRESS_ROUNDS`] times between completion checks.
#[derive(Debug, Clone, Copy)]
pub struct CompletionWait {
    pub rounds: usize,
}

impl CompletionWait {
    /// A wait that has not progressed yet.
    pub fn new() -> (w: CompletionWait)
        ensures
            w.rounds == 0,
    {
        CompletionWait { rounds: 0 }
    }

    /// Whether the progress budget is spent.
    pub fn timed_out(&self) -> (b: bool)
        ensures
            b == (self.rounds >= MAX_PROGRESS_ROUNDS),
    {
        self.rounds >= MAX_PROGRESS_ROUNDS
    }

    /// Consumes one completion check. A finished or failed check settles the
    /// wait; a running one spends one progress round.
    pub fn step(&mut self, check: Result<bool, ucs_status_t>) -> (s: WaitStep)
        requires
            old(self).rounds < MAX_PROGRESS_ROUNDS,
        ensures
            check == Ok::<bool, ucs_status_t>(false) ==> s == WaitStep::Progress && final(self).rounds
                == old(self).rounds + 1,
            check != Ok::<bool, ucs_status_t>(false) ==> s == WaitStep::Finished(check)
                && final(self).rounds == old(self).rounds,
            final(self).rounds <= MAX_PROGRESS_ROUNDS,
            spec_wait_step(old(self).rounds as nat, check) == (final(self).rounds as nat, s),
    {
        match check {
            Ok(false) => {
                self.rounds = self.rounds + 1;
                WaitStep::Progress
            },
            _ => WaitStep::Finished(check),
        }
    }
}

/// What becomes of a request handle when a wait ends.
#[derive(Debug, Clone, Copy, PartialEq, Eq, Structural)]
pub enum RequestDisposal {
    /// Release the handle: the request is no longer in flight.
    Free,
    /// Keep the handle alive forever: the request may still be in flight and
    /// must not be released.
    Leak,
}

/// The result of waiting for a request: `None` while the wait was cut short by
/// the progress budget, otherwise the settling check.
pub open spec fn spec_wait_request_result(settled: Option<Result<bool, ucs_status_t>>) -> Result<bool, ucs_status_t> {
    match settled {
        Some(r) => r,
        None => Ok(false),
    }
}

/// The outcome of `wait_request`: the settling check, or `Ok(false)` after the
/// progress budget ran out.
pub fn wait_request_result(settled: Option<Result<bool, ucs_status_t>>) -> (r: Result<bool, ucs_status_t>)
    ensures
        r == spec_wait_request_result(settled),
{
    match settled {
        Some(r) => r,
        None => Ok(false),
    }
}

/// What closing an endpoint does with its request and returns, given how the
/// wait for the close request ended.
pub open spec fn spec_close_wait_result(settled: Option<Result<bool, ucs_status_t>>) -> (RequestDisposal, Result<(), ucs_status_t>) {
    match settled {
        Some(Ok(true)) => (RequestDisposal::Free, Ok(())),
        Some(Err(e)) => (RequestDisposal::Leak, Err(e)),
        _ => (RequestDisposal::Leak, Err(ucs_status_t::UCS_ERR_TIMED_OUT)),
    }
}

/// Closing an endpoint: a finished close request is released and the close
/// succeeds; a failed one is kept (it may be in flight) and its error returned;
/// a timed-out one is kept and `UCS_ERR_TIMED_OUT` returned.
pub fn close_wait_result(settled: Option<Result<bool, ucs_status_t>>) -> (r: (RequestDisposal, Result<(), ucs_status_t>))
    ensures
        settled == Some(Ok::<bool, ucs_status_t>(true)) ==> r == (RequestDisposal::Free, Ok::<(), ucs_status_t>(())),
        settled matches Some(Err(e)) ==> r == (RequestDisposal::Leak, Err::<(), ucs_status_t>(e)),
        (settled is None || settled == Some(Ok::<bool, ucs_status_t>(false))) ==> r == (
            RequestDisposal::Leak,
            Err::<(), ucs_status_t>(ucs_status_t::UCS_ERR_TIMED_OUT),
        ),
        r == spec_close_wait_result(settled),
{
    match settled {
        Some(Ok(true)) => (RequestDisposal::Free, Ok(())),
        Some(Err(e)) => (RequestDisposal::Leak, Err(e)),
        _ => (RequestDisposal::Leak, Err(ucs_status_t::UCS_ERR_TIMED_OUT)),
    }
}

/// What becomes of a fetching atomic's request, given how the wait for it ended.
pub open spec fn spec_fetch_wait_disposal(settled: Option<Result<bool, ucs_status_t>>) -> RequestDisposal {
    match settled {
        Some(Ok(false)) => RequestDisposal::Leak,
        Some(_) => RequestDisposal::Free,
        None => RequestDisposal::Leak,
    }
}

/// Releasing a fetching atomic's request: once the request settled (finished
/// or failed) it is released; if the wait timed out it is kept, because the
/// reply may still be written.
pub fn fetch_wait_disposal(settled: Option<Result<bool, ucs_status_t>>) -> (d: RequestDisposal)
    ensures
        settled is Some && settled != Some(Ok::<bool, ucs_status_t>(false)) ==> d == RequestDisposal::Free,
        (settled is None || settled == Some(Ok::<bool, ucs_status_t>(false))) ==> d == RequestDisposal::Leak,
        d == spec_fetch_wait_disposal(settled),
{
    match settled {
        Some(Ok(false)) => RequestDisposal::Leak,
        Some(_) => RequestDisposal::Free,
        None => RequestDisposal::Leak,
    }
}

/// A whole bounded wait, from a wait that has spent `rounds` progress rounds,
/// fed the completion checks `checks` in order: each check is taken with
/// [`CompletionWait::step`] while the budget is not spent. The result is the
/// number of progress rounds spent and the settling check, `None` when the
/// budget ran out (or the checks did).
pub open spec fn spec_wait_run(rounds: nat, checks: Seq<Result<bool, ucs_status_t>>) -> (nat, Option<Result<bool, ucs_status_t>>)
    decreases checks.len(),
{
    if rounds >= MAX_PROGRESS_ROUNDS || checks.len() == 0 {
        (rounds, None)
    } else {
        match spec_wait_step(rounds, checks[0]) {
            (next, WaitStep::Progress) => spec_wait_run(next, checks.drop_first()),
            (next, WaitStep::Finished(c)) => (next, Some(c)),
        }
    }
}

/// Check `k` is the first check of `checks` that is not "still running".
pub open spec fn spec_settles_at(checks: Seq<Result<bool, ucs_status_t>>, k: int) -> bool {
    &&& 0 <= k < checks.len()
    &&& checks[k] != Ok::<bool, ucs_status_t>(false)
    &&& forall|j: int| 0 <= j < k ==> checks[j] == Ok::<bool, ucs_status_t>(false)
}

/// The outcome of waiting on a request whose completion checks are `checks`:
/// when one of the first [`MAX_PROGRESS_ROUNDS`] checks is the first that is
/// not "still running", the wait spends one progress round per earlier check
/// and settles on it; otherwise it spends the whole budget and does not settle.
pub open spec fn spec_wait_outcome(checks: Seq<Result<bool, ucs_status_t>>) -> (nat, Option<Result<bool, ucs_status_t>>) {
    if exists|k: int| k < MAX_PROGRESS_ROUNDS && #[trigger] spec_settles_at(checks, k) {
        let k = choose|k: int| k < MAX_PROGRESS_ROUNDS && #[trigger] spec_settles_at(checks, k);
        (k as nat, Some(checks[k]))
    } else {
        (MAX_PROGRESS_ROUNDS as nat, None)
    }
}

proof fn lemma_settles_at_unique(checks: Seq<Result<bool, ucs_status_t>>, k1: int, k2: int)
    requires
        spec_settles_at(checks, k1),
        spec_settles_at(checks, k2),
    ensures
        k1 == k2,
{
    if k1 < k2 {
        assert(checks[k1] == Ok::<bool, ucs_status_t>(false));
    } else if k2 < k1 {
        assert(checks[k2] == Ok::<bool, ucs_status_t>(false));
    }
}

proof fn lemma_wait_run_from(checks: Seq<Result<bool, ucs_status_t>>, r: nat)
    requires
        checks.len() >= MAX_PROGRESS_ROUNDS,
        r <= MAX_PROGRESS_ROUNDS,
        forall|j: int| 0 <= j < r ==> checks[j] == Ok::<bool, ucs_status_t>(false),
    ensures
        spec_wait_run(r, checks.skip(r as int)) == spec_wait_outcome(checks),
    decreases MAX_PROGRESS_ROUNDS - r,
{
    let rest = checks.skip(r as int);
    if r == MAX_PROGRESS_ROUNDS {
        assert forall|k: int| k < MAX_PROGRESS_ROUNDS implies !#[trigger] spec_settles_at(checks, k) by {
            if 0 <= k {
                assert(checks[k] == Ok::<bool, ucs_status_t>(false));
            }
        }
    } else {
        assert(rest.len() > 0);
        assert(rest[0] == checks[r as int]);
        if checks[r as int] == Ok::<bool, ucs_status_t>(false) {
            assert(rest.drop_first() =~= checks.skip(r + 1int));
            lemma_wait_run_from(checks, (r + 1) as nat);
        } else {
            assert(spec_settles_at(checks, r as int));
            let k = choose|k: int| k < MAX_PROGRESS_ROUNDS && #[trigger] spec_settles_at(checks, k);
            lemma_settles_at_unique(checks, k, r as int);
        }
    }
}

/// The whole run of a bounded wait. Starting from [`CompletionWait::new`]
/// and taking the checks of a request one by one with
/// [`CompletionWait::step`] while [`CompletionWait::timed_out`] is false,
/// the wait spends one progress round for each leading "still running"
/// check and settles on the first check that is not, when that check is
/// among the first [`MAX_PROGRESS_ROUNDS`]; otherwise it spends exactly
/// [`MAX_PROGRESS_ROUNDS`] rounds and does not settle. What follows is then
/// fixed: `wait_request` answers the settling check, or `Ok(false)`; a
/// fetching atomic's request is released exactly when the wait settled and
/// kept alive otherwise; a close request is released exactly when it
/// finished.
pub proof fn lemma_bounded_wait_outcome(checks: Seq<Result<bool, ucs_status_t>>)
    requires
        checks.len() >= MAX_PROGRESS_ROUNDS,
    ensures
        spec_wait_run(0, checks) == spec_wait_outcome(checks),
        spec_wait_outcome(checks).1 is None ==> spec_wait_outcome(checks).0 == MAX_PROGRESS_ROUNDS
            && forall|j: int| 0 <= j < MAX_PROGRESS_ROUNDS ==> checks[j] == Ok::<bool, ucs_status_t>(false),
        spec_wait_outcome(checks).1 is Some ==> {
            let k = spec_wait_outcome(checks).0 as int;
            &&& k < MAX_PROGRESS_ROUNDS
            &&& spec_settles_at(checks, k)
            &&& spec_wait_outcome(checks).1 == Some(checks[k])
        },
        spec_wait_request_result(spec_wait_outcome(checks).1) == (match spec_wait_outcome(checks).1 {
            Some(c) => c,
            None => Ok::<bool, ucs_status_t>(false),
        }),
        spec_fetch_wait_disposal(spec_wait_outcome(checks).1) == (if spec_wait_outcome(checks).1 is Some {
            RequestDisposal::Free
        } else {
            RequestDisposal::Leak
        }),
        spec_close_wait_result(spec_wait_outcome(checks).1).0 == (if spec_wait_outcome(checks).1
            == Some(Ok::<bool, ucs_status_t>(true)) {
            RequestDisposal::Free
        } else {
            RequestDisposal::Leak
        }),
{
    assert(checks.skip(0) =~= checks);
    lemma_wait_run_from(checks, 0);
    if spec_wait_outcome(checks).1 is None {
        assert forall|j: int| 0 <= j < MAX_PROGRESS_ROUNDS implies checks[j] == Ok::<bool, ucs_status_t>(false) by {
            if checks[j] != Ok::<bool, ucs_status_t>(false) {
                lemma_first_settling(checks, j);
            }
        }
    }
}

/// A check that is not "still running" has a first such check at or before it.
proof fn lemma_first_settling(checks: Seq<Result<bool, ucs_status_t>>, j: int)
    requires
        0 <= j < checks.len(),
        checks[j] != Ok::<bool, ucs_status_t>(false),
    ensures
        exists|k: int| k <= j && #[trigger] spec_settles_at(checks, k),
    decreases j,
{
    if forall|i: int| 0 <= i < j ==> checks[i] == Ok::<bool, ucs_status_t>(false) {
        assert(spec_settles_at(checks, j));
    } else {
        let i = choose|i: int| 0 <= i < j && checks[i] != Ok::<bool, ucs_status_t>(false);
        lemma_first_settling(checks, i);
    }
}

} // verus!
