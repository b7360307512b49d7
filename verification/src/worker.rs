//! UCP workers: creation parameters, attributes and addresses.
use vstd::prelude::*;
use crate::cstring::{c_string, spec_c_string_ok, NulError};
use crate::context::spec_has_nul_str;
use crate::status::{status_to_result, ucs_status_t};
use crate::types::ucs_thread_mode_t;
use vstd::string::StringSliceAdditionalSpecFns;

verus! {

/// Worker attributes a query asks for (`ucp_worker_attr_field`).
#[derive(Debug, Clone, Copy, PartialEq, Eq, Structural, Hash)]
pub struct WorkerAttrFields {
    pub bits: u64,
}

impl WorkerAttrFields {
    /// The bits of every known flag.
    pub open spec fn spec_all_bits() -> u64 {
        0x3f
    }

    /// The granted thread mode.
    #[allow(non_snake_case)]
    pub fn THREAD_MODE() -> (f: WorkerAttrFields)
        ensures
            f.bits == 0x1,
    {
        WorkerAttrFields { bits: 0x1 }
    }

    /// The worker address.
    #[allow(non_snake_case)]
    pub fn ADDRESS() -> (f: WorkerAttrFields)
        ensures
            f.bits == 0x2,
    {
        WorkerAttrFields { bits: 0x2 }
    }

    /// Flags for packing the address.
    #[allow(non_snake_case)]
    pub fn ADDRESS_FLAGS() -> (f: WorkerAttrFields)
        ensures
            f.bits == 0x4,
    {
        WorkerAttrFields { bits: 0x4 }
    }

    /// Largest active-message header.
    #[allow(non_snake_case)]
    pub fn MAX_AM_HEADER() -> (f: WorkerAttrFields)
        ensures
            f.bits == 0x8,
    {
        WorkerAttrFields { bits: 0x8 }
    }

    /// The worker name.
    #[allow(non_snake_case)]
    pub fn NAME() -> (f: WorkerAttrFields)
        ensures
            f.bits == 0x10,
    {
        WorkerAttrFields { bits: 0x10 }
    }

    /// Longest debug string.
    #[allow(non_snake_case)]
    pub fn MAX_INFO_STRING() -> (f: WorkerAttrFields)
        ensures
            f.bits == 0x20,
    {
        WorkerAttrFields { bits: 0x20 }
    }

    /// No flag set.
    pub fn empty() -> (f: WorkerAttrFields)
        ensures
            f.bits == 0,
    {
        WorkerAttrFields { bits: 0 }
    }

    /// Every known flag set.
    pub fn all() -> (f: WorkerAttrFields)
        ensures
            f.bits == Self::spec_all_bits(),
    {
        WorkerAttrFields { bits: 0x3f }
    }

    /// The raw bits.
    pub fn bits(&self) -> (b: u64)
        ensures
            b == self.bits,
    {
        self.bits
    }

    /// The flags among `bits` that are known; other bits are dropped.
    pub fn from_bits_truncate(bits: u64) -> (f: WorkerAttrFields)
        ensures
            f.bits == bits & Self::spec_all_bits(),
    {
        WorkerAttrFields { bits: bits & 0x3f }
    }

    /// The flags `bits`, if every set bit is a known flag.
    pub fn from_bits(bits: u64) -> (f: Option<WorkerAttrFields>)
        ensures
            bits & !Self::spec_all_bits() == 0 ==> f == Some(WorkerAttrFields { bits }),
            bits & !Self::spec_all_bits() != 0 ==> f is None,
    {
        if bits & !0x3fu64 == 0 {
            Some(WorkerAttrFields { bits })
        } else {
            None
        }
    }

    /// Whether no flag is set.
    pub fn is_empty(&self) -> (b: bool)
        ensures
            b == (self.bits == 0),
    {
        self.bits == 0
    }

    /// Whether every known flag is set.
    pub fn is_all(&self) -> (b: bool)
        ensures
            b == (self.bits & Self::spec_all_bits() == Self::spec_all_bits()),
    {
        self.bits & 0x3f == 0x3f
    }

    /// Whether every flag of `other` is set in `self`.
    pub fn contains(&self, other: WorkerAttrFields) -> (b: bool)
        ensures
            b == (self.bits & other.bits == other.bits),
    {
        self.bits & other.bits == other.bits
    }

    /// Whether `self` and `other` share a flag.
    pub fn intersects(&self, other: WorkerAttrFields) -> (b: bool)
        ensures
            b == (self.bits & other.bits != 0),
    {
        self.bits & other.bits != 0
    }

    /// The flags set in either.
    pub fn union(self, other: WorkerAttrFields) -> (f: WorkerAttrFields)
        ensures
            f.bits == self.bits | other.bits,
    {
        WorkerAttrFields { bits: self.bits | other.bits }
    }

    /// The flags set in both.
    pub fn intersection(self, other: WorkerAttrFields) -> (f: WorkerAttrFields)
        ensures
            f.bits == self.bits & other.bits,
    {
        WorkerAttrFields { bits: self.bits & other.bits }
    }

    /// Sets the flags of `other`.
    pub fn insert(&mut self, other: WorkerAttrFields)
        ensures
            final(self).bits == old(self).bits | other.bits,
    {
        self.bits = self.bits | other.bits;
    }

    /// Clears the flags of `other`.
    pub fn remove(&mut self, other: WorkerAttrFields)
        ensures
            final(self).bits == old(self).bits & !other.bits,
    {
        self.bits = self.bits & !other.bits;
    }
}

impl core::ops::BitOr for WorkerAttrFields {
    type Output = WorkerAttrFields;

    fn bitor(self, rhs: WorkerAttrFields) -> (f: WorkerAttrFields)
        ensures
            f.bits == self.bits | rhs.bits,
    {
        WorkerAttrFields { bits: self.bits | rhs.bits }
    }
}

impl vstd::std_specs::ops::BitOrSpecImpl for WorkerAttrFields {
    open spec fn obeys_bitor_spec() -> bool {
        true
    }

    open spec fn bitor_req(self, rhs: WorkerAttrFields) -> bool {
        true
    }

    open spec fn bitor_spec(self, rhs: WorkerAttrFields) -> WorkerAttrFields {
        WorkerAttrFields { bits: self.bits | rhs.bits }
    }
}

/// Worker creation flags (`ucp_worker_flags_t`).
#[derive(Debug, Clone, Copy, PartialEq, Eq, Structural, Hash)]
pub struct UcpWorkerFlags {
    pub bits: u64,
}

impl UcpWorkerFlags {
    /// The bits of every known flag.
    pub open spec fn spec_all_bits() -> u64 {
        0x1
    }

    /// Do not warn about requests left unreleased at destruction.
    #[allow(non_snake_case)]
    pub fn IgnoreRequestLeak() -> (f: UcpWorkerFlags)
        ensures
            f.bits == 0x1,
    {
        UcpWorkerFlags { bits: 0x1 }
    }

    /// No flag set.
    pub fn empty() -> (f: UcpWorkerFlags)
        ensures
            f.bits == 0,
    {
        UcpWorkerFlags { bits: 0 }
    }

    /// Every known flag set.
    pub fn all() -> (f: UcpWorkerFlags)
        ensures
            f.bits == Self::spec_all_bits(),
    {
        UcpWorkerFlags { bits: 0x1 }
    }

    /// The raw bits.
    pub fn bits(&self) -> (b: u64)
        ensures
            b == self.bits,
    {
        self.bits
    }

    /// The flags among `bits` that are known; other bits are dropped.
    pub fn from_bits_truncate(bits: u64) -> (f: UcpWorkerFlags)
        ensures
            f.bits == bits & Self::spec_all_bits(),
    {
        UcpWorkerFlags { bits: bits & 0x1 }
    }

    /// The flags `bits`, if every set bit is a known flag.
    pub fn from_bits(bits: u64) -> (f: Option<UcpWorkerFlags>)
        ensures
            bits & !Self::spec_all_bits() == 0 ==> f == Some(UcpWorkerFlags { bits }),
            bits & !Self::spec_all_bits() != 0 ==> f is None,
    {
        if bits & !0x1u64 == 0 {
            Some(UcpWorkerFlags { bits })
        } else {
            None
        }
    }

    /// Whether no flag is set.
    pub fn is_empty(&self) -> (b: bool)
        ensures
            b == (self.bits == 0),
    {
        self.bits == 0
    }

    /// Whether every known flag is set.
    pub fn is_all(&self) -> (b: bool)
        ensures
            b == (self.bits & Self::spec_all_bits() == Self::spec_all_bits()),
    {
        self.bits & 0x1 == 0x1
    }

    /// Whether every flag of `other` is set in `self`.
    pub fn contains(&self, other: UcpWorkerFlags) -> (b: bool)
        ensures
            b == (self.bits & other.bits == other.bits),
    {
        self.bits & other.bits == other.bits
    }

    /// Whether `self` and `other` share a flag.
    pub fn intersects(&self, other: UcpWorkerFlags) -> (b: bool)
        ensures
            b == (self.bits & other.bits != 0),
    {
        self.bits & other.bits != 0
    }

    /// The flags set in either.
    pub fn union(self, other: UcpWorkerFlags) -> (f: UcpWorkerFlags)
        ensures
            f.bits == self.bits | other.bits,
    {
        UcpWorkerFlags { bits: self.bits | other.bits }
    }

    /// The flags set in both.
    pub fn intersection(self, other: UcpWorkerFlags) -> (f: UcpWorkerFlags)
        ensures
            f.bits == self.bits & other.bits,
    {
        UcpWorkerFlags { bits: self.bits & other.bits }
    }

    /// Sets the flags of `other`.
    pub fn insert(&mut self, other: UcpWorkerFlags)
        ensures
            final(self).bits == old(self).bits | other.bits,
    {
        self.bits = self.bits | other.bits;
    }

    /// Clears the flags of `other`.
    pub fn remove(&mut self, other: UcpWorkerFlags)
        ensures
            final(self).bits == old(self).bits & !other.bits,
    {
        self.bits = self.bits & !other.bits;
    }
}

impl core::ops::BitOr for UcpWorkerFlags {
    type Output = UcpWorkerFlags;

    fn bitor(self, rhs: UcpWorkerFlags) -> (f: UcpWorkerFlags)
        ensures
            f.bits == self.bits | rhs.bits,
    {
        UcpWorkerFlags { bits: self.bits | rhs.bits }
    }
}

impl vstd::std_specs::ops::BitOrSpecImpl for UcpWorkerFlags {
    open spec fn obeys_bitor_spec() -> bool {
        true
    }

    open spec fn bitor_req(self, rhs: UcpWorkerFlags) -> bool {
        true
    }

    open spec fn bitor_spec(self, rhs: UcpWorkerFlags) -> UcpWorkerFlags {
        UcpWorkerFlags { bits: self.bits | rhs.bits }
    }
}

/// A set of CPUs (`ucs_cpu_set_t`): bit `c % 64` of word `c / 64` is CPU `c`.
#[derive(Debug, Clone, Copy)]
pub struct CpuSet {
    pub words: [u64; 16],
}

impl CpuSet {
    /// The empty set.
    pub fn new() -> (s: CpuSet)
        ensures
            forall|i: int| 0 <= i < 16 ==> s.words[i] == 0,
    {
        CpuSet { words: [0u64; 16] }
    }
}

/// `ucp_worker_params_field`: which worker parameters are valid.
pub const UCP_WORKER_PARAM_FIELD_THREAD_MODE: u64 = 0x1;
pub const UCP_WORKER_PARAM_FIELD_CPU_MASK: u64 = 0x2;
pub const UCP_WORKER_PARAM_FIELD_EVENTS: u64 = 0x4;
pub const UCP_WORKER_PARAM_FIELD_USER_DATA: u64 = 0x8;
pub const UCP_WORKER_PARAM_FIELD_EVENT_FD: u64 = 0x10;
pub const UCP_WORKER_PARAM_FIELD_FLAGS: u64 = 0x20;
pub const UCP_WORKER_PARAM_FIELD_NAME: u64 = 0x40;
pub const UCP_WORKER_PARAM_FIELD_AM_ALIGNMENT: u64 = 0x80;
pub const UCP_WORKER_PARAM_FIELD_CLIENT_ID: u64 = 0x100;

/// Worker creation parameters (`ucp_worker_params_t`).
#[allow(non_camel_case_types)]
#[derive(Debug, Clone, Copy)]
pub struct ucp_worker_params_t {
    pub field_mask: u64,
    pub thread_mode: ucs_thread_mode_t,
    pub cpu_mask: CpuSet,
    pub events: u32,
    pub user_data: usize,
    pub event_fd: i32,
    pub flags: u64,
    pub am_alignment: usize,
    pub client_id: u64,
}

/// Built worker parameters, with the worker name's bytes when one was set.
#[derive(Debug, Clone)]
pub struct Params {
    pub handle: ucp_worker_params_t,
    pub name: Option<Vec<u8>>,
}

/// Builder for worker [`Params`].
#[derive(Debug, Clone)]
pub struct ParamsBuilder {
    pub handle: ucp_worker_params_t,
    pub field_mask: u64,
    pub name: Option<Vec<u8>>,
}

impl ParamsBuilder {
    /// A builder with no field set.
    pub fn new() -> (b: ParamsBuilder)
        ensures
            b.field_mask == 0,
            b.handle.field_mask == 0,
            b.name is None,
    {
        ParamsBuilder {
            handle: ucp_worker_params_t {
                field_mask: 0,
                thread_mode: ucs_thread_mode_t::UCS_THREAD_MODE_SINGLE,
                cpu_mask: CpuSet::new(),
                events: 0,
                user_data: 0,
                event_fd: 0,
                flags: 0,
                am_alignment: 0,
                client_id: 0,
            },
            field_mask: 0,
            name: None,
        }
    }

    /// Sets the threading contract of the worker.
    pub fn thread_mode(&mut self, thread_mode: ucs_thread_mode_t) -> (r: &mut ParamsBuilder)
        ensures
            r.field_mask == old(self).field_mask | UCP_WORKER_PARAM_FIELD_THREAD_MODE,
            r.handle == (ucp_worker_params_t { thread_mode, ..old(self).handle }),
            r.name == old(self).name,
            *final(self) == *final(r),
    {
        self.field_mask = self.field_mask | UCP_WORKER_PARAM_FIELD_THREAD_MODE;
        self.handle.thread_mode = thread_mode;
        self
    }

    /// Sets the CPUs the worker's progress thread may run on.
    pub fn cpu_set(&mut self, cpu_set: CpuSet) -> (r: &mut ParamsBuilder)
        ensures
            r.field_mask == old(self).field_mask | UCP_WORKER_PARAM_FIELD_CPU_MASK,
            r.handle == (ucp_worker_params_t { cpu_mask: cpu_set, ..old(self).handle }),
            r.name == old(self).name,
            *final(self) == *final(r),
    {
        self.field_mask = self.field_mask | UCP_WORKER_PARAM_FIELD_CPU_MASK;
        self.handle.cpu_mask = cpu_set;
        self
    }

    /// Sets the events the worker wakes up for.
    pub fn events(&mut self, events: u32) -> (r: &mut ParamsBuilder)
        ensures
            r.field_mask == old(self).field_mask | UCP_WORKER_PARAM_FIELD_EVENTS,
            r.handle == (ucp_worker_params_t { events, ..old(self).handle }),
            r.name == old(self).name,
            *final(self) == *final(r),
    {
        self.field_mask = self.field_mask | UCP_WORKER_PARAM_FIELD_EVENTS;
        self.handle.events = events;
        self
    }

    /// Sets the opaque user data of the worker.
    pub fn user_data(&mut self, data: usize) -> (r: &mut ParamsBuilder)
        ensures
            r.field_mask == old(self).field_mask | UCP_WORKER_PARAM_FIELD_USER_DATA,
            r.handle == (ucp_worker_params_t { user_data: data, ..old(self).handle }),
            r.name == old(self).name,
            *final(self) == *final(r),
    {
        self.field_mask = self.field_mask | UCP_WORKER_PARAM_FIELD_USER_DATA;
        self.handle.user_data = data;
        self
    }

    /// Sets an external event file descriptor.
    pub fn event_fd(&mut self, event_fd: i32) -> (r: &mut ParamsBuilder)
        ensures
            r.field_mask == old(self).field_mask | UCP_WORKER_PARAM_FIELD_EVENT_FD,
            r.handle == (ucp_worker_params_t { event_fd, ..old(self).handle }),
            r.name == old(self).name,
            *final(self) == *final(r),
    {
        self.field_mask = self.field_mask | UCP_WORKER_PARAM_FIELD_EVENT_FD;
        self.handle.event_fd = event_fd;
        self
    }

    /// Sets the worker creation flags.
    pub fn flags(&mut self, flags: UcpWorkerFlags) -> (r: &mut ParamsBuilder)
        ensures
            r.field_mask == old(self).field_mask | UCP_WORKER_PARAM_FIELD_FLAGS,
            r.handle == (ucp_worker_params_t { flags: flags.bits, ..old(self).handle }),
            r.name == old(self).name,
            *final(self) == *final(r),
    {
        self.field_mask = self.field_mask | UCP_WORKER_PARAM_FIELD_FLAGS;
        self.handle.flags = flags.bits;
        self
    }

    /// Sets the worker name. A name with an interior NUL is rejected and the
    /// builder is left unchanged.
    pub fn name(&mut self, name: &str) -> (r: Result<&mut ParamsBuilder, NulError>)
        ensures
            spec_has_nul_str(name) ==> r is Err && *final(self) == *old(self),
            r matches Err(e) ==> spec_c_string_ok(name.spec_bytes(), Err(e)) && *final(self) == *old(self),
            r matches Ok(b) ==> {
                &&& !spec_has_nul_str(name)
                &&& b.field_mask == old(self).field_mask | UCP_WORKER_PARAM_FIELD_NAME
                &&& b.handle == old(self).handle
                &&& b.name matches Some(v) && v@ == name.spec_bytes()
                &&& *final(self) == *final(b)
            },
    {
        match c_string(name) {
            Ok(bytes) => {
                self.field_mask = self.field_mask | UCP_WORKER_PARAM_FIELD_NAME;
                self.name = Some(bytes);
                Ok(self)
            },
            Err(e) => Err(e),
        }
    }

    /// Sets the alignment of active-message receive buffers.
    pub fn am_alignment(&mut self, am_alignment: usize) -> (r: &mut ParamsBuilder)
        ensures
            r.field_mask == old(self).field_mask | UCP_WORKER_PARAM_FIELD_AM_ALIGNMENT,
            r.handle == (ucp_worker_params_t { am_alignment, ..old(self).handle }),
            r.name == old(self).name,
            *final(self) == *final(r),
    {
        self.field_mask = self.field_mask | UCP_WORKER_PARAM_FIELD_AM_ALIGNMENT;
        self.handle.am_alignment = am_alignment;
        self
    }

    /// Sets the client identifier sent to servers.
    pub fn client_id(&mut self, client_id: u64) -> (r: &mut ParamsBuilder)
        ensures
            r.field_mask == old(self).field_mask | UCP_WORKER_PARAM_FIELD_CLIENT_ID,
            r.handle == (ucp_worker_params_t { client_id, ..old(self).handle }),
            r.name == old(self).name,
            *final(self) == *final(r),
    {
        self.field_mask = self.field_mask | UCP_WORKER_PARAM_FIELD_CLIENT_ID;
        self.handle.client_id = client_id;
        self
    }

    /// The parameters built so far. The name moves into the result.
    pub fn build(&mut self) -> (p: Params)
        ensures
            p.handle == (ucp_worker_params_t { field_mask: old(self).field_mask, ..old(self).handle }),
            p.name == old(self).name,
            final(self).name is None,
            final(self).field_mask == old(self).field_mask,
            final(self).handle == p.handle,
    {
        self.handle.field_mask = self.field_mask;
        let name = self.name.take();
        Params { handle: self.handle, name }
    }
}

impl Default for ParamsBuilder {
    fn default() -> (b: ParamsBuilder)
        ensures
            b.field_mask == 0,
            b.handle.field_mask == 0,
            b.name is None,
    {
        ParamsBuilder::new()
    }
}

/// A UCX worker (`ucp_worker_h`), by address.
#[derive(Debug)]
pub struct Worker {
    pub handle: usize,
}

impl Worker {
    /// The worker that creation produced, given its status and address.
    pub fn from_create(status: ucs_status_t, handle: usize) -> (r: Result<Worker, ucs_status_t>)
        ensures
            status.spec_is_err() ==> r == Err::<Worker, ucs_status_t>(status),
            !status.spec_is_err() ==> (r matches Ok(w) && w.handle == handle),
    {
        match status_to_result(status) {
            Ok(()) => Ok(Worker { handle }),
            Err(e) => Err(e),
        }
    }
}

/// Whether a granted thread mode lets a worker be shared between threads.
pub open spec fn spec_shareable_mode(mode: Option<ucs_thread_mode_t>) -> bool {
    mode == Some(ucs_thread_mode_t::UCS_THREAD_MODE_SERIALIZED) || mode == Some(
        ucs_thread_mode_t::UCS_THREAD_MODE_MULTI,
    )
}

/// A worker admitted for use from several threads, with the thread mode UCX
/// granted it. Every use of the worker is serialised by its owner.
#[derive(Debug)]
pub struct MtWorker {
    pub worker: Worker,
    pub thread_mode: ucs_thread_mode_t,
}

impl MtWorker {
    /// Admits `worker` for shared use, given what a query of its thread mode
    /// returned. A failed query's error is passed on; a worker that was not
    /// granted serialized or multi-threaded access (or whose mode is
    /// unknown) is refused with `UCS_ERR_INVALID_PARAM`.
    pub fn new(worker: Worker, granted: Result<Option<ucs_thread_mode_t>, ucs_status_t>) -> (r: Result<MtWorker, ucs_status_t>)
        ensures
            granted matches Err(e) ==> r == Err::<MtWorker, ucs_status_t>(e),
            granted matches Ok(mode) ==> (spec_shareable_mode(mode) ==> (r matches Ok(m)
                && m.worker == worker && Some(m.thread_mode) == mode)),
            granted matches Ok(mode) ==> (!spec_shareable_mode(mode) ==> r == Err::<
                MtWorker,
                ucs_status_t,
            >(ucs_status_t::UCS_ERR_INVALID_PARAM)),
    {
        match granted {
            Err(e) => Err(e),
            Ok(Some(ucs_thread_mode_t::UCS_THREAD_MODE_SERIALIZED)) => Ok(
                MtWorker { worker, thread_mode: ucs_thread_mode_t::UCS_THREAD_MODE_SERIALIZED },
            ),
            Ok(Some(ucs_thread_mode_t::UCS_THREAD_MODE_MULTI)) => Ok(
                MtWorker { worker, thread_mode: ucs_thread_mode_t::UCS_THREAD_MODE_MULTI },
            ),
            Ok(_) => Err(ucs_status_t::UCS_ERR_INVALID_PARAM),
        }
    }
}

/// The address a worker reported, by location and length.
#[derive(Debug, Clone, Copy, PartialEq, Eq, Structural)]
pub struct WorkerAddressAttr {
    pub address: usize,
    pub length: usize,
}

/// Everything a worker query (`ucp_worker_attr_t`) can report.
#[allow(non_camel_case_types)]
#[derive(Debug, Clone)]
pub struct ucp_worker_attr_t {
    pub thread_mode: ucs_thread_mode_t,
    pub address: usize,
    pub address_length: usize,
    pub address_flags: u32,
    pub max_am_header: usize,
    pub name: String,
    pub max_debug_string: usize,
}

/// Worker attributes; each is present exactly when the query asked for it.
#[derive(Debug, Clone)]
pub struct WorkerAttr {
    pub thread_mode: Option<ucs_thread_mode_t>,
    pub address: Option<WorkerAddressAttr>,
    pub address_flags: Option<u32>,
    pub max_am_header: Option<usize>,
    pub name: Option<String>,
    pub max_info_string: Option<usize>,
}

/// `a` holds exactly the attributes of `raw` that `mask` asked for.
pub open spec fn spec_worker_attr_of(mask: WorkerAttrFields, raw: ucp_worker_attr_t, a: WorkerAttr) -> bool {
    &&& a.thread_mode == (if mask.bits & 1 != 0 { Some(raw.thread_mode) } else { None })
    &&& a.address == (if mask.bits & 2 != 0 {
        Some(WorkerAddressAttr { address: raw.address, length: raw.address_length })
    } else {
        None
    })
    &&& a.address_flags == (if mask.bits & 4 != 0 { Some(raw.address_flags) } else { None })
    &&& a.max_am_header == (if mask.bits & 8 != 0 { Some(raw.max_am_header) } else { None })
    &&& (mask.bits & 16 != 0 ==> (a.name matches Some(n) && n@ == raw.name@))
    &&& (mask.bits & 16 == 0 ==> a.name is None)
    &&& a.max_info_string == (if mask.bits & 32 != 0 { Some(raw.max_debug_string) } else { None })
}

impl WorkerAttr {
    /// The attributes of a worker query with field mask `mask` that reported
    /// `status` and filled in `raw`: each attribute is present exactly when
    /// `mask` asked for it.
    pub fn from_query(mask: WorkerAttrFields, status: ucs_status_t, raw: ucp_worker_attr_t) -> (r: Result<WorkerAttr, ucs_status_t>)
        ensures
            status.spec_is_err() ==> r == Err::<WorkerAttr, ucs_status_t>(status),
            !status.spec_is_err() ==> (r matches Ok(a) && spec_worker_attr_of(mask, raw, a)),
    {
        if status.is_err() {
            return Err(status);
        }
        let thread_mode = if mask.contains(WorkerAttrFields::THREAD_MODE()) {
            Some(raw.thread_mode)
        } else {
            None
        };
        let address = if mask.contains(WorkerAttrFields::ADDRESS()) {
            Some(WorkerAddressAttr { address: raw.address, length: raw.address_length })
        } else {
            None
        };
        let address_flags = if mask.contains(WorkerAttrFields::ADDRESS_FLAGS()) {
            Some(raw.address_flags)
        } else {
            None
        };
        let max_am_header = if mask.contains(WorkerAttrFields::MAX_AM_HEADER()) {
            Some(raw.max_am_header)
        } else {
            None
        };
        let max_info_string = if mask.contains(WorkerAttrFields::MAX_INFO_STRING()) {
            Some(raw.max_debug_string)
        } else {
            None
        };
        let name = if mask.contains(WorkerAttrFields::NAME()) {
            Some(raw.name)
        } else {
            None
        };
        proof {
            let m = mask.bits;
            assert((m & 1 == 1) == (m & 1 != 0)) by (bit_vector);
            assert((m & 2 == 2) == (m & 2 != 0)) by (bit_vector);
            assert((m & 4 == 4) == (m & 4 != 0)) by (bit_vector);
            assert((m & 8 == 8) == (m & 8 != 0)) by (bit_vector);
            assert((m & 16 == 16) == (m & 16 != 0)) by (bit_vector);
            assert((m & 32 == 32) == (m & 32 != 0)) by (bit_vector);
        }
        Ok(WorkerAttr { thread_mode, address, address_flags, max_am_header, name, max_info_string })
    }
}

/// The address of a remote worker, as packed bytes received from the peer.
#[derive(Debug, Clone)]
pub struct RemoteWorkerAddress {
    pub address: Vec<u8>,
}

impl RemoteWorkerAddress {
    /// Wraps the packed address bytes of a remote worker.
    pub fn new(address: Vec<u8>) -> (r: RemoteWorkerAddress)
        ensures
            r.address@ == address@,
    {
        RemoteWorkerAddress { address }
    }

    /// The packed address and its length, as UCX reads them.
    pub fn get_handle(&self) -> (r: (&[u8], usize))
        ensures
            r.0@ == self.address@,
            r.1 == self.address@.len(),
    {
        (self.address.as_slice(), self.address.len())
    }
}

/// The packed address of a local worker (`ucp_worker_get_address`): where UCX
/// keeps it, and its bytes.
#[derive(Debug)]
pub struct WorkerAddress {
    pub handle: usize,
    pub data: Vec<u8>,
}

impl WorkerAddress {
    /// The address `ucp_worker_get_address` packed, kept by UCX at `handle`,
    /// with its bytes; or the error it reported.
    pub fn from_pack(status: ucs_status_t, handle: usize, data: Vec<u8>) -> (r: Result<WorkerAddress, ucs_status_t>)
        ensures
            status.spec_is_err() ==> r == Err::<WorkerAddress, ucs_status_t>(status),
            !status.spec_is_err() ==> (r matches Ok(a) && a.handle == handle && a.data@ == data@),
    {
        match status_to_result(status) {
            Ok(()) => Ok(WorkerAddress { handle, data }),
            Err(e) => Err(e),
        }
    }

    /// The packed address bytes.
    pub fn to_slice(&self) -> (s: &[u8])
        ensures
            s@ == self.data@,
    {
        self.data.as_slice()
    }

    /// A copy of the packed address bytes, to be sent to a peer.
    pub fn to_vec(&self) -> (v: Vec<u8>)
        ensures
            v@ == self.data@,
    {
        let mut v: Vec<u8> = Vec::new();
        let mut i: usize = 0;
        while i < self.data.len()
            invariant
                0 <= i <= self.data@.len(),
                v@ == self.data@.subrange(0, i as int),
            decreases self.data@.len() - i,
        {
            v.push(self.data[i]);
            i = i + 1;
        }
        assert(v@ == self.data@);
        v
    }
}

} // verus!
