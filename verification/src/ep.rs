//! UCP endpoints: creation and modification parameters, handles and attributes.
use vstd::prelude::*;
use crate::cstring::{c_string, spec_c_string_ok, NulError};
use crate::context::spec_has_nul_str;
use crate::sockaddr::{SockAddr, SockAddrStorage};
use crate::status::{status_to_result, ucs_status_t};
use crate::types::ucp_err_handling_mode_t;
use crate::worker::{RemoteWorkerAddress, WorkerAddress};
use vstd::string::StringSliceAdditionalSpecFns;

verus! {

/// Endpoint error handling modes (`ucp_err_handling_mode_t`) as flags.
#[derive(Debug, Clone, Copy, PartialEq, Eq, Structural, Hash)]
pub struct UcpEpFields {
    pub bits: u64,
}

impl UcpEpFields {
    /// The bits of every known flag.
    pub open spec fn spec_all_bits() -> u64 {
        0x1
    }

    /// No error handling (`UCP_ERR_HANDLING_MODE_NONE`, no bit).
    #[allow(non_snake_case)]
    pub fn NoneMode() -> (f: UcpEpFields)
        ensures
            f.bits == 0x0,
    {
        UcpEpFields { bits: 0x0 }
    }

    /// Peer failure handling (`UCP_ERR_HANDLING_MODE_PEER`).
    #[allow(non_snake_case)]
    pub fn Peer() -> (f: UcpEpFields)
        ensures
            f.bits == 0x1,
    {
        UcpEpFields { bits: 0x1 }
    }

    /// No flag set.
    pub fn empty() -> (f: UcpEpFields)
        ensures
            f.bits == 0,
    {
        UcpEpFields { bits: 0 }
    }

    /// Every known flag set.
    pub fn all() -> (f: UcpEpFields)
        ensures
            f.bits == Self::spec_all_bits(),
    {
        UcpEpFields { bits: 0x1 }
    }

    /// The raw bits.
    pub fn bits(&self) -> (b: u64)
        ensures
            b == self.bits,
    {
        self.bits
    }

    /// The flags among `bits` that are known; other bits are dropped.
    pub fn from_bits_truncate(bits: u64) -> (f: UcpEpFields)
        ensures
            f.bits == bits & Self::spec_all_bits(),
    {
        UcpEpFields { bits: bits & 0x1 }
    }

    /// The flags `bits`, if every set bit is a known flag.
    pub fn from_bits(bits: u64) -> (f: Option<UcpEpFields>)
        ensures
            bits & !Self::spec_all_bits() == 0 ==> f == Some(UcpEpFields { bits }),
            bits & !Self::spec_all_bits() != 0 ==> f is None,
    {
        if bits & !0x1u64 == 0 {
            Some(UcpEpFields { bits })
        } else {
            None
        }
    }

    /// Whether no flag is set.
    pub fn is_empty(&self) -> (b: bool)
        ensures
            b == (self.bits == 0),
    {
        self.bits == 0
    }

    /// Whether every known flag is set.
    pub fn is_all(&self) -> (b: bool)
        ensures
            b == (self.bits & Self::spec_all_bits() == Self::spec_all_bits()),
    {
        self.bits & 0x1 == 0x1
    }

    /// Whether every flag of `other` is set in `self`.
    pub fn contains(&self, other: UcpEpFields) -> (b: bool)
        ensures
            b == (self.bits & other.bits == other.bits),
    {
        self.bits & other.bits == other.bits
    }

    /// Whether `self` and `other` share a flag.
    pub fn intersects(&self, other: UcpEpFields) -> (b: bool)
        ensures
            b == (self.bits & other.bits != 0),
    {
        self.bits & other.bits != 0
    }

    /// The flags set in either.
    pub fn union(self, other: UcpEpFields) -> (f: UcpEpFields)
        ensures
            f.bits == self.bits | other.bits,
    {
        UcpEpFields { bits: self.bits | other.bits }
    }

    /// The flags set in both.
    pub fn intersection(self, other: UcpEpFields) -> (f: UcpEpFields)
        ensures
            f.bits == self.bits & other.bits,
    {
        UcpEpFields { bits: self.bits & other.bits }
    }

    /// Sets the flags of `other`.
    pub fn insert(&mut self, other: UcpEpFields)
        ensures
            final(self).bits == old(self).bits | other.bits,
    {
        self.bits = self.bits | other.bits;
    }

    /// Clears the flags of `other`.
    pub fn remove(&mut self, other: UcpEpFields)
        ensures
            final(self).bits == old(self).bits & !other.bits,
    {
        self.bits = self.bits & !other.bits;
    }
}

impl core::ops::BitOr for UcpEpFields {
    type Output = UcpEpFields;

    fn bitor(self, rhs: UcpEpFields) -> (f: UcpEpFields)
        ensures
            f.bits == self.bits | rhs.bits,
    {
        UcpEpFields { bits: self.bits | rhs.bits }
    }
}

impl vstd::std_specs::ops::BitOrSpecImpl for UcpEpFields {
    open spec fn obeys_bitor_spec() -> bool {
        true
    }

    open spec fn bitor_req(self, rhs: UcpEpFields) -> bool {
        true
    }

    open spec fn bitor_spec(self, rhs: UcpEpFields) -> UcpEpFields {
        UcpEpFields { bits: self.bits | rhs.bits }
    }
}

/// Endpoint creation flags (`ucp_ep_params_flags_field`).
#[derive(Debug, Clone, Copy, PartialEq, Eq, Structural, Hash)]
pub struct ParamsFlags {
    pub bits: u64,
}

impl ParamsFlags {
    /// The bits of every known flag.
    pub open spec fn spec_all_bits() -> u64 {
        0x7
    }

    /// Connect through a client/server connection establishment.
    #[allow(non_snake_case)]
    pub fn ClientServer() -> (f: ParamsFlags)
        ensures
            f.bits == 0x1,
    {
        ParamsFlags { bits: 0x1 }
    }

    /// Do not connect to an endpoint of the same worker.
    #[allow(non_snake_case)]
    pub fn NoLoopback() -> (f: ParamsFlags)
        ensures
            f.bits == 0x2,
    {
        ParamsFlags { bits: 0x2 }
    }

    /// Send the worker's client identifier to the server.
    #[allow(non_snake_case)]
    pub fn SendClientId() -> (f: ParamsFlags)
        ensures
            f.bits == 0x4,
    {
        ParamsFlags { bits: 0x4 }
    }

    /// No flag set.
    pub fn empty() -> (f: ParamsFlags)
        ensures
            f.bits == 0,
    {
        ParamsFlags { bits: 0 }
    }

    /// Every known flag set.
    pub fn all() -> (f: ParamsFlags)
        ensures
            f.bits == Self::spec_all_bits(),
    {
        ParamsFlags { bits: 0x7 }
    }

    /// The raw bits.
    pub fn bits(&self) -> (b: u64)
        ensures
            b == self.bits,
    {
        self.bits
    }

    /// The flags among `bits` that are known; other bits are dropped.
    pub fn from_bits_truncate(bits: u64) -> (f: ParamsFlags)
        ensures
            f.bits == bits & Self::spec_all_bits(),
    {
        ParamsFlags { bits: bits & 0x7 }
    }

    /// The flags `bits`, if every set bit is a known flag.
    pub fn from_bits(bits: u64) -> (f: Option<ParamsFlags>)
        ensures
            bits & !Self::spec_all_bits() == 0 ==> f == Some(ParamsFlags { bits }),
            bits & !Self::spec_all_bits() != 0 ==> f is None,
    {
        if bits & !0x7u64 == 0 {
            Some(ParamsFlags { bits })
        } else {
            None
        }
    }

    /// Whether no flag is set.
    pub fn is_empty(&self) -> (b: bool)
        ensures
            b == (self.bits == 0),
    {
        self.bits == 0
    }

    /// Whether every known flag is set.
    pub fn is_all(&self) -> (b: bool)
        ensures
            b == (self.bits & Self::spec_all_bits() == Self::spec_all_bits()),
    {
        self.bits & 0x7 == 0x7
    }

    /// Whether every flag of `other` is set in `self`.
    pub fn contains(&self, other: ParamsFlags) -> (b: bool)
        ensures
            b == (self.bits & other.bits == other.bits),
    {
        self.bits & other.bits == other.bits
    }

    /// Whether `self` and `other` share a flag.
    pub fn intersects(&self, other: ParamsFlags) -> (b: bool)
        ensures
            b == (self.bits & other.bits != 0),
    {
        self.bits & other.bits != 0
    }

    /// The flags set in either.
    pub fn union(self, other: ParamsFlags) -> (f: ParamsFlags)
        ensures
            f.bits == self.bits | other.bits,
    {
        ParamsFlags { bits: self.bits | other.bits }
    }

    /// The flags set in both.
    pub fn intersection(self, other: ParamsFlags) -> (f: ParamsFlags)
        ensures
            f.bits == self.bits & other.bits,
    {
        ParamsFlags { bits: self.bits & other.bits }
    }

    /// Sets the flags of `other`.
    pub fn insert(&mut self, other: ParamsFlags)
        ensures
            final(self).bits == old(self).bits | other.bits,
    {
        self.bits = self.bits | other.bits;
    }

    /// Clears the flags of `other`.
    pub fn remove(&mut self, other: ParamsFlags)
        ensures
            final(self).bits == old(self).bits & !other.bits,
    {
        self.bits = self.bits & !other.bits;
    }
}

impl core::ops::BitOr for ParamsFlags {
    type Output = ParamsFlags;

    fn bitor(self, rhs: ParamsFlags) -> (f: ParamsFlags)
        ensures
            f.bits == self.bits | rhs.bits,
    {
        ParamsFlags { bits: self.bits | rhs.bits }
    }
}

impl vstd::std_specs::ops::BitOrSpecImpl for ParamsFlags {
    open spec fn obeys_bitor_spec() -> bool {
        true
    }

    open spec fn bitor_req(self, rhs: ParamsFlags) -> bool {
        true
    }

    open spec fn bitor_spec(self, rhs: ParamsFlags) -> ParamsFlags {
        ParamsFlags { bits: self.bits | rhs.bits }
    }
}

/// Endpoint attributes a query asks for (`ucp_ep_attr_field`).
#[derive(Debug, Clone, Copy, PartialEq, Eq, Structural, Hash)]
pub struct EpAttrFields {
    pub bits: u64,
}

impl EpAttrFields {
    /// The bits of every known flag.
    pub open spec fn spec_all_bits() -> u64 {
        0x1f
    }

    /// The endpoint name.
    #[allow(non_snake_case)]
    pub fn NAME() -> (f: EpAttrFields)
        ensures
            f.bits == 0x1,
    {
        EpAttrFields { bits: 0x1 }
    }

    /// The local socket address.
    #[allow(non_snake_case)]
    pub fn LOCAL_SOCKADDR() -> (f: EpAttrFields)
        ensures
            f.bits == 0x2,
    {
        EpAttrFields { bits: 0x2 }
    }

    /// The remote socket address.
    #[allow(non_snake_case)]
    pub fn REMOTE_SOCKADDR() -> (f: EpAttrFields)
        ensures
            f.bits == 0x4,
    {
        EpAttrFields { bits: 0x4 }
    }

    /// The transports in use.
    #[allow(non_snake_case)]
    pub fn TRANSPORTS() -> (f: EpAttrFields)
        ensures
            f.bits == 0x8,
    {
        EpAttrFields { bits: 0x8 }
    }

    /// The endpoint user data.
    #[allow(non_snake_case)]
    pub fn USER_DATA() -> (f: EpAttrFields)
        ensures
            f.bits == 0x10,
    {
        EpAttrFields { bits: 0x10 }
    }

    /// No flag set.
    pub fn empty() -> (f: EpAttrFields)
        ensures
            f.bits == 0,
    {
        EpAttrFields { bits: 0 }
    }

    /// Every known flag set.
    pub fn all() -> (f: EpAttrFields)
        ensures
            f.bits == Self::spec_all_bits(),
    {
        EpAttrFields { bits: 0x1f }
    }

    /// The raw bits.
    pub fn bits(&self) -> (b: u64)
        ensures
            b == self.bits,
    {
        self.bits
    }

    /// The flags among `bits` that are known; other bits are dropped.
    pub fn from_bits_truncate(bits: u64) -> (f: EpAttrFields)
        ensures
            f.bits == bits & Self::spec_all_bits(),
    {
        EpAttrFields { bits: bits & 0x1f }
    }

    /// The flags `bits`, if every set bit is a known flag.
    pub fn from_bits(bits: u64) -> (f: Option<EpAttrFields>)
        ensures
            bits & !Self::spec_all_bits() == 0 ==> f == Some(EpAttrFields { bits }),
            bits & !Self::spec_all_bits() != 0 ==> f is None,
    {
        if bits & !0x1fu64 == 0 {
            Some(EpAttrFields { bits })
        } else {
            None
        }
    }

    /// Whether no flag is set.
    pub fn is_empty(&self) -> (b: bool)
        ensures
            b == (self.bits == 0),
    {
        self.bits == 0
    }

    /// Whether every known flag is set.
    pub fn is_all(&self) -> (b: bool)
        ensures
            b == (self.bits & Self::spec_all_bits() == Self::spec_all_bits()),
    {
        self.bits & 0x1f == 0x1f
    }

    /// Whether every flag of `other` is set in `self`.
    pub fn contains(&self, other: EpAttrFields) -> (b: bool)
        ensures
            b == (self.bits & other.bits == other.bits),
    {
        self.bits & other.bits == other.bits
    }

    /// Whether `self` and `other` share a flag.
    pub fn intersects(&self, other: EpAttrFields) -> (b: bool)
        ensures
            b == (self.bits & other.bits != 0),
    {
        self.bits & other.bits != 0
    }

    /// The flags set in either.
    pub fn union(self, other: EpAttrFields) -> (f: EpAttrFields)
        ensures
            f.bits == self.bits | other.bits,
    {
        EpAttrFields { bits: self.bits | other.bits }
    }

    /// The flags set in both.
    pub fn intersection(self, other: EpAttrFields) -> (f: EpAttrFields)
        ensures
            f.bits == self.bits & other.bits,
    {
        EpAttrFields { bits: self.bits & other.bits }
    }

    /// Sets the flags of `other`.
    pub fn insert(&mut self, other: EpAttrFields)
        ensures
            final(self).bits == old(self).bits | other.bits,
    {
        self.bits = self.bits | other.bits;
    }

    /// Clears the flags of `other`.
    pub fn remove(&mut self, other: EpAttrFields)
        ensures
            final(self).bits == old(self).bits & !other.bits,
    {
        self.bits = self.bits & !other.bits;
    }
}

impl core::ops::BitOr for EpAttrFields {
    type Output = EpAttrFields;

    fn bitor(self, rhs: EpAttrFields) -> (f: EpAttrFields)
        ensures
            f.bits == self.bits | rhs.bits,
    {
        EpAttrFields { bits: self.bits | rhs.bits }
    }
}

impl vstd::std_specs::ops::BitOrSpecImpl for EpAttrFields {
    open spec fn obeys_bitor_spec() -> bool {
        true
    }

    open spec fn bitor_req(self, rhs: EpAttrFields) -> bool {
        true
    }

    open spec fn bitor_spec(self, rhs: EpAttrFields) -> EpAttrFields {
        EpAttrFields { bits: self.bits | rhs.bits }
    }
}

/// `ucp_ep_params_field`: which endpoint parameters are valid.
pub const UCP_EP_PARAM_FIELD_REMOTE_ADDRESS: u64 = 0x1;
pub const UCP_EP_PARAM_FIELD_ERR_HANDLING_MODE: u64 = 0x2;
pub const UCP_EP_PARAM_FIELD_ERR_HANDLER: u64 = 0x4;
pub const UCP_EP_PARAM_FIELD_USER_DATA: u64 = 0x8;
pub const UCP_EP_PARAM_FIELD_SOCK_ADDR: u64 = 0x10;
pub const UCP_EP_PARAM_FIELD_FLAGS: u64 = 0x20;
pub const UCP_EP_PARAM_FIELD_CONN_REQUEST: u64 = 0x40;
pub const UCP_EP_PARAM_FIELD_NAME: u64 = 0x80;
pub const UCP_EP_PARAM_FIELD_LOCAL_SOCK_ADDR: u64 = 0x100;

/// The endpoint error callback (`ucp_err_handler_t`): callback address (zero
/// for none) and its argument.
#[derive(Debug, Clone, Copy, PartialEq, Eq, Structural)]
pub struct ErrHandler {
    pub cb: usize,
    pub arg: usize,
}

/// Fixed-size endpoint parameters (`ucp_ep_params_t`); the remote address,
/// socket address and name are held beside it in [`Params`].
#[allow(non_camel_case_types)]
#[derive(Debug, Clone, Copy, PartialEq, Eq, Structural)]
pub struct ucp_ep_params_t {
    pub field_mask: u64,
    pub err_mode: ucp_err_handling_mode_t,
    pub err_handler: ErrHandler,
    pub user_data: usize,
    pub flags: u32,
    pub conn_request: usize,
}

/// All-zero endpoint parameters.
pub open spec fn spec_zero_ep_params() -> ucp_ep_params_t {
    ucp_ep_params_t {
        field_mask: 0,
        err_mode: ucp_err_handling_mode_t::UCP_ERR_HANDLING_MODE_NONE,
        err_handler: ErrHandler { cb: 0, arg: 0 },
        user_data: 0,
        flags: 0,
        conn_request: 0,
    }
}

fn zero_ep_params() -> (p: ucp_ep_params_t)
    ensures
        p == spec_zero_ep_params(),
{
    ucp_ep_params_t {
        field_mask: 0,
        err_mode: ucp_err_handling_mode_t::UCP_ERR_HANDLING_MODE_NONE,
        err_handler: ErrHandler { cb: 0, arg: 0 },
        user_data: 0,
        flags: 0,
        conn_request: 0,
    }
}

/// Built endpoint parameters.
#[derive(Debug, Clone)]
pub struct Params {
    pub handle: ucp_ep_params_t,
    pub address: Option<Vec<u8>>,
    pub sockaddr: Option<SockAddr>,
    pub name: Option<Vec<u8>>,
}

/// Builder for endpoint [`Params`].
#[derive(Debug, Clone)]
pub struct ParamsBuilder {
    pub handle: ucp_ep_params_t,
    pub field_mask: u64,
    pub address: Option<Vec<u8>>,
    pub sockaddr: Option<SockAddr>,
    pub name: Option<Vec<u8>>,
}

/// Both absent, or both present with the same bytes.
pub open spec fn spec_same_bytes(a: Option<Vec<u8>>, b: Option<Vec<u8>>) -> bool {
    match (a, b) {
        (Some(x), Some(y)) => x@ == y@,
        (None, None) => true,
        _ => false,
    }
}

fn copy_bytes(bytes: &Vec<u8>) -> (v: Vec<u8>)
    ensures
        v@ == bytes@,
{
    let v = bytes.clone();
    assert(v@ =~= bytes@);
    v
}

impl ParamsBuilder {
    /// A builder with no field set.
    pub fn new() -> (b: ParamsBuilder)
        ensures
            b.handle == spec_zero_ep_params(),
            b.field_mask == 0,
            b.address is None,
            b.sockaddr is None,
            b.name is None,
    {
        ParamsBuilder {
            handle: zero_ep_params(),
            field_mask: 0,
            address: None,
            sockaddr: None,
            name: None,
        }
    }

    /// Connects to the remote worker with this packed address.
    pub fn address(&mut self, worker_address: &RemoteWorkerAddress) -> (r: &mut ParamsBuilder)
        ensures
            r.field_mask == old(self).field_mask | UCP_EP_PARAM_FIELD_REMOTE_ADDRESS,
            r.handle == old(self).handle,
            r.address matches Some(a) && a@ == worker_address.address@,
            r.sockaddr == old(self).sockaddr,
            r.name == old(self).name,
            *final(self) == *final(r),
    {
        self.field_mask = self.field_mask | UCP_EP_PARAM_FIELD_REMOTE_ADDRESS;
        self.address = Some(copy_bytes(&worker_address.address));
        self
    }

    /// Connects to the local worker with this packed address.
    pub fn local_address(&mut self, worker_address: &WorkerAddress) -> (r: &mut ParamsBuilder)
        ensures
            r.field_mask == old(self).field_mask | UCP_EP_PARAM_FIELD_REMOTE_ADDRESS,
            r.handle == old(self).handle,
            r.address matches Some(a) && a@ == worker_address.data@,
            r.sockaddr == old(self).sockaddr,
            r.name == old(self).name,
            *final(self) == *final(r),
    {
        self.field_mask = self.field_mask | UCP_EP_PARAM_FIELD_REMOTE_ADDRESS;
        self.address = Some(worker_address.to_vec());
        self
    }

    /// Connects to the server at this socket address.
    pub fn sockaddr(&mut self, addr: &SockAddr) -> (r: &mut ParamsBuilder)
        ensures
            r.field_mask == old(self).field_mask | UCP_EP_PARAM_FIELD_SOCK_ADDR,
            r.handle == old(self).handle,
            r.address == old(self).address,
            r.sockaddr == Some(*addr),
            r.name == old(self).name,
            *final(self) == *final(r),
    {
        self.field_mask = self.field_mask | UCP_EP_PARAM_FIELD_SOCK_ADDR;
        self.sockaddr = Some(*addr);
        self
    }

    /// Accepts the connection request with this handle.
    pub fn conn_request(&mut self, req: usize) -> (r: &mut ParamsBuilder)
        ensures
            r.field_mask == old(self).field_mask | UCP_EP_PARAM_FIELD_CONN_REQUEST,
            r.handle == (ucp_ep_params_t { conn_request: req, ..old(self).handle }),
            r.address == old(self).address,
            r.sockaddr == old(self).sockaddr,
            r.name == old(self).name,
            *final(self) == *final(r),
    {
        self.field_mask = self.field_mask | UCP_EP_PARAM_FIELD_CONN_REQUEST;
        self.handle.conn_request = req;
        self
    }

    /// Sets the endpoint creation flags; only their low 32 bits are passed on.
    pub fn params_flags(&mut self, flags: ParamsFlags) -> (r: &mut ParamsBuilder)
        ensures
            r.field_mask == old(self).field_mask | UCP_EP_PARAM_FIELD_FLAGS,
            r.handle == (ucp_ep_params_t { flags: (flags.bits % 0x1_0000_0000) as u32, ..old(self).handle }),
            r.address == old(self).address,
            r.sockaddr == old(self).sockaddr,
            r.name == old(self).name,
            *final(self) == *final(r),
    {
        self.field_mask = self.field_mask | UCP_EP_PARAM_FIELD_FLAGS;
        self.handle.flags = (flags.bits & 0xffff_ffffu64) as u32;
        proof {
            let b = flags.bits;
            assert(b & 0xffff_ffffu64 == b % 0x1_0000_0000) by (bit_vector);
        }
        self
    }

    /// Sets the error handling mode.
    pub fn err_mode(&mut self, mode: ucp_err_handling_mode_t) -> (r: &mut ParamsBuilder)
        ensures
            r.field_mask == old(self).field_mask | UCP_EP_PARAM_FIELD_ERR_HANDLING_MODE,
            r.handle == (ucp_ep_params_t { err_mode: mode, ..old(self).handle }),
            r.address == old(self).address,
            r.sockaddr == old(self).sockaddr,
            r.name == old(self).name,
            *final(self) == *final(r),
    {
        self.field_mask = self.field_mask | UCP_EP_PARAM_FIELD_ERR_HANDLING_MODE;
        self.handle.err_mode = mode;
        self
    }

    /// Sets the error callback (address; zero for none).
    pub fn err_handler(&mut self, cb: usize) -> (r: &mut ParamsBuilder)
        ensures
            r.field_mask == old(self).field_mask | UCP_EP_PARAM_FIELD_ERR_HANDLER,
            r.handle == (ucp_ep_params_t {
                err_handler: ErrHandler { cb, ..old(self).handle.err_handler },
                ..old(self).handle
            }),
            r.address == old(self).address,
            r.sockaddr == old(self).sockaddr,
            r.name == old(self).name,
            *final(self) == *final(r),
    {
        self.field_mask = self.field_mask | UCP_EP_PARAM_FIELD_ERR_HANDLER;
        self.handle.err_handler.cb = cb;
        self
    }

    /// Sets the argument of the error callback. On its own this does not make
    /// the callback valid.
    pub fn err_handler_arg(&mut self, arg: usize) -> (r: &mut ParamsBuilder)
        ensures
            r.field_mask == old(self).field_mask,
            r.handle == (ucp_ep_params_t {
                err_handler: ErrHandler { arg, ..old(self).handle.err_handler },
                ..old(self).handle
            }),
            r.address == old(self).address,
            r.sockaddr == old(self).sockaddr,
            r.name == old(self).name,
            *final(self) == *final(r),
    {
        self.handle.err_handler.arg = arg;
        self
    }

    /// Sets the opaque endpoint user data.
    pub fn user_data(&mut self, data: usize) -> (r: &mut ParamsBuilder)
        ensures
            r.field_mask == old(self).field_mask | UCP_EP_PARAM_FIELD_USER_DATA,
            r.handle == (ucp_ep_params_t { user_data: data, ..old(self).handle }),
            r.address == old(self).address,
            r.sockaddr == old(self).sockaddr,
            r.name == old(self).name,
            *final(self) == *final(r),
    {
        self.field_mask = self.field_mask | UCP_EP_PARAM_FIELD_USER_DATA;
        self.handle.user_data = data;
        self
    }

    /// Sets the endpoint name. A name with an interior NUL is rejected and the
    /// builder is left unchanged.
    pub fn name(&mut self, name: &str) -> (r: Result<&mut ParamsBuilder, NulError>)
        ensures
            spec_has_nul_str(name) ==> r is Err && *final(self) == *old(self),
            r matches Err(e) ==> spec_c_string_ok(name.spec_bytes(), Err(e)) && *final(self) == *old(self),
            r matches Ok(b) ==> {
                &&& !spec_has_nul_str(name)
                &&& b.field_mask == old(self).field_mask | UCP_EP_PARAM_FIELD_NAME
                &&& b.handle == old(self).handle
                &&& b.address == old(self).address
                &&& b.sockaddr == old(self).sockaddr
                &&& b.name matches Some(v) && v@ == name.spec_bytes()
                &&& *final(self) == *final(b)
            },
    {
        match c_string(name) {
            Ok(bytes) => {
                self.field_mask = self.field_mask | UCP_EP_PARAM_FIELD_NAME;
                self.name = Some(bytes);
                Ok(self)
            },
            Err(e) => Err(e),
        }
    }

    /// The parameters built so far. The name moves into the result.
    pub fn build(&mut self) -> (p: Params)
        ensures
            p.handle == (ucp_ep_params_t { field_mask: old(self).field_mask, ..old(self).handle }),
            spec_same_bytes(p.address, old(self).address),
            p.sockaddr == old(self).sockaddr,
            p.name == old(self).name,
            final(self).name is None,
            final(self).field_mask == old(self).field_mask,
            final(self).handle == p.handle,
            final(self).address == old(self).address,
            final(self).sockaddr == old(self).sockaddr,
    {
        self.handle.field_mask = self.field_mask;
        let name = self.name.take();
        let address = match &self.address {
            Some(a) => Some(copy_bytes(a)),
            None => None,
        };
        Params { handle: self.handle, address, sockaddr: self.sockaddr, name }
    }
}

impl Default for ParamsBuilder {
    fn default() -> (b: ParamsBuilder)
        ensures
            b.handle == spec_zero_ep_params(),
            b.field_mask == 0,
            b.address is None,
            b.sockaddr is None,
            b.name is None,
    {
        ParamsBuilder::new()
    }
}

/// Parameters accepted by an endpoint modification: only the error callback
/// and the user data.
#[derive(Debug, Clone, Copy)]
pub struct ModifyParams {
    pub handle: ucp_ep_params_t,
}

/// Builder for [`ModifyParams`].
#[derive(Debug, Clone, Copy)]
pub struct ModifyParamsBuilder {
    pub handle: ucp_ep_params_t,
}

impl ModifyParamsBuilder {
    /// A builder with no field set.
    pub fn new() -> (b: ModifyParamsBuilder)
        ensures
            b.handle == spec_zero_ep_params(),
    {
        ModifyParamsBuilder { handle: zero_ep_params() }
    }

    /// Sets the error callback (address; zero for none).
    pub fn err_handler(&mut self, cb: usize) -> (r: &mut ModifyParamsBuilder)
        ensures
            r.handle == (ucp_ep_params_t {
                field_mask: old(self).handle.field_mask | UCP_EP_PARAM_FIELD_ERR_HANDLER,
                err_handler: ErrHandler { cb, ..old(self).handle.err_handler },
                ..old(self).handle
            }),
            *final(self) == *final(r),
    {
        self.handle.field_mask = self.handle.field_mask | UCP_EP_PARAM_FIELD_ERR_HANDLER;
        self.handle.err_handler.cb = cb;
        self
    }

    /// Sets the argument of the error callback (no field bit of its own).
    pub fn err_handler_arg(&mut self, arg: usize) -> (r: &mut ModifyParamsBuilder)
        ensures
            r.handle == (ucp_ep_params_t {
                err_handler: ErrHandler { arg, ..old(self).handle.err_handler },
                ..old(self).handle
            }),
            *final(self) == *final(r),
    {
        self.handle.err_handler.arg = arg;
        self
    }

    /// Sets the opaque endpoint user data.
    pub fn user_data(&mut self, data: usize) -> (r: &mut ModifyParamsBuilder)
        ensures
            r.handle == (ucp_ep_params_t {
                field_mask: old(self).handle.field_mask | UCP_EP_PARAM_FIELD_USER_DATA,
                user_data: data,
                ..old(self).handle
            }),
            *final(self) == *final(r),
    {
        self.handle.field_mask = self.handle.field_mask | UCP_EP_PARAM_FIELD_USER_DATA;
        self.handle.user_data = data;
        self
    }

    /// The parameters built so far.
    pub fn build(&self) -> (p: ModifyParams)
        ensures
            p.handle == self.handle,
    {
        ModifyParams { handle: self.handle }
    }
}

impl Default for ModifyParamsBuilder {
    fn default() -> (b: ModifyParamsBuilder)
        ensures
            b.handle == spec_zero_ep_params(),
    {
        ModifyParamsBuilder::new()
    }
}

/// The raw endpoint handle (`ucp_ep_h`), by address, for foreign callers.
#[derive(Debug, Clone, Copy, PartialEq, Eq, Structural, Hash)]
pub struct EpHandle(pub usize);

/// A UCX endpoint, by address.
#[derive(Debug)]
pub struct Ep {
    pub handle: usize,
}

impl Ep {
    /// The raw endpoint handle.
    pub fn handle(&self) -> (h: EpHandle)
        ensures
            h.0 == self.handle,
    {
        EpHandle(self.handle)
    }

    /// The endpoint that creation produced, given its status and address.
    pub fn from_create(status: ucs_status_t, handle: usize) -> (r: Result<Ep, ucs_status_t>)
        ensures
            status.spec_is_err() ==> r == Err::<Ep, ucs_status_t>(status),
            !status.spec_is_err() ==> (r matches Ok(e) && e.handle == handle),
    {
        match status_to_result(status) {
            Ok(()) => Ok(Ep { handle }),
            Err(e) => Err(e),
        }
    }
}

/// One transport an endpoint uses: its name and the device it runs on.
#[derive(Debug, Clone)]
pub struct TransportEntry {
    pub transport_name: String,
    pub device_name: String,
}

/// The transports an endpoint uses (`ucp_transports_t`).
#[derive(Debug, Clone)]
pub struct Transports {
    pub entries: Vec<TransportEntry>,
}

impl Transports {
    /// Number of transports.
    pub fn num_entries(&self) -> (n: usize)
        ensures
            n == self.entries@.len(),
    {
        self.entries.len()
    }
}

/// Everything an endpoint query (`ucp_ep_attr_t`) can report.
#[allow(non_camel_case_types)]
#[derive(Debug, Clone)]
pub struct ucp_ep_attr_t {
    pub name: String,
    pub local_sockaddr: SockAddrStorage,
    pub remote_sockaddr: SockAddrStorage,
    pub transports: Transports,
    pub user_data: usize,
}

/// Endpoint attributes; each optional one is present exactly when the query
/// asked for it, and the name is empty unless asked for.
#[derive(Debug, Clone)]
pub struct EpAttr {
    pub name: String,
    pub local_sockaddr: Option<SockAddrStorage>,
    pub remote_sockaddr: Option<SockAddrStorage>,
    pub transports: Option<Transports>,
    pub user_data: Option<usize>,
}

/// `a` holds exactly the attributes of `raw` that `mask` asked for.
pub open spec fn spec_ep_attr_of(mask: EpAttrFields, raw: ucp_ep_attr_t, a: EpAttr) -> bool {
    &&& (mask.bits & 1 != 0 ==> a.name@ == raw.name@)
    &&& (mask.bits & 1 == 0 ==> a.name@.len() == 0)
    &&& a.local_sockaddr == (if mask.bits & 2 != 0 { Some(raw.local_sockaddr) } else { None })
    &&& a.remote_sockaddr == (if mask.bits & 4 != 0 { Some(raw.remote_sockaddr) } else { None })
    &&& (mask.bits & 8 != 0 ==> (a.transports matches Some(t) && t.entries@ == raw.transports.entries@))
    &&& (mask.bits & 8 == 0 ==> a.transports is None)
    &&& a.user_data == (if mask.bits & 16 != 0 { Some(raw.user_data) } else { None })
}

impl EpAttr {
    /// The attributes of an endpoint query with field mask `mask` that
    /// reported `status` and filled in `raw`: each optional attribute is
    /// present exactly when `mask` asked for it, and the name is empty unless
    /// asked for.
    pub fn from_query(mask: EpAttrFields, status: ucs_status_t, raw: ucp_ep_attr_t) -> (r: Result<EpAttr, ucs_status_t>)
        ensures
            status.spec_is_err() ==> (r matches Err(e) && e == status),
            !status.spec_is_err() ==> (r matches Ok(a) && spec_ep_attr_of(mask, raw, a)),
    {
        if status.is_err() {
            return Err(status);
        }
        proof {
            let m = mask.bits;
            assert((m & 1 == 1) == (m & 1 != 0)) by (bit_vector);
            assert((m & 2 == 2) == (m & 2 != 0)) by (bit_vector);
            assert((m & 4 == 4) == (m & 4 != 0)) by (bit_vector);
            assert((m & 8 == 8) == (m & 8 != 0)) by (bit_vector);
            assert((m & 16 == 16) == (m & 16 != 0)) by (bit_vector);
        }
        let local_sockaddr = if mask.contains(EpAttrFields::LOCAL_SOCKADDR()) {
            Some(raw.local_sockaddr)
        } else {
            None
        };
        let remote_sockaddr = if mask.contains(EpAttrFields::REMOTE_SOCKADDR()) {
            Some(raw.remote_sockaddr)
        } else {
            None
        };
        let user_data = if mask.contains(EpAttrFields::USER_DATA()) {
            Some(raw.user_data)
        } else {
            None
        };
        let transports = if mask.contains(EpAttrFields::TRANSPORTS()) {
            Some(raw.transports)
        } else {
            None
        };
        let name = if mask.contains(EpAttrFields::NAME()) {
            raw.name
        } else {
            String::new()
        };
        Ok(EpAttr { name, local_sockaddr, remote_sockaddr, transports, user_data })
    }
}

/// `ucp_ep_perf_param_field` / `ucp_ep_perf_attr_field`: the message size
/// parameter and the estimated time attribute of a performance estimate.
pub const UCP_EP_PERF_PARAM_FIELD_MESSAGE_SIZE: u64 = 0x1;
pub const UCP_EP_PERF_ATTR_FIELD_ESTIMATED_TIME: u64 = 0x1;

} // verus!
