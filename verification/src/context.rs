//! UCP context initialization parameters and context handles.
use vstd::prelude::*;
use crate::cstring::{c_string, spec_c_string_ok, NulError};
use crate::status::{spec_status_to_result, status_to_result, ucs_status_t};
use crate::types::ucs_thread_mode_t;
use vstd::string::StringSliceAdditionalSpecFns;

verus! {

/// Context features (`ucp_feature`) requested at initialization.
#[derive(Debug, Clone, Copy, PartialEq, Eq, Structural, Hash)]
pub struct Flags {
    pub bits: u64,
}

impl Flags {
    /// The bits of every known flag.
    pub open spec fn spec_all_bits() -> u64 {
        0xff
    }

    /// Tag-matched messaging.
    #[allow(non_snake_case)]
    pub fn Tag() -> (f: Flags)
        ensures
            f.bits == 0x1,
    {
        Flags { bits: 0x1 }
    }

    /// Remote memory access.
    #[allow(non_snake_case)]
    pub fn Rma() -> (f: Flags)
        ensures
            f.bits == 0x2,
    {
        Flags { bits: 0x2 }
    }

    /// 32-bit remote atomics.
    #[allow(non_snake_case)]
    pub fn Amo32() -> (f: Flags)
        ensures
            f.bits == 0x4,
    {
        Flags { bits: 0x4 }
    }

    /// 64-bit remote atomics.
    #[allow(non_snake_case)]
    pub fn Amo64() -> (f: Flags)
        ensures
            f.bits == 0x8,
    {
        Flags { bits: 0x8 }
    }

    /// Event-driven wakeup.
    #[allow(non_snake_case)]
    pub fn Wakeup() -> (f: Flags)
        ensures
            f.bits == 0x10,
    {
        Flags { bits: 0x10 }
    }

    /// Stream messaging.
    #[allow(non_snake_case)]
    pub fn Stream() -> (f: Flags)
        ensures
            f.bits == 0x20,
    {
        Flags { bits: 0x20 }
    }

    /// Active messages.
    #[allow(non_snake_case)]
    pub fn Am() -> (f: Flags)
        ensures
            f.bits == 0x40,
    {
        Flags { bits: 0x40 }
    }

    /// Exported memory handles.
    #[allow(non_snake_case)]
    pub fn ExportedMemH() -> (f: Flags)
        ensures
            f.bits == 0x80,
    {
        Flags { bits: 0x80 }
    }

    /// No flag set.
    pub fn empty() -> (f: Flags)
        ensures
            f.bits == 0,
    {
        Flags { bits: 0 }
    }

    /// Every known flag set.
    pub fn all() -> (f: Flags)
        ensures
            f.bits == Self::spec_all_bits(),
    {
        Flags { bits: 0xff }
    }

    /// The raw bits.
    pub fn bits(&self) -> (b: u64)
        ensures
            b == self.bits,
    {
        self.bits
    }

    /// The flags among `bits` that are known; other bits are dropped.
    pub fn from_bits_truncate(bits: u64) -> (f: Flags)
        ensures
            f.bits == bits & Self::spec_all_bits(),
    {
        Flags { bits: bits & 0xff }
    }

    /// The flags `bits`, if every set bit is a known flag.
    pub fn from_bits(bits: u64) -> (f: Option<Flags>)
        ensures
            bits & !Self::spec_all_bits() == 0 ==> f == Some(Flags { bits }),
            bits & !Self::spec_all_bits() != 0 ==> f is None,
    {
        if bits & !0xffu64 == 0 {
            Some(Flags { bits })
        } else {
            None
        }
    }

    /// Whether no flag is set.
    pub fn is_empty(&self) -> (b: bool)
        ensures
            b == (self.bits == 0),
    {
        self.bits == 0
    }

    /// Whether every known flag is set.
    pub fn is_all(&self) -> (b: bool)
        ensures
            b == (self.bits & Self::spec_all_bits() == Self::spec_all_bits()),
    {
        self.bits & 0xff == 0xff
    }

    /// Whether every flag of `other` is set in `self`.
    pub fn contains(&self, other: Flags) -> (b: bool)
        ensures
            b == (self.bits & other.bits == other.bits),
    {
        self.bits & other.bits == other.bits
    }

    /// Whether `self` and `other` share a flag.
    pub fn intersects(&self, other: Flags) -> (b: bool)
        ensures
            b == (self.bits & other.bits != 0),
    {
        self.bits & other.bits != 0
    }

    /// The flags set in either.
    pub fn union(self, other: Flags) -> (f: Flags)
        ensures
            f.bits == self.bits | other.bits,
    {
        Flags { bits: self.bits | other.bits }
    }

    /// The flags set in both.
    pub fn intersection(self, other: Flags) -> (f: Flags)
        ensures
            f.bits == self.bits & other.bits,
    {
        Flags { bits: self.bits & other.bits }
    }

    /// Sets the flags of `other`.
    pub fn insert(&mut self, other: Flags)
        ensures
            final(self).bits == old(self).bits | other.bits,
    {
        self.bits = self.bits | other.bits;
    }

    /// Clears the flags of `other`.
    pub fn remove(&mut self, other: Flags)
        ensures
            final(self).bits == old(self).bits & !other.bits,
    {
        self.bits = self.bits & !other.bits;
    }
}

impl core::ops::BitOr for Flags {
    type Output = Flags;

    fn bitor(self, rhs: Flags) -> (f: Flags)
        ensures
            f.bits == self.bits | rhs.bits,
    {
        Flags { bits: self.bits | rhs.bits }
    }
}

impl vstd::std_specs::ops::BitOrSpecImpl for Flags {
    open spec fn obeys_bitor_spec() -> bool {
        true
    }

    open spec fn bitor_req(self, rhs: Flags) -> bool {
        true
    }

    open spec fn bitor_spec(self, rhs: Flags) -> Flags {
        Flags { bits: self.bits | rhs.bits }
    }
}

/// `ucp_params_field`: which fields of the context parameters are valid.
pub const UCP_PARAM_FIELD_FEATURES: u64 = 0x1;
pub const UCP_PARAM_FIELD_REQUEST_SIZE: u64 = 0x2;
pub const UCP_PARAM_FIELD_REQUEST_INIT: u64 = 0x4;
pub const UCP_PARAM_FIELD_REQUEST_CLEANUP: u64 = 0x8;
pub const UCP_PARAM_FIELD_TAG_SENDER_MASK: u64 = 0x10;
pub const UCP_PARAM_FIELD_MT_WORKERS_SHARED: u64 = 0x20;
pub const UCP_PARAM_FIELD_ESTIMATED_NUM_EPS: u64 = 0x40;
pub const UCP_PARAM_FIELD_ESTIMATED_NUM_PPN: u64 = 0x80;
pub const UCP_PARAM_FIELD_NAME: u64 = 0x100;

/// Context initialization parameters (`ucp_params_t`). Callback addresses are
/// carried as integers, zero meaning none.
#[allow(non_camel_case_types)]
#[derive(Debug, Clone, Copy, PartialEq, Eq, Structural)]
pub struct ucp_params_t {
    pub field_mask: u64,
    pub features: u64,
    pub request_size: usize,
    pub request_init: usize,
    pub request_cleanup: usize,
    pub tag_sender_mask: u64,
    pub mt_workers_shared: i32,
    pub estimated_num_eps: usize,
    pub estimated_num_ppn: usize,
}

/// All-zero context parameters.
pub open spec fn spec_zero_params() -> ucp_params_t {
    ucp_params_t {
        field_mask: 0,
        features: 0,
        request_size: 0,
        request_init: 0,
        request_cleanup: 0,
        tag_sender_mask: 0,
        mt_workers_shared: 0,
        estimated_num_eps: 0,
        estimated_num_ppn: 0,
    }
}

/// Built context parameters, with the context name's bytes when one was set.
#[derive(Debug, Clone)]
pub struct Params {
    pub handle: ucp_params_t,
    pub name: Option<Vec<u8>>,
    pub mt_workers_shared: bool,
}

/// Builder for context [`Params`]. Each setter stores its value and marks its
/// field valid in `field_mask`; `build` publishes the mask.
#[derive(Debug, Clone)]
pub struct ParamsBuilder {
    pub handle: ucp_params_t,
    pub field_mask: u64,
    pub name: Option<Vec<u8>>,
    pub mt_workers_shared: bool,
}

impl ParamsBuilder {
    /// A builder with no field set.
    pub fn new() -> (b: ParamsBuilder)
        ensures
            b.handle == spec_zero_params(),
            b.field_mask == 0,
            b.name is None,
            !b.mt_workers_shared,
    {
        ParamsBuilder {
            handle: ucp_params_t {
                field_mask: 0,
                features: 0,
                request_size: 0,
                request_init: 0,
                request_cleanup: 0,
                tag_sender_mask: 0,
                mt_workers_shared: 0,
                estimated_num_eps: 0,
                estimated_num_ppn: 0,
            },
            field_mask: 0,
            name: None,
            mt_workers_shared: false,
        }
    }

    /// Requests the given features.
    pub fn features(&mut self, features: Flags) -> (r: &mut ParamsBuilder)
        ensures
            r.field_mask == old(self).field_mask | UCP_PARAM_FIELD_FEATURES,
            r.handle == (ucp_params_t { features: features.bits, ..old(self).handle }),
            r.name == old(self).name,
            r.mt_workers_shared == old(self).mt_workers_shared,
            *final(self) == *final(r),
    {
        self.field_mask = self.field_mask | UCP_PARAM_FIELD_FEATURES;
        self.handle.features = features.bits;
        self
    }

    /// Sets the size of the application's per-request private area.
    pub fn request_size(&mut self, size: usize) -> (r: &mut ParamsBuilder)
        ensures
            r.field_mask == old(self).field_mask | UCP_PARAM_FIELD_REQUEST_SIZE,
            r.handle == (ucp_params_t { request_size: size, ..old(self).handle }),
            r.name == old(self).name,
            r.mt_workers_shared == old(self).mt_workers_shared,
            *final(self) == *final(r),
    {
        self.field_mask = self.field_mask | UCP_PARAM_FIELD_REQUEST_SIZE;
        self.handle.request_size = size;
        self
    }

    /// Sets the address of the request initialization callback.
    pub fn request_init(&mut self, cb: usize) -> (r: &mut ParamsBuilder)
        ensures
            r.field_mask == old(self).field_mask | UCP_PARAM_FIELD_REQUEST_INIT,
            r.handle == (ucp_params_t { request_init: cb, ..old(self).handle }),
            r.name == old(self).name,
            r.mt_workers_shared == old(self).mt_workers_shared,
            *final(self) == *final(r),
    {
        self.field_mask = self.field_mask | UCP_PARAM_FIELD_REQUEST_INIT;
        self.handle.request_init = cb;
        self
    }

    /// Sets the address of the request cleanup callback.
    pub fn request_cleanup(&mut self, cb: usize) -> (r: &mut ParamsBuilder)
        ensures
            r.field_mask == old(self).field_mask | UCP_PARAM_FIELD_REQUEST_CLEANUP,
            r.handle == (ucp_params_t { request_cleanup: cb, ..old(self).handle }),
            r.name == old(self).name,
            r.mt_workers_shared == old(self).mt_workers_shared,
            *final(self) == *final(r),
    {
        self.field_mask = self.field_mask | UCP_PARAM_FIELD_REQUEST_CLEANUP;
        self.handle.request_cleanup = cb;
        self
    }

    /// Sets the mask of tag bits that identify the sender.
    pub fn tag_sender_mask(&mut self, mask: u64) -> (r: &mut ParamsBuilder)
        ensures
            r.field_mask == old(self).field_mask | UCP_PARAM_FIELD_TAG_SENDER_MASK,
            r.handle == (ucp_params_t { tag_sender_mask: mask, ..old(self).handle }),
            r.name == old(self).name,
            r.mt_workers_shared == old(self).mt_workers_shared,
            *final(self) == *final(r),
    {
        self.field_mask = self.field_mask | UCP_PARAM_FIELD_TAG_SENDER_MASK;
        self.handle.tag_sender_mask = mask;
        self
    }

    /// Declares whether workers of the context may be used from several threads.
    pub fn mt_workers_shared(&mut self, shared: i32) -> (r: &mut ParamsBuilder)
        ensures
            r.field_mask == old(self).field_mask | UCP_PARAM_FIELD_MT_WORKERS_SHARED,
            r.handle == (ucp_params_t { mt_workers_shared: shared, ..old(self).handle }),
            r.name == old(self).name,
            r.mt_workers_shared == (shared != 0),
            *final(self) == *final(r),
    {
        self.field_mask = self.field_mask | UCP_PARAM_FIELD_MT_WORKERS_SHARED;
        self.handle.mt_workers_shared = shared;
        self.mt_workers_shared = shared != 0;
        self
    }

    /// Sets the expected number of endpoints.
    pub fn estimated_num_eps(&mut self, num_eps: usize) -> (r: &mut ParamsBuilder)
        ensures
            r.field_mask == old(self).field_mask | UCP_PARAM_FIELD_ESTIMATED_NUM_EPS,
            r.handle == (ucp_params_t { estimated_num_eps: num_eps, ..old(self).handle }),
            r.name == old(self).name,
            r.mt_workers_shared == old(self).mt_workers_shared,
            *final(self) == *final(r),
    {
        self.field_mask = self.field_mask | UCP_PARAM_FIELD_ESTIMATED_NUM_EPS;
        self.handle.estimated_num_eps = num_eps;
        self
    }

    /// Sets the expected number of processes per node.
    pub fn estimated_num_ppn(&mut self, num_ppn: usize) -> (r: &mut ParamsBuilder)
        ensures
            r.field_mask == old(self).field_mask | UCP_PARAM_FIELD_ESTIMATED_NUM_PPN,
            r.handle == (ucp_params_t { estimated_num_ppn: num_ppn, ..old(self).handle }),
            r.name == old(self).name,
            r.mt_workers_shared == old(self).mt_workers_shared,
            *final(self) == *final(r),
    {
        self.field_mask = self.field_mask | UCP_PARAM_FIELD_ESTIMATED_NUM_PPN;
        self.handle.estimated_num_ppn = num_ppn;
        self
    }

    /// Sets the context name. A name with an interior NUL is rejected and the
    /// builder is left unchanged.
    pub fn name(&mut self, name: &str) -> (r: Result<&mut ParamsBuilder, NulError>)
        ensures
            spec_has_nul_str(name) ==> r is Err && *final(self) == *old(self),
            r matches Err(e) ==> spec_c_string_ok(name.spec_bytes(), Err(e)) && *final(self) == *old(self),
            r matches Ok(b) ==> {
                &&& !spec_has_nul_str(name)
                &&& b.field_mask == old(self).field_mask | UCP_PARAM_FIELD_NAME
                &&& b.handle == old(self).handle
                &&& b.name matches Some(v) && v@ == name.spec_bytes()
                &&& b.mt_workers_shared == old(self).mt_workers_shared
                &&& *final(self) == *final(b)
            },
    {
        match c_string(name) {
            Ok(bytes) => {
                self.field_mask = self.field_mask | UCP_PARAM_FIELD_NAME;
                self.name = Some(bytes);
                Ok(self)
            },
            Err(e) => Err(e),
        }
    }

    /// The parameters built so far. The name moves into the result.
    pub fn build(&mut self) -> (p: Params)
        ensures
            p.handle == (ucp_params_t { field_mask: old(self).field_mask, ..old(self).handle }),
            p.name == old(self).name,
            p.mt_workers_shared == old(self).mt_workers_shared,
            final(self).name is None,
            final(self).field_mask == old(self).field_mask,
            final(self).handle == p.handle,
            final(self).mt_workers_shared == old(self).mt_workers_shared,
    {
        self.handle.field_mask = self.field_mask;
        let name = self.name.take();
        Params { handle: self.handle, name, mt_workers_shared: self.mt_workers_shared }
    }
}

impl Default for ParamsBuilder {
    fn default() -> (b: ParamsBuilder)
        ensures
            b.handle == spec_zero_params(),
            b.field_mask == 0,
            b.name is None,
            !b.mt_workers_shared,
    {
        ParamsBuilder::new()
    }
}

/// Whether the bytes of `s` contain a NUL.
pub open spec fn spec_has_nul_str(s: &str) -> bool {
    crate::cstring::spec_has_nul(s.spec_bytes())
}

/// Context parameters are acceptable when at least one feature is requested
/// and workers are declared shared between threads (which turns on UCX's
/// context lock and lets the context be used from several threads).
pub open spec fn spec_params_acceptable(p: Params) -> bool {
    &&& p.handle.field_mask & UCP_PARAM_FIELD_FEATURES != 0
    &&& p.handle.features != 0
    &&& p.mt_workers_shared
    &&& p.handle.field_mask & UCP_PARAM_FIELD_MT_WORKERS_SHARED != 0
    &&& p.handle.mt_workers_shared != 0
}

/// A failed configuration request: a string with an interior NUL, or a UCX error.
#[derive(Debug, Clone, PartialEq, Eq)]
pub enum ConfigError {
    Nul(NulError),
    Ucs(ucs_status_t),
}

/// A UCX configuration (`ucp_config_t*`), by address.
#[derive(Debug)]
pub struct Config {
    pub handle: usize,
}

/// Converts the name and the file (or value) of a configuration request to C
/// strings; the first one with an interior NUL is reported.
pub fn config_c_strings(first: &str, second: &str) -> (r: Result<(Vec<u8>, Vec<u8>), ConfigError>)
    ensures
        spec_has_nul_str(first) ==> (r matches Err(ConfigError::Nul(e)) && spec_c_string_ok(
            first.spec_bytes(),
            Err(e),
        )),
        !spec_has_nul_str(first) && spec_has_nul_str(second) ==> (r matches Err(ConfigError::Nul(e))
            && spec_c_string_ok(second.spec_bytes(), Err(e))),
        !spec_has_nul_str(first) && !spec_has_nul_str(second) ==> (r matches Ok((a, b)) && a@
            == first.spec_bytes() && b@ == second.spec_bytes()),
{
    let a = match c_string(first) {
        Ok(a) => a,
        Err(e) => return Err(ConfigError::Nul(e)),
    };
    let b = match c_string(second) {
        Ok(b) => b,
        Err(e) => return Err(ConfigError::Nul(e)),
    };
    Ok((a, b))
}

impl Config {
    /// The configuration read by UCX, given the status and configuration
    /// address that `ucp_config_read` produced.
    pub fn from_read(status: ucs_status_t, handle: usize) -> (r: Result<Config, ConfigError>)
        ensures
            status.spec_is_err() ==> (r matches Err(ConfigError::Ucs(s)) && s == status),
            !status.spec_is_err() ==> (r matches Ok(c) && c.handle == handle),
    {
        match status_to_result(status) {
            Ok(()) => Ok(Config { handle }),
            Err(e) => Err(ConfigError::Ucs(e)),
        }
    }
}

/// A UCX context (`ucp_context_h`), by address.
#[derive(Debug)]
pub struct Context {
    pub handle: usize,
}

impl Context {
    /// Checks the parameters before initialization: features must be
    /// requested and workers declared shared, else `UCS_ERR_INVALID_PARAM`.
    pub fn check_params(params: &Params) -> (r: Result<(), ucs_status_t>)
        ensures
            spec_params_acceptable(*params) ==> r == Ok::<(), ucs_status_t>(()),
            !spec_params_acceptable(*params) ==> r == Err::<(), ucs_status_t>(
                ucs_status_t::UCS_ERR_INVALID_PARAM,
            ),
    {
        if params.handle.field_mask & UCP_PARAM_FIELD_FEATURES == 0 || params.handle.features == 0 {
            return Err(ucs_status_t::UCS_ERR_INVALID_PARAM);
        }
        if !params.mt_workers_shared || params.handle.field_mask & UCP_PARAM_FIELD_MT_WORKERS_SHARED
            == 0 || params.handle.mt_workers_shared == 0 {
            return Err(ucs_status_t::UCS_ERR_INVALID_PARAM);
        }
        Ok(())
    }

    /// The context that initialization produced, given its status and address.
    pub fn from_init(status: ucs_status_t, handle: usize) -> (r: Result<Context, ucs_status_t>)
        ensures
            status.spec_is_err() ==> (r matches Err(e) && e == status),
            !status.spec_is_err() ==> (r matches Ok(c) && c.handle == handle),
    {
        match status_to_result(status) {
            Ok(()) => Ok(Context { handle }),
            Err(e) => Err(e),
        }
    }
}

/// `ucp_context_attr_field`: which context attributes a query asks for.
pub const UCP_CONTEXT_ATTR_FIELD_REQUEST_SIZE: u64 = 1;
pub const UCP_CONTEXT_ATTR_FIELD_THREAD_MODE: u64 = 2;
pub const UCP_CONTEXT_ATTR_FIELD_MEMORY_TYPES: u64 = 4;
pub const UCP_CONTEXT_ATTR_FIELD_NAME: u64 = 8;

/// Context attributes returned by a context query.
#[derive(Debug, Clone)]
pub struct ContextAttr {
    pub request_size: usize,
    pub thread_mode: ucs_thread_mode_t,
    pub memory_types: u64,
    pub name: String,
}

impl ContextAttr {
    /// The attributes of a context query with field mask `mask` that reported
    /// `status`: the name is reported only when it was asked for, and is
    /// empty otherwise.
    pub fn from_query(
        status: ucs_status_t,
        mask: u64,
        request_size: usize,
        thread_mode: ucs_thread_mode_t,
        memory_types: u64,
        name: String,
    ) -> (r: Result<ContextAttr, ucs_status_t>)
        ensures
            status.spec_is_err() ==> (r matches Err(e) && e == status),
            !status.spec_is_err() ==> (r matches Ok(a) && a.request_size == request_size
                && a.thread_mode == thread_mode && a.memory_types == memory_types && (mask
                & UCP_CONTEXT_ATTR_FIELD_NAME != 0 ==> a.name@ == name@) && (mask
                & UCP_CONTEXT_ATTR_FIELD_NAME == 0 ==> a.name@.len() == 0)),
    {
        match status_to_result(status) {
            Err(e) => Err(e),
            Ok(()) => {
                let name = if mask & UCP_CONTEXT_ATTR_FIELD_NAME != 0 {
                    name
                } else {
                    String::new()
                };
                Ok(ContextAttr { request_size, thread_mode, memory_types, name })
            },
        }
    }
}

} // verus!
