//! UCP memory registration: mapping, advice and packing parameters, memory
//! handles and their attributes.
use vstd::prelude::*;
use crate::status::{status_to_result, ucs_status_t};
use crate::types::{ucp_mem_advice_t, ucs_memory_type_t};

verus! {

/// `ucp_mem_map_params_field`: which mapping parameters are valid.
pub const UCP_MEM_MAP_PARAM_FIELD_ADDRESS: u64 = 0x1;
pub const UCP_MEM_MAP_PARAM_FIELD_LENGTH: u64 = 0x2;
pub const UCP_MEM_MAP_PARAM_FIELD_FLAGS: u64 = 0x4;
pub const UCP_MEM_MAP_PARAM_FIELD_PROT: u64 = 0x8;
pub const UCP_MEM_MAP_PARAM_FIELD_MEMORY_TYPE: u64 = 0x10;
pub const UCP_MEM_MAP_PARAM_FIELD_EXPORTED_MEMH_BUFFER: u64 = 0x20;

/// `ucp_mem_advise_params_field`: which advice parameters are valid.
pub const UCP_MEM_ADVISE_PARAM_FIELD_ADDRESS: u64 = 0x1;
pub const UCP_MEM_ADVISE_PARAM_FIELD_LENGTH: u64 = 0x2;
pub const UCP_MEM_ADVISE_PARAM_FIELD_ADVICE: u64 = 0x4;

/// `ucp_memh_pack_params_field`: which packing parameters are valid.
pub const UCP_MEMH_PACK_PARAM_FIELD_FLAGS: u64 = 0x1;

/// `ucp_mem_attr_field`: which memory attributes a query asks for.
pub const UCP_MEM_ATTR_FIELD_ADDRESS: u64 = 0x1;
pub const UCP_MEM_ATTR_FIELD_LENGTH: u64 = 0x2;
pub const UCP_MEM_ATTR_FIELD_MEM_TYPE: u64 = 0x4;

/// Memory mapping parameters (`ucp_mem_map_params_t`).
#[allow(non_camel_case_types)]
#[derive(Debug, Clone, Copy, PartialEq, Eq, Structural)]
pub struct ucp_mem_map_params_t {
    pub field_mask: u64,
    pub address: usize,
    pub length: usize,
    pub flags: u32,
    pub prot: u32,
    pub memory_type: ucs_memory_type_t,
    pub exported_memh_buffer: usize,
}

/// All-zero mapping parameters.
pub open spec fn spec_zero_map_params() -> ucp_mem_map_params_t {
    ucp_mem_map_params_t {
        field_mask: 0,
        address: 0,
        length: 0,
        flags: 0,
        prot: 0,
        memory_type: ucs_memory_type_t::UCS_MEMORY_TYPE_HOST,
        exported_memh_buffer: 0,
    }
}

fn zero_map_params() -> (p: ucp_mem_map_params_t)
    ensures
        p == spec_zero_map_params(),
{
    ucp_mem_map_params_t {
        field_mask: 0,
        address: 0,
        length: 0,
        flags: 0,
        prot: 0,
        memory_type: ucs_memory_type_t::UCS_MEMORY_TYPE_HOST,
        exported_memh_buffer: 0,
    }
}

/// Builder for [`MemMapParams`]. Each setter stores its value and marks its field
/// valid in `field_mask`; `build` publishes the mask.
#[derive(Debug, Clone, Copy)]
pub struct MemMapParamsBuilder {
    pub handle: ucp_mem_map_params_t,
    pub field_mask: u64,
}

/// Built memory mapping parameters.
#[derive(Debug, Clone, Copy)]
pub struct MemMapParams {
    pub handle: ucp_mem_map_params_t,
}

/// One setter call on a [`MemMapParamsBuilder`], with its argument.
#[derive(Debug, Clone, Copy, PartialEq, Eq, Structural)]
pub enum MemMapSetting {
    Address(usize),
    Length(usize),
    Flags(u32),
    Prot(u32),
    MemoryType(ucs_memory_type_t),
    ExportedMemhBuffer(usize),
}

/// The builder after one setter call, as that setter's contract gives it.
pub open spec fn spec_map_setting(b: MemMapParamsBuilder, s: MemMapSetting) -> MemMapParamsBuilder {
    match s {
        MemMapSetting::Address(x) => MemMapParamsBuilder {
            field_mask: b.field_mask | UCP_MEM_MAP_PARAM_FIELD_ADDRESS,
            handle: ucp_mem_map_params_t { address: x, ..b.handle },
        },
        MemMapSetting::Length(x) => MemMapParamsBuilder {
            field_mask: b.field_mask | UCP_MEM_MAP_PARAM_FIELD_LENGTH,
            handle: ucp_mem_map_params_t { length: x, ..b.handle },
        },
        MemMapSetting::Flags(x) => MemMapParamsBuilder {
            field_mask: b.field_mask | UCP_MEM_MAP_PARAM_FIELD_FLAGS,
            handle: ucp_mem_map_params_t { flags: x, ..b.handle },
        },
        MemMapSetting::Prot(x) => MemMapParamsBuilder {
            field_mask: b.field_mask | UCP_MEM_MAP_PARAM_FIELD_PROT,
            handle: ucp_mem_map_params_t { prot: x, ..b.handle },
        },
        MemMapSetting::MemoryType(x) => MemMapParamsBuilder {
            field_mask: b.field_mask | UCP_MEM_MAP_PARAM_FIELD_MEMORY_TYPE,
            handle: ucp_mem_map_params_t { memory_type: x, ..b.handle },
        },
        MemMapSetting::ExportedMemhBuffer(x) => MemMapParamsBuilder {
            field_mask: b.field_mask | UCP_MEM_MAP_PARAM_FIELD_EXPORTED_MEMH_BUFFER,
            handle: ucp_mem_map_params_t { exported_memh_buffer: x, ..b.handle },
        },
    }
}

/// The field bit a setter call marks valid.
pub open spec fn spec_map_setting_bit(s: MemMapSetting) -> u64 {
    match s {
        MemMapSetting::Address(_) => UCP_MEM_MAP_PARAM_FIELD_ADDRESS,
        MemMapSetting::Length(_) => UCP_MEM_MAP_PARAM_FIELD_LENGTH,
        MemMapSetting::Flags(_) => UCP_MEM_MAP_PARAM_FIELD_FLAGS,
        MemMapSetting::Prot(_) => UCP_MEM_MAP_PARAM_FIELD_PROT,
        MemMapSetting::MemoryType(_) => UCP_MEM_MAP_PARAM_FIELD_MEMORY_TYPE,
        MemMapSetting::ExportedMemhBuffer(_) => UCP_MEM_MAP_PARAM_FIELD_EXPORTED_MEMH_BUFFER,
    }
}

/// The builder after the setter calls `ss`, in order.
pub open spec fn spec_map_settings(b: MemMapParamsBuilder, ss: Seq<MemMapSetting>) -> MemMapParamsBuilder
    decreases ss.len(),
{
    if ss.len() == 0 {
        b
    } else {
        spec_map_settings(spec_map_setting(b, ss[0]), ss.drop_first())
    }
}

/// The bits of all the setter calls `ss`.
pub open spec fn spec_map_settings_bits(ss: Seq<MemMapSetting>) -> u64
    decreases ss.len(),
{
    if ss.len() == 0 {
        0
    } else {
        spec_map_setting_bit(ss[0]) | spec_map_settings_bits(ss.drop_first())
    }
}

/// The argument of the last `address` call among `ss`, if there is one.
pub open spec fn spec_last_address(ss: Seq<MemMapSetting>) -> Option<usize>
    decreases ss.len(),
{
    if ss.len() == 0 {
        None
    } else {
        match spec_last_address(ss.drop_first()) {
            Some(x) => Some(x),
            None => match ss[0] {
                MemMapSetting::Address(x) => Some(x),
                _ => None,
            },
        }
    }
}

/// The argument of the last `length` call among `ss`, if there is one.
pub open spec fn spec_last_length(ss: Seq<MemMapSetting>) -> Option<usize>
    decreases ss.len(),
{
    if ss.len() == 0 {
        None
    } else {
        match spec_last_length(ss.drop_first()) {
            Some(x) => Some(x),
            None => match ss[0] {
                MemMapSetting::Length(x) => Some(x),
                _ => None,
            },
        }
    }
}

/// The argument of the last `flags` call among `ss`, if there is one.
pub open spec fn spec_last_flags(ss: Seq<MemMapSetting>) -> Option<u32>
    decreases ss.len(),
{
    if ss.len() == 0 {
        None
    } else {
        match spec_last_flags(ss.drop_first()) {
            Some(x) => Some(x),
            None => match ss[0] {
                MemMapSetting::Flags(x) => Some(x),
                _ => None,
            },
        }
    }
}

/// The argument of the last `prot` call among `ss`, if there is one.
pub open spec fn spec_last_prot(ss: Seq<MemMapSetting>) -> Option<u32>
    decreases ss.len(),
{
    if ss.len() == 0 {
        None
    } else {
        match spec_last_prot(ss.drop_first()) {
            Some(x) => Some(x),
            None => match ss[0] {
                MemMapSetting::Prot(x) => Some(x),
                _ => None,
            },
        }
    }
}

/// The argument of the last `memory_type` call among `ss`, if there is one.
pub open spec fn spec_last_memory_type(ss: Seq<MemMapSetting>) -> Option<ucs_memory_type_t>
    decreases ss.len(),
{
    if ss.len() == 0 {
        None
    } else {
        match spec_last_memory_type(ss.drop_first()) {
            Some(x) => Some(x),
            None => match ss[0] {
                MemMapSetting::MemoryType(x) => Some(x),
                _ => None,
            },
        }
    }
}

/// The argument of the last `exported_memh_buffer` call among `ss`, if there is one.
pub open spec fn spec_last_exported_memh_buffer(ss: Seq<MemMapSetting>) -> Option<usize>
    decreases ss.len(),
{
    if ss.len() == 0 {
        None
    } else {
        match spec_last_exported_memh_buffer(ss.drop_first()) {
            Some(x) => Some(x),
            None => match ss[0] {
                MemMapSetting::ExportedMemhBuffer(x) => Some(x),
                _ => None,
            },
        }
    }
}

/// Any sequence of setter calls on a builder: its mask gains exactly the
/// bits of the calls made, each field holds the argument of its last call
/// (or what it held before, when not called), and nothing else changes.
pub proof fn lemma_map_builder_settings(b: MemMapParamsBuilder, ss: Seq<MemMapSetting>)
    ensures
        spec_map_settings(b, ss).field_mask == b.field_mask | spec_map_settings_bits(ss),
        spec_map_settings(b, ss).handle.field_mask == b.handle.field_mask,
        spec_map_settings(b, ss).handle.address == (match spec_last_address(ss) {
            Some(x) => x,
            None => b.handle.address,
        }),
        spec_map_settings(b, ss).handle.length == (match spec_last_length(ss) {
            Some(x) => x,
            None => b.handle.length,
        }),
        spec_map_settings(b, ss).handle.flags == (match spec_last_flags(ss) {
            Some(x) => x,
            None => b.handle.flags,
        }),
        spec_map_settings(b, ss).handle.prot == (match spec_last_prot(ss) {
            Some(x) => x,
            None => b.handle.prot,
        }),
        spec_map_settings(b, ss).handle.memory_type == (match spec_last_memory_type(ss) {
            Some(x) => x,
            None => b.handle.memory_type,
        }),
        spec_map_settings(b, ss).handle.exported_memh_buffer == (match spec_last_exported_memh_buffer(ss) {
            Some(x) => x,
            None => b.handle.exported_memh_buffer,
        }),
    decreases ss.len(),
{
    if ss.len() == 0 {
        let m = b.field_mask;
        assert(m | 0u64 == m) by (bit_vector);
    } else {
        let b1 = spec_map_setting(b, ss[0]);
        lemma_map_builder_settings(b1, ss.drop_first());
        let m = b.field_mask;
        let x = spec_map_setting_bit(ss[0]);
        let r = spec_map_settings_bits(ss.drop_first());
        assert((m | x) | r == m | (x | r)) by (bit_vector);
    }
}

/// A builder as [`MemMapParamsBuilder::new`] makes it.
pub open spec fn spec_new_map_builder() -> MemMapParamsBuilder {
    MemMapParamsBuilder { handle: spec_zero_map_params(), field_mask: 0 }
}

/// The parameters [`MemMapParamsBuilder::build`] makes of a builder.
pub open spec fn spec_map_build(b: MemMapParamsBuilder) -> ucp_mem_map_params_t {
    ucp_mem_map_params_t { field_mask: b.field_mask, ..b.handle }
}

/// Building after any sequence of setter calls on a new builder: the built
/// mask is exactly the bits of the calls made, each field holds the argument
/// of its last call, and every field not set is zero.
pub proof fn lemma_map_build_after_settings(ss: Seq<MemMapSetting>)
    ensures
        spec_map_build(spec_map_settings(spec_new_map_builder(), ss)).field_mask == spec_map_settings_bits(ss),
        spec_map_build(spec_map_settings(spec_new_map_builder(), ss)).address == (match spec_last_address(ss) {
            Some(x) => x,
            None => 0,
        }),
        spec_map_build(spec_map_settings(spec_new_map_builder(), ss)).length == (match spec_last_length(ss) {
            Some(x) => x,
            None => 0,
        }),
        spec_map_build(spec_map_settings(spec_new_map_builder(), ss)).flags == (match spec_last_flags(ss) {
            Some(x) => x,
            None => 0,
        }),
        spec_map_build(spec_map_settings(spec_new_map_builder(), ss)).prot == (match spec_last_prot(ss) {
            Some(x) => x,
            None => 0,
        }),
        spec_map_build(spec_map_settings(spec_new_map_builder(), ss)).memory_type == (match spec_last_memory_type(ss) {
            Some(x) => x,
            None => ucs_memory_type_t::UCS_MEMORY_TYPE_HOST,
        }),
        spec_map_build(spec_map_settings(spec_new_map_builder(), ss)).exported_memh_buffer == (match spec_last_exported_memh_buffer(ss) {
            Some(x) => x,
            None => 0,
        }),
{
    lemma_map_builder_settings(spec_new_map_builder(), ss);
    let r = spec_map_settings_bits(ss);
    assert(0u64 | r == r) by (bit_vector);
}

impl MemMapParamsBuilder {
    /// A builder with no field set.
    pub fn new() -> (b: MemMapParamsBuilder)
        ensures
            b.field_mask == 0,
            b.handle == spec_zero_map_params(),
            b == spec_new_map_builder(),
    {
        MemMapParamsBuilder { handle: zero_map_params(), field_mask: 0 }
    }

    /// Sets the address to map (zero lets UCX allocate).
    pub fn address(&mut self, addr: usize) -> (r: &mut MemMapParamsBuilder)
        ensures
            r.field_mask == old(self).field_mask | UCP_MEM_MAP_PARAM_FIELD_ADDRESS,
            r.handle == (ucp_mem_map_params_t { address: addr, ..old(self).handle }),
            *r == spec_map_setting(*old(self), MemMapSetting::Address(addr)),
            *final(self) == *final(r),
    {
        self.field_mask = self.field_mask | UCP_MEM_MAP_PARAM_FIELD_ADDRESS;
        self.handle.address = addr;
        self
    }
    /// Sets the length in bytes.
    pub fn length(&mut self, len: usize) -> (r: &mut MemMapParamsBuilder)
        ensures
            r.field_mask == old(self).field_mask | UCP_MEM_MAP_PARAM_FIELD_LENGTH,
            r.handle == (ucp_mem_map_params_t { length: len, ..old(self).handle }),
            *r == spec_map_setting(*old(self), MemMapSetting::Length(len)),
            *final(self) == *final(r),
    {
        self.field_mask = self.field_mask | UCP_MEM_MAP_PARAM_FIELD_LENGTH;
        self.handle.length = len;
        self
    }
    /// Sets the allocation flags.
    pub fn flags(&mut self, flags: u32) -> (r: &mut MemMapParamsBuilder)
        ensures
            r.field_mask == old(self).field_mask | UCP_MEM_MAP_PARAM_FIELD_FLAGS,
            r.handle == (ucp_mem_map_params_t { flags: flags, ..old(self).handle }),
            *r == spec_map_setting(*old(self), MemMapSetting::Flags(flags)),
            *final(self) == *final(r),
    {
        self.field_mask = self.field_mask | UCP_MEM_MAP_PARAM_FIELD_FLAGS;
        self.handle.flags = flags;
        self
    }
    /// Sets the memory protection.
    pub fn prot(&mut self, prot: u32) -> (r: &mut MemMapParamsBuilder)
        ensures
            r.field_mask == old(self).field_mask | UCP_MEM_MAP_PARAM_FIELD_PROT,
            r.handle == (ucp_mem_map_params_t { prot: prot, ..old(self).handle }),
            *r == spec_map_setting(*old(self), MemMapSetting::Prot(prot)),
            *final(self) == *final(r),
    {
        self.field_mask = self.field_mask | UCP_MEM_MAP_PARAM_FIELD_PROT;
        self.handle.prot = prot;
        self
    }
    /// Sets the memory type.
    pub fn memory_type(&mut self, mem_type: ucs_memory_type_t) -> (r: &mut MemMapParamsBuilder)
        ensures
            r.field_mask == old(self).field_mask | UCP_MEM_MAP_PARAM_FIELD_MEMORY_TYPE,
            r.handle == (ucp_mem_map_params_t { memory_type: mem_type, ..old(self).handle }),
            *r == spec_map_setting(*old(self), MemMapSetting::MemoryType(mem_type)),
            *final(self) == *final(r),
    {
        self.field_mask = self.field_mask | UCP_MEM_MAP_PARAM_FIELD_MEMORY_TYPE;
        self.handle.memory_type = mem_type;
        self
    }
    /// Sets the exported memory handle buffer.
    pub fn exported_memh_buffer(&mut self, buffer: usize) -> (r: &mut MemMapParamsBuilder)
        ensures
            r.field_mask == old(self).field_mask | UCP_MEM_MAP_PARAM_FIELD_EXPORTED_MEMH_BUFFER,
            r.handle == (ucp_mem_map_params_t { exported_memh_buffer: buffer, ..old(self).handle }),
            *r == spec_map_setting(*old(self), MemMapSetting::ExportedMemhBuffer(buffer)),
            *final(self) == *final(r),
    {
        self.field_mask = self.field_mask | UCP_MEM_MAP_PARAM_FIELD_EXPORTED_MEMH_BUFFER;
        self.handle.exported_memh_buffer = buffer;
        self
    }
    /// The parameters built so far.
    pub fn build(&mut self) -> (p: MemMapParams)
        ensures
            p.handle == (ucp_mem_map_params_t { field_mask: old(self).field_mask, ..old(self).handle }),
            p.handle == spec_map_build(*old(self)),
            final(self).field_mask == old(self).field_mask,
            final(self).handle == p.handle,
    {
        self.handle.field_mask = self.field_mask;
        MemMapParams { handle: self.handle }
    }
}

impl Default for MemMapParamsBuilder {
    fn default() -> (b: MemMapParamsBuilder)
        ensures
            b.field_mask == 0,
            b.handle == spec_zero_map_params(),
    {
        MemMapParamsBuilder::new()
    }
}

/// Memory advice parameters (`ucp_mem_advise_params_t`).
#[allow(non_camel_case_types)]
#[derive(Debug, Clone, Copy, PartialEq, Eq, Structural)]
pub struct ucp_mem_advise_params_t {
    pub field_mask: u64,
    pub address: usize,
    pub length: usize,
    pub advice: ucp_mem_advice_t,
}

/// All-zero advice parameters.
pub open spec fn spec_zero_advise_params() -> ucp_mem_advise_params_t {
    ucp_mem_advise_params_t {
        field_mask: 0,
        address: 0,
        length: 0,
        advice: ucp_mem_advice_t::UCP_MADV_NORMAL,
    }
}

fn zero_advise_params() -> (p: ucp_mem_advise_params_t)
    ensures
        p == spec_zero_advise_params(),
{
    ucp_mem_advise_params_t {
        field_mask: 0,
        address: 0,
        length: 0,
        advice: ucp_mem_advice_t::UCP_MADV_NORMAL,
    }
}

/// Builder for [`MemAdviseParams`]. Each setter stores its value and marks its field
/// valid in `field_mask`; `build` publishes the mask.
#[derive(Debug, Clone, Copy)]
pub struct MemAdviseParamsBuilder {
    pub handle: ucp_mem_advise_params_t,
    pub field_mask: u64,
}

/// Built memory advice parameters.
#[derive(Debug, Clone, Copy)]
pub struct MemAdviseParams {
    pub handle: ucp_mem_advise_params_t,
}

impl MemAdviseParamsBuilder {
    /// A builder with no field set.
    pub fn new() -> (b: MemAdviseParamsBuilder)
        ensures
            b.field_mask == 0,
            b.handle == spec_zero_advise_params(),
    {
        MemAdviseParamsBuilder { handle: zero_advise_params(), field_mask: 0 }
    }

    /// Sets the start of the advised range.
    pub fn address(&mut self, addr: usize) -> (r: &mut MemAdviseParamsBuilder)
        ensures
            r.field_mask == old(self).field_mask | UCP_MEM_ADVISE_PARAM_FIELD_ADDRESS,
            r.handle == (ucp_mem_advise_params_t { address: addr, ..old(self).handle }),
            *final(self) == *final(r),
    {
        self.field_mask = self.field_mask | UCP_MEM_ADVISE_PARAM_FIELD_ADDRESS;
        self.handle.address = addr;
        self
    }
    /// Sets the length of the advised range.
    pub fn length(&mut self, len: usize) -> (r: &mut MemAdviseParamsBuilder)
        ensures
            r.field_mask == old(self).field_mask | UCP_MEM_ADVISE_PARAM_FIELD_LENGTH,
            r.handle == (ucp_mem_advise_params_t { length: len, ..old(self).handle }),
            *final(self) == *final(r),
    {
        self.field_mask = self.field_mask | UCP_MEM_ADVISE_PARAM_FIELD_LENGTH;
        self.handle.length = len;
        self
    }
    /// Sets the advice.
    pub fn advice(&mut self, advice: ucp_mem_advice_t) -> (r: &mut MemAdviseParamsBuilder)
        ensures
            r.field_mask == old(self).field_mask | UCP_MEM_ADVISE_PARAM_FIELD_ADVICE,
            r.handle == (ucp_mem_advise_params_t { advice: advice, ..old(self).handle }),
            *final(self) == *final(r),
    {
        self.field_mask = self.field_mask | UCP_MEM_ADVISE_PARAM_FIELD_ADVICE;
        self.handle.advice = advice;
        self
    }
    /// The parameters built so far.
    pub fn build(&mut self) -> (p: MemAdviseParams)
        ensures
            p.handle == (ucp_mem_advise_params_t { field_mask: old(self).field_mask, ..old(self).handle }),
            final(self).field_mask == old(self).field_mask,
            final(self).handle == p.handle,
    {
        self.handle.field_mask = self.field_mask;
        MemAdviseParams { handle: self.handle }
    }
}

impl Default for MemAdviseParamsBuilder {
    fn default() -> (b: MemAdviseParamsBuilder)
        ensures
            b.field_mask == 0,
            b.handle == spec_zero_advise_params(),
    {
        MemAdviseParamsBuilder::new()
    }
}

/// Memory handle packing parameters (`ucp_memh_pack_params_t`).
#[allow(non_camel_case_types)]
#[derive(Debug, Clone, Copy, PartialEq, Eq, Structural)]
pub struct ucp_memh_pack_params_t {
    pub field_mask: u64,
    pub flags: u64,
}

/// All-zero packing parameters.
pub open spec fn spec_zero_pack_params() -> ucp_memh_pack_params_t {
    ucp_memh_pack_params_t { field_mask: 0, flags: 0 }
}

fn zero_pack_params() -> (p: ucp_memh_pack_params_t)
    ensures
        p == spec_zero_pack_params(),
{
    ucp_memh_pack_params_t { field_mask: 0, flags: 0 }
}

/// Builder for [`MemhPackParams`]. Each setter stores its value and marks its field
/// valid in `field_mask`; `build` publishes the mask.
#[derive(Debug, Clone, Copy)]
pub struct MemhPackParamsBuilder {
    pub handle: ucp_memh_pack_params_t,
    pub field_mask: u64,
}

/// Built memory handle packing parameters.
#[derive(Debug, Clone, Copy)]
pub struct MemhPackParams {
    pub handle: ucp_memh_pack_params_t,
}

impl MemhPackParamsBuilder {
    /// A builder with no field set.
    pub fn new() -> (b: MemhPackParamsBuilder)
        ensures
            b.field_mask == 0,
            b.handle == spec_zero_pack_params(),
    {
        MemhPackParamsBuilder { handle: zero_pack_params(), field_mask: 0 }
    }

    /// Sets the packing flags.
    pub fn flags(&mut self, flags: u64) -> (r: &mut MemhPackParamsBuilder)
        ensures
            r.field_mask == old(self).field_mask | UCP_MEMH_PACK_PARAM_FIELD_FLAGS,
            r.handle == (ucp_memh_pack_params_t { flags: flags, ..old(self).handle }),
            *final(self) == *final(r),
    {
        self.field_mask = self.field_mask | UCP_MEMH_PACK_PARAM_FIELD_FLAGS;
        self.handle.flags = flags;
        self
    }
    /// The parameters built so far.
    pub fn build(&mut self) -> (p: MemhPackParams)
        ensures
            p.handle == (ucp_memh_pack_params_t { field_mask: old(self).field_mask, ..old(self).handle }),
            final(self).field_mask == old(self).field_mask,
            final(self).handle == p.handle,
    {
        self.handle.field_mask = self.field_mask;
        MemhPackParams { handle: self.handle }
    }
}

impl Default for MemhPackParamsBuilder {
    fn default() -> (b: MemhPackParamsBuilder)
        ensures
            b.field_mask == 0,
            b.handle == spec_zero_pack_params(),
    {
        MemhPackParamsBuilder::new()
    }
}

/// A registered memory region (`ucp_mem_h`) and the context it belongs to,
/// by address.
#[derive(Debug)]
pub struct MemHandle {
    pub context: usize,
    pub handle: usize,
}

impl MemHandle {
    /// The handle that mapping produced, given its status and address.
    pub fn from_map(status: ucs_status_t, context: usize, handle: usize) -> (r: Result<MemHandle, ucs_status_t>)
        ensures
            status.spec_is_err() ==> r == Err::<MemHandle, ucs_status_t>(status),
            !status.spec_is_err() ==> (r matches Ok(m) && m.context == context && m.handle == handle),
    {
        match status_to_result(status) {
            Ok(()) => Ok(MemHandle { context, handle }),
            Err(e) => Err(e),
        }
    }

    /// The raw memory handle.
    pub fn as_raw(&self) -> (h: usize)
        ensures
            h == self.handle,
    {
        self.handle
    }

    /// The attributes a memory query asks for: address, length and memory type.
    pub fn query_mask() -> (m: u64)
        ensures
            m == UCP_MEM_ATTR_FIELD_ADDRESS | UCP_MEM_ATTR_FIELD_LENGTH | UCP_MEM_ATTR_FIELD_MEM_TYPE,
    {
        UCP_MEM_ATTR_FIELD_ADDRESS | UCP_MEM_ATTR_FIELD_LENGTH | UCP_MEM_ATTR_FIELD_MEM_TYPE
    }
}

/// Memory region attributes (`ucp_mem_attr_t`).
#[allow(non_camel_case_types)]
#[derive(Debug, Clone, Copy, PartialEq, Eq, Structural)]
pub struct ucp_mem_attr_t {
    pub field_mask: u64,
    pub address: usize,
    pub length: usize,
    pub mem_type: ucs_memory_type_t,
}

/// Attributes returned by a memory handle query.
#[derive(Debug, Clone, Copy)]
pub struct MemAttr {
    pub handle: ucp_mem_attr_t,
}

impl MemAttr {
    /// The attributes that a query produced, given its status.
    pub fn from_query(status: ucs_status_t, attr: ucp_mem_attr_t) -> (r: Result<MemAttr, ucs_status_t>)
        ensures
            status.spec_is_err() ==> r == Err::<MemAttr, ucs_status_t>(status),
            !status.spec_is_err() ==> (r matches Ok(a) && a.handle == attr),
    {
        match status_to_result(status) {
            Ok(()) => Ok(MemAttr { handle: attr }),
            Err(e) => Err(e),
        }
    }

    /// The address of the mapped region.
    pub fn address(&self) -> (a: usize)
        ensures
            a == self.handle.address,
    {
        self.handle.address
    }

    /// The length of the mapped region.
    pub fn length(&self) -> (l: usize)
        ensures
            l == self.handle.length,
    {
        self.handle.length
    }

    /// The memory type of the mapped region.
    pub fn mem_type(&self) -> (t: ucs_memory_type_t)
        ensures
            t == self.handle.mem_type,
    {
        self.handle.mem_type
    }
}

/// A packed memory handle buffer owned by UCX (`ucp_memh_pack`), by address
/// and length.
#[derive(Debug)]
pub struct PackedMemhBuffer {
    pub buffer: usize,
    pub length: usize,
}

impl PackedMemhBuffer {
    /// The buffer that packing produced, given its status.
    pub fn from_pack(status: ucs_status_t, buffer: usize, length: usize) -> (r: Result<PackedMemhBuffer, ucs_status_t>)
        ensures
            status.spec_is_err() ==> r == Err::<PackedMemhBuffer, ucs_status_t>(status),
            !status.spec_is_err() ==> (r matches Ok(b) && b.buffer == buffer && b.length == length),
    {
        match status_to_result(status) {
            Ok(()) => Ok(PackedMemhBuffer { buffer, length }),
            Err(e) => Err(e),
        }
    }

    /// The buffer's address.
    pub fn as_ptr(&self) -> (p: usize)
        ensures
            p == self.buffer,
    {
        self.buffer
    }

    /// The buffer length in bytes.
    pub fn len(&self) -> (l: usize)
        ensures
            l == self.length,
    {
        self.length
    }

    /// Whether the buffer is empty.
    pub fn is_empty(&self) -> (b: bool)
        ensures
            b == (self.length == 0),
    {
        self.length == 0
    }

    /// Whether the buffer has readable bytes (a non-null address and a
    /// non-zero length); otherwise its contents read as empty.
    pub fn has_bytes(&self) -> (b: bool)
        ensures
            b == (self.buffer != 0 && self.length != 0),
    {
        self.buffer != 0 && self.length != 0
    }
}

/// A packed remote key buffer owned by UCX (`ucp_rkey_pack`), by address and
/// size.
#[derive(Debug)]
pub struct PackedRkeyBuffer {
    pub buffer: usize,
    pub size: usize,
}

impl PackedRkeyBuffer {
    /// The buffer that packing produced, given its status.
    pub fn from_pack(status: ucs_status_t, buffer: usize, size: usize) -> (r: Result<PackedRkeyBuffer, ucs_status_t>)
        ensures
            status.spec_is_err() ==> r == Err::<PackedRkeyBuffer, ucs_status_t>(status),
            !status.spec_is_err() ==> (r matches Ok(b) && b.buffer == buffer && b.size == size),
    {
        match status_to_result(status) {
            Ok(()) => Ok(PackedRkeyBuffer { buffer, size }),
            Err(e) => Err(e),
        }
    }

    /// The buffer's address.
    pub fn as_ptr(&self) -> (p: usize)
        ensures
            p == self.buffer,
    {
        self.buffer
    }

    /// The buffer size in bytes.
    pub fn size(&self) -> (s: usize)
        ensures
            s == self.size,
    {
        self.size
    }

    /// Whether the buffer has readable bytes (a non-null address and a
    /// non-zero size); otherwise its contents read as empty.
    pub fn has_bytes(&self) -> (b: bool)
        ensures
            b == (self.buffer != 0 && self.size != 0),
    {
        self.buffer != 0 && self.size != 0
    }
}

} // verus!
