//! Listeners and the connection requests they receive.
use vstd::prelude::*;
use crate::sockaddr::{from_storage, spec_from_storage, spec_socket_address, SockAddr, SockAddrStorage, SocketAddr};
use crate::status::{status_to_result, ucs_status_t};

verus! {

/// Listener parameter fields (`ucp_listener_params_field`).
#[derive(Debug, Clone, Copy, PartialEq, Eq, Structural, Hash)]
pub struct ListenerParamFields {
    pub bits: u64,
}

impl ListenerParamFields {
    /// The bits of every known flag.
    pub open spec fn spec_all_bits() -> u64 {
        0x7
    }

    /// The address to listen on.
    #[allow(non_snake_case)]
    pub fn SOCK_ADDR() -> (f: ListenerParamFields)
        ensures
            f.bits == 0x1,
    {
        ListenerParamFields { bits: 0x1 }
    }

    /// The handler of accepted endpoints.
    #[allow(non_snake_case)]
    pub fn ACCEPT_HANDLER() -> (f: ListenerParamFields)
        ensures
            f.bits == 0x2,
    {
        ListenerParamFields { bits: 0x2 }
    }

    /// The handler of connection requests.
    #[allow(non_snake_case)]
    pub fn CONN_HANDLER() -> (f: ListenerParamFields)
        ensures
            f.bits == 0x4,
    {
        ListenerParamFields { bits: 0x4 }
    }

    /// No flag set.
    pub fn empty() -> (f: ListenerParamFields)
        ensures
            f.bits == 0,
    {
        ListenerParamFields { bits: 0 }
    }

    /// Every known flag set.
    pub fn all() -> (f: ListenerParamFields)
        ensures
            f.bits == Self::spec_all_bits(),
    {
        ListenerParamFields { bits: 0x7 }
    }

    /// The raw bits.
    pub fn bits(&self) -> (b: u64)
        ensures
            b == self.bits,
    {
        self.bits
    }

    /// The flags among `bits` that are known; other bits are dropped.
    pub fn from_bits_truncate(bits: u64) -> (f: ListenerParamFields)
        ensures
            f.bits == bits & Self::spec_all_bits(),
    {
        ListenerParamFields { bits: bits & 0x7 }
    }

    /// The flags `bits`, if every set bit is a known flag.
    pub fn from_bits(bits: u64) -> (f: Option<ListenerParamFields>)
        ensures
            bits & !Self::spec_all_bits() == 0 ==> f == Some(ListenerParamFields { bits }),
            bits & !Self::spec_all_bits() != 0 ==> f is None,
    {
        if bits & !0x7u64 == 0 {
            Some(ListenerParamFields { bits })
        } else {
            None
        }
    }

    /// Whether no flag is set.
    pub fn is_empty(&self) -> (b: bool)
        ensures
            b == (self.bits == 0),
    {
        self.bits == 0
    }

    /// Whether every known flag is set.
    pub fn is_all(&self) -> (b: bool)
        ensures
            b == (self.bits & Self::spec_all_bits() == Self::spec_all_bits()),
    {
        self.bits & 0x7 == 0x7
    }

    /// Whether every flag of `other` is set in `self`.
    pub fn contains(&self, other: ListenerParamFields) -> (b: bool)
        ensures
            b == (self.bits & other.bits == other.bits),
    {
        self.bits & other.bits == other.bits
    }

    /// Whether `self` and `other` share a flag.
    pub fn intersects(&self, other: ListenerParamFields) -> (b: bool)
        ensures
            b == (self.bits & other.bits != 0),
    {
        self.bits & other.bits != 0
    }

    /// The flags set in either.
    pub fn union(self, other: ListenerParamFields) -> (f: ListenerParamFields)
        ensures
            f.bits == self.bits | other.bits,
    {
        ListenerParamFields { bits: self.bits | other.bits }
    }

    /// The flags set in both.
    pub fn intersection(self, other: ListenerParamFields) -> (f: ListenerParamFields)
        ensures
            f.bits == self.bits & other.bits,
    {
        ListenerParamFields { bits: self.bits & other.bits }
    }

    /// Sets the flags of `other`.
    pub fn insert(&mut self, other: ListenerParamFields)
        ensures
            final(self).bits == old(self).bits | other.bits,
    {
        self.bits = self.bits | other.bits;
    }

    /// Clears the flags of `other`.
    pub fn remove(&mut self, other: ListenerParamFields)
        ensures
            final(self).bits == old(self).bits & !other.bits,
    {
        self.bits = self.bits & !other.bits;
    }
}

impl core::ops::BitOr for ListenerParamFields {
    type Output = ListenerParamFields;

    fn bitor(self, rhs: ListenerParamFields) -> (f: ListenerParamFields)
        ensures
            f.bits == self.bits | rhs.bits,
    {
        ListenerParamFields { bits: self.bits | rhs.bits }
    }
}

impl vstd::std_specs::ops::BitOrSpecImpl for ListenerParamFields {
    open spec fn obeys_bitor_spec() -> bool {
        true
    }

    open spec fn bitor_req(self, rhs: ListenerParamFields) -> bool {
        true
    }

    open spec fn bitor_spec(self, rhs: ListenerParamFields) -> ListenerParamFields {
        ListenerParamFields { bits: self.bits | rhs.bits }
    }
}


/// Connection request attributes a query asks for (`ucp_conn_request_attr_field`).
#[derive(Debug, Clone, Copy, PartialEq, Eq, Structural, Hash)]
pub struct ConnRequestFields {
    pub bits: u64,
}

impl ConnRequestFields {
    /// The bits of every known flag.
    pub open spec fn spec_all_bits() -> u64 {
        0x3
    }

    /// The client's socket address.
    #[allow(non_snake_case)]
    pub fn CLIENT_ADDR() -> (f: ConnRequestFields)
        ensures
            f.bits == 0x1,
    {
        ConnRequestFields { bits: 0x1 }
    }

    /// The client's identifier.
    #[allow(non_snake_case)]
    pub fn CLIENT_ID() -> (f: ConnRequestFields)
        ensures
            f.bits == 0x2,
    {
        ConnRequestFields { bits: 0x2 }
    }

    /// No flag set.
    pub fn empty() -> (f: ConnRequestFields)
        ensures
            f.bits == 0,
    {
        ConnRequestFields { bits: 0 }
    }

    /// Every known flag set.
    pub fn all() -> (f: ConnRequestFields)
        ensures
            f.bits == Self::spec_all_bits(),
    {
        ConnRequestFields { bits: 0x3 }
    }

    /// The raw bits.
    pub fn bits(&self) -> (b: u64)
        ensures
            b == self.bits,
    {
        self.bits
    }

    /// The flags among `bits` that are known; other bits are dropped.
    pub fn from_bits_truncate(bits: u64) -> (f: ConnRequestFields)
        ensures
            f.bits == bits & Self::spec_all_bits(),
    {
        ConnRequestFields { bits: bits & 0x3 }
    }

    /// The flags `bits`, if every set bit is a known flag.
    pub fn from_bits(bits: u64) -> (f: Option<ConnRequestFields>)
        ensures
            bits & !Self::spec_all_bits() == 0 ==> f == Some(ConnRequestFields { bits }),
            bits & !Self::spec_all_bits() != 0 ==> f is None,
    {
        if bits & !0x3u64 == 0 {
            Some(ConnRequestFields { bits })
        } else {
            None
        }
    }

    /// Whether no flag is set.
    pub fn is_empty(&self) -> (b: bool)
        ensures
            b == (self.bits == 0),
    {
        self.bits == 0
    }

    /// Whether every known flag is set.
    pub fn is_all(&self) -> (b: bool)
        ensures
            b == (self.bits & Self::spec_all_bits() == Self::spec_all_bits()),
    {
        self.bits & 0x3 == 0x3
    }

    /// Whether every flag of `other` is set in `self`.
    pub fn contains(&self, other: ConnRequestFields) -> (b: bool)
        ensures
            b == (self.bits & other.bits == other.bits),
    {
        self.bits & other.bits == other.bits
    }

    /// Whether `self` and `other` share a flag.
    pub fn intersects(&self, other: ConnRequestFields) -> (b: bool)
        ensures
            b == (self.bits & other.bits != 0),
    {
        self.bits & other.bits != 0
    }

    /// The flags set in either.
    pub fn union(self, other: ConnRequestFields) -> (f: ConnRequestFields)
        ensures
            f.bits == self.bits | other.bits,
    {
        ConnRequestFields { bits: self.bits | other.bits }
    }

    /// The flags set in both.
    pub fn intersection(self, other: ConnRequestFields) -> (f: ConnRequestFields)
        ensures
            f.bits == self.bits & other.bits,
    {
        ConnRequestFields { bits: self.bits & other.bits }
    }

    /// Sets the flags of `other`.
    pub fn insert(&mut self, other: ConnRequestFields)
        ensures
            final(self).bits == old(self).bits | other.bits,
    {
        self.bits = self.bits | other.bits;
    }

    /// Clears the flags of `other`.
    pub fn remove(&mut self, other: ConnRequestFields)
        ensures
            final(self).bits == old(self).bits & !other.bits,
    {
        self.bits = self.bits & !other.bits;
    }
}

impl core::ops::BitOr for ConnRequestFields {
    type Output = ConnRequestFields;

    fn bitor(self, rhs: ConnRequestFields) -> (f: ConnRequestFields)
        ensures
            f.bits == self.bits | rhs.bits,
    {
        ConnRequestFields { bits: self.bits | rhs.bits }
    }
}

impl vstd::std_specs::ops::BitOrSpecImpl for ConnRequestFields {
    open spec fn obeys_bitor_spec() -> bool {
        true
    }

    open spec fn bitor_req(self, rhs: ConnRequestFields) -> bool {
        true
    }

    open spec fn bitor_spec(self, rhs: ConnRequestFields) -> ConnRequestFields {
        ConnRequestFields { bits: self.bits | rhs.bits }
    }
}


/// `UCP_LISTENER_PARAM_FIELD_SOCK_ADDR`.
pub const UCP_LISTENER_PARAM_FIELD_SOCK_ADDR: u64 = 0x1;
/// `UCP_LISTENER_PARAM_FIELD_ACCEPT_HANDLER`.
pub const UCP_LISTENER_PARAM_FIELD_ACCEPT_HANDLER: u64 = 0x2;
/// `UCP_LISTENER_PARAM_FIELD_CONN_HANDLER`.
pub const UCP_LISTENER_PARAM_FIELD_CONN_HANDLER: u64 = 0x4;
/// `UCP_LISTENER_ATTR_FIELD_SOCKADDR`: a listener query asks for the bound address.
pub const UCP_LISTENER_ATTR_FIELD_SOCKADDR: u64 = 0x1;
/// `UCP_CONN_REQUEST_ATTR_FIELD_CLIENT_ADDR`.
pub const UCP_CONN_REQUEST_ATTR_FIELD_CLIENT_ADDR: u64 = 0x1;
/// `UCP_CONN_REQUEST_ATTR_FIELD_CLIENT_ID`.
pub const UCP_CONN_REQUEST_ATTR_FIELD_CLIENT_ID: u64 = 0x2;

/// A callback that UCX invokes, by address, with its opaque argument.
#[derive(Debug, Clone, Copy, PartialEq, Eq, Structural)]
pub struct Handler {
    pub cb: usize,
    pub arg: usize,
}

/// Listener creation parameters (`ucp_listener_params_t`).
#[allow(non_camel_case_types)]
#[derive(Debug, Clone, Copy, PartialEq, Eq, Structural)]
pub struct ucp_listener_params_t {
    pub field_mask: u64,
    pub sockaddr: SockAddr,
    pub accept_handler: Handler,
    pub conn_handler: Handler,
}

/// Parameters with no field set: every field zero.
pub open spec fn spec_zero_listener_params() -> ucp_listener_params_t {
    ucp_listener_params_t {
        field_mask: 0,
        sockaddr: SockAddr {
            storage: SockAddrStorage { family: 0, port: 0, addr: 0, flowinfo: 0, scope_id: 0 },
            addrlen: 0,
        },
        accept_handler: Handler { cb: 0, arg: 0 },
        conn_handler: Handler { cb: 0, arg: 0 },
    }
}

/// Builder for listener parameters; each setter consumes and returns it.
#[derive(Debug, Clone, Copy)]
pub struct ParamsBuilder {
    pub params: ucp_listener_params_t,
}

impl ParamsBuilder {
    /// A builder with every field zero.
    pub fn new() -> (b: ParamsBuilder)
        ensures
            b.params == spec_zero_listener_params(),
    {
        ParamsBuilder {
            params: ucp_listener_params_t {
                field_mask: 0,
                sockaddr: SockAddr {
                    storage: SockAddrStorage { family: 0, port: 0, addr: 0, flowinfo: 0, scope_id: 0 },
                    addrlen: 0,
                },
                accept_handler: Handler { cb: 0, arg: 0 },
                conn_handler: Handler { cb: 0, arg: 0 },
            },
        }
    }

    /// Listens on `addr`.
    pub fn sockaddr(self, addr: SockAddr) -> (b: ParamsBuilder)
        ensures
            b.params == (ucp_listener_params_t {
                field_mask: self.params.field_mask | UCP_LISTENER_PARAM_FIELD_SOCK_ADDR,
                sockaddr: addr,
                ..self.params
            }),
    {
        let mut b = self;
        b.params.field_mask = b.params.field_mask | UCP_LISTENER_PARAM_FIELD_SOCK_ADDR;
        b.params.sockaddr = addr;
        b
    }

    /// Hands each accepted endpoint to `callback` with `arg`.
    pub fn accept_handler(self, callback: usize, arg: usize) -> (b: ParamsBuilder)
        ensures
            b.params == (ucp_listener_params_t {
                field_mask: self.params.field_mask | UCP_LISTENER_PARAM_FIELD_ACCEPT_HANDLER,
                accept_handler: Handler { cb: callback, arg },
                ..self.params
            }),
    {
        let mut b = self;
        b.params.field_mask = b.params.field_mask | UCP_LISTENER_PARAM_FIELD_ACCEPT_HANDLER;
        b.params.accept_handler = Handler { cb: callback, arg };
        b
    }

    /// Hands each connection request to `callback` with `arg`.
    pub fn conn_handler(self, callback: usize, arg: usize) -> (b: ParamsBuilder)
        ensures
            b.params == (ucp_listener_params_t {
                field_mask: self.params.field_mask | UCP_LISTENER_PARAM_FIELD_CONN_HANDLER,
                conn_handler: Handler { cb: callback, arg },
                ..self.params
            }),
    {
        let mut b = self;
        b.params.field_mask = b.params.field_mask | UCP_LISTENER_PARAM_FIELD_CONN_HANDLER;
        b.params.conn_handler = Handler { cb: callback, arg };
        b
    }

    /// The parameters built.
    pub fn build(self) -> (p: ucp_listener_params_t)
        ensures
            p == self.params,
    {
        self.params
    }
}

impl Default for ParamsBuilder {
    fn default() -> (b: ParamsBuilder)
        ensures
            b.params == spec_zero_listener_params(),
    {
        ParamsBuilder::new()
    }
}

/// The parameters a listener bound to `addr` is created with: the address
/// laid out for C, and nothing else.
pub fn socket_address_params(addr: &SocketAddr) -> (p: ucp_listener_params_t)
    ensures
        p == (ucp_listener_params_t {
            field_mask: UCP_LISTENER_PARAM_FIELD_SOCK_ADDR,
            sockaddr: spec_socket_address(*addr),
            ..spec_zero_listener_params()
        }),
{
    let b = ParamsBuilder::new().sockaddr(SockAddr::new(addr));
    proof {
        assert(0u64 | 0x1u64 == 0x1u64) by (bit_vector);
    }
    b.build()
}

/// A listener (`ucp_listener_h`), by address.
#[derive(Debug)]
pub struct Listener {
    pub handle: usize,
}

impl Listener {
    /// The listener `ucp_listener_create` made, or the error it reported.
    pub fn from_create(status: ucs_status_t, handle: usize) -> (r: Result<Listener, ucs_status_t>)
        ensures
            !status.spec_is_err() ==> r == Ok::<Listener, ucs_status_t>(Listener { handle }),
            status.spec_is_err() ==> r == Err::<Listener, ucs_status_t>(status),
    {
        match status_to_result(status) {
            Ok(()) => Ok(Listener { handle }),
            Err(e) => Err(e),
        }
    }

    /// The raw listener handle.
    pub fn as_raw(&self) -> (h: usize)
        ensures
            h == self.handle,
    {
        self.handle
    }
}

/// What a listener query reports: the bound address as C holds it, and read
/// back as a socket address.
#[derive(Debug, Clone, Copy)]
pub struct ListenerAttr {
    pub sockaddr: SockAddrStorage,
    pub socket_addr: Option<SocketAddr>,
}

impl ListenerAttr {
    /// The attributes of a listener query that reported `status` and filled
    /// in `sockaddr`.
    pub fn from_query(status: ucs_status_t, sockaddr: SockAddrStorage) -> (r: Result<ListenerAttr, ucs_status_t>)
        ensures
            !status.spec_is_err() ==> (r matches Ok(a) && a.sockaddr == sockaddr && a.socket_addr
                == spec_from_storage(sockaddr)),
            status.spec_is_err() ==> (r matches Err(e) && e == status),
    {
        match status_to_result(status) {
            Ok(()) => Ok(ListenerAttr { sockaddr, socket_addr: from_storage(&sockaddr) }),
            Err(e) => Err(e),
        }
    }
}

/// An incoming connection request (`ucp_conn_request_h`), by address.
#[derive(Debug, Clone, Copy)]
pub struct ConnRequest {
    pub handle: usize,
}

impl ConnRequest {
    /// The connection request UCX handed to a listener callback.
    pub fn from_raw(handle: usize) -> (c: ConnRequest)
        ensures
            c.handle == handle,
    {
        ConnRequest { handle }
    }

    /// The raw request handle.
    pub fn as_raw(&self) -> (h: usize)
        ensures
            h == self.handle,
    {
        self.handle
    }
}

/// What a connection request query reports, for the fields it asked for.
#[derive(Debug, Clone, Copy)]
pub struct ConnRequestAttr {
    pub client_address: Option<SocketAddr>,
    pub client_id: Option<u64>,
}

impl ConnRequestAttr {
    /// The attributes of a connection-request query for `fields` that
    /// reported `status` and filled in `client_address` and `client_id`; a
    /// field not asked for is `None`.
    pub fn from_query(fields: ConnRequestFields, status: ucs_status_t, client_address: SockAddrStorage, client_id: u64) -> (r: Result<ConnRequestAttr, ucs_status_t>)
        ensures
            status.spec_is_err() ==> (r matches Err(e) && e == status),
            !status.spec_is_err() ==> (r matches Ok(a) && a.client_address == (if fields.bits
                & UCP_CONN_REQUEST_ATTR_FIELD_CLIENT_ADDR == UCP_CONN_REQUEST_ATTR_FIELD_CLIENT_ADDR {
                spec_from_storage(client_address)
            } else {
                None
            }) && a.client_id == (if fields.bits & UCP_CONN_REQUEST_ATTR_FIELD_CLIENT_ID
                == UCP_CONN_REQUEST_ATTR_FIELD_CLIENT_ID {
                Some(client_id)
            } else {
                None
            })),
    {
        match status_to_result(status) {
            Err(e) => Err(e),
            Ok(()) => {
                let client_address = if fields.contains(ConnRequestFields::CLIENT_ADDR()) {
                    from_storage(&client_address)
                } else {
                    None
                };
                let client_id = if fields.contains(ConnRequestFields::CLIENT_ID()) {
                    Some(client_id)
                } else {
                    None
                };
                Ok(ConnRequestAttr { client_address, client_id })
            },
        }
    }
}

} // verus!
