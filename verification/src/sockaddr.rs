//! Socket addresses in the form UCX consumes (`struct sockaddr_in`/`sockaddr_in6`).
use vstd::prelude::*;

verus! {

/// The library's number for the IPv4 address family (Linux's `AF_INET`). In
/// the bytes of a C structure the host's own number stands, see
/// [`SockaddrHost`].
pub const AF_INET: u16 = 2;
/// The library's number for the IPv6 address family (Linux's `AF_INET6`).
pub const AF_INET6: u16 = 10;
/// The library's number for a family it does not model.
pub const AF_UNSPEC: u16 = 0;
/// Size in bytes of `struct sockaddr_in`.
pub const SOCKADDR_IN_LEN: u32 = 16;
/// Size in bytes of `struct sockaddr_in6`.
pub const SOCKADDR_IN6_LEN: u32 = 28;

/// An IP socket address. The IP is the address's numeric value in network
/// bit order (the octets read most significant first).
#[derive(Debug, Clone, Copy, PartialEq, Eq, Structural, Hash)]
pub enum SocketAddr {
    V4 { ip: u32, port: u16 },
    V6 { ip: u128, port: u16, flowinfo: u32, scope_id: u32 },
}

/// The fields of a C socket address structure (`sockaddr_storage` holding a
/// `sockaddr_in` or `sockaddr_in6`), with every field in host order. For IPv4
/// only the low 32 bits of `addr` are used.
#[derive(Debug, Clone, Copy, PartialEq, Eq, Structural, Hash)]
pub struct SockAddrStorage {
    pub family: u16,
    pub port: u16,
    pub addr: u128,
    pub flowinfo: u32,
    pub scope_id: u32,
}

/// A socket address laid out for UCX, with the length of its C structure.
#[derive(Debug, Clone, Copy, PartialEq, Eq, Structural)]
pub struct SockAddr {
    pub storage: SockAddrStorage,
    pub addrlen: u32,
}

/// The fields of `addr`, in host order, with the length of its C structure.
pub open spec fn spec_socket_address(addr: SocketAddr) -> SockAddr {
    match addr {
        SocketAddr::V4 { ip, port } => SockAddr {
            storage: SockAddrStorage { family: AF_INET, port, addr: ip as u128, flowinfo: 0, scope_id: 0 },
            addrlen: SOCKADDR_IN_LEN,
        },
        SocketAddr::V6 { ip, port, flowinfo, scope_id } => SockAddr {
            storage: SockAddrStorage { family: AF_INET6, port, addr: ip, flowinfo, scope_id },
            addrlen: SOCKADDR_IN6_LEN,
        },
    }
}

/// The socket address held by a C structure; IPv6 flow information and scope
/// are not carried over. Other families have none.
pub open spec fn spec_from_storage(s: SockAddrStorage) -> Option<SocketAddr> {
    if s.family == AF_INET {
        Some(SocketAddr::V4 { ip: (s.addr % 0x1_0000_0000) as u32, port: s.port })
    } else if s.family == AF_INET6 {
        Some(SocketAddr::V6 { ip: s.addr, port: s.port, flowinfo: 0, scope_id: 0 })
    } else {
        None
    }
}

impl SockAddr {
    /// The fields UCX reads for `addr`, in host order, with the length of its C
    /// structure; [`sockaddr_net_bytes`] gives that structure's bytes.
    pub fn new(addr: &SocketAddr) -> (s: SockAddr)
        ensures
            s == spec_socket_address(*addr),
    {
        match addr {
            SocketAddr::V4 { ip, port } => SockAddr {
                storage: SockAddrStorage {
                    family: AF_INET,
                    port: *port,
                    addr: *ip as u128,
                    flowinfo: 0,
                    scope_id: 0,
                },
                addrlen: SOCKADDR_IN_LEN,
            },
            SocketAddr::V6 { ip, port, flowinfo, scope_id } => SockAddr {
                storage: SockAddrStorage {
                    family: AF_INET6,
                    port: *port,
                    addr: *ip,
                    flowinfo: *flowinfo,
                    scope_id: *scope_id,
                },
                addrlen: SOCKADDR_IN6_LEN,
            },
        }
    }
}

/// Reads the socket address of a C structure returned by UCX.
pub fn from_storage(s: &SockAddrStorage) -> (a: Option<SocketAddr>)
    ensures
        a == spec_from_storage(*s),
{
    if s.family == AF_INET {
        let low = s.addr % 0x1_0000_0000u128;
        Some(SocketAddr::V4 { ip: low as u32, port: s.port })
    } else if s.family == AF_INET6 {
        Some(SocketAddr::V6 { ip: s.addr, port: s.port, flowinfo: 0, scope_id: 0 })
    } else {
        None
    }
}

/// Laying out a socket address for C and reading it back gives the address
/// again, except for IPv6 flow information and scope, which are not read back.
pub proof fn lemma_socket_address_roundtrip(addr: SocketAddr)
    ensures
        addr is V4 ==> spec_from_storage(spec_socket_address(addr).storage) == Some(addr),
        addr matches SocketAddr::V6 { ip, port, flowinfo, scope_id } ==> spec_from_storage(
            spec_socket_address(addr).storage,
        ) == Some(SocketAddr::V6 { ip, port, flowinfo: 0, scope_id: 0 }),
{
}

/// How the IPv6 flow information is written into `sin6_flowinfo`.
#[derive(Debug, Clone, Copy, PartialEq, Eq, Structural)]
pub enum FlowinfoOrder {
    /// In network byte order, as endpoint addresses carry it.
    Network,
    /// As the host holds the value, as listener addresses carry it.
    Host,
}

/// What a host's C socket addresses need beyond the fields, for hosts whose
/// `sockaddr_in` and `sockaddr_in6` begin with a 16-bit family (no length
/// byte): the numbers the host gives the two families, and whether it stores
/// integers most significant byte first. The family, the scope and the flow
/// information in [`FlowinfoOrder::Host`] are stored in the host's order.
#[derive(Debug, Clone, Copy, PartialEq, Eq, Structural)]
pub struct SockaddrHost {
    pub af_inet: u16,
    pub af_inet6: u16,
    pub big_endian: bool,
}

/// The two bytes of `x`, most significant first when `big`, else least
/// significant first.
pub open spec fn spec_bytes16(x: u16, big: bool) -> Seq<u8> {
    if big {
        seq![(x >> 8u16) as u8, (x & 0xffu16) as u8]
    } else {
        seq![(x & 0xffu16) as u8, (x >> 8u16) as u8]
    }
}

/// The four bytes of `x`, most significant first when `big`, else least
/// significant first.
pub open spec fn spec_bytes32(x: u32, big: bool) -> Seq<u8> {
    if big {
        seq![(x >> 24u32) as u8, ((x >> 16u32) & 0xffu32) as u8, ((x >> 8u32) & 0xffu32) as u8, (x & 0xffu32) as u8]
    } else {
        seq![(x & 0xffu32) as u8, ((x >> 8u32) & 0xffu32) as u8, ((x >> 16u32) & 0xffu32) as u8, (x >> 24u32) as u8]
    }
}

/// The sixteen bytes of `x`, most significant first.
pub open spec fn spec_bytes128(x: u128) -> Seq<u8> {
    spec_bytes32((x >> 96u128) as u32, true) + spec_bytes32(((x >> 64u128) & 0xffff_ffffu128) as u32, true)
        + spec_bytes32(((x >> 32u128) & 0xffff_ffffu128) as u32, true) + spec_bytes32(
        (x & 0xffff_ffffu128) as u32,
        true,
    )
}

/// The value of the first two bytes of `b`, read most significant first when
/// `big`.
pub open spec fn spec_value16(b: Seq<u8>, big: bool) -> u16 {
    if big {
        ((b[0] as u16) << 8u16) | (b[1] as u16)
    } else {
        ((b[1] as u16) << 8u16) | (b[0] as u16)
    }
}

/// The value of the first four bytes of `b`, read most significant first
/// when `big`.
pub open spec fn spec_value32(b: Seq<u8>, big: bool) -> u32 {
    if big {
        ((b[0] as u32) << 24u32) | ((b[1] as u32) << 16u32) | ((b[2] as u32) << 8u32) | (b[3] as u32)
    } else {
        ((b[3] as u32) << 24u32) | ((b[2] as u32) << 16u32) | ((b[1] as u32) << 8u32) | (b[0] as u32)
    }
}

/// The value of the first sixteen bytes of `b`, read most significant first.
pub open spec fn spec_value128(b: Seq<u8>) -> u128 {
    ((spec_value32(b.subrange(0, 4), true) as u128) << 96u128) | ((spec_value32(b.subrange(4, 8), true)
        as u128) << 64u128) | ((spec_value32(b.subrange(8, 12), true) as u128) << 32u128) | (spec_value32(
        b.subrange(12, 16),
        true,
    ) as u128)
}

/// Whether the flow information in `order` is stored most significant first.
pub open spec fn spec_flowinfo_big(order: FlowinfoOrder, host: SockaddrHost) -> bool {
    match order {
        FlowinfoOrder::Network => true,
        FlowinfoOrder::Host => host.big_endian,
    }
}

/// The family of the library's numbering that the host's number `raw`
/// stands for; [`AF_UNSPEC`] for a family other than IPv4 and IPv6.
pub open spec fn spec_library_family(raw: u16, host: SockaddrHost) -> u16 {
    if raw == host.af_inet {
        AF_INET
    } else if raw == host.af_inet6 {
        AF_INET6
    } else {
        AF_UNSPEC
    }
}

/// The bytes of the C structure for `s` on `host`: `sockaddr_in` (16 bytes:
/// the host's family number in host order, port and address in network
/// order, 8 zero bytes) or `sockaddr_in6` (28 bytes: family in host order,
/// port in network order, flow information in `order`, the address in
/// network order, scope in host order). Other families have no layout.
pub open spec fn spec_sockaddr_net_bytes(s: SockAddrStorage, order: FlowinfoOrder, host: SockaddrHost) -> Seq<u8> {
    if s.family == AF_INET {
        spec_bytes16(host.af_inet, host.big_endian) + spec_bytes16(s.port, true) + spec_bytes32(
            (s.addr & 0xffff_ffffu128) as u32,
            true,
        ) + Seq::new(8, |i: int| 0u8)
    } else if s.family == AF_INET6 {
        spec_bytes16(host.af_inet6, host.big_endian) + spec_bytes16(s.port, true) + spec_bytes32(
            s.flowinfo,
            spec_flowinfo_big(order, host),
        ) + spec_bytes128(s.addr) + spec_bytes32(s.scope_id, host.big_endian)
    } else {
        Seq::empty()
    }
}

/// The fields of a C socket address read from its bytes `b` on `host` (laid
/// out as [`spec_sockaddr_net_bytes`] does): `None` when `b` is too short for
/// its family; a family other than IPv4 and IPv6 reads as [`AF_UNSPEC`] with
/// every other field zero.
pub open spec fn spec_storage_from_net_bytes(b: Seq<u8>, order: FlowinfoOrder, host: SockaddrHost) -> Option<SockAddrStorage> {
    if b.len() < 2 {
        None
    } else {
        let family = spec_library_family(spec_value16(b.subrange(0, 2), host.big_endian), host);
        if family == AF_INET {
            if b.len() < 16 {
                None
            } else {
                Some(
                    SockAddrStorage {
                        family,
                        port: spec_value16(b.subrange(2, 4), true),
                        addr: spec_value32(b.subrange(4, 8), true) as u128,
                        flowinfo: 0,
                        scope_id: 0,
                    },
                )
            }
        } else if family == AF_INET6 {
            if b.len() < 28 {
                None
            } else {
                Some(
                    SockAddrStorage {
                        family,
                        port: spec_value16(b.subrange(2, 4), true),
                        addr: spec_value128(b.subrange(8, 24)),
                        flowinfo: spec_value32(b.subrange(4, 8), spec_flowinfo_big(order, host)),
                        scope_id: spec_value32(b.subrange(24, 28), host.big_endian),
                    },
                )
            }
        } else {
            Some(SockAddrStorage { family: AF_UNSPEC, port: 0, addr: 0, flowinfo: 0, scope_id: 0 })
        }
    }
}

fn push16(v: &mut Vec<u8>, x: u16, big: bool)
    ensures
        final(v)@ == old(v)@ + spec_bytes16(x, big),
{
    if big {
        v.push((x >> 8u16) as u8);
        v.push((x & 0xffu16) as u8);
    } else {
        v.push((x & 0xffu16) as u8);
        v.push((x >> 8u16) as u8);
    }
    assert(final(v)@ =~= old(v)@ + spec_bytes16(x, big));
}

fn push32(v: &mut Vec<u8>, x: u32, big: bool)
    ensures
        final(v)@ == old(v)@ + spec_bytes32(x, big),
{
    if big {
        v.push((x >> 24u32) as u8);
        v.push(((x >> 16u32) & 0xffu32) as u8);
        v.push(((x >> 8u32) & 0xffu32) as u8);
        v.push((x & 0xffu32) as u8);
    } else {
        v.push((x & 0xffu32) as u8);
        v.push(((x >> 8u32) & 0xffu32) as u8);
        v.push(((x >> 16u32) & 0xffu32) as u8);
        v.push((x >> 24u32) as u8);
    }
    assert(final(v)@ =~= old(v)@ + spec_bytes32(x, big));
}

fn push128(v: &mut Vec<u8>, x: u128)
    ensures
        final(v)@ == old(v)@ + spec_bytes128(x),
{
    let ghost start = v@;
    push32(v, (x >> 96u128) as u32, true);
    push32(v, ((x >> 64u128) & 0xffff_ffffu128) as u32, true);
    push32(v, ((x >> 32u128) & 0xffff_ffffu128) as u32, true);
    push32(v, (x & 0xffff_ffffu128) as u32, true);
    assert(v@ =~= start + spec_bytes128(x));
}

fn read16(b: &[u8], i: usize, big: bool) -> (x: u16)
    requires
        i + 2 <= b@.len(),
    ensures
        x == spec_value16(b@.subrange(i as int, i + 2), big),
{
    let n = b.len();
    assert(n == b@.len());
    let ghost q = b@.subrange(i as int, i + 2);
    assert(q[0] == b[i as int] && q[1] == b[i + 1]);
    if big {
        ((b[i] as u16) << 8u16) | (b[i + 1] as u16)
    } else {
        ((b[i + 1] as u16) << 8u16) | (b[i] as u16)
    }
}

fn read32(b: &[u8], i: usize, big: bool) -> (x: u32)
    requires
        i + 4 <= b@.len(),
    ensures
        x == spec_value32(b@.subrange(i as int, i + 4), big),
{
    let n = b.len();
    assert(n == b@.len());
    let ghost q = b@.subrange(i as int, i + 4);
    assert(q[0] == b[i as int] && q[1] == b[i + 1] && q[2] == b[i + 2] && q[3] == b[i + 3]);
    if big {
        ((b[i] as u32) << 24u32) | ((b[i + 1] as u32) << 16u32) | ((b[i + 2] as u32) << 8u32) | (b[i
            + 3] as u32)
    } else {
        ((b[i + 3] as u32) << 24u32) | ((b[i + 2] as u32) << 16u32) | ((b[i + 1] as u32) << 8u32) | (b[i]
            as u32)
    }
}

fn read128(b: &[u8], i: usize) -> (x: u128)
    requires
        i + 16 <= b@.len(),
    ensures
        x == spec_value128(b@.subrange(i as int, i + 16)),
{
    let n = b.len();
    assert(n == b@.len());
    let ghost q = b@.subrange(i as int, i + 16);
    let w0 = read32(b, i, true);
    let w1 = read32(b, i + 4, true);
    let w2 = read32(b, i + 8, true);
    let w3 = read32(b, i + 12, true);
    assert(q.subrange(0, 4) =~= b@.subrange(i as int, i + 4));
    assert(q.subrange(4, 8) =~= b@.subrange(i + 4, i + 8));
    assert(q.subrange(8, 12) =~= b@.subrange(i + 8, i + 12));
    assert(q.subrange(12, 16) =~= b@.subrange(i + 12, i + 16));
    ((w0 as u128) << 96u128) | ((w1 as u128) << 64u128) | ((w2 as u128) << 32u128) | (w3 as u128)
}

/// The bytes of the C structure UCX reads for `s` on `host`, with the IPv6
/// flow information in `order`; empty for a family other than IPv4 and IPv6.
/// `s.addrlen` is the number of these bytes.
pub fn sockaddr_net_bytes(s: &SockAddr, order: FlowinfoOrder, host: SockaddrHost) -> (b: Vec<u8>)
    ensures
        b@ == spec_sockaddr_net_bytes(s.storage, order, host),
        s.storage.family == AF_INET ==> b@.len() == SOCKADDR_IN_LEN && b@.subrange(2, 4) == seq![
            (s.storage.port >> 8u16) as u8,
            (s.storage.port & 0xffu16) as u8,
        ] && forall|i: int| 8 <= i < 16 ==> b@[i] == 0u8,
        s.storage.family == AF_INET6 ==> b@.len() == SOCKADDR_IN6_LEN && b@.subrange(2, 4) == seq![
            (s.storage.port >> 8u16) as u8,
            (s.storage.port & 0xffu16) as u8,
        ],
{
    let st = &s.storage;
    let mut v: Vec<u8> = Vec::new();
    if st.family == AF_INET {
        push16(&mut v, host.af_inet, host.big_endian);
        push16(&mut v, st.port, true);
        push32(&mut v, (st.addr & 0xffff_ffffu128) as u32, true);
        let mut i: usize = 0;
        let ghost prefix = v@;
        while i < 8
            invariant
                0 <= i <= 8,
                v@ == prefix + Seq::new(i as nat, |k: int| 0u8),
            decreases 8 - i,
        {
            v.push(0u8);
            assert(v@ =~= prefix + Seq::new((i + 1) as nat, |k: int| 0u8));
            i = i + 1;
        }
        assert(v@ =~= spec_sockaddr_net_bytes(*st, order, host));
    } else if st.family == AF_INET6 {
        push16(&mut v, host.af_inet6, host.big_endian);
        push16(&mut v, st.port, true);
        let flow_big = match order {
            FlowinfoOrder::Network => true,
            FlowinfoOrder::Host => host.big_endian,
        };
        push32(&mut v, st.flowinfo, flow_big);
        push128(&mut v, st.addr);
        push32(&mut v, st.scope_id, host.big_endian);
        assert(v@ =~= spec_sockaddr_net_bytes(*st, order, host));
    }
    v
}

/// Reads the fields of a C socket address from its bytes on `host`, laid out
/// as [`sockaddr_net_bytes`] lays them out.
pub fn storage_from_net_bytes(b: &[u8], order: FlowinfoOrder, host: SockaddrHost) -> (s: Option<SockAddrStorage>)
    ensures
        s == spec_storage_from_net_bytes(b@, order, host),
{
    if b.len() < 2 {
        return None;
    }
    let raw = read16(b, 0, host.big_endian);
    let family = if raw == host.af_inet {
        AF_INET
    } else if raw == host.af_inet6 {
        AF_INET6
    } else {
        AF_UNSPEC
    };
    if family == AF_INET {
        if b.len() < 16 {
            return None;
        }
        let port = read16(b, 2, true);
        let a = read32(b, 4, true);
        Some(SockAddrStorage { family, port, addr: a as u128, flowinfo: 0, scope_id: 0 })
    } else if family == AF_INET6 {
        if b.len() < 28 {
            return None;
        }
        let port = read16(b, 2, true);
        let flow_big = match order {
            FlowinfoOrder::Network => true,
            FlowinfoOrder::Host => host.big_endian,
        };
        let flowinfo = read32(b, 4, flow_big);
        let addr = read128(b, 8);
        let scope_id = read32(b, 24, host.big_endian);
        Some(SockAddrStorage { family, port, addr, flowinfo, scope_id })
    } else {
        Some(SockAddrStorage { family: AF_UNSPEC, port: 0, addr: 0, flowinfo: 0, scope_id: 0 })
    }
}

/// Reading back the bytes of a 16-bit value gives the value.
proof fn lemma_value16_roundtrip(x: u16, big: bool)
    ensures
        spec_value16(spec_bytes16(x, big), big) == x,
{
    assert(((((x >> 8u16) as u8) as u16) << 8u16) | (((x & 0xffu16) as u8) as u16) == x) by (bit_vector);
}

/// Reading back the bytes of a 32-bit value gives the value.
proof fn lemma_value32_roundtrip(x: u32, big: bool)
    ensures
        spec_value32(spec_bytes32(x, big), big) == x,
{
    assert(((((x >> 24u32) as u8) as u32) << 24u32) | (((((x >> 16u32) & 0xffu32) as u8) as u32)
        << 16u32) | (((((x >> 8u32) & 0xffu32) as u8) as u32) << 8u32) | (((x & 0xffu32) as u8) as u32)
        == x) by (bit_vector);
}

/// A slice of a concatenation that lies within its first part.
proof fn lemma_subrange_front(s: Seq<u8>, t: Seq<u8>, i: int, j: int)
    requires
        0 <= i <= j <= s.len(),
    ensures
        (s + t).subrange(i, j) == s.subrange(i, j),
{
    assert((s + t).subrange(i, j) =~= s.subrange(i, j));
}

/// The second part of a concatenation, cut back out of it.
proof fn lemma_subrange_back(s: Seq<u8>, t: Seq<u8>)
    ensures
        (s + t).subrange(s.len() as int, (s.len() + t.len()) as int) == t,
{
    assert((s + t).subrange(s.len() as int, (s.len() + t.len()) as int) =~= t);
}

/// A sequence cut at its own bounds.
proof fn lemma_subrange_whole(s: Seq<u8>)
    ensures
        s.subrange(0, s.len() as int) == s,
{
    assert(s.subrange(0, s.len() as int) =~= s);
}

/// Reading back the sixteen bytes of a 128-bit value gives the value.
proof fn lemma_value128_roundtrip(x: u128)
    ensures
        spec_value128(spec_bytes128(x)) == x,
{
    let w0 = spec_bytes32((x >> 96u128) as u32, true);
    let w1 = spec_bytes32(((x >> 64u128) & 0xffff_ffffu128) as u32, true);
    let w2 = spec_bytes32(((x >> 32u128) & 0xffff_ffffu128) as u32, true);
    let w3 = spec_bytes32((x & 0xffff_ffffu128) as u32, true);
    let p1 = w0 + w1;
    let p2 = p1 + w2;
    lemma_subrange_back(p2, w3);
    lemma_subrange_front(p2, w3, 8, 12);
    lemma_subrange_back(p1, w2);
    lemma_subrange_front(p2, w3, 4, 8);
    lemma_subrange_front(p1, w2, 4, 8);
    lemma_subrange_back(w0, w1);
    lemma_subrange_front(p2, w3, 0, 4);
    lemma_subrange_front(p1, w2, 0, 4);
    lemma_subrange_front(w0, w1, 0, 4);
    lemma_subrange_whole(w0);
    lemma_value32_roundtrip((x >> 96u128) as u32, true);
    lemma_value32_roundtrip(((x >> 64u128) & 0xffff_ffffu128) as u32, true);
    lemma_value32_roundtrip(((x >> 32u128) & 0xffff_ffffu128) as u32, true);
    lemma_value32_roundtrip((x & 0xffff_ffffu128) as u32, true);
    assert(((((x >> 96u128) as u32) as u128) << 96u128) | (((((x >> 64u128) & 0xffff_ffffu128) as u32)
        as u128) << 64u128) | (((((x >> 32u128) & 0xffff_ffffu128) as u32) as u128) << 32u128) | (((x
        & 0xffff_ffffu128) as u32) as u128) == x) by (bit_vector);
}

/// The fields of an IPv4 layout, cut back out of its bytes.
proof fn lemma_v4_fields(f: Seq<u8>, p: Seq<u8>, a: Seq<u8>, z: Seq<u8>)
    requires
        f.len() == 2,
        p.len() == 2,
        a.len() == 4,
    ensures
        (f + p + a + z).subrange(0, 2) == f,
        (f + p + a + z).subrange(2, 4) == p,
        (f + p + a + z).subrange(4, 8) == a,
{
    let p1 = f + p;
    let p2 = p1 + a;
    lemma_subrange_front(p2, z, 4, 8);
    lemma_subrange_back(p1, a);
    lemma_subrange_front(p2, z, 2, 4);
    lemma_subrange_front(p1, a, 2, 4);
    lemma_subrange_back(f, p);
    lemma_subrange_front(p2, z, 0, 2);
    lemma_subrange_front(p1, a, 0, 2);
    lemma_subrange_front(f, p, 0, 2);
    lemma_subrange_whole(f);
}

/// The fields of an IPv6 layout, cut back out of its bytes.
proof fn lemma_v6_fields(f: Seq<u8>, p: Seq<u8>, fl: Seq<u8>, a: Seq<u8>, sc: Seq<u8>)
    requires
        f.len() == 2,
        p.len() == 2,
        fl.len() == 4,
        a.len() == 16,
    ensures
        (f + p + fl + a + sc).subrange(0, 2) == f,
        (f + p + fl + a + sc).subrange(2, 4) == p,
        (f + p + fl + a + sc).subrange(4, 8) == fl,
        (f + p + fl + a + sc).subrange(8, 24) == a,
        (f + p + fl + a + sc).subrange(24, 24 + sc.len() as int) == sc,
{
    let p1 = f + p;
    let p2 = p1 + fl;
    let p3 = p2 + a;
    lemma_subrange_back(p3, sc);
    lemma_subrange_front(p3, sc, 8, 24);
    lemma_subrange_back(p2, a);
    lemma_subrange_front(p3, sc, 4, 8);
    lemma_subrange_front(p2, a, 4, 8);
    lemma_subrange_back(p1, fl);
    lemma_subrange_front(p3, sc, 2, 4);
    lemma_subrange_front(p2, a, 2, 4);
    lemma_subrange_front(p1, fl, 2, 4);
    lemma_subrange_back(f, p);
    lemma_subrange_front(p3, sc, 0, 2);
    lemma_subrange_front(p2, a, 0, 2);
    lemma_subrange_front(p1, fl, 0, 2);
    lemma_subrange_front(f, p, 0, 2);
    lemma_subrange_whole(f);
}

proof fn lemma_v4_roundtrip(s: SockAddrStorage, order: FlowinfoOrder, host: SockaddrHost)
    requires
        s.family == AF_INET,
    ensures
        spec_storage_from_net_bytes(spec_sockaddr_net_bytes(s, order, host), order, host) == Some(
            SockAddrStorage { family: s.family, port: s.port, addr: s.addr & 0xffff_ffffu128, flowinfo: 0, scope_id: 0 },
        ),
{
    let hb = host.big_endian;
    let a = (s.addr & 0xffff_ffffu128) as u32;
    let f = spec_bytes16(host.af_inet, hb);
    let p = spec_bytes16(s.port, true);
    let w = spec_bytes32(a, true);
    let b = spec_sockaddr_net_bytes(s, order, host);
    assert(b == f + p + w + Seq::new(8, |i: int| 0u8));
    lemma_v4_fields(f, p, w, Seq::new(8, |i: int| 0u8));
    lemma_value16_roundtrip(host.af_inet, hb);
    lemma_value16_roundtrip(s.port, true);
    lemma_value32_roundtrip(a, true);
    assert(spec_value16(b.subrange(0, 2), hb) == host.af_inet);
    assert(spec_library_family(spec_value16(b.subrange(0, 2), hb), host) == AF_INET);
    assert(b.len() == 16);
    let x = s.addr;
    assert(((x & 0xffff_ffffu128) as u32) as u128 == x & 0xffff_ffffu128) by (bit_vector);
}

proof fn lemma_v6_roundtrip(s: SockAddrStorage, order: FlowinfoOrder, host: SockaddrHost)
    requires
        s.family == AF_INET6,
        host.af_inet != host.af_inet6,
    ensures
        spec_storage_from_net_bytes(spec_sockaddr_net_bytes(s, order, host), order, host) == Some(s),
{
    let hb = host.big_endian;
    let fb = spec_flowinfo_big(order, host);
    let f = spec_bytes16(host.af_inet6, hb);
    let p = spec_bytes16(s.port, true);
    let fl = spec_bytes32(s.flowinfo, fb);
    let a = spec_bytes128(s.addr);
    let sc = spec_bytes32(s.scope_id, hb);
    let b = spec_sockaddr_net_bytes(s, order, host);
    assert(b == f + p + fl + a + sc);
    lemma_v6_fields(f, p, fl, a, sc);
    lemma_value16_roundtrip(host.af_inet6, hb);
    lemma_value16_roundtrip(s.port, true);
    lemma_value32_roundtrip(s.flowinfo, fb);
    lemma_value128_roundtrip(s.addr);
    lemma_value32_roundtrip(s.scope_id, hb);
    assert(spec_library_family(spec_value16(b.subrange(0, 2), hb), host) == AF_INET6);
    assert(b.len() == 28);
}

/// Laying out a socket address in bytes on a host that numbers the two
/// families apart and reading it back gives its fields again, in either
/// flow-information order: all of them for IPv6, and for IPv4 the family,
/// the port and the low 32 bits of the address.
pub proof fn lemma_net_bytes_roundtrip(s: SockAddrStorage, order: FlowinfoOrder, host: SockaddrHost)
    requires
        host.af_inet != host.af_inet6,
    ensures
        s.family == AF_INET ==> spec_storage_from_net_bytes(spec_sockaddr_net_bytes(s, order, host), order, host)
            == Some(
            SockAddrStorage {
                family: s.family,
                port: s.port,
                addr: s.addr & 0xffff_ffffu128,
                flowinfo: 0,
                scope_id: 0,
            },
        ),
        s.family == AF_INET6 ==> spec_storage_from_net_bytes(spec_sockaddr_net_bytes(s, order, host), order, host)
            == Some(s),
{
    if s.family == AF_INET {
        lemma_v4_roundtrip(s, order, host);
    } else if s.family == AF_INET6 {
        lemma_v6_roundtrip(s, order, host);
    }
}

} // verus!
