//! Socket parameters, socket addresses in the layout that the Zephyr socket
//! calls take, and the rule by which a raw return value becomes a `Result`.

use vstd::prelude::*;
use crate::byte_order::{be16, be16_value, be32, lemma_be16_roundtrip, u16_to_network, u32_to_network};

verus! {

/// A socket descriptor as the C socket calls return it.
pub type RawFd = cty::c_int;

/// An error number as the C library's `errno` holds it.
pub type Errno = cty::c_int;

/// Zephyr's `AF_INET`.
pub const AF_INET: u16 = 1;

/// Zephyr's `AF_INET6`.
pub const AF_INET6: u16 = 2;

/// Zephyr's `SOCK_STREAM`.
pub const SOCK_STREAM: i32 = 1;

/// Zephyr's `SOCK_DGRAM`.
pub const SOCK_DGRAM: i32 = 2;

/// Zephyr's `IPPROTO_TCP`.
pub const IPPROTO_TCP: i32 = 6;

/// Zephyr's `IPPROTO_UDP`.
pub const IPPROTO_UDP: i32 = 17;

/// Zephyr's `INADDR_ANY`, in host byte order.
pub const INADDR_ANY: u32 = 0;

/// `sizeof(struct sockaddr_in)` in Zephyr: family, port, IPv4 address.
pub const SOCKADDR_IN_LEN: usize = 8;

/// `sizeof(struct sockaddr_in6)` in Zephyr: family, port, IPv6 address,
/// scope id, and padding to the alignment of the address.
pub const SOCKADDR_IN6_LEN: usize = 24;

/// Constants used in `socket()` to specify the domain to communicate;
/// i.e., address family socket.
#[derive(Clone, Copy, PartialEq, Eq, Debug, Structural)]
pub enum AddressFamily {
    Inet,
    Inet6,
}

/// These constants are used to specify the communication semantics
/// when creating a socket with `socket()`.
#[derive(Clone, Copy, PartialEq, Eq, Debug, Structural)]
pub enum SockType {
    /// Provides sequenced, reliable, two-way, connection-based byte streams.
    Stream,
    /// Supports datagrams (connectionless, unreliable messages)
    Datagram,
}

/// Constants used in `socket()` to specify the protocol to use.
#[derive(Clone, Copy, PartialEq, Eq, Debug, Structural)]
pub enum SockProtocol {
    Tcp,
    Udp,
}

impl AddressFamily {
    /// The C value of the family.
    pub open spec fn spec_raw(self) -> u16 {
        match self {
            AddressFamily::Inet => AF_INET,
            AddressFamily::Inet6 => AF_INET6,
        }
    }

    /// The C value of the family, as `socket()` takes it.
    pub fn raw(self) -> (r: i32)
        ensures
            r == self.spec_raw(),
    {
        match self {
            AddressFamily::Inet => 1,
            AddressFamily::Inet6 => 2,
        }
    }

    /// The C value of the family, as a socket address stores it.
    pub fn sa_family(self) -> (r: u16)
        ensures
            r == self.spec_raw(),
    {
        match self {
            AddressFamily::Inet => AF_INET,
            AddressFamily::Inet6 => AF_INET6,
        }
    }
}

impl SockType {
    /// The C value of the socket type.
    pub open spec fn spec_raw(self) -> i32 {
        match self {
            SockType::Stream => SOCK_STREAM,
            SockType::Datagram => SOCK_DGRAM,
        }
    }

    /// The C value of the socket type, as `socket()` takes it.
    pub fn raw(self) -> (r: i32)
        ensures
            r == self.spec_raw(),
    {
        match self {
            SockType::Stream => SOCK_STREAM,
            SockType::Datagram => SOCK_DGRAM,
        }
    }
}

impl SockProtocol {
    /// The C value of the protocol.
    pub open spec fn spec_raw(self) -> i32 {
        match self {
            SockProtocol::Tcp => IPPROTO_TCP,
            SockProtocol::Udp => IPPROTO_UDP,
        }
    }

    /// The C value of the protocol, as `socket()` takes it.
    pub fn raw(self) -> (r: i32)
        ensures
            r == self.spec_raw(),
    {
        match self {
            SockProtocol::Tcp => IPPROTO_TCP,
            SockProtocol::Udp => IPPROTO_UDP,
        }
    }
}

/// IPv4 address in socket API: the four bytes of `struct in_addr`, in
/// network byte order.
#[derive(Clone, Copy)]
pub struct Ipv4Addr {
    octets: [u8; 4],
}

impl View for Ipv4Addr {
    type V = Seq<u8>;

    closed spec fn view(&self) -> Seq<u8> {
        self.octets@
    }
}

impl Ipv4Addr {
    /// Create new IPv4 address from its host-order value.
    pub fn new(addr: u32) -> (r: Ipv4Addr)
        ensures
            r@ == be32(addr),
    {
        Ipv4Addr { octets: u32_to_network(addr) }
    }

    /// Create new IPv4 any address.
    pub fn any() -> (r: Ipv4Addr)
        ensures
            r@ == be32(INADDR_ANY),
            r@ == seq![0u8, 0u8, 0u8, 0u8],
    {
        Ipv4Addr::new(INADDR_ANY)
    }

    /// The four bytes of the address, in network byte order.
    pub fn octets(&self) -> (r: [u8; 4])
        ensures
            r@ == self@,
    {
        self.octets
    }
}

/// IPv6 address in socket API: the sixteen bytes of `struct in6_addr`, in
/// network byte order.
#[derive(Clone, Copy)]
pub struct Ipv6Addr {
    octets: [u8; 16],
}

impl View for Ipv6Addr {
    type V = Seq<u8>;

    closed spec fn view(&self) -> Seq<u8> {
        self.octets@
    }
}

impl Ipv6Addr {
    /// Create new IPv6 any address.
    pub fn any() -> (r: Ipv6Addr)
        ensures
            r@ == Seq::new(16, |i: int| 0u8),
    {
        let r = Ipv6Addr { octets: [0u8; 16] };
        assert(r@ =~= Seq::new(16, |i: int| 0u8));
        r
    }

    /// The sixteen bytes of the address, in network byte order.
    pub fn octets(&self) -> (r: [u8; 16])
        ensures
            r@ == self@,
    {
        self.octets
    }
}

/// A socket address as the socket calls see it through `struct sockaddr`:
/// the family field, then the bytes that follow it in the concrete address
/// structure.
pub struct SockAddr {
    pub family: u16,
    pub data: Vec<u8>,
}

/// IPv4 socket address (`struct sockaddr_in`).
pub struct InetAddr {
    family: u16,
    port: [u8; 2],
    addr: Ipv4Addr,
}

impl InetAddr {
    /// The `sin_family` field.
    pub closed spec fn sin_family(&self) -> u16 {
        self.family
    }

    /// The `sin_port` field, in network byte order.
    pub closed spec fn sin_port(&self) -> Seq<u8> {
        self.port@
    }

    /// The `sin_addr` field, in network byte order.
    pub closed spec fn sin_addr(&self) -> Seq<u8> {
        self.addr@
    }

    /// The bytes that follow the family field in `struct sockaddr_in`.
    pub open spec fn ffi_data(&self) -> Seq<u8> {
        self.sin_port() + self.sin_addr()
    }

    /// Create new IPv4 socket address.
    pub fn new(ip: Ipv4Addr, port: u16) -> (r: InetAddr)
        ensures
            r.sin_family() == AF_INET,
            r.sin_port() == be16(port),
            r.sin_addr() == ip@,
    {
        InetAddr { family: AddressFamily::Inet.sa_family(), port: u16_to_network(port), addr: ip }
    }

    /// The address as `bind()` takes it: through `struct sockaddr`, with the
    /// size of `struct sockaddr_in`.
    pub fn as_ffi_pair(&self) -> (r: (SockAddr, usize))
        ensures
            r.0.family == self.sin_family(),
            r.0.data@ == self.ffi_data(),
            r.1 == SOCKADDR_IN_LEN,
            r.1 == 2 + r.0.data@.len(),
    {
        let mut data: Vec<u8> = Vec::new();
        data.push(self.port[0]);
        data.push(self.port[1]);
        let octets = self.addr.octets();
        data.push(octets[0]);
        data.push(octets[1]);
        data.push(octets[2]);
        data.push(octets[3]);
        assert(data@ =~= self.sin_port() + self.sin_addr());
        (SockAddr { family: self.family, data }, SOCKADDR_IN_LEN)
    }
}

/// IPv6 socket address (`struct sockaddr_in6`).
pub struct InetAddr6 {
    family: u16,
    port: [u8; 2],
    addr: Ipv6Addr,
    scope_id: u8,
}

impl InetAddr6 {
    /// The `sin6_family` field.
    pub closed spec fn sin6_family(&self) -> u16 {
        self.family
    }

    /// The `sin6_port` field, in network byte order.
    pub closed spec fn sin6_port(&self) -> Seq<u8> {
        self.port@
    }

    /// The `sin6_addr` field, in network byte order.
    pub closed spec fn sin6_addr(&self) -> Seq<u8> {
        self.addr@
    }

    /// The `sin6_scope_id` field.
    pub closed spec fn sin6_scope_id(&self) -> u8 {
        self.scope_id
    }

    /// The bytes that follow the family field in `struct sockaddr_in6`, the
    /// three bytes of padding after the scope id zeroed.
    pub open spec fn ffi_data(&self) -> Seq<u8> {
        self.sin6_port() + self.sin6_addr() + seq![self.sin6_scope_id()] + seq![0u8, 0u8, 0u8]
    }

    /// Create new IPv6 socket address.
    pub fn new(ip: Ipv6Addr, port: u16) -> (r: InetAddr6)
        ensures
            r.sin6_family() == AF_INET6,
            r.sin6_port() == be16(port),
            r.sin6_addr() == ip@,
            r.sin6_scope_id() == 0,
    {
        InetAddr6 {
            family: AddressFamily::Inet6.sa_family(),
            port: u16_to_network(port),
            addr: ip,
            scope_id: 0,
        }
    }

    /// The address as `bind()` takes it: through `struct sockaddr`, with the
    /// size of `struct sockaddr_in6`; the three padding bytes are zero.
    pub fn as_ffi_pair(&self) -> (r: (SockAddr, usize))
        ensures
            r.0.family == self.sin6_family(),
            r.0.data@ == self.ffi_data(),
            r.1 == SOCKADDR_IN6_LEN,
            r.1 == 2 + r.0.data@.len(),
    {
        let mut data: Vec<u8> = Vec::new();
        data.push(self.port[0]);
        data.push(self.port[1]);
        let octets = self.addr.octets();
        let mut i: usize = 0;
        while i < 16
            invariant
                i <= 16,
                octets@ == self.sin6_addr(),
                self.port@ == self.sin6_port(),
                data@ == self.sin6_port() + octets@.subrange(0, i as int),
            decreases 16 - i,
        {
            data.push(octets[i]);
            assert(octets@.subrange(0, i + 1) =~= octets@.subrange(0, i as int).push(octets@[i as int]));
            i = i + 1;
        }
        assert(octets@.subrange(0, 16) =~= octets@);
        data.push(self.scope_id);
        data.push(0u8);
        data.push(0u8);
        data.push(0u8);
        assert(data@ =~= self.ffi_data());
        (SockAddr { family: self.family, data }, SOCKADDR_IN6_LEN)
    }
}

/// The IPv4 address bytes of a `struct sockaddr` filled in for an IPv4 peer:
/// the four bytes after the two of the port.
pub open spec fn peer_ipv4(data: Seq<u8>) -> Seq<u8> {
    data.subrange(2, 6)
}

/// The port of a `struct sockaddr` filled in for an IPv4 peer.
pub open spec fn peer_port(data: Seq<u8>) -> int {
    be16_value(data.subrange(0, 2))
}

/// The four octets of the address of an IPv4 peer, as `accept()` reports it,
/// in the order in which they are printed.
pub fn peer_ipv4_octets(addr: &SockAddr) -> (r: [u8; 4])
    requires
        addr.data@.len() >= 6,
    ensures
        r@ == peer_ipv4(addr.data@),
{
    let r = [addr.data[2], addr.data[3], addr.data[4], addr.data[5]];
    assert(r@ =~= peer_ipv4(addr.data@));
    r
}

/// What the address of a socket bound to `InetAddr::new(ip, port)` reads as
/// at the other end: the address octets are those of `ip` and the port is
/// `port`.
pub proof fn law_inet_addr_read_back(a: InetAddr, ip: Ipv4Addr, port: u16)
    requires
        a.sin_family() == AF_INET,
        a.sin_port() == be16(port),
        a.sin_addr() == ip@,
    ensures
        a.ffi_data().len() == 6,
        peer_ipv4(a.ffi_data()) == ip@,
        peer_port(a.ffi_data()) == port,
{
    assert(peer_ipv4(a.ffi_data()) =~= ip@);
    assert(a.ffi_data().subrange(0, 2) =~= be16(port));
    lemma_be16_roundtrip(port);
}

/// The C values handed to `socket()` and stored in socket addresses are
/// Zephyr's: AF_INET 1, AF_INET6 2, SOCK_STREAM 1, SOCK_DGRAM 2,
/// IPPROTO_TCP 6, IPPROTO_UDP 17.
pub proof fn law_c_values()
    ensures
        AddressFamily::Inet.spec_raw() == 1,
        AddressFamily::Inet6.spec_raw() == 2,
        SockType::Stream.spec_raw() == 1,
        SockType::Datagram.spec_raw() == 2,
        SockProtocol::Tcp.spec_raw() == 6,
        SockProtocol::Udp.spec_raw() == 17,
{
}

/// What the address of a socket bound to `InetAddr6::new(ip, port)` holds
/// after its family: the port in network byte order (which reads back as
/// `port`), the sixteen bytes of `ip`, a zero scope id and three zero bytes
/// of padding.
pub proof fn law_inet6_addr_read_back(a: InetAddr6, ip: Ipv6Addr, port: u16)
    requires
        a.sin6_family() == AF_INET6,
        a.sin6_port() == be16(port),
        a.sin6_addr() == ip@,
        a.sin6_scope_id() == 0,
    ensures
        a.ffi_data().len() == 22,
        a.ffi_data().subrange(0, 2) == be16(port),
        be16_value(a.ffi_data().subrange(0, 2)) == port,
        a.ffi_data()[0] == port / 256,
        a.ffi_data()[1] == port % 256,
        a.ffi_data().subrange(2, 18) == ip@,
        a.ffi_data()[18] == 0,
        a.ffi_data().subrange(19, 22) == seq![0u8, 0u8, 0u8],
{
    assert(a.ffi_data().subrange(0, 2) =~= be16(port));
    assert(a.ffi_data().subrange(2, 18) =~= ip@);
    assert(a.ffi_data().subrange(19, 22) =~= seq![0u8, 0u8, 0u8]);
    lemma_be16_roundtrip(port);
}

/// Turns the return value of a socket call into a `Result`; `errno` is the
/// error number read right after the call.
pub fn make_result(value: i32, errno: Errno) -> (r: Result<i32, Errno>)
    ensures
        value < 0 ==> r == Err::<i32, Errno>(errno),
        value >= 0 ==> r == Ok::<i32, Errno>(value),
{
    if value < 0 {
        Err(errno)
    } else {
        Ok(value)
    }
}

/// The result of a socket call that returns nothing on success (`bind`,
/// `listen`, `close`).
pub fn unit_result(value: i32, errno: Errno) -> (r: Result<(), Errno>)
    ensures
        value < 0 ==> r == Err::<(), Errno>(errno),
        value >= 0 ==> r == Ok::<(), Errno>(()),
{
    match make_result(value, errno) {
        Ok(_) => Ok(()),
        Err(e) => Err(e),
    }
}

/// The result of a call that transfers bytes (`recv`, `send`): the number of
/// bytes, or the error.
pub fn transfer_result(len: isize, errno: Errno) -> (r: Result<isize, Errno>)
    ensures
        len < 0 ==> r == Err::<isize, Errno>(errno),
        len >= 0 ==> r == Ok::<isize, Errno>(len),
{
    if len < 0 {
        Err(errno)
    } else {
        Ok(len)
    }
}

} // verus!
