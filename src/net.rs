use vstd::prelude::*;
use crate::error::{UvError, UvResult};

verus! {

/// The address family of IPv4 socket addresses.
pub const AF_INET: i32 = 2;
/// The address family of IPv6 socket addresses.
pub const AF_INET6: i32 = 10;
/// The size of an IPv4 socket address, family included.
pub const SOCKADDR_IN_LEN: u32 = 16;
/// The size of an IPv6 socket address, family included.
pub const SOCKADDR_IN6_LEN: u32 = 28;

#[derive(Clone, Copy, Debug, PartialEq, Eq, Structural)]
pub enum IpAddr {
    Ipv4Addr(u8, u8, u8, u8),
    Ipv6Addr(u16, u16, u16, u16, u16, u16, u16, u16),
}

#[derive(Clone, Copy, Debug, PartialEq, Eq, Structural)]
pub struct SocketAddr {
    pub ip: IpAddr,
    pub port: u16,
}

/// A socket address as the operating system lays it out: the family, then
/// the bytes that follow it (port, address, ...), in network byte order.
#[derive(Clone, Debug)]
pub struct SockaddrStorage {
    pub family: i32,
    pub data: Vec<u8>,
}

pub open spec fn be16(x: u16) -> Seq<u8> {
    seq![(x / 256) as u8, (x % 256) as u8]
}

pub open spec fn read_be16(d: Seq<u8>, i: int) -> u16 {
    (d[i] as int * 256 + d[i + 1] as int) as u16
}

/// The bytes after the family field for an address.
pub open spec fn encode(a: SocketAddr) -> Seq<u8> {
    match a.ip {
        IpAddr::Ipv4Addr(b0, b1, b2, b3) => be16(a.port) + seq![b0, b1, b2, b3]
            + seq![0u8, 0u8, 0u8, 0u8, 0u8, 0u8, 0u8, 0u8],
        IpAddr::Ipv6Addr(s0, s1, s2, s3, s4, s5, s6, s7) => be16(a.port)
            + seq![0u8, 0u8, 0u8, 0u8]
            + be16(s0) + be16(s1) + be16(s2) + be16(s3) + be16(s4) + be16(s5) + be16(s6) + be16(s7)
            + seq![0u8, 0u8, 0u8, 0u8],
    }
}

pub open spec fn family_of(a: SocketAddr) -> i32 {
    match a.ip {
        IpAddr::Ipv4Addr(..) => AF_INET,
        IpAddr::Ipv6Addr(..) => AF_INET6,
    }
}

pub open spec fn len_of(a: SocketAddr) -> u32 {
    match a.ip {
        IpAddr::Ipv4Addr(..) => SOCKADDR_IN_LEN,
        IpAddr::Ipv6Addr(..) => SOCKADDR_IN6_LEN,
    }
}

/// Whether a stored address can be read: a known family, with the length
/// and the bytes that the family needs.
pub open spec fn readable(family: i32, d: Seq<u8>, len: u32) -> bool {
    ||| family == AF_INET && len >= SOCKADDR_IN_LEN && d.len() >= 6
    ||| family == AF_INET6 && len >= SOCKADDR_IN6_LEN && d.len() >= 22
}

/// The address that stored bytes hold.
pub open spec fn decode(family: i32, d: Seq<u8>) -> SocketAddr {
    if family == AF_INET {
        SocketAddr { ip: IpAddr::Ipv4Addr(d[2], d[3], d[4], d[5]), port: read_be16(d, 0) }
    } else {
        SocketAddr {
            ip: IpAddr::Ipv6Addr(
                read_be16(d, 6), read_be16(d, 8), read_be16(d, 10), read_be16(d, 12),
                read_be16(d, 14), read_be16(d, 16), read_be16(d, 18), read_be16(d, 20),
            ),
            port: read_be16(d, 0),
        }
    }
}

fn push_be16(v: &mut Vec<u8>, x: u16)
    ensures
        final(v)@ == old(v)@ + be16(x),
{
    v.push((x / 256) as u8);
    v.push((x % 256) as u8);
    proof {
        assert(final(v)@ =~= old(v)@ + be16(x));
    }
}

fn from_be(hi: u8, lo: u8) -> (r: u16)
    ensures
        r == hi as int * 256 + lo as int,
{
    (hi as u16) * 256 + lo as u16
}

/// Reads the address stored in `storage`, `len` bytes long in all.
pub fn sockaddr_to_addr(storage: &SockaddrStorage, len: u32) -> (r: SocketAddr)
    requires
        readable(storage.family, storage.data@, len),
    ensures
        r == decode(storage.family, storage.data@),
{
    let d = &storage.data;
    if storage.family == AF_INET {
        SocketAddr { ip: IpAddr::Ipv4Addr(d[2], d[3], d[4], d[5]), port: from_be(d[0], d[1]) }
    } else {
        SocketAddr {
            ip: IpAddr::Ipv6Addr(
                from_be(d[6], d[7]), from_be(d[8], d[9]), from_be(d[10], d[11]), from_be(d[12], d[13]),
                from_be(d[14], d[15]), from_be(d[16], d[17]), from_be(d[18], d[19]), from_be(d[20], d[21]),
            ),
            port: from_be(d[0], d[1]),
        }
    }
}

/// Stores `addr` into `storage` and gives the stored length.
pub fn addr_to_sockaddr(addr: SocketAddr, storage: &mut SockaddrStorage) -> (r: u32)
    ensures
        final(storage).family == family_of(addr),
        final(storage).data@ == encode(addr),
        r == len_of(addr),
{
    let mut v: Vec<u8> = Vec::new();
    push_be16(&mut v, addr.port);
    match addr.ip {
        IpAddr::Ipv4Addr(a, b, c, d) => {
            v.push(a);
            v.push(b);
            v.push(c);
            v.push(d);
            let mut i: usize = 0;
            while i < 8
                invariant
                    0 <= i <= 8,
                    v@ == be16(addr.port) + seq![a, b, c, d] + Seq::new(i as nat, |_j: int| 0u8),
                decreases 8 - i,
            {
                v.push(0);
                i += 1;
                proof {
                    assert(v@ =~= be16(addr.port) + seq![a, b, c, d] + Seq::new(i as nat, |_j: int| 0u8));
                }
            }
            assert(v@ =~= encode(addr));
            storage.family = AF_INET;
            storage.data = v;
            SOCKADDR_IN_LEN
        },
        IpAddr::Ipv6Addr(s0, s1, s2, s3, s4, s5, s6, s7) => {
            v.push(0);
            v.push(0);
            v.push(0);
            v.push(0);
            push_be16(&mut v, s0);
            push_be16(&mut v, s1);
            push_be16(&mut v, s2);
            push_be16(&mut v, s3);
            push_be16(&mut v, s4);
            push_be16(&mut v, s5);
            push_be16(&mut v, s6);
            push_be16(&mut v, s7);
            v.push(0);
            v.push(0);
            v.push(0);
            v.push(0);
            assert(v@ =~= encode(addr));
            storage.family = AF_INET6;
            storage.data = v;
            SOCKADDR_IN6_LEN
        },
    }
}

/// Storing an address and reading it back gives the same address.
pub proof fn lemma_sockaddr_round_trip(a: SocketAddr)
    ensures
        readable(family_of(a), encode(a), len_of(a)),
        decode(family_of(a), encode(a)) == a,
{
    let e = encode(a);
    match a.ip {
        IpAddr::Ipv4Addr(b0, b1, b2, b3) => {
            assert(e[0] == be16(a.port)[0] && e[1] == be16(a.port)[1]);
            assert(e[2] == b0 && e[3] == b1 && e[4] == b2 && e[5] == b3);
        },
        IpAddr::Ipv6Addr(s0, s1, s2, s3, s4, s5, s6, s7) => {
            assert(e.len() == 26);
            assert(read_be16(e, 0) == a.port);
            assert(read_be16(e, 6) == s0);
            assert(read_be16(e, 8) == s1);
            assert(read_be16(e, 10) == s2);
            assert(read_be16(e, 12) == s3);
            assert(read_be16(e, 14) == s4);
            assert(read_be16(e, 16) == s5);
            assert(read_be16(e, 18) == s6);
            assert(read_be16(e, 20) == s7);
        },
    }
}

/// The addresses of a resolver's answer, in the answer's order.
pub open spec fn answer_ips(entries: Seq<(SockaddrStorage, u32)>) -> Seq<IpAddr> {
    entries.map_values(|e: (SockaddrStorage, u32)| decode(e.0.family, e.0.data@).ip)
}

pub open spec fn answer_readable(entries: Seq<(SockaddrStorage, u32)>) -> bool {
    forall|i: int| 0 <= i < entries.len() ==> readable(#[trigger] entries[i].0.family, entries[i].0.data@, entries[i].1)
}

/// The outcome of a host lookup, from the resolver's status and the socket
/// addresses of its answer (each with its length): the status's error when
/// it is negative, else the IP addresses of the answer, in order.
pub fn get_host_addresses_on(status: i32, entries: &Vec<(SockaddrStorage, u32)>) -> (r: UvResult<Vec<IpAddr>>)
    requires
        status >= 0 ==> answer_readable(entries@),
    ensures
        status < 0 ==> r == Err::<Vec<IpAddr>, UvError>(UvError(status)),
        status >= 0 ==> r is Ok && r.unwrap()@ == answer_ips(entries@),
{
    if status < 0 {
        return Err(UvError(status));
    }
    let mut addrs: Vec<IpAddr> = Vec::new();
    let mut i: usize = 0;
    while i < entries.len()
        invariant
            0 <= i <= entries@.len(),
            answer_readable(entries@),
            addrs@ == answer_ips(entries@).subrange(0, i as int),
        decreases entries@.len() - i,
    {
        let a = sockaddr_to_addr(&entries[i].0, entries[i].1);
        addrs.push(a.ip);
        i += 1;
        proof {
            assert(addrs@ =~= answer_ips(entries@).subrange(0, i as int));
        }
    }
    proof {
        assert(addrs@ =~= answer_ips(entries@));
    }
    Ok(addrs)
}

} // verus!
