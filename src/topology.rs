use vstd::prelude::*;
use crate::error::Error;

verus! {

/// A socket address as plain values: four octets or eight segments, and a port.
#[derive(Debug, Clone, Copy, PartialEq, Eq)]
pub enum SocketAddress {
    V4 { ip: [u8; 4], port: u16 },
    V6 { segments: [u16; 8], port: u16 },
}

/// One octet of the physical address: the host part of the virtual octet and
/// the network part of the real subnet's octet.
pub open spec fn rewrite_octet(virt: u8, mask: u8, actual: u8) -> u8 {
    (virt & !mask) | (actual & mask)
}

/// The physical IPv4 address for a virtual one: `(virtual & !mask) | (actual & mask)`.
pub open spec fn rewritten_ip(virt: Seq<u8>, mask: Seq<u8>, actual: Seq<u8>) -> Seq<u8> {
    Seq::new(4, |i: int| rewrite_octet(virt[i], mask[i], actual[i]))
}

fn rewrite_byte(virt: u8, mask: u8, actual: u8) -> (r: u8)
    ensures
        r == rewrite_octet(virt, mask, actual),
{
    (virt & !mask) | (actual & mask)
}

/// The address that a connection to `addr` physically goes to. The port is
/// kept. Only IPv4 is supported: an IPv6 address is a fatal configuration
/// error, never passed through unrewritten.
pub fn rewrite(addr: &SocketAddress, mask: &[u8; 4], actual: &[u8; 4]) -> (r: Result<
    SocketAddress,
    Error,
>)
    ensures
        match *addr {
            SocketAddress::V4 { ip, port } => r matches Ok(SocketAddress::V4 { ip: new_ip, port: new_port })
                && new_ip@ == rewritten_ip(ip@, mask@, actual@) && new_port == port,
            SocketAddress::V6 { .. } => r matches Err(Error::ConfigurationFatal(_)),
        },
{
    match addr {
        SocketAddress::V4 { ip, port } => {
            let new_ip: [u8; 4] = [
                rewrite_byte(ip[0], mask[0], actual[0]),
                rewrite_byte(ip[1], mask[1], actual[1]),
                rewrite_byte(ip[2], mask[2], actual[2]),
                rewrite_byte(ip[3], mask[3], actual[3]),
            ];
            assert(new_ip@ =~= rewritten_ip(ip@, mask@, actual@));
            Ok(SocketAddress::V4 { ip: new_ip, port: *port })
        },
        SocketAddress::V6 { .. } => Err(
            Error::ConfigurationFatal(String::from_str("IPv6 is not supported")),
        ),
    }
}

/// The fixed transform of a virtualised session: the mask and the real subnet
/// are set once and never change.
#[derive(Debug)]
pub struct VirtualTopology {
    mask: [u8; 4],
    actual: [u8; 4],
}

impl VirtualTopology {
    pub closed spec fn mask(&self) -> Seq<u8> {
        self.mask@
    }

    pub closed spec fn actual(&self) -> Seq<u8> {
        self.actual@
    }

    pub fn new(mask: [u8; 4], actual: [u8; 4]) -> (r: VirtualTopology)
        ensures
            r.mask() == mask@,
            r.actual() == actual@,
    {
        VirtualTopology { mask, actual }
    }

    /// The physical address of a connection attempt to `addr`; everything
    /// above the connection step keeps using `addr` itself.
    pub fn connection_address(&self, addr: &SocketAddress) -> (r: Result<SocketAddress, Error>)
        ensures
            match *addr {
                SocketAddress::V4 { ip, port } => r matches Ok(SocketAddress::V4 { ip: new_ip, port: new_port })
                    && new_ip@ == rewritten_ip(ip@, self.mask(), self.actual()) && new_port == port,
                SocketAddress::V6 { .. } => r matches Err(Error::ConfigurationFatal(_)),
            },
    {
        rewrite(addr, &self.mask, &self.actual)
    }
}

/// The contact points of a host list whose entries have been parsed: entries
/// that did not parse are skipped, the others kept in order.
pub fn contact_points(parsed: &Vec<Option<SocketAddress>>) -> (r: Vec<SocketAddress>)
    ensures
        r@ == parsed@.filter(|p: Option<SocketAddress>| p is Some).map_values(
            |p: Option<SocketAddress>| p->0,
        ),
{
    let mut out: Vec<SocketAddress> = Vec::new();
    let mut i: usize = 0;
    while i < parsed.len()
        invariant
            i <= parsed@.len(),
            out@ == parsed@.take(i as int).filter(|p: Option<SocketAddress>| p is Some).map_values(
                |p: Option<SocketAddress>| p->0,
            ),
        decreases parsed@.len() - i,
    {
        proof {
            let t = parsed@.take(i + 1);
            assert(t.drop_last() =~= parsed@.take(i as int));
            reveal(Seq::filter);
        }
        match parsed[i] {
            Some(a) => {
                out.push(a);
            },
            None => {},
        }
        i = i + 1;
        assert(out@ =~= parsed@.take(i as int).filter(|p: Option<SocketAddress>| p is Some).map_values(
            |p: Option<SocketAddress>| p->0,
        ));
    }
    assert(parsed@.take(parsed@.len() as int) =~= parsed@);
    out
}

} // verus!
