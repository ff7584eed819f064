use vstd::prelude::*;

verus! {

/// An IP address as its octets, most significant first.
#[derive(Clone, Copy, Debug, PartialEq, Eq, Hash)]
pub enum IpAddress {
    V4([u8; 4]),
    V6([u8; 16]),
}

/// A transport address: an IP address and a port.
#[derive(Clone, Copy, Debug, PartialEq, Eq, Hash)]
pub struct SocketAddress {
    pub ip: IpAddress,
    pub port: u16,
}

/// The 16-byte form of an IP address: IPv6 octets as they are, IPv4 octets
/// IPv6-mapped (`::ffff:a.b.c.d`).
pub open spec fn ipv6_octets(ip: IpAddress) -> Seq<u8> {
    match ip {
        IpAddress::V4(o) => seq![0u8, 0, 0, 0, 0, 0, 0, 0, 0, 0, 0xff, 0xff].add(o@),
        IpAddress::V6(o) => o@,
    }
}

/// The transport that receives a message.
#[derive(Clone, Copy, Debug, PartialEq, Eq, Structural, Hash)]
pub enum LocatorKind {
    Invalid,
    Reserved,
    Udp,
}

/// The wire code of a locator kind for an address of the given family.
pub open spec fn kind_code(kind: LocatorKind, ip: IpAddress) -> int {
    match kind {
        LocatorKind::Invalid => -1,
        LocatorKind::Reserved => 0,
        LocatorKind::Udp => match ip {
            IpAddress::V4(_) => 1,
            IpAddress::V6(_) => 2,
        },
    }
}

/// The addressing information needed to send a message to an RTPS endpoint.
#[derive(Clone, Copy, Debug, PartialEq, Eq, Hash)]
pub struct Locator {
    /// -1 invalid, 0 reserved, 1 UDP over IPv4, 2 UDP over IPv6.
    pub kind: i32,
    pub port: u32,
    pub address: [u8; 16],
}

/// Whether all 16 octets of an address are zero (the unspecified address `::`).
pub open spec fn is_unspecified(address: [u8; 16]) -> bool {
    forall|i: int| 0 <= i < 16 ==> address[i] == 0
}

impl Locator {
    pub fn new(kind: LocatorKind, socket_addr: SocketAddress) -> (r: Self)
        ensures
            r.kind == kind_code(kind, socket_addr.ip),
            r.port == socket_addr.port,
            r.address@ == ipv6_octets(socket_addr.ip),
    {
        let code: i32 = match kind {
            LocatorKind::Invalid => -1,
            LocatorKind::Reserved => 0,
            LocatorKind::Udp => match socket_addr.ip {
                IpAddress::V4(_) => 1,
                IpAddress::V6(_) => 2,
            },
        };
        let address: [u8; 16] = match socket_addr.ip {
            IpAddress::V4(o) => [0, 0, 0, 0, 0, 0, 0, 0, 0, 0, 0xff, 0xff, o[0], o[1], o[2], o[3]],
            IpAddress::V6(o) => o,
        };
        proof {
            assert(address@ =~= ipv6_octets(socket_addr.ip));
        }
        Locator { kind: code, port: socket_addr.port as u32, address }
    }

    /// The locator of kind invalid at `[::]:0`.
    pub fn invalid() -> (r: Self)
        ensures
            r.kind == -1,
            r.port == 0,
            is_unspecified(r.address),
    {
        Self::new(LocatorKind::Invalid, SocketAddress { ip: IpAddress::V6([0u8; 16]), port: 0 })
    }

    pub fn kind(&self) -> (r: LocatorKind)
        ensures
            r == (if self.kind == 0 {
                LocatorKind::Reserved
            } else if self.kind == 1 || self.kind == 2 {
                LocatorKind::Udp
            } else {
                LocatorKind::Invalid
            }),
    {
        match self.kind {
            0 => LocatorKind::Reserved,
            1 | 2 => LocatorKind::Udp,
            _ => LocatorKind::Invalid,
        }
    }

    /// The transport address held, as an IPv6 address.
    pub fn socket_addr(&self) -> (r: SocketAddress)
        ensures
            r.ip == IpAddress::V6(self.address),
            r.port == self.port % 0x1_0000,
    {
        SocketAddress { ip: IpAddress::V6(self.address), port: (self.port % 0x1_0000) as u16 }
    }
}

impl Default for Locator {
    /// The UDP locator at `[::]:0`.
    fn default() -> (r: Self)
        ensures
            r.kind == 2,
            r.port == 0,
            is_unspecified(r.address),
    {
        Self::new(LocatorKind::Udp, SocketAddress { ip: IpAddress::V6([0u8; 16]), port: 0 })
    }
}

} // verus!
