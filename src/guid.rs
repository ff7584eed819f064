use crate::locator::IpAddress;
use crate::protocol::VendorId;
use vstd::prelude::*;

verus! {

/// A network interface of the host, as far as prefix derivation reads it.
#[derive(Debug)]
pub struct HostInterface {
    pub is_loopback: bool,
    /// The interface's addresses, in the order the host lists them.
    pub addresses: Vec<IpAddress>,
}

/// The pair that stands for the host when no interface address is found.
pub open spec fn fallback_pair() -> (u8, u8) {
    (127u8, 1u8)
}

/// The last two octets of an address, in order.
pub open spec fn low_octets(ip: IpAddress) -> (u8, u8) {
    match ip {
        IpAddress::V4(o) => (o[2], o[3]),
        IpAddress::V6(o) => (o[14], o[15]),
    }
}

/// The host discriminator: the last two octets of the first address of the
/// first interface that is not a loopback, or the fallback pair when there is
/// no such interface or it has no address.
pub open spec fn host_pair(interfaces: Seq<HostInterface>) -> (u8, u8)
    decreases interfaces.len(),
{
    if interfaces.len() == 0 {
        fallback_pair()
    } else if interfaces[0].is_loopback {
        host_pair(interfaces.drop_first())
    } else if interfaces[0].addresses@.len() == 0 {
        fallback_pair()
    } else {
        low_octets(interfaces[0].addresses@[0])
    }
}

/// The four bytes of a 32-bit integer in big-endian order.
pub open spec fn be_bytes(x: i32) -> Seq<u8> {
    let u = x as u32;
    seq![(u >> 24u32) as u8, (u >> 16u32) as u8, (u >> 8u32) as u8, u as u8]
}

/// The prefix derived from a vendor, a host pair, a process id and a
/// participant index: `[vendor(2), host(2), process id(4, big-endian),
/// participant index(4, big-endian)]`.
pub open spec fn prefix_bytes(vendor: Seq<u8>, host: (u8, u8), process_id: i32, participant_id: i32) -> Seq<u8> {
    vendor.add(seq![host.0, host.1]).add(be_bytes(process_id)).add(be_bytes(participant_id))
}

/// The prefix of globally-unique entity identifiers: unique to a participant
/// of a process on a host.
#[derive(Clone, Copy, Debug, PartialEq, Eq, Hash)]
pub struct GuidPrefix(pub [u8; 12]);

fn to_be_bytes(x: i32) -> (r: [u8; 4])
    ensures
        r@ == be_bytes(x),
{
    let u = x as u32;
    let r = [(u >> 24u32) as u8, (u >> 16u32) as u8, (u >> 8u32) as u8, u as u8];
    assert(r@ =~= be_bytes(x));
    r
}

/// The host discriminator of the given interfaces (see `host_pair`).
pub fn host_discriminator(interfaces: &Vec<HostInterface>) -> (r: (u8, u8))
    ensures
        r == host_pair(interfaces@),
{
    let mut i: usize = 0;
    assert(interfaces@.subrange(0, interfaces@.len() as int) =~= interfaces@);
    while i < interfaces.len()
        invariant
            i <= interfaces.len(),
            host_pair(interfaces@) == host_pair(interfaces@.subrange(i as int, interfaces@.len() as int)),
        decreases interfaces.len() - i,
    {
        let ghost rest = interfaces@.subrange(i as int, interfaces@.len() as int);
        assert(rest[0] == interfaces@[i as int]);
        if !interfaces[i].is_loopback {
            if interfaces[i].addresses.len() == 0 {
                return (127, 1);
            }
            return match interfaces[i].addresses[0] {
                IpAddress::V4(o) => (o[2], o[3]),
                IpAddress::V6(o) => (o[14], o[15]),
            };
        }
        assert(rest.drop_first() =~= interfaces@.subrange(i + 1, interfaces@.len() as int));
        i = i + 1;
    }
    (127, 1)
}

impl GuidPrefix {
    /// Derives the prefix of a participant from the default vendor id, the
    /// host discriminator of `interfaces`, the process id and the participant
    /// index.
    pub fn automatic(participant_id: i32, process_id: i32, interfaces: &Vec<HostInterface>) -> (r: Self)
        ensures
            r.0@ == prefix_bytes(seq![0xcfu8, 0xffu8], host_pair(interfaces@), process_id, participant_id),
    {
        let vendor_id = VendorId::default();
        let host = host_discriminator(interfaces);
        let pid = to_be_bytes(process_id);
        let id = to_be_bytes(participant_id);
        let inner = [
            vendor_id.0[0],
            vendor_id.0[1],
            host.0,
            host.1,
            pid[0],
            pid[1],
            pid[2],
            pid[3],
            id[0],
            id[1],
            id[2],
            id[3],
        ];
        assert(inner@ =~= prefix_bytes(vendor_id.0@, host, process_id, participant_id));
        GuidPrefix(inner)
    }

    pub fn unknown() -> (r: Self)
        ensures
            forall|i: int| 0 <= i < 12 ==> r.0[i] == 0,
    {
        GuidPrefix([0u8; 12])
    }
}

impl Default for GuidPrefix {
    fn default() -> (r: Self)
        ensures
            forall|i: int| 0 <= i < 12 ==> r.0[i] == 0,
    {
        Self::unknown()
    }
}

impl core::ops::Deref for GuidPrefix {
    type Target = [u8; 12];

    fn deref(&self) -> (r: &[u8; 12])
        ensures
            *r == self.0,
    {
        &self.0
    }
}

/// The suffix of a globally-unique entity identifier: three entity-specific
/// bytes and a kind tag.
#[derive(Clone, Copy, Debug, PartialEq, Eq, Hash)]
pub struct EntityId(pub [u8; 4]);

impl EntityId {
    pub fn unknown() -> (r: Self)
        ensures
            r.0@ == seq![0u8, 0, 0, 0],
    {
        let r = EntityId([0, 0, 0, 0]);
        assert(r.0@ =~= seq![0u8, 0, 0, 0]);
        r
    }

    pub fn participant() -> (r: Self)
        ensures
            r.0@ == seq![0u8, 0, 1, 0xc1],
    {
        let r = EntityId([0, 0, 1, 0xc1]);
        assert(r.0@ =~= seq![0u8, 0, 1, 0xc1]);
        r
    }

    pub fn sedp_builtin_topic_writer() -> (r: Self)
        ensures
            r.0@ == seq![0u8, 0, 2, 0xc2],
    {
        let r = EntityId([0, 0, 2, 0xc2]);
        assert(r.0@ =~= seq![0u8, 0, 2, 0xc2]);
        r
    }

    pub fn sedp_builtin_topic_reader() -> (r: Self)
        ensures
            r.0@ == seq![0u8, 0, 2, 0xc7],
    {
        let r = EntityId([0, 0, 2, 0xc7]);
        assert(r.0@ =~= seq![0u8, 0, 2, 0xc7]);
        r
    }

    pub fn sedp_builtin_publications_writer() -> (r: Self)
        ensures
            r.0@ == seq![0u8, 0, 3, 0xc2],
    {
        let r = EntityId([0, 0, 3, 0xc2]);
        assert(r.0@ =~= seq![0u8, 0, 3, 0xc2]);
        r
    }

    pub fn sedp_builtin_publications_reader() -> (r: Self)
        ensures
            r.0@ == seq![0u8, 0, 3, 0xc7],
    {
        let r = EntityId([0, 0, 3, 0xc7]);
        assert(r.0@ =~= seq![0u8, 0, 3, 0xc7]);
        r
    }

    pub fn sedp_builtin_subscriptions_writer() -> (r: Self)
        ensures
            r.0@ == seq![0u8, 0, 4, 0xc2],
    {
        let r = EntityId([0, 0, 4, 0xc2]);
        assert(r.0@ =~= seq![0u8, 0, 4, 0xc2]);
        r
    }

    pub fn sedp_builtin_subscriptions_reader() -> (r: Self)
        ensures
            r.0@ == seq![0u8, 0, 4, 0xc7],
    {
        let r = EntityId([0, 0, 4, 0xc7]);
        assert(r.0@ =~= seq![0u8, 0, 4, 0xc7]);
        r
    }

    pub fn sedp_builtin_participant_writer() -> (r: Self)
        ensures
            r.0@ == seq![0u8, 1, 0, 0xc2],
    {
        let r = EntityId([0, 1, 0, 0xc2]);
        assert(r.0@ =~= seq![0u8, 1, 0, 0xc2]);
        r
    }

    pub fn sedp_builtin_participant_reader() -> (r: Self)
        ensures
            r.0@ == seq![0u8, 1, 0, 0xc7],
    {
        let r = EntityId([0, 1, 0, 0xc7]);
        assert(r.0@ =~= seq![0u8, 1, 0, 0xc7]);
        r
    }

    pub fn p2p_builtin_participant_message_writer() -> (r: Self)
        ensures
            r.0@ == seq![0u8, 2, 0, 0xc2],
    {
        let r = EntityId([0, 2, 0, 0xc2]);
        assert(r.0@ =~= seq![0u8, 2, 0, 0xc2]);
        r
    }

    pub fn p2p_builtin_participant_message_reader() -> (r: Self)
        ensures
            r.0@ == seq![0u8, 2, 0, 0xc7],
    {
        let r = EntityId([0, 2, 0, 0xc7]);
        assert(r.0@ =~= seq![0u8, 2, 0, 0xc7]);
        r
    }
}

impl Default for EntityId {
    fn default() -> (r: Self)
        ensures
            r.0@ == seq![0u8, 0, 0, 0],
    {
        Self::unknown()
    }
}

impl core::ops::Deref for EntityId {
    type Target = [u8; 4];

    fn deref(&self) -> (r: &[u8; 4])
        ensures
            *r == self.0,
    {
        &self.0
    }
}

/// A globally-unique identifier of an RTPS entity.
#[derive(Clone, Copy, Debug, PartialEq, Eq, Hash)]
pub struct Guid {
    pub prefix: GuidPrefix,
    pub entity_id: EntityId,
}

impl Guid {
    pub fn unknown() -> (r: Self)
        ensures
            forall|i: int| 0 <= i < 12 ==> r.prefix.0[i] == 0,
            r.entity_id.0@ == seq![0u8, 0, 0, 0],
    {
        Guid { prefix: GuidPrefix::unknown(), entity_id: EntityId::unknown() }
    }

    /// The identifier of a participant: its derived prefix (see
    /// `GuidPrefix::automatic`) with the unknown entity suffix.
    pub fn new(participant_id: i32, process_id: i32, interfaces: &Vec<HostInterface>) -> (r: Self)
        ensures
            r.prefix.0@ == prefix_bytes(seq![0xcfu8, 0xffu8], host_pair(interfaces@), process_id, participant_id),
            r.entity_id.0@ == seq![0u8, 0, 0, 0],
    {
        Guid {
            prefix: GuidPrefix::automatic(participant_id, process_id, interfaces),
            entity_id: EntityId::unknown(),
        }
    }

    pub fn set_entity_of_participant(self) -> (r: Self)
        ensures
            r.prefix == self.prefix,
            r.entity_id.0@ == seq![0u8, 0, 1, 0xc1],
    {
        Guid { prefix: self.prefix, entity_id: EntityId::participant() }
    }

    pub fn set_entity_of_sedp_builtin_topic_writer(self) -> (r: Self)
        ensures
            r.prefix == self.prefix,
            r.entity_id.0@ == seq![0u8, 0, 2, 0xc2],
    {
        Guid { prefix: self.prefix, entity_id: EntityId::sedp_builtin_topic_writer() }
    }

    pub fn set_entity_of_sedp_builtin_topic_reader(self) -> (r: Self)
        ensures
            r.prefix == self.prefix,
            r.entity_id.0@ == seq![0u8, 0, 2, 0xc7],
    {
        Guid { prefix: self.prefix, entity_id: EntityId::sedp_builtin_topic_reader() }
    }

    pub fn set_entity_of_sedp_builtin_publications_writer(self) -> (r: Self)
        ensures
            r.prefix == self.prefix,
            r.entity_id.0@ == seq![0u8, 0, 3, 0xc2],
    {
        Guid { prefix: self.prefix, entity_id: EntityId::sedp_builtin_publications_writer() }
    }

    pub fn set_entity_of_sedp_builtin_publications_reader(self) -> (r: Self)
        ensures
            r.prefix == self.prefix,
            r.entity_id.0@ == seq![0u8, 0, 3, 0xc7],
    {
        Guid { prefix: self.prefix, entity_id: EntityId::sedp_builtin_publications_reader() }
    }

    pub fn set_entity_of_sedp_builtin_subscriptions_writer(self) -> (r: Self)
        ensures
            r.prefix == self.prefix,
            r.entity_id.0@ == seq![0u8, 0, 4, 0xc2],
    {
        Guid { prefix: self.prefix, entity_id: EntityId::sedp_builtin_subscriptions_writer() }
    }

    pub fn set_entity_of_sedp_builtin_subscriptions_reader(self) -> (r: Self)
        ensures
            r.prefix == self.prefix,
            r.entity_id.0@ == seq![0u8, 0, 4, 0xc7],
    {
        Guid { prefix: self.prefix, entity_id: EntityId::sedp_builtin_subscriptions_reader() }
    }

    pub fn set_entity_of_sedp_builtin_participant_writer(self) -> (r: Self)
        ensures
            r.prefix == self.prefix,
            r.entity_id.0@ == seq![0u8, 1, 0, 0xc2],
    {
        Guid { prefix: self.prefix, entity_id: EntityId::sedp_builtin_participant_writer() }
    }

    pub fn set_entity_of_sedp_builtin_participant_reader(self) -> (r: Self)
        ensures
            r.prefix == self.prefix,
            r.entity_id.0@ == seq![0u8, 1, 0, 0xc7],
    {
        Guid { prefix: self.prefix, entity_id: EntityId::sedp_builtin_participant_reader() }
    }

    pub fn set_entity_of_p2p_builtin_participant_message_writer(self) -> (r: Self)
        ensures
            r.prefix == self.prefix,
            r.entity_id.0@ == seq![0u8, 2, 0, 0xc2],
    {
        Guid { prefix: self.prefix, entity_id: EntityId::p2p_builtin_participant_message_writer() }
    }

    pub fn set_entity_of_p2p_builtin_participant_message_reader(self) -> (r: Self)
        ensures
            r.prefix == self.prefix,
            r.entity_id.0@ == seq![0u8, 2, 0, 0xc7],
    {
        Guid { prefix: self.prefix, entity_id: EntityId::p2p_builtin_participant_message_reader() }
    }
}

impl Default for Guid {
    fn default() -> (r: Self)
        ensures
            forall|i: int| 0 <= i < 12 ==> r.prefix.0[i] == 0,
            r.entity_id.0@ == seq![0u8, 0, 0, 0],
    {
        Self::unknown()
    }
}

} // verus!
