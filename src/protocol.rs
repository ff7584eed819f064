use core::cmp::Ordering;
use vstd::prelude::*;

verus! {

/// The version of the RTPS protocol.
#[derive(Clone, Copy, Debug, PartialEq, Eq, Structural, Hash, Ord)]
pub struct ProtocolVersion {
    pub major: u8,
    pub minor: u8,
}

impl ProtocolVersion {
    /// Versions are ordered by major number, then by minor number.
    pub open spec fn spec_cmp(self, rhs: ProtocolVersion) -> Ordering {
        if self.major < rhs.major {
            Ordering::Less
        } else if self.major > rhs.major {
            Ordering::Greater
        } else if self.minor < rhs.minor {
            Ordering::Less
        } else if self.minor > rhs.minor {
            Ordering::Greater
        } else {
            Ordering::Equal
        }
    }

    /// The version implemented here, 2.2.
    pub fn current() -> (r: Self)
        ensures
            r.major == 2 && r.minor == 2,
    {
        ProtocolVersion { major: 2, minor: 2 }
    }
}

impl Default for ProtocolVersion {
    fn default() -> (r: Self)
        ensures
            r.major == 2 && r.minor == 2,
    {
        Self::current()
    }
}

impl PartialOrd for ProtocolVersion {
    fn partial_cmp(&self, other: &Self) -> (r: Option<Ordering>)
        ensures
            r == Some(self.spec_cmp(*other)),
    {
        if self.major < other.major {
            Some(Ordering::Less)
        } else if self.major > other.major {
            Some(Ordering::Greater)
        } else if self.minor < other.minor {
            Some(Ordering::Less)
        } else if self.minor > other.minor {
            Some(Ordering::Greater)
        } else {
            Some(Ordering::Equal)
        }
    }
}

impl vstd::std_specs::cmp::PartialOrdSpecImpl for ProtocolVersion {
    open spec fn obeys_partial_cmp_spec() -> bool {
        true
    }

    open spec fn partial_cmp_spec(&self, other: &Self) -> Option<Ordering> {
        Some(self.spec_cmp(*other))
    }
}

/// The vendor of the service implementing the protocol: two opaque bytes.
#[derive(Clone, Copy, Debug, PartialEq, Eq, Hash)]
pub struct VendorId(pub [u8; 2]);

impl VendorId {
    pub fn unknown() -> (r: Self)
        ensures
            r.0@ == seq![0u8, 0u8],
    {
        VendorId([0, 0])
    }
}

impl Default for VendorId {
    /// The placeholder tag used when no registered vendor id is configured.
    fn default() -> (r: Self)
        ensures
            r.0@ == seq![0xcfu8, 0xffu8],
    {
        VendorId([0xcf, 0xff])
    }
}

impl core::ops::Deref for VendorId {
    type Target = [u8; 2];

    fn deref(&self) -> (r: &[u8; 2])
        ensures
            *r == self.0,
    {
        &self.0
    }
}

} // verus!
