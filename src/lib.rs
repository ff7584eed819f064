//! Wire-level value types of the RTPS protocol: split sequence numbers,
//! range sets of counters, fixed-point time, locators and entity identifiers.

pub mod error;
pub mod sequence_number;
pub mod range_set;
pub mod locator;
pub mod protocol;
pub mod guid;
pub mod time;

pub use error::{Error, ErrorKind};
pub use guid::{EntityId, Guid, GuidPrefix, HostInterface};
pub use locator::{IpAddress, Locator, LocatorKind, SocketAddress};
pub use protocol::{ProtocolVersion, VendorId};
pub use range_set::{FragmentNumber, FragmentNumberSet, SequenceNumberSet};
pub use sequence_number::SequenceNumber;
pub use time::{Duration, Time};
