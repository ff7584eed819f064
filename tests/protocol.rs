use rtps::{ProtocolVersion, VendorId};

#[test]
fn protocol_version() {
    assert_eq!(ProtocolVersion::default(), ProtocolVersion::current());
    assert!(ProtocolVersion { major: 2, minor: 0 } < ProtocolVersion { major: 2, minor: 2 });
    assert!(ProtocolVersion { major: 1, minor: 2 } < ProtocolVersion { major: 2, minor: 0 });
}

#[test]
fn vendor_id() {
    assert_eq!([0; 2], *VendorId::unknown());
    assert_eq!([0xcf, 0xff], *VendorId::default());
}
