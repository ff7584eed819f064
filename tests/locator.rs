use rtps::{IpAddress, Locator, LocatorKind, SocketAddress};

#[test]
fn locator() {
    assert_eq!(LocatorKind::Invalid, Locator::invalid().kind());
    assert_eq!(
        SocketAddress {
            ip: IpAddress::V6([0; 16]),
            port: 0
        },
        Locator::invalid().socket_addr()
    );
}

#[test]
fn locator_maps_ipv4() {
    let l = Locator::new(
        LocatorKind::Udp,
        SocketAddress {
            ip: IpAddress::V4([192, 168, 1, 20]),
            port: 7400,
        },
    );
    assert_eq!(1, l.kind);
    assert_eq!(7400, l.port);
    assert_eq!(
        [0, 0, 0, 0, 0, 0, 0, 0, 0, 0, 0xff, 0xff, 192, 168, 1, 20],
        l.address
    );
    assert_eq!(LocatorKind::Udp, l.kind());
    let mut mapped = [0u8; 16];
    mapped[10] = 0xff;
    mapped[11] = 0xff;
    mapped[12..].copy_from_slice(&[192, 168, 1, 20]);
    assert_eq!(
        SocketAddress {
            ip: IpAddress::V6(mapped),
            port: 7400
        },
        l.socket_addr()
    );
}

#[test]
fn locator_kinds() {
    let v6 = SocketAddress {
        ip: IpAddress::V6([1; 16]),
        port: 1,
    };
    assert_eq!(2, Locator::new(LocatorKind::Udp, v6).kind);
    assert_eq!(0, Locator::new(LocatorKind::Reserved, v6).kind);
    assert_eq!(LocatorKind::Reserved, Locator::new(LocatorKind::Reserved, v6).kind());
    assert_eq!(-1, Locator::new(LocatorKind::Invalid, v6).kind);
    assert_eq!(2, Locator::default().kind);
    assert_eq!([0u8; 16], Locator::default().address);
    let odd = Locator {
        kind: 7,
        port: 0,
        address: [0; 16],
    };
    assert_eq!(LocatorKind::Invalid, odd.kind());
}
