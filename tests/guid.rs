use rtps::{EntityId, Guid, GuidPrefix, HostInterface, IpAddress, VendorId};

#[test]
fn guid() {
    assert_eq!(
        Guid {
            prefix: GuidPrefix::unknown(),
            entity_id: EntityId::unknown(),
        },
        Guid::unknown()
    );
}

#[test]
fn guid_prefix() {
    assert_eq!([0; 12], *GuidPrefix::unknown());

    let id = 0x12345678i32;
    let pid = 0x0a0b0c0di32;
    let prefix = GuidPrefix::automatic(id, pid, &vec![]);
    assert_eq!(prefix[0], VendorId::default()[0]);
    assert_eq!(prefix[1], VendorId::default()[1]);
    assert_eq!(prefix[4], pid.to_be() as u8);
    assert_eq!(prefix[5], (pid.to_be() >> 8) as u8);
    assert_eq!(prefix[6], (pid.to_be() >> 16) as u8);
    assert_eq!(prefix[7], (pid.to_be() >> 24) as u8);
    assert_eq!(prefix[8], id.to_be() as u8);
    assert_eq!(prefix[9], (id.to_be() >> 8) as u8);
    assert_eq!(prefix[10], (id.to_be() >> 16) as u8);
    assert_eq!(prefix[11], (id.to_be() >> 24) as u8);
}

#[test]
fn guid_prefix_layout() {
    let interfaces = vec![
        HostInterface {
            is_loopback: true,
            addresses: vec![IpAddress::V4([127, 0, 0, 1])],
        },
        HostInterface {
            is_loopback: false,
            addresses: vec![IpAddress::V4([192, 168, 7, 42]), IpAddress::V4([10, 0, 0, 9])],
        },
    ];
    let prefix = GuidPrefix::automatic(-2, 0x01020304, &interfaces);
    assert_eq!(
        [0xcf, 0xff, 7, 42, 1, 2, 3, 4, 0xff, 0xff, 0xff, 0xfe],
        *prefix
    );
}

#[test]
fn guid_prefix_host_fallbacks() {
    let loopback_only = vec![HostInterface {
        is_loopback: true,
        addresses: vec![IpAddress::V4([127, 0, 0, 1])],
    }];
    assert_eq!([127, 1], GuidPrefix::automatic(0, 0, &loopback_only)[2..4]);
    let no_address = vec![
        HostInterface {
            is_loopback: false,
            addresses: vec![],
        },
        HostInterface {
            is_loopback: false,
            addresses: vec![IpAddress::V4([1, 2, 3, 4])],
        },
    ];
    assert_eq!([127, 1], GuidPrefix::automatic(0, 0, &no_address)[2..4]);
    let mut v6 = [0u8; 16];
    v6[14] = 0xab;
    v6[15] = 0xcd;
    let ipv6 = vec![HostInterface {
        is_loopback: false,
        addresses: vec![IpAddress::V6(v6)],
    }];
    assert_eq!([0xab, 0xcd], GuidPrefix::automatic(0, 0, &ipv6)[2..4]);
}

#[test]
fn guid_new_has_unknown_entity() {
    let guid = Guid::new(1, 77, &vec![]);
    assert_eq!(GuidPrefix::automatic(1, 77, &vec![]), guid.prefix);
    assert_eq!(EntityId::unknown(), guid.entity_id);
    assert_eq!(Guid::unknown(), Guid::default());
}

#[test]
fn entity_id() {
    assert_eq!([0; 4], *EntityId::unknown());
    assert_eq!(*EntityId::unknown(), *EntityId::default());
    assert_eq!([0, 0, 1, 0xc1], *EntityId::participant());
    assert_eq!([0, 0, 2, 0xc2], *EntityId::sedp_builtin_topic_writer());
    assert_eq!([0, 0, 2, 0xc7], *EntityId::sedp_builtin_topic_reader());
    assert_eq!(
        [0, 0, 3, 0xc2],
        *EntityId::sedp_builtin_publications_writer()
    );
    assert_eq!(
        [0, 0, 3, 0xc7],
        *EntityId::sedp_builtin_publications_reader()
    );
    assert_eq!(
        [0, 0, 4, 0xc2],
        *EntityId::sedp_builtin_subscriptions_writer()
    );
    assert_eq!(
        [0, 0, 4, 0xc7],
        *EntityId::sedp_builtin_subscriptions_reader()
    );
    assert_eq!(
        [0, 1, 0, 0xc2],
        *EntityId::sedp_builtin_participant_writer()
    );
    assert_eq!(
        [0, 1, 0, 0xc7],
        *EntityId::sedp_builtin_participant_reader()
    );
    assert_eq!(
        [0, 2, 0, 0xc2],
        *EntityId::p2p_builtin_participant_message_writer()
    );
    assert_eq!(
        [0, 2, 0, 0xc7],
        *EntityId::p2p_builtin_participant_message_reader()
    );
}

#[test]
fn guid_well_known_suffixes_keep_prefix() {
    let base = Guid {
        prefix: GuidPrefix([1, 2, 3, 4, 5, 6, 7, 8, 9, 10, 11, 12]),
        entity_id: EntityId([9, 9, 9, 9]),
    };
    let cases: Vec<(Guid, [u8; 4])> = vec![
        (base.set_entity_of_participant(), [0, 0, 1, 0xc1]),
        (base.set_entity_of_sedp_builtin_topic_writer(), [0, 0, 2, 0xc2]),
        (base.set_entity_of_sedp_builtin_topic_reader(), [0, 0, 2, 0xc7]),
        (base.set_entity_of_sedp_builtin_publications_writer(), [0, 0, 3, 0xc2]),
        (base.set_entity_of_sedp_builtin_publications_reader(), [0, 0, 3, 0xc7]),
        (base.set_entity_of_sedp_builtin_subscriptions_writer(), [0, 0, 4, 0xc2]),
        (base.set_entity_of_sedp_builtin_subscriptions_reader(), [0, 0, 4, 0xc7]),
        (base.set_entity_of_sedp_builtin_participant_writer(), [0, 1, 0, 0xc2]),
        (base.set_entity_of_sedp_builtin_participant_reader(), [0, 1, 0, 0xc7]),
        (base.set_entity_of_p2p_builtin_participant_message_writer(), [0, 2, 0, 0xc2]),
        (base.set_entity_of_p2p_builtin_participant_message_reader(), [0, 2, 0, 0xc7]),
    ];
    for (guid, suffix) in cases {
        assert_eq!(base.prefix, guid.prefix);
        assert_eq!(suffix, *guid.entity_id);
    }
}
