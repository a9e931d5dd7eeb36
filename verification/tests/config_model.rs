use ephemeral_rotation::config::intermediate_config;
use ephemeral_rotation::config::finalized_config;
use ephemeral_rotation::config::IpAddress;
use ephemeral_rotation::config::IpPrefix;
use ephemeral_rotation::config::Key;
use ephemeral_rotation::config::PeerConfig;
use ephemeral_rotation::config::TunnelConfig;

fn key(b: u8) -> Key {
    Key { bytes: [b; 32] }
}

fn peer(public: u8) -> PeerConfig {
    PeerConfig {
        public_key: key(public),
        allowed_ips: vec![IpPrefix { addr: IpAddress::V6(1), prefix_len: 128 }],
        psk: None,
        constant_packet_size: false,
    }
}

fn multihop_config() -> TunnelConfig {
    TunnelConfig {
        private_key: key(1),
        ipv4_gateway: 0x0102_0304,
        mtu: 1280,
        quantum_resistant: false,
        daita: false,
        exit_peer: peer(2),
        entry_peer: Some(peer(3)),
    }
}

#[test]
fn well_formed_prefixes_are_accepted() {
    assert!(IpPrefix { addr: IpAddress::V4(0), prefix_len: 32 }.is_well_formed());
    assert!(IpPrefix { addr: IpAddress::V6(0), prefix_len: 128 }.is_well_formed());
    assert!(multihop_config().is_well_formed());
}

#[test]
fn overlong_prefixes_are_rejected() {
    assert!(!IpPrefix { addr: IpAddress::V4(0), prefix_len: 33 }.is_well_formed());
    assert!(!IpPrefix { addr: IpAddress::V6(0), prefix_len: 129 }.is_well_formed());
    let mut config = multihop_config();
    config.exit_peer.allowed_ips.push(IpPrefix { addr: IpAddress::V4(0), prefix_len: 200 });
    assert!(!config.is_well_formed());
}

#[test]
fn entry_allowed_set_can_usually_grow() {
    assert!(multihop_config().entry_allowed_can_grow());
    let single_hop = TunnelConfig { entry_peer: None, ..multihop_config() };
    assert!(single_hop.entry_allowed_can_grow());
}

#[test]
fn duplicate_copies_every_field() {
    let config = multihop_config();
    let copy = config.duplicate();
    assert_eq!(copy.private_key.bytes, config.private_key.bytes);
    assert_eq!(copy.ipv4_gateway, config.ipv4_gateway);
    assert_eq!(copy.mtu, config.mtu);
    assert_eq!(copy.quantum_resistant, config.quantum_resistant);
    assert_eq!(copy.daita, config.daita);
    assert_eq!(copy.exit_peer.allowed_ips, config.exit_peer.allowed_ips);
    assert_eq!(
        copy.entry_peer.as_ref().unwrap().public_key.bytes,
        config.entry_peer.as_ref().unwrap().public_key.bytes
    );
}

#[test]
fn intermediate_configuration_only_extends_the_entry_allowed_set() {
    let config = multihop_config();
    let intermediate = intermediate_config(&config);
    assert_eq!(intermediate.private_key.bytes, [1; 32]);
    assert_eq!(intermediate.exit_peer.allowed_ips, config.exit_peer.allowed_ips);
    let entry = intermediate.entry_peer.as_ref().unwrap();
    assert_eq!(entry.allowed_ips.len(), 2);
    assert_eq!(entry.allowed_ips[0], config.entry_peer.as_ref().unwrap().allowed_ips[0]);
    assert_eq!(
        entry.allowed_ips[1],
        IpPrefix { addr: IpAddress::V4(0x0102_0304), prefix_len: 32 }
    );
    assert!(entry.psk.is_none());
}

#[test]
fn finalized_configuration_installs_the_round_keys_together() {
    let config = multihop_config();
    let finalized = finalized_config(&config, &key(10), Some(key(20)), Some(key(21)));
    assert_eq!(finalized.private_key.bytes, [10; 32]);
    assert_eq!(finalized.exit_peer.psk.unwrap().bytes, [20; 32]);
    assert_eq!(finalized.entry_peer.as_ref().unwrap().psk.unwrap().bytes, [21; 32]);
    assert!(!finalized.exit_peer.constant_packet_size);
    assert!(!finalized.entry_peer.as_ref().unwrap().constant_packet_size);
}

#[test]
fn finalized_single_hop_with_shaping_marks_the_only_peer() {
    let mut config = multihop_config();
    config.entry_peer = None;
    config.daita = true;
    let finalized = finalized_config(&config, &key(10), Some(key(20)), None);
    assert!(finalized.exit_peer.constant_packet_size);
    assert!(finalized.entry_peer.is_none());
}
