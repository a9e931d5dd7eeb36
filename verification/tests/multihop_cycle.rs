use ephemeral_rotation::config::IpAddress;
use ephemeral_rotation::config::IpPrefix;
use ephemeral_rotation::config::Key;
use ephemeral_rotation::config::PeerConfig;
use ephemeral_rotation::config::TunnelConfig;
use ephemeral_rotation::rotation::CycleStep;
use ephemeral_rotation::rotation::NegotiationOutcome;
use ephemeral_rotation::rotation::RotationCycle;
use ephemeral_rotation::rotation::ShapingOutcome;

fn key(b: u8) -> Key {
    Key { bytes: [b; 32] }
}

fn peer(public: u8) -> PeerConfig {
    PeerConfig {
        public_key: key(public),
        allowed_ips: vec![IpPrefix { addr: IpAddress::V4(0), prefix_len: 0 }],
        psk: None,
        constant_packet_size: false,
    }
}

fn multihop_shaping_config() -> TunnelConfig {
    TunnelConfig {
        private_key: key(1),
        ipv4_gateway: 0x0a00_0001,
        mtu: 1380,
        quantum_resistant: true,
        daita: true,
        exit_peer: peer(2),
        entry_peer: Some(peer(3)),
    }
}

#[test]
fn multihop_is_on_with_an_entry_peer() {
    assert!(multihop_shaping_config().is_multihop());
}

#[test]
fn multihop_cycle_with_shaping_runs_two_negotiations_and_two_passes() {
    let config = multihop_shaping_config();
    let mut cycle = RotationCycle::start(config, 0, key(10), key(11));

    // Exit negotiation first. Shaping for the exit hop is governed by the
    // entry leg in multihop, so it is not requested here.
    assert_eq!(cycle.next_step(), CycleStep::Negotiate);
    let exit_request = cycle.negotiation_request();
    assert_eq!(exit_request.gateway, 0x0a00_0001);
    assert!(!exit_request.daita);
    assert!(exit_request.quantum_resistant);
    cycle.on_negotiated(NegotiationOutcome::Completed(Some(key(20))));

    // Intermediate pass: the gateway's host route is appended to the entry
    // peer's allowed ranges; no key material changes yet.
    assert_eq!(cycle.next_step(), CycleStep::Reconfigure);
    let intermediate = cycle.reconfigure_config();
    assert_eq!(intermediate.private_key.bytes, [1; 32]);
    let entry = intermediate.entry_peer.as_ref().unwrap();
    assert_eq!(entry.allowed_ips.len(), 2);
    assert_eq!(
        *entry.allowed_ips.last().unwrap(),
        IpPrefix { addr: IpAddress::V4(0x0a00_0001), prefix_len: 32 }
    );
    assert!(entry.psk.is_none());
    cycle.on_reconfigured(Ok(intermediate.duplicate()));

    // Entry negotiation runs against the configuration the intermediate pass
    // returned, with shaping requested unconditionally.
    assert_eq!(cycle.next_step(), CycleStep::Negotiate);
    let entry_request = cycle.negotiation_request();
    assert_eq!(entry_request.gateway, 0x0a00_0001);
    assert_eq!(entry_request.ephemeral_public_key.bytes, [11; 32]);
    assert!(entry_request.daita);
    cycle.on_negotiated(NegotiationOutcome::Completed(Some(key(21))));

    // Final pass: fresh private key and both pre-shared keys installed
    // together; the entry peer is marked for constant-size packets.
    assert_eq!(cycle.next_step(), CycleStep::Reconfigure);
    let finalized = cycle.reconfigure_config();
    assert_eq!(finalized.private_key.bytes, [10; 32]);
    assert_eq!(finalized.exit_peer.psk.unwrap().bytes, [20; 32]);
    let final_entry = finalized.entry_peer.as_ref().unwrap();
    assert_eq!(final_entry.psk.unwrap().bytes, [21; 32]);
    assert!(final_entry.constant_packet_size);
    cycle.on_reconfigured(Ok(finalized.duplicate()));

    // Shaping starts only after the second pass succeeded.
    assert_eq!(cycle.next_step(), CycleStep::StartShaping);
    cycle.on_shaping(ShapingOutcome::Started);
    assert_eq!(cycle.next_step(), CycleStep::Stop);
    assert_eq!(cycle.negotiation_count, 2);
    assert_eq!(cycle.reconfiguration_count, 2);
    assert!(cycle.into_result().is_ok());
}

#[test]
fn entry_negotiation_uses_the_adjusted_gateway() {
    let mut cycle = RotationCycle::start(multihop_shaping_config(), 0, key(10), key(11));
    cycle.on_negotiated(NegotiationOutcome::Completed(Some(key(20))));
    let mut adjusted = cycle.reconfigure_config();
    adjusted.ipv4_gateway = 0x0a00_0009;
    cycle.on_reconfigured(Ok(adjusted));
    let entry_request = cycle.negotiation_request();
    assert_eq!(entry_request.gateway, 0x0a00_0009);
}
