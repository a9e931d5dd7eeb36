use ephemeral_rotation::config::IpAddress;
use ephemeral_rotation::config::IpPrefix;
use ephemeral_rotation::config::Key;
use ephemeral_rotation::config::PeerConfig;
use ephemeral_rotation::config::RotationError;
use ephemeral_rotation::config::TunnelConfig;
use ephemeral_rotation::mtu::negotiation_mtu;
use ephemeral_rotation::mtu::restored_mtu;
use ephemeral_rotation::rotation::CycleStep;
use ephemeral_rotation::rotation::NegotiationOutcome;
use ephemeral_rotation::rotation::RotationCycle;
use ephemeral_rotation::rotation::ShapingOutcome;

fn key(b: u8) -> Key {
    Key { bytes: [b; 32] }
}

fn peer(public: u8) -> PeerConfig {
    PeerConfig {
        public_key: key(public),
        allowed_ips: vec![IpPrefix { addr: IpAddress::V4(0), prefix_len: 0 }],
        psk: None,
        constant_packet_size: false,
    }
}

fn config(entry: Option<PeerConfig>, daita: bool) -> TunnelConfig {
    TunnelConfig {
        private_key: key(1),
        ipv4_gateway: 0x0a00_0001,
        mtu: 1380,
        quantum_resistant: true,
        daita,
        exit_peer: peer(2),
        entry_peer: entry,
    }
}

#[test]
fn negotiation_timeout_ends_the_cycle_before_any_reconfiguration() {
    let mut cycle = RotationCycle::start(config(None, false), 4, key(10), key(11));
    assert_eq!(cycle.negotiation_request().timeout_secs, 48);
    cycle.on_negotiated(NegotiationOutcome::TimedOut);
    assert_eq!(cycle.next_step(), CycleStep::Stop);
    assert_eq!(cycle.reconfiguration_count, 0);
    assert!(matches!(
        cycle.into_result(),
        Err(RotationError::NegotiationTimeout)
    ));
}

#[test]
fn negotiation_protocol_failure_is_surfaced_verbatim() {
    let mut cycle = RotationCycle::start(config(None, false), 0, key(10), key(11));
    cycle.on_negotiated(NegotiationOutcome::Failed);
    assert_eq!(cycle.next_step(), CycleStep::Stop);
    assert!(matches!(
        cycle.into_result(),
        Err(RotationError::NegotiationError)
    ));
}

#[test]
fn entry_negotiation_timeout_leaves_the_intermediate_pass_as_the_last_one() {
    let mut cycle = RotationCycle::start(config(Some(peer(3)), false), 0, key(10), key(11));
    cycle.on_negotiated(NegotiationOutcome::Completed(Some(key(20))));
    let intermediate = cycle.reconfigure_config();
    cycle.on_reconfigured(Ok(intermediate));
    cycle.on_negotiated(NegotiationOutcome::TimedOut);
    assert_eq!(cycle.next_step(), CycleStep::Stop);
    assert_eq!(cycle.negotiation_count, 2);
    assert_eq!(cycle.reconfiguration_count, 1);
    assert!(matches!(
        cycle.into_result(),
        Err(RotationError::NegotiationTimeout)
    ));
}

#[test]
fn failed_intermediate_pass_ends_the_cycle() {
    let mut cycle = RotationCycle::start(config(Some(peer(3)), false), 0, key(10), key(11));
    cycle.on_negotiated(NegotiationOutcome::Completed(Some(key(20))));
    cycle.on_reconfigured(Err(RotationError::ObfuscationSetupFailure));
    assert_eq!(cycle.next_step(), CycleStep::Stop);
    assert!(matches!(
        cycle.into_result(),
        Err(RotationError::ObfuscationSetupFailure)
    ));
}

#[test]
fn failed_final_pass_ends_the_cycle() {
    let mut cycle = RotationCycle::start(config(None, false), 0, key(10), key(11));
    cycle.on_negotiated(NegotiationOutcome::Completed(Some(key(20))));
    cycle.on_reconfigured(Err(RotationError::TunnelSetupFailure));
    assert!(matches!(
        cycle.into_result(),
        Err(RotationError::TunnelSetupFailure)
    ));
}

#[test]
fn shaping_without_a_tunnel_is_a_setup_failure() {
    let mut cycle = RotationCycle::start(config(None, true), 0, key(10), key(11));
    cycle.on_negotiated(NegotiationOutcome::Completed(Some(key(20))));
    let finalized = cycle.reconfigure_config();
    assert!(finalized.exit_peer.constant_packet_size);
    cycle.on_reconfigured(Ok(finalized));
    assert_eq!(cycle.next_step(), CycleStep::StartShaping);
    cycle.on_shaping(ShapingOutcome::NoTunnel);
    assert!(matches!(
        cycle.into_result(),
        Err(RotationError::TunnelSetupFailure)
    ));
}

#[test]
fn rejected_shaping_is_a_setup_failure() {
    let mut cycle = RotationCycle::start(config(None, true), 0, key(10), key(11));
    cycle.on_negotiated(NegotiationOutcome::Completed(None));
    let finalized = cycle.reconfigure_config();
    cycle.on_reconfigured(Ok(finalized));
    cycle.on_shaping(ShapingOutcome::Rejected);
    assert!(matches!(
        cycle.into_result(),
        Err(RotationError::TunnelSetupFailure)
    ));
}

#[test]
fn mtu_is_lowered_for_negotiation_and_restored_from_the_configuration() {
    assert_eq!(negotiation_mtu(), 576);
    let config = config(None, false);
    assert_eq!(restored_mtu(&config), 1380);
}
