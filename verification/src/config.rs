//! Tunnel configuration model.
//!
//! A tunnel carries its own ephemeral identity (a private key), a gateway
//! address, an MTU, two behaviour flags (quantum resistance and traffic
//! shaping), and up to two peers: an exit peer that is always present and an
//! entry peer that is present exactly when multihop routing is active.

use vstd::prelude::*;

verus! {

/// Raw key material: a private key, a public key, or a pre-shared key, as
/// its 32 raw bytes.
#[derive(Clone, Copy)]
pub struct Key {
    pub bytes: [u8; 32],
}

/// An IP address, either family.
#[derive(Clone, Copy, PartialEq, Eq, Structural, Debug)]
pub enum IpAddress {
    V4(u32),
    V6(u128),
}

/// A range of addresses: a base address and a prefix length.
#[derive(Clone, Copy, PartialEq, Eq, Structural, Debug)]
pub struct IpPrefix {
    pub addr: IpAddress,
    pub prefix_len: u8,
}

impl IpPrefix {
    /// The prefix length fits the address family.
    pub open spec fn wf(self) -> bool {
        match self.addr {
            IpAddress::V4(_) => self.prefix_len <= 32,
            IpAddress::V6(_) => self.prefix_len <= 128,
        }
    }

    /// Whether the prefix length fits the address family.
    pub fn is_well_formed(&self) -> (b: bool)
        ensures
            b == self.wf(),
    {
        match self.addr {
            IpAddress::V4(_) => self.prefix_len <= 32,
            IpAddress::V6(_) => self.prefix_len <= 128,
        }
    }
}

/// The host route that covers exactly one IPv4 address.
pub open spec fn gateway_prefix(gateway: u32) -> IpPrefix {
    IpPrefix { addr: IpAddress::V4(gateway), prefix_len: 32 }
}

/// One peer of the tunnel: its public key, the address ranges whose traffic
/// it is allowed to carry, an optional pre-shared key, and a flag that asks
/// the tunnel to pad every packet to a constant size when traffic shaping is
/// active.
pub struct PeerConfig {
    pub public_key: Key,
    pub allowed_ips: Vec<IpPrefix>,
    pub psk: Option<Key>,
    pub constant_packet_size: bool,
}

impl PeerConfig {
    /// Every allowed range fits its address family.
    pub open spec fn wf(self) -> bool {
        forall|i: int|
            0 <= i < self.allowed_ips@.len() ==> (#[trigger] self.allowed_ips@[i]).wf()
    }

    /// Whether every allowed range fits its address family.
    pub fn is_well_formed(&self) -> (b: bool)
        ensures
            b == self.wf(),
    {
        let mut i: usize = 0;
        while i < self.allowed_ips.len()
            invariant
                i <= self.allowed_ips.len(),
                forall|j: int| 0 <= j < i ==> (#[trigger] self.allowed_ips@[j]).wf(),
            decreases self.allowed_ips.len() - i,
        {
            if !self.allowed_ips[i].is_well_formed() {
                return false;
            }
            i = i + 1;
        }
        true
    }
}

/// `a` and `b` hold the same peer data, with the allowed ranges compared by
/// content.
pub open spec fn peer_like(a: PeerConfig, b: PeerConfig) -> bool {
    &&& a.public_key == b.public_key
    &&& a.allowed_ips@ == b.allowed_ips@
    &&& a.psk == b.psk
    &&& a.constant_packet_size == b.constant_packet_size
}

/// `a` and `b` are both absent, or hold the same peer data.
pub open spec fn entry_like(a: Option<PeerConfig>, b: Option<PeerConfig>) -> bool {
    match (a, b) {
        (Option::None, Option::None) => true,
        (Option::Some(x), Option::Some(y)) => peer_like(x, y),
        _ => false,
    }
}

/// The whole configuration of one tunnel.
pub struct TunnelConfig {
    /// The tunnel's own ephemeral identity.
    pub private_key: Key,
    /// Address of the gateway the negotiation transport talks to.
    pub ipv4_gateway: u32,
    /// MTU the tunnel interface should carry outside negotiation.
    pub mtu: u16,
    /// Whether negotiation must produce quantum-resistant key material.
    pub quantum_resistant: bool,
    /// Whether traffic shaping is desired.
    pub daita: bool,
    /// The exit peer; always present.
    pub exit_peer: PeerConfig,
    /// The entry peer; present exactly when multihop routing is active.
    pub entry_peer: Option<PeerConfig>,
}

impl TunnelConfig {
    /// Both peers are well formed.
    pub open spec fn wf(self) -> bool {
        &&& self.exit_peer.wf()
        &&& (self.entry_peer matches Option::Some(p) ==> p.wf())
    }

    /// The entry peer's allowed set can still grow by one range.
    pub open spec fn entry_can_grow(self) -> bool {
        self.entry_peer matches Option::Some(p) ==> p.allowed_ips@.len() < usize::MAX
    }

    /// Multihop routing is active exactly when an entry peer is present.
    pub open spec fn spec_is_multihop(self) -> bool {
        self.entry_peer is Some
    }

    /// Whether multihop routing is active: true iff an entry peer is present.
    pub fn is_multihop(&self) -> (r: bool)
        ensures
            r == self.spec_is_multihop(),
    {
        self.entry_peer.is_some()
    }

    /// Whether both peers are well formed.
    pub fn is_well_formed(&self) -> (b: bool)
        ensures
            b == self.wf(),
    {
        if !self.exit_peer.is_well_formed() {
            return false;
        }
        match &self.entry_peer {
            Option::Some(p) => p.is_well_formed(),
            Option::None => true,
        }
    }

    /// Whether the entry peer's allowed set can still grow by one range.
    pub fn entry_allowed_can_grow(&self) -> (b: bool)
        ensures
            b == self.entry_can_grow(),
    {
        match &self.entry_peer {
            Option::Some(p) => p.allowed_ips.len() < usize::MAX,
            Option::None => true,
        }
    }
}

/// `a` and `b` hold the same configuration data, peers compared by content.
pub open spec fn config_like(a: TunnelConfig, b: TunnelConfig) -> bool {
    &&& a.private_key == b.private_key
    &&& a.ipv4_gateway == b.ipv4_gateway
    &&& a.mtu == b.mtu
    &&& a.quantum_resistant == b.quantum_resistant
    &&& a.daita == b.daita
    &&& peer_like(a.exit_peer, b.exit_peer)
    &&& entry_like(a.entry_peer, b.entry_peer)
}

/// Configurations with the same data are well formed together.
pub proof fn lemma_config_like_wf(a: TunnelConfig, b: TunnelConfig)
    requires
        config_like(a, b),
        b.wf(),
    ensures
        a.wf(),
{
}

fn dup_prefixes(v: &Vec<IpPrefix>) -> (r: Vec<IpPrefix>)
    ensures
        r@ == v@,
{
    let mut r: Vec<IpPrefix> = Vec::new();
    let mut i: usize = 0;
    while i < v.len()
        invariant
            i <= v.len(),
            r@ == v@.subrange(0, i as int),
        decreases v.len() - i,
    {
        r.push(v[i]);
        proof {
            assert(r@ =~= v@.subrange(0, i + 1 as int));
        }
        i = i + 1;
    }
    proof {
        assert(r@ =~= v@);
    }
    r
}

fn dup_peer(p: &PeerConfig) -> (r: PeerConfig)
    ensures
        peer_like(r, *p),
{
    PeerConfig {
        public_key: p.public_key,
        allowed_ips: dup_prefixes(&p.allowed_ips),
        psk: p.psk,
        constant_packet_size: p.constant_packet_size,
    }
}

fn dup_entry(p: &Option<PeerConfig>) -> (r: Option<PeerConfig>)
    ensures
        entry_like(r, *p),
{
    match p {
        Option::Some(peer) => Option::Some(dup_peer(peer)),
        Option::None => Option::None,
    }
}

impl TunnelConfig {
    /// A copy of this configuration that holds the same data.
    pub fn duplicate(&self) -> (r: TunnelConfig)
        ensures
            config_like(r, *self),
    {
        TunnelConfig {
            private_key: self.private_key,
            ipv4_gateway: self.ipv4_gateway,
            mtu: self.mtu,
            quantum_resistant: self.quantum_resistant,
            daita: self.daita,
            exit_peer: dup_peer(&self.exit_peer),
            entry_peer: dup_entry(&self.entry_peer),
        }
    }
}

/// `r` is `cfg` with the gateway's host route appended to the entry peer's
/// allowed ranges and nothing else changed; both hold an entry peer.
pub open spec fn is_intermediate_config(r: TunnelConfig, cfg: TunnelConfig) -> bool {
    &&& cfg.entry_peer is Some
    &&& r.entry_peer is Some
    &&& r.private_key == cfg.private_key
    &&& r.ipv4_gateway == cfg.ipv4_gateway
    &&& r.mtu == cfg.mtu
    &&& r.quantum_resistant == cfg.quantum_resistant
    &&& r.daita == cfg.daita
    &&& peer_like(r.exit_peer, cfg.exit_peer)
    &&& r.entry_peer->Some_0.public_key == cfg.entry_peer->Some_0.public_key
    &&& r.entry_peer->Some_0.psk == cfg.entry_peer->Some_0.psk
    &&& r.entry_peer->Some_0.constant_packet_size == cfg.entry_peer->Some_0.constant_packet_size
    &&& r.entry_peer->Some_0.allowed_ips@ == cfg.entry_peer->Some_0.allowed_ips@.push(
        gateway_prefix(cfg.ipv4_gateway),
    )
}

/// A copy of `cfg` whose entry peer's allowed ranges additionally cover the
/// gateway address, so that after reconfiguring to it the gateway stays
/// reachable for the entry-peer exchange.
pub fn intermediate_config(cfg: &TunnelConfig) -> (r: TunnelConfig)
    requires
        cfg.wf(),
        cfg.spec_is_multihop(),
        cfg.entry_can_grow(),
    ensures
        is_intermediate_config(r, *cfg),
        r.wf(),
{
    let mut r = cfg.duplicate();
    proof {
        lemma_config_like_wf(r, *cfg);
    }
    match &mut r.entry_peer {
        Option::Some(entry) => {
            entry.allowed_ips.push(
                IpPrefix { addr: IpAddress::V4(cfg.ipv4_gateway), prefix_len: 32 },
            );
        },
        Option::None => {
            proof {
                assert(false);
            }
        },
    }
    r
}

/// `r` is `cfg` finalized for one negotiation round: the fresh private key is
/// installed, the exit peer carries the exit round's pre-shared key, the
/// entry peer (when present) carries the entry round's pre-shared key, and
/// when traffic shaping is desired the outward-facing peer is marked for
/// constant-size packets.
pub open spec fn is_finalized_config(
    r: TunnelConfig,
    cfg: TunnelConfig,
    eph_private: Key,
    exit_psk: Option<Key>,
    entry_psk: Option<Key>,
) -> bool {
    &&& r.private_key == eph_private
    &&& r.ipv4_gateway == cfg.ipv4_gateway
    &&& r.mtu == cfg.mtu
    &&& r.quantum_resistant == cfg.quantum_resistant
    &&& r.daita == cfg.daita
    &&& r.exit_peer.public_key == cfg.exit_peer.public_key
    &&& r.exit_peer.allowed_ips@ == cfg.exit_peer.allowed_ips@
    &&& r.exit_peer.psk == exit_psk
    &&& r.exit_peer.constant_packet_size == (cfg.exit_peer.constant_packet_size || (cfg.daita
        && cfg.entry_peer is None))
    &&& (match (cfg.entry_peer, r.entry_peer) {
        (Option::None, Option::None) => true,
        (Option::Some(e), Option::Some(re)) => {
            &&& re.public_key == e.public_key
            &&& re.allowed_ips@ == e.allowed_ips@
            &&& re.psk == entry_psk
            &&& re.constant_packet_size == (e.constant_packet_size || cfg.daita)
        },
        _ => false,
    })
}

/// Builds the finalized configuration of one negotiation round from the
/// configuration the round started from, the fresh private key, and the
/// pre-shared keys the round produced.
pub fn finalized_config(
    cfg: &TunnelConfig,
    eph_private: &Key,
    exit_psk: Option<Key>,
    entry_psk: Option<Key>,
) -> (r: TunnelConfig)
    requires
        cfg.wf(),
    ensures
        is_finalized_config(r, *cfg, *eph_private, exit_psk, entry_psk),
        r.wf(),
{
    let multihop = cfg.is_multihop();
    let exit_peer = PeerConfig {
        public_key: cfg.exit_peer.public_key,
        allowed_ips: dup_prefixes(&cfg.exit_peer.allowed_ips),
        psk: exit_psk,
        constant_packet_size: cfg.exit_peer.constant_packet_size || (cfg.daita && !multihop),
    };
    let entry_peer = match &cfg.entry_peer {
        Option::Some(e) => Option::Some(
            PeerConfig {
                public_key: e.public_key,
                allowed_ips: dup_prefixes(&e.allowed_ips),
                psk: entry_psk,
                constant_packet_size: e.constant_packet_size || cfg.daita,
            },
        ),
        Option::None => Option::None,
    };
    TunnelConfig {
        private_key: *eph_private,
        ipv4_gateway: cfg.ipv4_gateway,
        mtu: cfg.mtu,
        quantum_resistant: cfg.quantum_resistant,
        daita: cfg.daita,
        exit_peer,
        entry_peer,
    }
}

/// Law: a reconfiguration pass never mixes key material from two rotation
/// rounds. The intermediate pass keeps the previous round's private key and
/// pre-shared keys untouched, and the finalized pass installs the fresh
/// private key together with exactly the pre-shared keys negotiated in the
/// same cycle.
pub proof fn lemma_atomic_key_psk_pairing(
    inter: TunnelConfig,
    fin: TunnelConfig,
    cfg: TunnelConfig,
    eph_private: Key,
    exit_psk: Option<Key>,
    entry_psk: Option<Key>,
)
    requires
        is_intermediate_config(inter, cfg),
        is_finalized_config(fin, cfg, eph_private, exit_psk, entry_psk),
    ensures
        inter.private_key == cfg.private_key,
        inter.exit_peer.psk == cfg.exit_peer.psk,
        inter.entry_peer->Some_0.psk == cfg.entry_peer->Some_0.psk,
        fin.private_key == eph_private,
        fin.exit_peer.psk == exit_psk,
        cfg.entry_peer is Some ==> fin.entry_peer->Some_0.psk == entry_psk,
{
}

/// How one rotation cycle can fail. Every failure ends the cycle; the caller
/// decides whether to retry with a fresh cycle or to tear the tunnel down.
#[derive(Clone, Copy, PartialEq, Eq, Structural, Debug)]
pub enum RotationError {
    /// The bounded peer exchange did not complete before its deadline.
    NegotiationTimeout,
    /// The peer exchange protocol itself reported failure.
    NegotiationError,
    /// Applying a configuration to the live tunnel, or starting its traffic
    /// shaping, failed.
    TunnelSetupFailure,
    /// Rebuilding the obfuscation transport for a new configuration failed.
    ObfuscationSetupFailure,
}

} // verus!
