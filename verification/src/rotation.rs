//! Ephemeral rotation orchestrator.
//!
//! One cycle replaces the tunnel's key material with freshly negotiated,
//! short-lived keys: it starts from a fresh ephemeral identity, negotiates a
//! pre-shared key with the exit peer, and — when multihop routing is active —
//! first reconfigures the tunnel to an intermediate configuration that keeps
//! the gateway reachable and then negotiates with the entry peer as well.
//! The results are stitched into a finalized configuration, applied in one
//! last reconfiguration pass, and, when traffic shaping is desired, the live
//! tunnel is told to start its shaping machinery.
//!
//! The cycle is a state machine: the surrounding process asks for the next
//! step, performs the negotiation or reconfiguration it names, and feeds the
//! outcome back. Every failure ends the cycle at once; nothing is retried
//! here, and no partial key material is ever placed into a configuration that
//! the tunnel is asked to apply.

use vstd::pervasive::unreached;
use vstd::prelude::*;

use crate::config::Key;
use crate::config::RotationError;
use crate::config::TunnelConfig;
use crate::config::finalized_config;
use crate::config::intermediate_config;
use crate::config::is_finalized_config;
use crate::config::is_intermediate_config;
use crate::timeout::psk_exchange_timeout_secs;
use crate::timeout::psk_exchange_timeout_spec;

verus! {

/// What one cycle asks the surrounding process to do next.
#[derive(Clone, Copy, PartialEq, Eq, Structural, Debug)]
pub enum CycleStep {
    /// Run one bounded peer exchange as described by `negotiation_request`.
    Negotiate,
    /// Run one reconfiguration pass on the configuration from
    /// `reconfigure_config`.
    Reconfigure,
    /// Tell the live tunnel to start its traffic-shaping machinery.
    StartShaping,
    /// The cycle is over; collect the result.
    Stop,
}

/// Phase of one rotation cycle.
#[derive(Clone, Copy, PartialEq, Eq, Structural, Debug)]
pub enum CyclePhase {
    /// Waiting for the exit-peer exchange.
    NegotiatingExit,
    /// Waiting for the intermediate reconfiguration pass (multihop only).
    ReconfiguringIntermediate,
    /// Waiting for the entry-peer exchange (multihop only).
    NegotiatingEntry,
    /// Waiting for the final reconfiguration pass.
    ReconfiguringFinal,
    /// Waiting for the tunnel to start traffic shaping (shaping only).
    StartingShaping,
    /// The cycle succeeded.
    Done,
    /// The cycle failed; nothing further happens.
    Failed(RotationError),
}

/// Everything one bounded peer exchange needs: where to reach the peer, the
/// keys to present, the behaviour flags, and the deadline.
#[derive(Clone, Copy)]
pub struct NegotiationRequest {
    /// Gateway address the exchange goes through.
    pub gateway: u32,
    /// The tunnel's current private key; its public half identifies the
    /// caller to the peer.
    pub tunnel_private_key: Key,
    /// Public half of the fresh ephemeral identity, presented to the peer.
    pub ephemeral_public_key: Key,
    /// Whether the exchange must produce quantum-resistant key material.
    pub quantum_resistant: bool,
    /// Whether the exchange should enable traffic shaping for this peer.
    pub daita: bool,
    /// Seconds after which the exchange is abandoned.
    pub timeout_secs: u64,
}

/// Outcome of one bounded peer exchange.
#[derive(Clone, Copy)]
pub enum NegotiationOutcome {
    /// The exchange finished; the peer negotiated the carried pre-shared
    /// key, or none when the handshake layer supplies the key material
    /// itself.
    Completed(Option<Key>),
    /// The deadline elapsed first; the exchange was abandoned.
    TimedOut,
    /// The exchange protocol reported failure.
    Failed,
}

/// Outcome of asking the live tunnel to start traffic shaping.
#[derive(Clone, Copy, PartialEq, Eq, Structural, Debug)]
pub enum ShapingOutcome {
    /// The tunnel started its shaping machinery.
    Started,
    /// No tunnel was present to instruct; shaping cannot run.
    NoTunnel,
    /// The tunnel rejected the instruction.
    Rejected,
}

/// One rotation cycle.
pub struct RotationCycle {
    /// The caller's 0-based retry counter; it fixes the negotiation deadline.
    pub retry_attempt: u32,
    /// Whether multihop routing was active when the cycle began.
    pub multihop: bool,
    /// Whether traffic shaping is desired.
    pub daita: bool,
    /// Whether negotiation must be quantum resistant.
    pub quantum_resistant: bool,
    /// Private half of the fresh ephemeral identity.
    pub ephemeral_private: Key,
    /// Public half of the fresh ephemeral identity.
    pub ephemeral_public: Key,
    /// The authoritative configuration: the caller's until the final pass,
    /// then the configuration that pass returned.
    pub config: TunnelConfig,
    /// The configuration the intermediate pass returned; the entry-peer
    /// exchange runs against it.
    pub entry_config: Option<TunnelConfig>,
    /// Pre-shared key from the exit exchange, once it completed.
    pub exit_psk: Option<Key>,
    /// Pre-shared key from the entry exchange, once it completed.
    pub entry_psk: Option<Key>,
    /// How many peer exchanges finished or failed so far.
    pub negotiation_count: u32,
    /// How many reconfiguration passes finished or failed so far.
    pub reconfiguration_count: u32,
    /// Where the cycle stands.
    pub phase: CyclePhase,
}

impl RotationCycle {
    /// The captured flags mirror the configuration, the configuration stays
    /// well formed while the cycle still reads its structure, and the step
    /// counters agree with the phase.
    pub open spec fn wf(self) -> bool {
        &&& ((self.phase is NegotiatingExit || self.phase is ReconfiguringIntermediate
            || self.phase is NegotiatingEntry || self.phase is ReconfiguringFinal) ==> {
            &&& self.config.wf()
            &&& self.multihop == self.config.spec_is_multihop()
            &&& self.daita == self.config.daita
            &&& self.quantum_resistant == self.config.quantum_resistant
        })
        &&& ((self.phase is NegotiatingExit || self.phase is ReconfiguringIntermediate)
            ==> self.config.entry_can_grow())
        &&& (self.phase is NegotiatingExit ==> self.negotiation_count == 0
            && self.reconfiguration_count == 0)
        &&& (self.phase is ReconfiguringIntermediate ==> self.multihop
            && self.negotiation_count == 1 && self.reconfiguration_count == 0)
        &&& (self.phase is NegotiatingEntry ==> self.multihop && self.negotiation_count == 1
            && self.reconfiguration_count == 1 && self.entry_config is Some)
        &&& (self.phase is ReconfiguringFinal ==> self.negotiation_count == (
            if self.multihop {
                2int
            } else {
                1int
            }) && self.reconfiguration_count == (
            if self.multihop {
                1int
            } else {
                0int
            }))
        &&& (self.phase is StartingShaping ==> self.daita && self.negotiation_count == (
            if self.multihop {
                2int
            } else {
                1int
            }) && self.reconfiguration_count == (
            if self.multihop {
                2int
            } else {
                1int
            }))
        &&& (self.phase is Done ==> self.negotiation_count == (
            if self.multihop {
                2int
            } else {
                1int
            }) && self.reconfiguration_count == (
            if self.multihop {
                2int
            } else {
                1int
            }))
    }

    /// The step the surrounding process must perform next.
    pub open spec fn spec_next_step(self) -> CycleStep {
        match self.phase {
            CyclePhase::NegotiatingExit => CycleStep::Negotiate,
            CyclePhase::ReconfiguringIntermediate => CycleStep::Reconfigure,
            CyclePhase::NegotiatingEntry => CycleStep::Negotiate,
            CyclePhase::ReconfiguringFinal => CycleStep::Reconfigure,
            CyclePhase::StartingShaping => CycleStep::StartShaping,
            CyclePhase::Done => CycleStep::Stop,
            CyclePhase::Failed(_) => CycleStep::Stop,
        }
    }

    /// Begins one cycle from the caller's configuration, retry counter, and a
    /// fresh ephemeral identity.
    pub fn start(
        config: TunnelConfig,
        retry_attempt: u32,
        ephemeral_private: Key,
        ephemeral_public: Key,
    ) -> (c: RotationCycle)
        requires
            config.wf(),
            config.entry_can_grow(),
        ensures
            c.wf(),
            c.phase is NegotiatingExit,
            c.config == config,
            c.retry_attempt == retry_attempt,
            c.multihop == config.spec_is_multihop(),
            c.daita == config.daita,
            c.quantum_resistant == config.quantum_resistant,
            c.ephemeral_private == ephemeral_private,
            c.ephemeral_public == ephemeral_public,
            c.negotiation_count == 0,
            c.reconfiguration_count == 0,
    {
        let multihop = config.is_multihop();
        let daita = config.daita;
        let quantum_resistant = config.quantum_resistant;
        RotationCycle {
            retry_attempt,
            multihop,
            daita,
            quantum_resistant,
            ephemeral_private,
            ephemeral_public,
            config,
            entry_config: Option::None,
            exit_psk: Option::None,
            entry_psk: Option::None,
            negotiation_count: 0,
            reconfiguration_count: 0,
            phase: CyclePhase::NegotiatingExit,
        }
    }

    /// What the surrounding process must do next.
    pub fn next_step(&self) -> (s: CycleStep)
        ensures
            s == self.spec_next_step(),
    {
        match self.phase {
            CyclePhase::NegotiatingExit => CycleStep::Negotiate,
            CyclePhase::ReconfiguringIntermediate => CycleStep::Reconfigure,
            CyclePhase::NegotiatingEntry => CycleStep::Negotiate,
            CyclePhase::ReconfiguringFinal => CycleStep::Reconfigure,
            CyclePhase::StartingShaping => CycleStep::StartShaping,
            CyclePhase::Done => CycleStep::Stop,
            CyclePhase::Failed(_) => CycleStep::Stop,
        }
    }

    /// The exchange the current negotiation step must run. The exit exchange
    /// goes to the caller's gateway with shaping asked for only when shaping
    /// is desired and multihop is not active; the entry exchange goes to the
    /// gateway of the intermediate configuration with shaping as desired.
    /// Both present the same fresh ephemeral public key and are bounded by
    /// the timeout policy for the caller's retry counter.
    pub fn negotiation_request(&self) -> (r: NegotiationRequest)
        requires
            self.wf(),
            self.phase is NegotiatingExit || self.phase is NegotiatingEntry,
        ensures
            r.ephemeral_public_key == self.ephemeral_public,
            r.quantum_resistant == self.quantum_resistant,
            r.timeout_secs == psk_exchange_timeout_spec(self.retry_attempt as nat),
            self.phase is NegotiatingExit ==> {
                &&& r.gateway == self.config.ipv4_gateway
                &&& r.tunnel_private_key == self.config.private_key
                &&& r.daita == (self.daita && !self.multihop)
            },
            self.phase is NegotiatingEntry ==> {
                &&& r.gateway == self.entry_config->Some_0.ipv4_gateway
                &&& r.tunnel_private_key == self.entry_config->Some_0.private_key
                &&& r.daita == self.daita
            },
    {
        let timeout_secs = psk_exchange_timeout_secs(self.retry_attempt);
        match self.phase {
            CyclePhase::NegotiatingExit => NegotiationRequest {
                gateway: self.config.ipv4_gateway,
                tunnel_private_key: self.config.private_key,
                ephemeral_public_key: self.ephemeral_public,
                quantum_resistant: self.quantum_resistant,
                daita: self.daita && !self.multihop,
                timeout_secs,
            },
            CyclePhase::NegotiatingEntry => match &self.entry_config {
                Option::Some(entry_config) => NegotiationRequest {
                    gateway: entry_config.ipv4_gateway,
                    tunnel_private_key: entry_config.private_key,
                    ephemeral_public_key: self.ephemeral_public,
                    quantum_resistant: self.quantum_resistant,
                    daita: self.daita,
                    timeout_secs,
                },
                Option::None => unreached(),
            },
            _ => unreached(),
        }
    }

    /// The configuration the current reconfiguration pass must apply: the
    /// intermediate configuration that keeps the gateway reachable, or the
    /// finalized configuration carrying this cycle's key material.
    pub fn reconfigure_config(&self) -> (c: TunnelConfig)
        requires
            self.wf(),
            self.phase is ReconfiguringIntermediate || self.phase is ReconfiguringFinal,
        ensures
            c.wf(),
            self.phase is ReconfiguringIntermediate ==> is_intermediate_config(c, self.config),
            self.phase is ReconfiguringFinal ==> is_finalized_config(
                c,
                self.config,
                self.ephemeral_private,
                self.exit_psk,
                self.entry_psk,
            ),
    {
        match self.phase {
            CyclePhase::ReconfiguringIntermediate => intermediate_config(&self.config),
            CyclePhase::ReconfiguringFinal => finalized_config(
                &self.config,
                &self.ephemeral_private,
                self.exit_psk,
                self.entry_psk,
            ),
            _ => unreached(),
        }
    }

    /// A peer exchange finished, timed out, or failed. A timeout or protocol
    /// failure ends the cycle at once — no reconfiguration pass follows. A
    /// completed exit exchange records the exit pre-shared key and moves on
    /// to the intermediate pass (multihop) or straight to the final pass; a
    /// completed entry exchange records the entry pre-shared key and moves on
    /// to the final pass.
    pub fn on_negotiated(&mut self, outcome: NegotiationOutcome)
        requires
            old(self).wf(),
            old(self).phase is NegotiatingExit || old(self).phase is NegotiatingEntry,
        ensures
            final(self).wf(),
            final(self).negotiation_count == old(self).negotiation_count + 1,
            final(self).reconfiguration_count == old(self).reconfiguration_count,
            outcome is TimedOut ==> final(self).phase == CyclePhase::Failed(
                RotationError::NegotiationTimeout,
            ),
            outcome is Failed ==> final(self).phase == CyclePhase::Failed(
                RotationError::NegotiationError,
            ),
            outcome matches NegotiationOutcome::Completed(psk) ==> {
                &&& (old(self).phase is NegotiatingExit ==> {
                    &&& final(self).exit_psk == psk
                    &&& final(self).entry_psk == old(self).entry_psk
                    &&& (old(self).multihop ==> final(self).phase
                        is ReconfiguringIntermediate)
                    &&& (!old(self).multihop ==> final(self).phase is ReconfiguringFinal)
                })
                &&& (old(self).phase is NegotiatingEntry ==> {
                    &&& final(self).entry_psk == psk
                    &&& final(self).exit_psk == old(self).exit_psk
                    &&& final(self).phase is ReconfiguringFinal
                })
            },
            final(self).config == old(self).config,
            final(self).entry_config == old(self).entry_config,
            final(self).multihop == old(self).multihop,
            final(self).daita == old(self).daita,
            final(self).quantum_resistant == old(self).quantum_resistant,
            final(self).retry_attempt == old(self).retry_attempt,
            final(self).ephemeral_private == old(self).ephemeral_private,
            final(self).ephemeral_public == old(self).ephemeral_public,
    {
        self.negotiation_count = self.negotiation_count + 1;
        match outcome {
            NegotiationOutcome::TimedOut => {
                self.phase = CyclePhase::Failed(RotationError::NegotiationTimeout);
            },
            NegotiationOutcome::Failed => {
                self.phase = CyclePhase::Failed(RotationError::NegotiationError);
            },
            NegotiationOutcome::Completed(psk) => {
                match self.phase {
                    CyclePhase::NegotiatingExit => {
                        self.exit_psk = psk;
                        if self.multihop {
                            self.phase = CyclePhase::ReconfiguringIntermediate;
                        } else {
                            self.phase = CyclePhase::ReconfiguringFinal;
                        }
                    },
                    CyclePhase::NegotiatingEntry => {
                        self.entry_psk = psk;
                        self.phase = CyclePhase::ReconfiguringFinal;
                    },
                    _ => {
                        proof {
                            assert(false);
                        }
                    },
                }
            },
        }
    }

    /// A reconfiguration pass finished. A failed pass ends the cycle with
    /// that pass's failure. A successful intermediate pass yields the
    /// configuration the entry exchange must run against; a successful final
    /// pass makes the returned configuration authoritative and moves on to
    /// shaping activation (when shaping is desired) or ends the cycle.
    pub fn on_reconfigured(&mut self, outcome: Result<TunnelConfig, RotationError>)
        requires
            old(self).wf(),
            old(self).phase is ReconfiguringIntermediate || old(self).phase
                is ReconfiguringFinal,
        ensures
            final(self).wf(),
            final(self).reconfiguration_count == old(self).reconfiguration_count + 1,
            final(self).negotiation_count == old(self).negotiation_count,
            outcome matches Result::Err(e) ==> final(self).phase == CyclePhase::Failed(e),
            outcome matches Result::Ok(c) ==> {
                &&& (old(self).phase is ReconfiguringIntermediate ==> {
                    &&& final(self).phase is NegotiatingEntry
                    &&& final(self).entry_config == Option::Some(c)
                    &&& final(self).config == old(self).config
                })
                &&& (old(self).phase is ReconfiguringFinal ==> {
                    &&& final(self).config == c
                    &&& (old(self).daita ==> final(self).phase is StartingShaping)
                    &&& (!old(self).daita ==> final(self).phase is Done)
                })
            },
            final(self).multihop == old(self).multihop,
            final(self).daita == old(self).daita,
            final(self).quantum_resistant == old(self).quantum_resistant,
            final(self).retry_attempt == old(self).retry_attempt,
            final(self).exit_psk == old(self).exit_psk,
            final(self).entry_psk == old(self).entry_psk,
            final(self).ephemeral_private == old(self).ephemeral_private,
            final(self).ephemeral_public == old(self).ephemeral_public,
    {
        self.reconfiguration_count = self.reconfiguration_count + 1;
        match outcome {
            Result::Err(e) => {
                self.phase = CyclePhase::Failed(e);
            },
            Result::Ok(c) => {
                match self.phase {
                    CyclePhase::ReconfiguringIntermediate => {
                        self.entry_config = Option::Some(c);
                        self.phase = CyclePhase::NegotiatingEntry;
                    },
                    CyclePhase::ReconfiguringFinal => {
                        self.config = c;
                        if self.daita {
                            self.phase = CyclePhase::StartingShaping;
                        } else {
                            self.phase = CyclePhase::Done;
                        }
                    },
                    _ => {
                        proof {
                            assert(false);
                        }
                    },
                }
            },
        }
    }

    /// The tunnel answered the shaping instruction. An absent tunnel counts
    /// as a setup failure here: shaping was asked for and cannot run.
    pub fn on_shaping(&mut self, outcome: ShapingOutcome)
        requires
            old(self).wf(),
            old(self).phase is StartingShaping,
        ensures
            final(self).wf(),
            outcome is Started ==> final(self).phase is Done,
            outcome is NoTunnel || outcome is Rejected ==> final(self).phase
                == CyclePhase::Failed(RotationError::TunnelSetupFailure),
            final(self).negotiation_count == old(self).negotiation_count,
            final(self).reconfiguration_count == old(self).reconfiguration_count,
            final(self).config == old(self).config,
            final(self).multihop == old(self).multihop,
    {
        match outcome {
            ShapingOutcome::Started => {
                self.phase = CyclePhase::Done;
            },
            ShapingOutcome::NoTunnel => {
                self.phase = CyclePhase::Failed(RotationError::TunnelSetupFailure);
            },
            ShapingOutcome::Rejected => {
                self.phase = CyclePhase::Failed(RotationError::TunnelSetupFailure);
            },
        }
    }

    /// The cycle's result: on success the configuration the caller must now
    /// consider authoritative, on failure the failure kind.
    pub fn into_result(self) -> (r: Result<TunnelConfig, RotationError>)
        requires
            self.phase is Done || self.phase is Failed,
        ensures
            self.phase is Done ==> (r matches Result::Ok(c) && c == self.config),
            self.phase matches CyclePhase::Failed(e) ==> r == Result::<
                TunnelConfig,
                RotationError,
            >::Err(e),
    {
        match self.phase {
            CyclePhase::Failed(e) => Result::Err(e),
            _ => Result::Ok(self.config),
        }
    }
}

/// Law: multihop gating. A cycle that ran to success negotiated exactly twice
/// when multihop was active and exactly once when it was not, and ran exactly
/// two reconfiguration passes when multihop was active and exactly one when
/// it was not.
pub proof fn lemma_multihop_negotiation_gating(c: RotationCycle)
    requires
        c.wf(),
        c.phase is Done,
    ensures
        c.negotiation_count == if c.multihop {
            2int
        } else {
            1int
        },
        c.reconfiguration_count == if c.multihop {
            2int
        } else {
            1int
        },
{
}

/// Law: a failed cycle asks for nothing further. In particular, after a
/// negotiation timeout no reconfiguration pass is attempted: the only step
/// the cycle offers from then on is to stop.
pub proof fn lemma_failure_stops_cycle(c: RotationCycle)
    requires
        c.phase is Failed,
    ensures
        c.spec_next_step() == CycleStep::Stop,
{
}

} // verus!
