//! Tunnel reconfiguration state machine.
//!
//! One run applies a candidate configuration to the live tunnel and, when an
//! obfuscation transport is active, replaces it first: the stale obfuscator
//! is aborted unconditionally before a new one is built for the candidate
//! configuration, so that a stale obfuscator never coexists with a new tunnel
//! configuration. The surrounding process owns the shared tunnel and
//! obfuscator handles; it performs each step this machine asks for and feeds
//! the outcome back. Both handles may be absent at any time: an absent
//! obfuscator means nothing to replace, and an absent tunnel makes the apply
//! step a no-op, not an error.

use vstd::prelude::*;

use crate::config::RotationError;
use crate::config::TunnelConfig;

verus! {

/// What one run of the machine asks the surrounding process to do next.
#[derive(Clone, Copy, PartialEq, Eq, Structural, Debug)]
pub enum ReconfigStep {
    /// Lock the obfuscator slot and report whether a transport is active.
    InspectObfuscator,
    /// Abort the active obfuscation transport and empty its slot.
    AbortObfuscator,
    /// Build a new obfuscation transport bound to the candidate
    /// configuration, registering the failure-notification channel.
    BuildObfuscator,
    /// Lock the tunnel slot and, if a tunnel is live, apply the candidate
    /// configuration to it.
    ApplyTunnelConfig,
    /// The run is over; collect the result.
    Stop,
}

/// What this run knows about the obfuscator slot.
#[derive(Clone, Copy, PartialEq, Eq, Structural, Debug)]
pub enum ObfuscatorSlot {
    /// Not inspected yet.
    Unknown,
    /// A transport bound to the previous configuration is active.
    Occupied,
    /// The slot holds nothing.
    Empty,
    /// The slot was refreshed for the candidate configuration.
    Rebuilt,
}

/// Phase of one reconfiguration run.
#[derive(Clone, Copy, PartialEq, Eq, Structural, Debug)]
pub enum ReconfigPhase {
    InspectingObfuscator,
    AbortingObfuscator,
    BuildingObfuscator,
    ApplyingTunnelConfig,
    Done,
    Failed(RotationError),
}

/// Outcome of building a replacement obfuscation transport.
pub enum ObfuscationBuildOutcome {
    /// The transport was built; obfuscation setup may have adjusted the
    /// configuration (for example the effective gateway or port), and the
    /// adjusted configuration is the one the tunnel must now apply.
    Built(TunnelConfig),
    /// The transport could not be built; the slot was left empty.
    BuildFailed,
}

/// Outcome of the tunnel apply step.
#[derive(Clone, Copy, PartialEq, Eq, Structural, Debug)]
pub enum TunnelApplyOutcome {
    /// A live tunnel accepted the configuration.
    Applied,
    /// No tunnel was present; nothing was applied, which is not an error.
    NoTunnel,
    /// A live tunnel rejected the configuration.
    ApplyFailed,
}

/// One reconfiguration run: the candidate configuration and how far the run
/// has come.
pub struct Reconfigurator {
    /// The configuration to apply; replaced by the obfuscation-adjusted one
    /// when a new transport is built.
    pub config: TunnelConfig,
    /// Whether this run has aborted a previously active transport.
    pub aborted_old: bool,
    /// What this run knows about the obfuscator slot.
    pub slot: ObfuscatorSlot,
    /// Where the run stands.
    pub phase: ReconfigPhase,
}

impl Reconfigurator {
    /// Phase, slot knowledge, and abort history agree: a replacement
    /// transport is only ever built after the old one was aborted and its
    /// slot emptied, and a failed build leaves the slot empty.
    pub open spec fn wf(self) -> bool {
        &&& (self.phase is InspectingObfuscator ==> !self.aborted_old && self.slot is Unknown)
        &&& (self.phase is AbortingObfuscator ==> self.slot is Occupied)
        &&& (self.phase is BuildingObfuscator ==> self.aborted_old && self.slot is Empty)
        &&& (self.phase is ApplyingTunnelConfig ==> self.slot is Empty || self.slot is Rebuilt)
        &&& (self.phase == ReconfigPhase::Failed(RotationError::ObfuscationSetupFailure)
            ==> self.slot is Empty)
    }

    /// Begins a run for one candidate configuration.
    pub fn start(config: TunnelConfig) -> (m: Reconfigurator)
        ensures
            m.wf(),
            m.phase is InspectingObfuscator,
            m.config == config,
            !m.aborted_old,
    {
        Reconfigurator {
            config,
            aborted_old: false,
            slot: ObfuscatorSlot::Unknown,
            phase: ReconfigPhase::InspectingObfuscator,
        }
    }

    /// What the surrounding process must do next.
    pub fn next_step(&self) -> (s: ReconfigStep)
        ensures
            s is InspectObfuscator <==> self.phase is InspectingObfuscator,
            s is AbortObfuscator <==> self.phase is AbortingObfuscator,
            s is BuildObfuscator <==> self.phase is BuildingObfuscator,
            s is ApplyTunnelConfig <==> self.phase is ApplyingTunnelConfig,
            s is Stop <==> (self.phase is Done || self.phase is Failed),
    {
        match self.phase {
            ReconfigPhase::InspectingObfuscator => ReconfigStep::InspectObfuscator,
            ReconfigPhase::AbortingObfuscator => ReconfigStep::AbortObfuscator,
            ReconfigPhase::BuildingObfuscator => ReconfigStep::BuildObfuscator,
            ReconfigPhase::ApplyingTunnelConfig => ReconfigStep::ApplyTunnelConfig,
            ReconfigPhase::Done => ReconfigStep::Stop,
            ReconfigPhase::Failed(_) => ReconfigStep::Stop,
        }
    }

    /// The configuration the build and apply steps must use.
    pub fn candidate_config(&self) -> (c: TunnelConfig)
        ensures
            crate::config::config_like(c, self.config),
    {
        self.config.duplicate()
    }

    /// The obfuscator slot was inspected: `active` says whether a transport
    /// bound to the previous configuration is running. An active transport
    /// must be aborted before anything else; an absent one means the run can
    /// go straight to applying the configuration.
    pub fn on_obfuscator_inspected(&mut self, active: bool)
        requires
            old(self).wf(),
            old(self).phase is InspectingObfuscator,
        ensures
            final(self).wf(),
            active ==> final(self).phase is AbortingObfuscator && final(self).slot
                is Occupied,
            !active ==> final(self).phase is ApplyingTunnelConfig && final(self).slot
                is Empty,
            final(self).config == old(self).config,
            final(self).aborted_old == old(self).aborted_old,
    {
        if active {
            self.slot = ObfuscatorSlot::Occupied;
            self.phase = ReconfigPhase::AbortingObfuscator;
        } else {
            self.slot = ObfuscatorSlot::Empty;
            self.phase = ReconfigPhase::ApplyingTunnelConfig;
        }
    }

    /// The active transport was aborted and its slot emptied. Only now may a
    /// replacement be built.
    pub fn on_obfuscator_aborted(&mut self)
        requires
            old(self).wf(),
            old(self).phase is AbortingObfuscator,
        ensures
            final(self).wf(),
            final(self).phase is BuildingObfuscator,
            final(self).slot is Empty,
            final(self).aborted_old,
            final(self).config == old(self).config,
    {
        self.slot = ObfuscatorSlot::Empty;
        self.aborted_old = true;
        self.phase = ReconfigPhase::BuildingObfuscator;
    }

    /// The replacement transport was built, or building it failed. On
    /// success the (possibly adjusted) configuration it is bound to becomes
    /// the candidate; on failure the run ends with an obfuscation setup
    /// failure and the slot stays empty.
    pub fn on_obfuscator_built(&mut self, outcome: ObfuscationBuildOutcome)
        requires
            old(self).wf(),
            old(self).phase is BuildingObfuscator,
        ensures
            final(self).wf(),
            outcome matches ObfuscationBuildOutcome::Built(c) ==> {
                &&& final(self).phase is ApplyingTunnelConfig
                &&& final(self).slot is Rebuilt
                &&& final(self).config == c
            },
            outcome is BuildFailed ==> {
                &&& final(self).phase == ReconfigPhase::Failed(
                    RotationError::ObfuscationSetupFailure,
                )
                &&& final(self).slot is Empty
            },
            final(self).aborted_old == old(self).aborted_old,
    {
        match outcome {
            ObfuscationBuildOutcome::Built(c) => {
                self.config = c;
                self.slot = ObfuscatorSlot::Rebuilt;
                self.phase = ReconfigPhase::ApplyingTunnelConfig;
            },
            ObfuscationBuildOutcome::BuildFailed => {
                self.phase = ReconfigPhase::Failed(RotationError::ObfuscationSetupFailure);
            },
        }
    }

    /// The tunnel apply step finished. An absent tunnel counts as success:
    /// the run still yields the computed configuration. A rejected
    /// configuration ends the run with a tunnel setup failure.
    pub fn on_tunnel_applied(&mut self, outcome: TunnelApplyOutcome)
        requires
            old(self).wf(),
            old(self).phase is ApplyingTunnelConfig,
        ensures
            final(self).wf(),
            outcome is Applied || outcome is NoTunnel ==> final(self).phase is Done,
            outcome is ApplyFailed ==> final(self).phase == ReconfigPhase::Failed(
                RotationError::TunnelSetupFailure,
            ),
            final(self).config == old(self).config,
            final(self).slot == old(self).slot,
            final(self).aborted_old == old(self).aborted_old,
    {
        match outcome {
            TunnelApplyOutcome::Applied => {
                self.phase = ReconfigPhase::Done;
            },
            TunnelApplyOutcome::NoTunnel => {
                self.phase = ReconfigPhase::Done;
            },
            TunnelApplyOutcome::ApplyFailed => {
                self.phase = ReconfigPhase::Failed(RotationError::TunnelSetupFailure);
            },
        }
    }

    /// The run's result: on success the configuration the tunnel should now
    /// be considered to hold, on failure the failure kind.
    pub fn into_result(self) -> (r: Result<TunnelConfig, RotationError>)
        requires
            self.phase is Done || self.phase is Failed,
        ensures
            self.phase is Done ==> (r matches Result::Ok(c) && c == self.config),
            self.phase matches ReconfigPhase::Failed(e) ==> r == Result::<
                TunnelConfig,
                RotationError,
            >::Err(e),
    {
        match self.phase {
            ReconfigPhase::Failed(e) => Result::Err(e),
            _ => Result::Ok(self.config),
        }
    }
}

/// Law: the old obfuscator goes before the new one comes. Whenever a run is
/// about to build a replacement transport, the previously active transport
/// has already been aborted and its slot stands empty; and a run that failed
/// building the replacement left the slot empty, never holding a
/// half-initialized transport.
pub proof fn lemma_obfuscator_replace_before_reuse(m: Reconfigurator)
    requires
        m.wf(),
        m.phase is BuildingObfuscator || m.phase == ReconfigPhase::Failed(
            RotationError::ObfuscationSetupFailure,
        ),
    ensures
        m.phase is BuildingObfuscator ==> m.aborted_old,
        m.slot is Empty,
{
}

} // verus!
