//! MTU shim for negotiation.
//!
//! On the one platform that needs it, the tunnel interface's IPv4 MTU is
//! lowered for the duration of a rotation cycle, because negotiation traffic
//! must fit under the low ceiling the handshake protocol assumes, and is then
//! restored — on every path that returns control to the caller — to the value
//! the (possibly updated) configuration names. Reading and setting the MTU is
//! platform work done outside this crate; this module fixes the two
//! setpoints.

use vstd::prelude::*;

use crate::config::TunnelConfig;

verus! {

/// The lowest MTU an IPv4 interface must support; negotiation traffic is
/// guaranteed to fit under it.
pub const MIN_IPV4_MTU: u16 = 576;

/// The MTU the tunnel interface is lowered to before a rotation cycle runs.
pub fn negotiation_mtu() -> (m: u16)
    ensures
        m == MIN_IPV4_MTU,
{
    MIN_IPV4_MTU
}

/// The MTU the tunnel interface is restored to once the cycle has returned,
/// whether it succeeded or failed: the value of the configuration that is
/// authoritative at that point.
pub fn restored_mtu(config: &TunnelConfig) -> (m: u16)
    ensures
        m == config.mtu,
{
    config.mtu
}

} // verus!
