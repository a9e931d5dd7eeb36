//! Ephemeral peer rotation for a tunnel that periodically replaces its
//! pre-shared key material with freshly negotiated, short-lived keys.
//!
//! The crate holds the decision logic of one rotation cycle: the timeout
//! policy for each negotiation attempt, the tunnel configuration model, the
//! reconfiguration state machine that replaces an active obfuscator and
//! applies a candidate configuration, and the orchestrating state machine
//! that sequences negotiations and reconfiguration passes. The surrounding
//! process performs the actual network exchanges and tunnel mutations and
//! feeds their outcomes back as events.

pub mod config;
pub mod mtu;
pub mod reconfigure;
pub mod rotation;
pub mod timeout;
