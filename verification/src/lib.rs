//! Reachability monitoring with failure escalation.
//!
//! A monitor probes an IPv4 and, where enabled, an IPv6 address once per
//! cycle, keeps a persisted count of consecutive failure cycles, and alerts by
//! email once that count has reached a threshold. This library holds the
//! decisions; probing, persistence and mail delivery are performed by the
//! caller, which feeds their results back in.

pub mod cycle;
pub mod email;
pub mod escalation;
pub mod settings;
pub mod trace;
