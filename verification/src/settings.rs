//! Monitor settings and the persisted failure record.
//!
//! The record must exist before the first cycle runs: a record that cannot be
//! found is reported as [`LoadError::StateUnavailable`], never replaced by a
//! fresh one, because a silently reset count would hide an ongoing outage.

use vstd::prelude::*;

verus! {

/// The settings of one monitor, as handed over by whoever loaded them.
#[derive(Debug, PartialEq, Eq)]
pub struct MonitorConfig {
    /// Whether an alert that is due is actually sent by email.
    pub email_enabled: bool,
    /// The address probed over IPv4.
    pub ipv4: String,
    /// The address probed over IPv6.
    pub ipv6: String,
    /// Whether the IPv6 address is probed at all.
    pub ipv6_enabled: bool,
    pub sender_email: String,
    pub sender_name: String,
    pub recipient_email: String,
    pub recipient_name: String,
    /// Pause between two check cycles.
    pub seconds_between_checks: u64,
    /// Credential presented to the mail service.
    pub sendgrid_apikey: String,
    /// The threshold: how many failure cycles in a row make an alert due.
    pub how_many_failures_before_send_email: u8,
}

/// The persisted record of how the most recent check cycles ended.
#[derive(Clone, Copy, Debug, PartialEq, Eq, Structural)]
pub struct MonitorResult {
    /// Whether the most recently recorded cycle was a failure cycle.
    pub failed: bool,
    /// How many failure cycles have been recorded in a row.
    pub count: u8,
}

/// Why the record could not be read.
#[derive(Clone, Copy, Debug, PartialEq, Eq, Structural)]
pub enum LoadError {
    /// The record could not be located.
    StateUnavailable,
    /// The record exists but does not have the expected shape.
    StateCorrupt,
}

/// The record could not be written.
#[derive(Clone, Copy, Debug, PartialEq, Eq, Structural)]
pub struct StateWriteError {}

impl MonitorResult {
    /// A record is well formed when a cycle that did not fail carries no failures.
    pub open spec fn well_formed(self) -> bool {
        !self.failed ==> self.count == 0
    }

    /// Whether one more failure still fits in the counter.
    pub open spec fn has_room(self) -> bool {
        self.count < u8::MAX
    }

    /// The record after one more failure cycle.
    pub open spec fn after_failure(self) -> MonitorResult
        recommends
            self.has_room(),
    {
        MonitorResult { failed: true, count: (self.count + 1) as u8 }
    }

    /// The record after a fully successful cycle, whatever came before.
    pub open spec fn after_success() -> MonitorResult {
        MonitorResult { failed: false, count: 0 }
    }

    /// Record a failure cycle and say whether an alert is due.
    ///
    /// The count grows by exactly one, and the alert is due on every failure
    /// cycle from the one that reaches the threshold onwards.
    pub fn handle_failure(&mut self, configuration: &MonitorConfig) -> (alert: bool)
        requires
            old(self).has_room(),
        ensures
            *final(self) == old(self).after_failure(),
            final(self).failed,
            final(self).count == old(self).count + 1,
            final(self).well_formed(),
            alert <==> final(self).count >= configuration.how_many_failures_before_send_email,
    {
        self.failed = true;
        self.count = self.count + 1;
        self.count >= configuration.how_many_failures_before_send_email
    }

    /// Record a fully successful cycle: the run of failures is over.
    pub fn handle_success(&mut self)
        ensures
            *final(self) == MonitorResult::after_success(),
            !final(self).failed,
            final(self).count == 0,
            final(self).well_formed(),
    {
        self.failed = false;
        self.count = 0;
    }
}

} // verus!
