//! The escalation engine: from the stored record and the probes of one cycle
//! to the record to store next and the decision whether to alert.
//!
//! The engine alerts on every failure cycle once the threshold is reached, and
//! a single successful cycle clears the count. It performs no I/O.

use vstd::prelude::*;
use crate::settings::{MonitorConfig, MonitorResult};

verus! {

/// What the probes of one cycle found.
#[derive(Clone, Copy, Debug, PartialEq, Eq, Structural)]
pub struct CheckOutcome {
    pub ipv4_ok: bool,
    /// Meaningful only where `ipv6_checked` holds.
    pub ipv6_ok: bool,
    /// Whether IPv6 is monitored at all; where it is not, IPv6 never fails.
    pub ipv6_checked: bool,
}

/// Which address a failure cycle found unreachable.
#[derive(Clone, Copy, Debug, PartialEq, Eq, Structural)]
pub enum AlertReason {
    NoneDown,
    Ipv4Down,
    Ipv6Down,
    BothDown,
}

/// Whether this cycle calls for an alert, and about what.
#[derive(Clone, Copy, Debug, PartialEq, Eq, Structural)]
pub struct AlertDecision {
    pub should_alert: bool,
    pub reason: AlertReason,
}

impl CheckOutcome {
    /// IPv6 as the escalation sees it: an address that is not monitored counts
    /// as reachable.
    pub open spec fn spec_ipv6_flag(&self) -> bool {
        !self.ipv6_checked || self.ipv6_ok
    }

    /// A cycle fails when a monitored address was unreachable.
    pub open spec fn spec_is_failure(&self) -> bool {
        !self.ipv4_ok || (self.ipv6_checked && !self.ipv6_ok)
    }

    /// The addresses that make this cycle a failure.
    pub open spec fn spec_reason(&self) -> AlertReason {
        if !self.ipv4_ok && !self.ipv6_flag() {
            AlertReason::BothDown
        } else if !self.ipv4_ok {
            AlertReason::Ipv4Down
        } else if !self.ipv6_flag() {
            AlertReason::Ipv6Down
        } else {
            AlertReason::NoneDown
        }
    }

    #[verifier::when_used_as_spec(spec_ipv6_flag)]
    pub fn ipv6_flag(&self) -> (flag: bool)
        ensures
            flag == self.spec_ipv6_flag(),
    {
        !self.ipv6_checked || self.ipv6_ok
    }

    #[verifier::when_used_as_spec(spec_is_failure)]
    pub fn is_failure(&self) -> (failure: bool)
        ensures
            failure == self.spec_is_failure(),
            failure <==> !self.ipv4_ok || !self.ipv6_flag(),
    {
        !self.ipv4_ok || (self.ipv6_checked && !self.ipv6_ok)
    }

    #[verifier::when_used_as_spec(spec_reason)]
    pub fn reason(&self) -> (reason: AlertReason)
        ensures
            reason == self.spec_reason(),
            reason == AlertReason::NoneDown <==> !self.is_failure(),
    {
        let ipv6_flag: bool = self.ipv6_flag();
        if !self.ipv4_ok && !ipv6_flag {
            AlertReason::BothDown
        } else if !self.ipv4_ok {
            AlertReason::Ipv4Down
        } else if !ipv6_flag {
            AlertReason::Ipv6Down
        } else {
            AlertReason::NoneDown
        }
    }
}

/// The decision that belongs to a cycle which found `outcome` and left
/// `failures` failure cycles in a row on record.
pub open spec fn decision_for(outcome: CheckOutcome, failures: u8, threshold: u8) -> AlertDecision {
    AlertDecision {
        should_alert: outcome.is_failure() && failures >= threshold,
        reason: outcome.reason(),
    }
}

/// The record to store after a cycle which found `outcome`.
pub open spec fn next_record(previous: MonitorResult, outcome: CheckOutcome) -> MonitorResult
    recommends
        outcome.is_failure() ==> previous.has_room(),
{
    if outcome.is_failure() {
        previous.after_failure()
    } else {
        MonitorResult::after_success()
    }
}

/// One step of the escalation, as a function of its inputs.
pub open spec fn escalated(previous: MonitorResult, outcome: CheckOutcome, threshold: u8) -> (
    MonitorResult,
    AlertDecision,
)
    recommends
        outcome.is_failure() ==> previous.has_room(),
{
    let next = next_record(previous, outcome);
    (next, decision_for(outcome, next.count, threshold))
}

/// Compute the decision for a cycle whose record has already been brought up
/// to date.
pub fn decide(outcome: CheckOutcome, failures: u8, threshold: u8) -> (decision: AlertDecision)
    ensures
        decision == decision_for(outcome, failures, threshold),
        decision.should_alert ==> !outcome.ipv4_ok || !outcome.ipv6_flag(),
{
    AlertDecision {
        should_alert: outcome.is_failure() && failures >= threshold,
        reason: outcome.reason(),
    }
}

/// Run the escalation for one cycle.
///
/// A cycle without failure clears the record and never alerts. A failure cycle
/// adds exactly one to the count and alerts exactly when the new count has
/// reached the configured threshold.
pub fn escalate(previous: MonitorResult, outcome: CheckOutcome, configuration: &MonitorConfig) -> (result: (
    MonitorResult,
    AlertDecision,
))
    requires
        outcome.is_failure() ==> previous.has_room(),
    ensures
        result == escalated(previous, outcome, configuration.how_many_failures_before_send_email),
        result.0.well_formed(),
        !outcome.is_failure() ==> !result.0.failed && result.0.count == 0,
        !outcome.is_failure() ==> !result.1.should_alert && result.1.reason
            == AlertReason::NoneDown,
        outcome.is_failure() ==> result.0.failed && result.0.count == previous.count + 1,
        outcome.is_failure() ==> (result.1.should_alert <==> result.0.count
            >= configuration.how_many_failures_before_send_email),
        outcome.is_failure() ==> result.1.reason == outcome.reason() && result.1.reason
            != AlertReason::NoneDown,
        configuration.how_many_failures_before_send_email >= 1 ==> (result.1.should_alert
            <==> result.0.count >= configuration.how_many_failures_before_send_email),
{
    let mut next: MonitorResult = previous;
    if outcome.is_failure() {
        let alert: bool = next.handle_failure(configuration);
        (next, AlertDecision { should_alert: alert, reason: outcome.reason() })
    } else {
        next.handle_success();
        (next, AlertDecision { should_alert: false, reason: AlertReason::NoneDown })
    }
}

/// Once an alert has fired, every further failure cycle fires again: nothing
/// but a successful cycle silences the escalation.
pub proof fn lemma_alert_repeats_while_failing(
    previous: MonitorResult,
    first: CheckOutcome,
    second: CheckOutcome,
    threshold: u8,
)
    requires
        first.is_failure(),
        second.is_failure(),
        previous.count + 2 <= u8::MAX,
        escalated(previous, first, threshold).1.should_alert,
    ensures
        escalated(escalated(previous, first, threshold).0, second, threshold).1.should_alert,
{
}

/// The record after `n` failure cycles in a row.
pub open spec fn after_failures(previous: MonitorResult, n: nat) -> MonitorResult
    decreases n,
{
    if n == 0 {
        previous
    } else {
        after_failures(previous, (n - 1) as nat).after_failure()
    }
}

/// The count never skips and never falls while failures continue: `n`
/// failure cycles in a row add exactly `n`, as far as the counter reaches.
pub proof fn lemma_failures_accumulate(previous: MonitorResult, n: nat)
    requires
        previous.count + n <= u8::MAX,
    ensures
        n >= 1 ==> after_failures(previous, n).failed,
        after_failures(previous, n).count == previous.count + n,
    decreases n,
{
    if n >= 1 {
        lemma_failures_accumulate(previous, (n - 1) as nat);
    }
}

/// Counting from a cleared record, the `n`-th failure cycle in a row alerts
/// exactly when `n` has reached the threshold.
pub proof fn lemma_alert_from_threshold(outcome: CheckOutcome, n: nat, threshold: u8)
    requires
        outcome.is_failure(),
        1 <= n <= u8::MAX,
    ensures
        decision_for(
            outcome,
            after_failures(MonitorResult::after_success(), n).count,
            threshold,
        ).should_alert <==> n >= threshold,
{
    lemma_failures_accumulate(MonitorResult::after_success(), n);
}

/// A successful cycle forgets the whole history: whatever the records were,
/// the next failure cycle starts counting at one.
pub proof fn lemma_success_resets(
    one: MonitorResult,
    other: MonitorResult,
    success: CheckOutcome,
    threshold: u8,
)
    requires
        !success.is_failure(),
    ensures
        escalated(one, success, threshold) == escalated(other, success, threshold),
        escalated(one, success, threshold).0.after_failure().count == 1,
{
}

} // verus!
