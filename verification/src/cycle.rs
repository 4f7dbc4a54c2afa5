//! One check cycle as a state machine.
//!
//! A cycle probes, loads the stored record, escalates, stores the new record
//! and, where an alert is due, has it sent. The machine performs none of the
//! outside work itself: each step answers the result of the previous action
//! with the next action, and the caller carries the actions out.
//!
//! The new record is stored before any alert is sent, so the outcome of the
//! delivery never touches what has been counted. A record that cannot be
//! loaded or stored ends the cycle at once.

use vstd::prelude::*;
use crate::email::NotifyError;
use crate::escalation::{
    decide, decision_for, escalate, next_record, AlertDecision, CheckOutcome,
};
use crate::settings::{LoadError, MonitorConfig, MonitorResult, StateWriteError};

verus! {

/// Where a cycle stands: what it is waiting for, and what it knows so far.
#[derive(Clone, Copy, Debug, PartialEq, Eq)]
pub enum CyclePhase {
    /// Nothing has happened yet.
    Idle,
    /// Waiting for the IPv4 probe.
    ProbingIpv4,
    /// Waiting for the IPv6 probe.
    ProbingIpv6 { ipv4_ok: bool },
    /// Waiting for the stored record.
    LoadingState { outcome: CheckOutcome },
    /// Waiting for `next` to be stored.
    SavingState { outcome: CheckOutcome, next: MonitorResult },
    /// `next` is stored; waiting for the mail service.
    Notifying { outcome: CheckOutcome, next: MonitorResult },
    /// The cycle is over.
    Finished,
}

/// What the caller reports back to the machine.
#[derive(Clone, Copy, Debug, PartialEq, Eq)]
pub enum CycleEvent {
    /// The cycle is to begin.
    Started,
    /// A probe has ended.
    Probed(bool),
    /// The attempt to load the record has ended.
    Loaded(Result<MonitorResult, LoadError>),
    /// The attempt to store the record has ended.
    Saved(Result<(), StateWriteError>),
    /// The attempt to send the alert has ended.
    Notified(Result<(), NotifyError>),
}

/// What became of the alert of a cycle.
#[derive(Clone, Copy, Debug, PartialEq, Eq, Structural)]
pub enum Notification {
    /// No alert was due, or email is switched off.
    NotAttempted,
    Delivered,
    Failed { error: NotifyError },
}

/// The result of a cycle that ran to its end.
#[derive(Clone, Copy, Debug, PartialEq, Eq, Structural)]
pub struct CycleReport {
    /// The record as it was stored.
    pub state: MonitorResult,
    pub decision: AlertDecision,
    pub notification: Notification,
}

/// Why a cycle was given up. None of these leaves a new record behind.
#[derive(Clone, Copy, Debug, PartialEq, Eq, Structural)]
pub enum CycleError {
    StateUnavailable,
    StateCorrupt,
    StateWriteError,
    /// The stored count is at the counter's limit and the cycle failed again.
    CounterExhausted,
    /// The event does not answer the action the machine asked for.
    UnexpectedEvent,
}

/// What the caller is to do next.
#[derive(Clone, Copy, Debug, PartialEq, Eq, Structural)]
pub enum CycleAction {
    ProbeIpv4,
    ProbeIpv6,
    LoadState,
    SaveState { state: MonitorResult },
    /// Send the alert; a flag is `true` where the address was reachable.
    SendAlert { ipv4_flag: bool, ipv6_flag: bool },
    Finish { report: CycleReport },
    Abort { error: CycleError },
}

/// The error with which a cycle ends when its record cannot be loaded.
pub open spec fn load_failure(error: LoadError) -> CycleError {
    match error {
        LoadError::StateUnavailable => CycleError::StateUnavailable,
        LoadError::StateCorrupt => CycleError::StateCorrupt,
    }
}

/// How the attempt to send the alert is reported.
pub open spec fn notification_of(result: Result<(), NotifyError>) -> Notification {
    match result {
        Ok(_) => Notification::Delivered,
        Err(error) => Notification::Failed { error },
    }
}

/// The step of the machine: the phase and the event decide the next phase and
/// the next action.
pub open spec fn next_step(configuration: MonitorConfig, phase: CyclePhase, event: CycleEvent) -> (
    CyclePhase,
    CycleAction,
) {
    let threshold = configuration.how_many_failures_before_send_email;
    match (phase, event) {
        (CyclePhase::Idle, CycleEvent::Started) => (
            CyclePhase::ProbingIpv4,
            CycleAction::ProbeIpv4,
        ),
        (CyclePhase::ProbingIpv4, CycleEvent::Probed(reachable)) => {
            if configuration.ipv6_enabled {
                (CyclePhase::ProbingIpv6 { ipv4_ok: reachable }, CycleAction::ProbeIpv6)
            } else {
                let outcome = CheckOutcome {
                    ipv4_ok: reachable,
                    ipv6_ok: true,
                    ipv6_checked: false,
                };
                (CyclePhase::LoadingState { outcome }, CycleAction::LoadState)
            }
        },
        (CyclePhase::ProbingIpv6 { ipv4_ok }, CycleEvent::Probed(reachable)) => {
            let outcome = CheckOutcome { ipv4_ok, ipv6_ok: reachable, ipv6_checked: true };
            (CyclePhase::LoadingState { outcome }, CycleAction::LoadState)
        },
        (CyclePhase::LoadingState { outcome }, CycleEvent::Loaded(Ok(state))) => {
            if outcome.is_failure() && !state.has_room() {
                (CyclePhase::Finished, CycleAction::Abort { error: CycleError::CounterExhausted })
            } else {
                let next = next_record(state, outcome);
                (CyclePhase::SavingState { outcome, next }, CycleAction::SaveState { state: next })
            }
        },
        (CyclePhase::LoadingState { outcome }, CycleEvent::Loaded(Err(error))) => (
            CyclePhase::Finished,
            CycleAction::Abort { error: load_failure(error) },
        ),
        (CyclePhase::SavingState { outcome, next }, CycleEvent::Saved(Ok(_))) => {
            let decision = decision_for(outcome, next.count, threshold);
            if decision.should_alert && configuration.email_enabled {
                (
                    CyclePhase::Notifying { outcome, next },
                    CycleAction::SendAlert {
                        ipv4_flag: outcome.ipv4_ok,
                        ipv6_flag: outcome.ipv6_flag(),
                    },
                )
            } else {
                (
                    CyclePhase::Finished,
                    CycleAction::Finish {
                        report: CycleReport {
                            state: next,
                            decision,
                            notification: Notification::NotAttempted,
                        },
                    },
                )
            }
        },
        (CyclePhase::SavingState { outcome, next }, CycleEvent::Saved(Err(_))) => (
            CyclePhase::Finished,
            CycleAction::Abort { error: CycleError::StateWriteError },
        ),
        (CyclePhase::Notifying { outcome, next }, CycleEvent::Notified(result)) => (
            CyclePhase::Finished,
            CycleAction::Finish {
                report: CycleReport {
                    state: next,
                    decision: decision_for(outcome, next.count, threshold),
                    notification: notification_of(result),
                },
            },
        ),
        _ => (CyclePhase::Finished, CycleAction::Abort { error: CycleError::UnexpectedEvent }),
    }
}

/// How far a cycle has come.
pub open spec fn phase_rank(phase: CyclePhase) -> nat {
    match phase {
        CyclePhase::Idle => 0,
        CyclePhase::ProbingIpv4 => 1,
        CyclePhase::ProbingIpv6 { .. } => 2,
        CyclePhase::LoadingState { .. } => 3,
        CyclePhase::SavingState { .. } => 4,
        CyclePhase::Notifying { .. } => 5,
        CyclePhase::Finished => 6,
    }
}

/// Take one step of a check cycle.
///
/// Begin with [`CyclePhase::Idle`] and [`CycleEvent::Started`], carry out the
/// action that comes back, and report its result with the phase that came
/// back, until the action is `Finish` or `Abort`.
pub fn run_tcp_check(configuration: &MonitorConfig, phase: CyclePhase, event: CycleEvent) -> (step: (
    CyclePhase,
    CycleAction,
))
    ensures
        step == next_step(*configuration, phase, event),
        step.1 is SendAlert ==> !step.1->ipv4_flag || !step.1->ipv6_flag,
        (step.1 is Finish || step.1 is Abort) <==> step.0 is Finished,
{
    match (phase, event) {
        (CyclePhase::Idle, CycleEvent::Started) => (
            CyclePhase::ProbingIpv4,
            CycleAction::ProbeIpv4,
        ),
        (CyclePhase::ProbingIpv4, CycleEvent::Probed(reachable)) => {
            if configuration.ipv6_enabled {
                (CyclePhase::ProbingIpv6 { ipv4_ok: reachable }, CycleAction::ProbeIpv6)
            } else {
                let outcome = CheckOutcome {
                    ipv4_ok: reachable,
                    ipv6_ok: true,
                    ipv6_checked: false,
                };
                (CyclePhase::LoadingState { outcome }, CycleAction::LoadState)
            }
        },
        (CyclePhase::ProbingIpv6 { ipv4_ok }, CycleEvent::Probed(reachable)) => {
            let outcome = CheckOutcome { ipv4_ok, ipv6_ok: reachable, ipv6_checked: true };
            (CyclePhase::LoadingState { outcome }, CycleAction::LoadState)
        },
        (CyclePhase::LoadingState { outcome }, CycleEvent::Loaded(Ok(state))) => {
            if outcome.is_failure() && state.count == u8::MAX {
                (CyclePhase::Finished, CycleAction::Abort { error: CycleError::CounterExhausted })
            } else {
                let (next, _) = escalate(state, outcome, configuration);
                (CyclePhase::SavingState { outcome, next }, CycleAction::SaveState { state: next })
            }
        },
        (CyclePhase::LoadingState { .. }, CycleEvent::Loaded(Err(error))) => {
            let error = match error {
                LoadError::StateUnavailable => CycleError::StateUnavailable,
                LoadError::StateCorrupt => CycleError::StateCorrupt,
            };
            (CyclePhase::Finished, CycleAction::Abort { error })
        },
        (CyclePhase::SavingState { outcome, next }, CycleEvent::Saved(Ok(_))) => {
            let decision = decide(
                outcome,
                next.count,
                configuration.how_many_failures_before_send_email,
            );
            if decision.should_alert && configuration.email_enabled {
                (
                    CyclePhase::Notifying { outcome, next },
                    CycleAction::SendAlert {
                        ipv4_flag: outcome.ipv4_ok,
                        ipv6_flag: outcome.ipv6_flag(),
                    },
                )
            } else {
                let report = CycleReport {
                    state: next,
                    decision,
                    notification: Notification::NotAttempted,
                };
                (CyclePhase::Finished, CycleAction::Finish { report })
            }
        },
        (CyclePhase::SavingState { .. }, CycleEvent::Saved(Err(_))) => (
            CyclePhase::Finished,
            CycleAction::Abort { error: CycleError::StateWriteError },
        ),
        (CyclePhase::Notifying { outcome, next }, CycleEvent::Notified(result)) => {
            let notification = match result {
                Ok(_) => Notification::Delivered,
                Err(error) => Notification::Failed { error },
            };
            let report = CycleReport {
                state: next,
                decision: decide(
                    outcome,
                    next.count,
                    configuration.how_many_failures_before_send_email,
                ),
                notification,
            };
            (CyclePhase::Finished, CycleAction::Finish { report })
        },
        _ => (CyclePhase::Finished, CycleAction::Abort { error: CycleError::UnexpectedEvent }),
    }
}

/// Every step moves the cycle forward, and a finished cycle stays finished:
/// a cycle ends after at most six steps.
pub proof fn lemma_step_advances(configuration: MonitorConfig, phase: CyclePhase, event: CycleEvent)
    ensures
        phase_rank(next_step(configuration, phase, event).0) <= 6,
        !(phase is Finished) ==> phase_rank(next_step(configuration, phase, event).0) > phase_rank(
            phase,
        ),
        phase is Finished ==> next_step(configuration, phase, event) == (
            CyclePhase::Finished,
            CycleAction::Abort { error: CycleError::UnexpectedEvent },
        ),
{
}

/// A record is stored only in answer to a record that was loaded, and what is
/// stored is the loaded record brought up to date: one failure more after a
/// failure cycle, cleared after a successful one.
pub proof fn lemma_save_follows_load(
    configuration: MonitorConfig,
    phase: CyclePhase,
    event: CycleEvent,
)
    requires
        next_step(configuration, phase, event).1 is SaveState,
    ensures
        phase is LoadingState,
        event is Loaded,
        event->Loaded_0 is Ok,
        ({
            let outcome = phase->LoadingState_outcome;
            let loaded = event->Loaded_0->Ok_0;
            let stored = next_step(configuration, phase, event).1->state;
            &&& stored == next_record(loaded, outcome)
            &&& stored.well_formed()
            &&& outcome.is_failure() ==> stored.failed && stored.count == loaded.count + 1
            &&& !outcome.is_failure() ==> !stored.failed && stored.count == 0
        }),
{
}

/// An alert is sent only once the new record is stored, only for a failure
/// cycle whose count has reached the threshold, and only where email is on.
pub proof fn lemma_alert_follows_save(
    configuration: MonitorConfig,
    phase: CyclePhase,
    event: CycleEvent,
)
    requires
        next_step(configuration, phase, event).1 is SendAlert,
    ensures
        configuration.email_enabled,
        event is Saved,
        event->Saved_0 is Ok,
        phase is SavingState,
        ({
            let outcome = phase->SavingState_outcome;
            let next = phase->SavingState_next;
            &&& outcome.is_failure()
            &&& next.count >= configuration.how_many_failures_before_send_email
            &&& next_step(configuration, phase, event) == (
                CyclePhase::Notifying { outcome, next },
                CycleAction::SendAlert { ipv4_flag: outcome.ipv4_ok, ipv6_flag: outcome.ipv6_flag() },
            )
        }),
{
}

/// However the delivery ends, the cycle finishes with the record that was
/// stored before the alert went out.
pub proof fn lemma_delivery_leaves_record(
    configuration: MonitorConfig,
    outcome: CheckOutcome,
    next: MonitorResult,
    result: Result<(), NotifyError>,
)
    ensures
        next_step(
            configuration,
            CyclePhase::Notifying { outcome, next },
            CycleEvent::Notified(result),
        ) == (
            CyclePhase::Finished,
            CycleAction::Finish {
                report: CycleReport {
                    state: next,
                    decision: decision_for(
                        outcome,
                        next.count,
                        configuration.how_many_failures_before_send_email,
                    ),
                    notification: notification_of(result),
                },
            },
        ),
{
}

} // verus!
