//! What holds of a whole check cycle, whatever the outside world answers.
//!
//! A run is a cycle begun in [`CyclePhase::Idle`] together with the events
//! reported to it so far. The laws below speak of every run: the actions come
//! in one fixed order and each at most once, nothing is stored after a record
//! that could not be loaded, and an alert goes out only after the new record
//! has been stored.

use vstd::prelude::*;
use crate::cycle::{
    next_step, phase_rank, CycleAction, CycleError, CycleEvent, CyclePhase,
};
use crate::settings::MonitorConfig;

verus! {

/// The phase of a run after the first `n` of its events.
pub open spec fn phase_at(configuration: MonitorConfig, events: Seq<CycleEvent>, n: int) -> CyclePhase
    recommends
        0 <= n <= events.len(),
    decreases n,
{
    if n <= 0 {
        CyclePhase::Idle
    } else {
        next_step(configuration, phase_at(configuration, events, n - 1), events[n - 1]).0
    }
}

/// The action with which a run answers its `n`-th event, counted from one.
pub open spec fn action_at(configuration: MonitorConfig, events: Seq<CycleEvent>, n: int) -> CycleAction
    recommends
        1 <= n <= events.len(),
{
    next_step(configuration, phase_at(configuration, events, n - 1), events[n - 1]).1
}

/// The place of an action in the order of a cycle.
pub open spec fn action_rank(action: CycleAction) -> nat {
    match action {
        CycleAction::ProbeIpv4 => 1,
        CycleAction::ProbeIpv6 => 2,
        CycleAction::LoadState => 3,
        CycleAction::SaveState { .. } => 4,
        CycleAction::SendAlert { .. } => 5,
        CycleAction::Finish { .. } => 6,
        CycleAction::Abort { .. } => 6,
    }
}

/// Each action announces the phase that waits for its result; the record that
/// a cycle waits to see stored is the one it asked to store.
pub proof fn lemma_action_names_phase(
    configuration: MonitorConfig,
    phase: CyclePhase,
    event: CycleEvent,
)
    ensures
        action_rank(next_step(configuration, phase, event).1) == phase_rank(
            next_step(configuration, phase, event).0,
        ),
        next_step(configuration, phase, event).0 is SavingState ==> next_step(
            configuration,
            phase,
            event,
        ).1 == (CycleAction::SaveState {
            state: next_step(configuration, phase, event).0->SavingState_next,
        }),
        next_step(configuration, phase, event).0 is Notifying ==> phase is SavingState
            && phase->SavingState_next == next_step(configuration, phase, event).0->Notifying_next,
{
}

/// A run never goes back: later phases rank at least as high, and strictly
/// higher as long as the cycle has not ended.
pub proof fn lemma_run_advances(
    configuration: MonitorConfig,
    events: Seq<CycleEvent>,
    i: int,
    j: int,
)
    requires
        0 <= i <= j <= events.len(),
    ensures
        phase_rank(phase_at(configuration, events, i)) <= phase_rank(
            phase_at(configuration, events, j),
        ),
        i < j && !(phase_at(configuration, events, i) is Finished) ==> phase_rank(
            phase_at(configuration, events, i),
        ) < phase_rank(phase_at(configuration, events, j)),
        phase_at(configuration, events, i) is Finished ==> phase_at(configuration, events, j)
            is Finished,
    decreases j - i,
{
    if i < j {
        lemma_run_advances(configuration, events, i, j - 1);
    }
}

/// The actions of a run come in the order probe, load, store, alert, end, and
/// each at most once; after its end a cycle only refuses what it is told.
pub proof fn lemma_actions_in_order(
    configuration: MonitorConfig,
    events: Seq<CycleEvent>,
    i: int,
    j: int,
)
    requires
        1 <= i < j <= events.len(),
    ensures
        action_rank(action_at(configuration, events, i)) < action_rank(
            action_at(configuration, events, j),
        ) || action_at(configuration, events, j) == (CycleAction::Abort {
            error: CycleError::UnexpectedEvent,
        }),
{
    lemma_run_advances(configuration, events, i, j - 1);
    lemma_run_advances(configuration, events, j - 1, j);
    lemma_action_names_phase(
        configuration,
        phase_at(configuration, events, i - 1),
        events[i - 1],
    );
    lemma_action_names_phase(
        configuration,
        phase_at(configuration, events, j - 1),
        events[j - 1],
    );
}

/// Where a run gives up because its record could not be loaded, it never
/// asks for a record to be stored nor for an alert to be sent.
pub proof fn lemma_failed_load_run_stores_nothing(
    configuration: MonitorConfig,
    events: Seq<CycleEvent>,
    i: int,
    k: int,
)
    requires
        1 <= i <= events.len(),
        1 <= k <= events.len(),
        action_at(configuration, events, i) == (CycleAction::Abort {
            error: CycleError::StateUnavailable,
        }) || action_at(configuration, events, i) == (CycleAction::Abort {
            error: CycleError::StateCorrupt,
        }),
    ensures
        !(action_at(configuration, events, k) is SaveState),
        !(action_at(configuration, events, k) is SendAlert),
{
    if k < i {
        lemma_run_advances(configuration, events, k, i - 1);
        lemma_action_names_phase(
            configuration,
            phase_at(configuration, events, k - 1),
            events[k - 1],
        );
    } else if k > i {
        lemma_run_advances(configuration, events, i, k - 1);
    }
}

/// Where a run asks for an alert, the step before asked for the new record
/// to be stored, that record counts a failure and has reached the threshold,
/// and the store succeeded. The delivery, however it ends, finishes the cycle
/// with that very record.
pub proof fn lemma_alert_run_has_stored(
    configuration: MonitorConfig,
    events: Seq<CycleEvent>,
    i: int,
)
    requires
        1 <= i <= events.len(),
        action_at(configuration, events, i) is SendAlert,
    ensures
        i >= 2,
        events[i - 1] is Saved,
        events[i - 1]->Saved_0 is Ok,
        action_at(configuration, events, i - 1) is SaveState,
        ({
            let stored = action_at(configuration, events, i - 1)->state;
            &&& stored.failed
            &&& stored.count >= 1
            &&& stored.count >= configuration.how_many_failures_before_send_email
            &&& i < events.len() && events[i] is Notified ==> {
                &&& action_at(configuration, events, i + 1) is Finish
                &&& action_at(configuration, events, i + 1)->report.state == stored
                &&& action_at(configuration, events, i + 1)->report.decision.should_alert
            }
        }),
{
    let earlier = phase_at(configuration, events, i - 2);
    lemma_action_names_phase(configuration, earlier, events[i - 2]);
}

} // verus!
