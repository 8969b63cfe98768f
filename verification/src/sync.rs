//! What the service does around key synchronization: at start-up it either
//! synchronizes (keys to fetch) or is ready at once (keys given), and after
//! each synchronization it counts the attempt, counts a failure, and becomes
//! ready on success. Readiness, once reached, is never lost.
use vstd::prelude::*;
use crate::health::HealthState;
use crate::schema::ValidatorConfiguration;

verus! {

/// What to report after a synchronization attempt.
#[derive(Debug, Clone, Copy, PartialEq, Eq, Structural)]
pub struct SyncActions {
    /// Count a key refresh attempt.
    pub count_attempt: bool,
    /// Count a key refresh error.
    pub count_failure: bool,
    /// Report the validator as ready.
    pub report_ready: bool,
}

/// Readiness after a synchronization attempt with the given outcome.
pub open spec fn ready_after_sync(ready: bool, succeeded: bool) -> bool {
    ready || succeeded
}

/// Readiness after a run of synchronization outcomes, in order.
pub open spec fn ready_after_syncs(ready: bool, outcomes: Seq<bool>) -> bool
    decreases outcomes.len(),
{
    if outcomes.len() == 0 {
        ready
    } else {
        ready_after_syncs(ready_after_sync(ready, outcomes[0]), outcomes.drop_first())
    }
}

/// Records the outcome of a synchronization attempt: the attempt is counted,
/// a failure is counted as such and leaves readiness as it was, a success
/// makes the validator ready.
pub fn record_sync(state: &mut HealthState, succeeded: bool) -> (a: SyncActions)
    ensures
        final(state)@ == ready_after_sync(old(state)@, succeeded),
        a == (SyncActions { count_attempt: true, count_failure: !succeeded, report_ready: succeeded }),
{
    if succeeded {
        state.mark_validator_ready();
    }
    SyncActions { count_attempt: true, count_failure: !succeeded, report_ready: succeeded }
}

/// Start-up: with keys given up front the validator is ready at once and no
/// synchronization is scheduled; otherwise the state is left for the initial
/// synchronization. Returns whether synchronization is to be run and
/// scheduled.
pub fn start_up(state: &mut HealthState, config: &ValidatorConfiguration) -> (sync: bool)
    ensures
        sync == config.spec_requires_refresh(),
        config matches ValidatorConfiguration::Team(t) && (sync <==> t.static_keys is None),
        !sync ==> final(state)@,
        sync ==> final(state)@ == old(state)@,
{
    if config.requires_refresh() {
        true
    } else {
        state.mark_validator_ready();
        false
    }
}

/// Readiness is never lost: once ready, the validator stays ready whatever
/// synchronizations follow; and it is ready after a run exactly when it was
/// ready before or some synchronization in the run succeeded.
pub proof fn lemma_readiness_monotone(ready: bool, outcomes: Seq<bool>)
    ensures
        ready ==> ready_after_syncs(ready, outcomes),
        ready_after_syncs(ready, outcomes) <==> (ready || outcomes.contains(true)),
    decreases outcomes.len(),
{
    if outcomes.len() > 0 {
        lemma_readiness_monotone(ready_after_sync(ready, outcomes[0]), outcomes.drop_first());
        if outcomes.contains(true) {
            let i = choose|i: int| 0 <= i < outcomes.len() && outcomes[i] == true;
            if i > 0 {
                assert(outcomes.drop_first()[i - 1] == true);
            }
        }
        if outcomes.drop_first().contains(true) {
            let i = choose|i: int| 0 <= i < outcomes.drop_first().len() && outcomes.drop_first()[i] == true;
            assert(outcomes[i + 1] == true);
        }
    }
}

} // verus!
