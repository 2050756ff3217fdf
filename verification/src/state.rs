//! The update agent's state machine: its states, the per-state action,
//! and the transition helpers the tick handlers apply.

use vstd::prelude::*;

use crate::release::Release;

verus! {

/// Maximum failed deployment attempts before a target is abandoned.
pub const MAX_DEPLOY_ATTEMPTS: u8 = 12;

/// Maximum reboot postponements per staged update, due to active
/// interactive user sessions.
pub const MAX_FINALIZE_POSTPONEMENTS: u8 = 10;

/// State of the update agent.
pub enum UpdateAgentState {
    /// Pre-initialization.
    StartState,
    /// Driver registered (or skipped), local deployments enumerated.
    Initialized,
    /// Strategy has acknowledged steady state once.
    ReportedSteady,
    /// Last poll returned no target.
    NoNewUpdate,
    /// Target chosen but not yet staged, with the count of failed
    /// deployment attempts.
    UpdateAvailable((Release, u8)),
    /// Image written to disk, reboot pending, with the number of
    /// user-session postponements remaining.
    UpdateStaged((Release, u8)),
    /// Reboot has been requested; awaiting process exit.
    UpdateFinalized(Release),
    /// Terminal; the machine takes no further action.
    EndState,
}

impl Clone for UpdateAgentState {
    fn clone(&self) -> (r: Self)
        ensures
            r == *self,
    {
        match self {
            UpdateAgentState::StartState => UpdateAgentState::StartState,
            UpdateAgentState::Initialized => UpdateAgentState::Initialized,
            UpdateAgentState::ReportedSteady => UpdateAgentState::ReportedSteady,
            UpdateAgentState::NoNewUpdate => UpdateAgentState::NoNewUpdate,
            UpdateAgentState::UpdateAvailable((r, c)) => UpdateAgentState::UpdateAvailable(
                (r.clone(), *c),
            ),
            UpdateAgentState::UpdateStaged((r, p)) => UpdateAgentState::UpdateStaged(
                (r.clone(), *p),
            ),
            UpdateAgentState::UpdateFinalized(r) => UpdateAgentState::UpdateFinalized(r.clone()),
            UpdateAgentState::EndState => UpdateAgentState::EndState,
        }
    }
}

/// Base refresh delay of the states that are not refreshed on a
/// steady or strategy-retry pace: a short fixed pause.
pub const DEFAULT_REFRESH_PERIOD_SECS: u64 = 2;

/// Base delay before retrying finalization of a staged update.
pub const POSTPONEMENT_RETRY_PERIOD_SECS: u64 = 60;

/// Base refresh delay and jitter flag of a state. `NoNewUpdate` polls
/// on the configured steady interval with jitter; a staged update is
/// retried on a short jittered pace; every other state gets the short
/// fixed pause. The scheduler consults this table only for states it
/// schedules at all, so the row for `EndState` is never reached.
pub open spec fn spec_refresh_delay_table(s: UpdateAgentState, steady_interval_secs: u64) -> (
    u64,
    bool,
) {
    match s {
        UpdateAgentState::NoNewUpdate => (steady_interval_secs, true),
        UpdateAgentState::UpdateStaged(_) => (POSTPONEMENT_RETRY_PERIOD_SECS, true),
        _ => (DEFAULT_REFRESH_PERIOD_SECS, false),
    }
}

/// Whether two states are the same variant, whatever they carry.
pub open spec fn same_variant(a: UpdateAgentState, b: UpdateAgentState) -> bool {
    match (a, b) {
        (UpdateAgentState::StartState, UpdateAgentState::StartState) => true,
        (UpdateAgentState::Initialized, UpdateAgentState::Initialized) => true,
        (UpdateAgentState::ReportedSteady, UpdateAgentState::ReportedSteady) => true,
        (UpdateAgentState::NoNewUpdate, UpdateAgentState::NoNewUpdate) => true,
        (UpdateAgentState::UpdateAvailable(_), UpdateAgentState::UpdateAvailable(_)) => true,
        (UpdateAgentState::UpdateStaged(_), UpdateAgentState::UpdateStaged(_)) => true,
        (UpdateAgentState::UpdateFinalized(_), UpdateAgentState::UpdateFinalized(_)) => true,
        (UpdateAgentState::EndState, UpdateAgentState::EndState) => true,
        _ => false,
    }
}

/// The action the agent performs in a given state.
pub enum Action {
    Initialize,
    ReportSteady,
    CheckUpdates,
    Stage(Release),
    Finalize(Release),
    WaitForReboot(Release),
    Nop,
}

/// The fixed state-to-action mapping of the machine.
pub open spec fn spec_action_for(s: UpdateAgentState) -> Action {
    match s {
        UpdateAgentState::StartState => Action::Initialize,
        UpdateAgentState::Initialized => Action::ReportSteady,
        UpdateAgentState::ReportedSteady => Action::CheckUpdates,
        UpdateAgentState::NoNewUpdate => Action::CheckUpdates,
        UpdateAgentState::UpdateAvailable((r, _)) => Action::Stage(r),
        UpdateAgentState::UpdateStaged((r, _)) => Action::Finalize(r),
        UpdateAgentState::UpdateFinalized(r) => Action::WaitForReboot(r),
        UpdateAgentState::EndState => Action::Nop,
    }
}

/// Once `EndState` is reached the machine asks for no further action,
/// so no external call to the deployment subsystem, the update graph
/// or the strategy is made on its behalf again.
pub proof fn lemma_end_state_quiescent(s: UpdateAgentState)
    requires
        s is EndState,
    ensures
        spec_action_for(s) is Nop,
{
}

impl UpdateAgentState {
    /// The action to perform in the current state. The machine never
    /// performs I/O itself; it only chooses.
    pub fn action_for(&self) -> (a: Action)
        ensures
            a == spec_action_for(*self),
    {
        match self {
            UpdateAgentState::StartState => Action::Initialize,
            UpdateAgentState::Initialized => Action::ReportSteady,
            UpdateAgentState::ReportedSteady => Action::CheckUpdates,
            UpdateAgentState::NoNewUpdate => Action::CheckUpdates,
            UpdateAgentState::UpdateAvailable((r, _)) => Action::Stage(r.clone()),
            UpdateAgentState::UpdateStaged((r, _)) => Action::Finalize(r.clone()),
            UpdateAgentState::UpdateFinalized(r) => Action::WaitForReboot(r.clone()),
            UpdateAgentState::EndState => Action::Nop,
        }
    }

    /// Pausing interval and jitter flag for the next refresh cycle in
    /// the current state.
    pub fn get_refresh_delay(&self, steady_interval_secs: u64) -> (r: (u64, bool))
        ensures
            r == spec_refresh_delay_table(*self, steady_interval_secs),
    {
        match self {
            UpdateAgentState::NoNewUpdate => (steady_interval_secs, true),
            UpdateAgentState::UpdateStaged(_) => (POSTPONEMENT_RETRY_PERIOD_SECS, true),
            _ => (DEFAULT_REFRESH_PERIOD_SECS, false),
        }
    }

    /// Initialization complete with auto-updates enabled.
    pub fn initialized(&mut self)
        ensures
            *final(self) == UpdateAgentState::Initialized,
    {
        *self = UpdateAgentState::Initialized;
    }

    /// The machine is done.
    pub fn end(&mut self)
        ensures
            *final(self) == UpdateAgentState::EndState,
    {
        *self = UpdateAgentState::EndState;
    }

    /// The strategy acknowledged steady state.
    pub fn reported_steady(&mut self)
        ensures
            *final(self) == UpdateAgentState::ReportedSteady,
    {
        *self = UpdateAgentState::ReportedSteady;
    }

    /// The last poll returned no target.
    pub fn no_new_update(&mut self)
        ensures
            *final(self) == UpdateAgentState::NoNewUpdate,
    {
        *self = UpdateAgentState::NoNewUpdate;
    }

    /// A new target was chosen: its failed-deployment count starts at
    /// zero.
    pub fn update_available(&mut self, update: Release)
        ensures
            *final(self) == UpdateAgentState::UpdateAvailable((update, 0u8)),
    {
        *self = UpdateAgentState::UpdateAvailable((update, 0));
    }

    /// The target was staged: postponements are reset on every entry
    /// to `UpdateStaged`.
    pub fn update_staged(&mut self, update: Release)
        ensures
            *final(self) == UpdateAgentState::UpdateStaged((update, MAX_FINALIZE_POSTPONEMENTS)),
    {
        *self = UpdateAgentState::UpdateStaged((update, MAX_FINALIZE_POSTPONEMENTS));
    }

    /// The staged target was finalized; a reboot has been requested.
    pub fn update_finalized(&mut self, update: Release)
        ensures
            *final(self) == UpdateAgentState::UpdateFinalized(update),
    {
        *self = UpdateAgentState::UpdateFinalized(update);
    }

    /// Record a failed deployment attempt; abandon the target once the
    /// count reaches `MAX_DEPLOY_ATTEMPTS`. Returns whether the target
    /// was abandoned and the total failed attempts. The target release
    /// itself is never exchanged here, so the count grows within one
    /// `UpdateAvailable` episode only.
    pub fn record_failed_deploy(&mut self) -> (r: (bool, u8))
        requires
            *old(self) is UpdateAvailable,
        ensures
            ({
                let (release, fail_count) = (*old(self))->UpdateAvailable_0;
                let new_count = fail_count.saturating_add(1);
                let abandoned = new_count >= MAX_DEPLOY_ATTEMPTS;
                &&& r == (abandoned, new_count)
                &&& abandoned ==> *final(self) == UpdateAgentState::NoNewUpdate
                &&& !abandoned ==> *final(self) == UpdateAgentState::UpdateAvailable(
                    (release, new_count),
                )
            }),
    {
        match self {
            UpdateAgentState::UpdateAvailable((release, fail_count)) => {
                let new_count = fail_count.saturating_add(1);
                if new_count >= MAX_DEPLOY_ATTEMPTS {
                    *self = UpdateAgentState::NoNewUpdate;
                    (true, new_count)
                } else {
                    let update = release.clone();
                    *self = UpdateAgentState::UpdateAvailable((update, new_count));
                    (false, new_count)
                }
            },
            _ => (false, 0),
        }
    }

    /// Record one user-session postponement; the counter never goes
    /// below zero.
    pub fn record_postponement(&mut self)
        requires
            *old(self) is UpdateStaged,
        ensures
            ({
                let (release, remaining) = (*old(self))->UpdateStaged_0;
                *final(self) == UpdateAgentState::UpdateStaged(
                    (release, remaining.saturating_sub(1)),
                )
            }),
    {
        match self {
            UpdateAgentState::UpdateStaged((release, remaining)) => {
                let update = release.clone();
                let left = remaining.saturating_sub(1);
                *self = UpdateAgentState::UpdateStaged((update, left));
            },
            _ => {},
        }
    }

    /// Whether the user-session gate admits finalization: it does once
    /// no postponements remain, when no interactive session is active,
    /// or when a privileged caller forces it.
    pub fn usersessions_can_finalize(&self, sessions_active: bool, force: bool) -> (r: bool)
        requires
            self is UpdateStaged,
        ensures
            r == (force || self->UpdateStaged_0.1 == 0 || !sessions_active),
    {
        match self {
            UpdateAgentState::UpdateStaged((_, remaining)) => {
                force || *remaining == 0 || !sessions_active
            },
            _ => false,
        }
    }
}

} // verus!
