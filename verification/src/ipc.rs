//! Response logic of the external request surface: privileged callers
//! may force an update check or a finalization attempt and observe the
//! state after the tick they caused.

use vstd::prelude::*;

use crate::state::UpdateAgentState;

verus! {

/// Why an external request failed.
#[derive(Clone, Copy, Debug, PartialEq, Eq, Structural)]
pub enum IpcError {
    /// The agent reached a state the request does not expect after
    /// the tick it forced.
    UnexpectedState,
    /// The finalization attempt left the update staged.
    FinalizationFailed,
}

/// An external command attached to a forced tick, overriding the
/// default action for one cycle.
pub enum RefreshTickCommand {
    /// Check for an update immediately.
    CheckUpdate,
    /// Finalize the staged update immediately; `force` bypasses the
    /// user-session gate only.
    FinalizeUpdate { force: bool },
}

/// Whether a forced command applies in the current state: an update
/// check from the states that normally permit polling, a finalization
/// while an update is staged.
pub fn command_applies(state: &UpdateAgentState, command: &RefreshTickCommand) -> (r: bool)
    ensures
        r == match *command {
            RefreshTickCommand::CheckUpdate => *state is ReportedSteady || *state is NoNewUpdate,
            RefreshTickCommand::FinalizeUpdate { .. } => *state is UpdateStaged,
        },
{
    match command {
        RefreshTickCommand::CheckUpdate => {
            match state {
                UpdateAgentState::ReportedSteady => true,
                UpdateAgentState::NoNewUpdate => true,
                _ => false,
            }
        },
        RefreshTickCommand::FinalizeUpdate { .. } => {
            match state {
                UpdateAgentState::UpdateStaged(_) => true,
                _ => false,
            }
        },
    }
}

/// Reply to a forced update check: nothing when the post-tick state
/// is `NoNewUpdate`, the target's version when an update is
/// available, and a protocol error in any other state.
pub fn check_update_response(state: &UpdateAgentState) -> (r: Result<Vec<String>, IpcError>)
    ensures
        *state is NoNewUpdate ==> (r matches Ok(v) && v@.len() == 0),
        *state matches UpdateAgentState::UpdateAvailable((release, _)) ==> (r matches Ok(v)
            && v@.len() == 1 && v@[0] == release.version),
        !(*state is NoNewUpdate || *state is UpdateAvailable) ==> r == Err::<Vec<String>, IpcError>(
            IpcError::UnexpectedState,
        ),
{
    match state {
        UpdateAgentState::NoNewUpdate => Ok(Vec::new()),
        UpdateAgentState::UpdateAvailable((release, _)) => {
            let mut v: Vec<String> = Vec::new();
            v.push(release.version.clone());
            Ok(v)
        },
        _ => Err(IpcError::UnexpectedState),
    }
}

/// Reply to a forced finalization: the target's version once the
/// update is finalized, a failure while it is still staged, and a
/// protocol error in any other state.
pub fn finalize_update_response(state: &UpdateAgentState) -> (r: Result<Vec<String>, IpcError>)
    ensures
        *state is UpdateStaged ==> r == Err::<Vec<String>, IpcError>(IpcError::FinalizationFailed),
        *state matches UpdateAgentState::UpdateFinalized(release) ==> (r matches Ok(v) && v@.len()
            == 1 && v@[0] == release.version),
        !(*state is UpdateStaged || *state is UpdateFinalized) ==> r == Err::<
            Vec<String>,
            IpcError,
        >(IpcError::UnexpectedState),
{
    match state {
        UpdateAgentState::UpdateStaged(_) => Err(IpcError::FinalizationFailed),
        UpdateAgentState::UpdateFinalized(release) => {
            let mut v: Vec<String> = Vec::new();
            v.push(release.version.clone());
            Ok(v)
        },
        _ => Err(IpcError::UnexpectedState),
    }
}

} // verus!
