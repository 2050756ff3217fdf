//! Tests for the external request surface: forced checks and forced
//! finalizations observe the post-tick state.

use zincati::agent::UpdateAgent;
use zincati::ipc::IpcError;
use zincati::ipc::RefreshTickCommand;
use zincati::ipc::check_update_response;
use zincati::ipc::command_applies;
use zincati::ipc::finalize_update_response;
use zincati::release::Identity;
use zincati::release::Release;
use zincati::release::ReleaseSet;
use zincati::state::UpdateAgentState;

fn release(version: &str, checksum: &str, age_index: Option<u64>) -> Release {
    Release { version: version.to_string(), checksum: checksum.to_string(), age_index }
}

fn identity() -> Identity {
    Identity {
        current_os: release("39.20231204.0", "sha-booted", Some(4)),
        basearch: "x86_64".to_string(),
        stream: "stable".to_string(),
        node_uuid: "7ddc1282c5f0495b978de9a8dcb5e0a5".to_string(),
    }
}

#[test]
fn check_update_returns_version() {
    // While no new update is known, a forced check against a graph
    // that now offers a release turns up its version.
    let mut a = UpdateAgent::new(true, false, 300, identity()).unwrap();
    a.state = UpdateAgentState::NoNewUpdate;
    let cmd = RefreshTickCommand::CheckUpdate;
    assert!(command_applies(&a.state, &cmd));

    let mut depls = ReleaseSet::new();
    depls.insert(a.identity.current_os.clone());
    a.tick_check_updates(Some(&depls), Some(release("40.20240101.0", "abc", Some(5))));

    let reply = check_update_response(&a.state).unwrap();
    assert_eq!(reply, vec!["40.20240101.0".to_string()]);
}

#[test]
fn check_update_empty_when_no_update() {
    let state = UpdateAgentState::NoNewUpdate;
    let reply = check_update_response(&state).unwrap();
    assert!(reply.is_empty());
}

#[test]
fn check_update_rejects_unexpected_states() {
    for state in [
        UpdateAgentState::StartState,
        UpdateAgentState::Initialized,
        UpdateAgentState::ReportedSteady,
        UpdateAgentState::UpdateStaged((release("v", "c", None), 10)),
        UpdateAgentState::UpdateFinalized(release("v", "c", None)),
        UpdateAgentState::EndState,
    ] {
        assert_eq!(check_update_response(&state).unwrap_err(), IpcError::UnexpectedState);
    }
}

#[test]
fn finalize_update_reports_outcome() {
    let staged = UpdateAgentState::UpdateStaged((release("40.20240101.0", "abc", Some(5)), 10));
    assert_eq!(finalize_update_response(&staged).unwrap_err(), IpcError::FinalizationFailed);

    let finalized = UpdateAgentState::UpdateFinalized(release("40.20240101.0", "abc", Some(5)));
    let reply = finalize_update_response(&finalized).unwrap();
    assert_eq!(reply, vec!["40.20240101.0".to_string()]);

    let idle = UpdateAgentState::NoNewUpdate;
    assert_eq!(finalize_update_response(&idle).unwrap_err(), IpcError::UnexpectedState);
}

#[test]
fn commands_apply_in_matching_states() {
    let check = RefreshTickCommand::CheckUpdate;
    assert!(command_applies(&UpdateAgentState::ReportedSteady, &check));
    assert!(command_applies(&UpdateAgentState::NoNewUpdate, &check));
    assert!(!command_applies(&UpdateAgentState::StartState, &check));
    assert!(!command_applies(&UpdateAgentState::EndState, &check));

    let finalize = RefreshTickCommand::FinalizeUpdate { force: true };
    assert!(command_applies(
        &UpdateAgentState::UpdateStaged((release("v", "c", None), 10)),
        &finalize
    ));
    assert!(!command_applies(&UpdateAgentState::NoNewUpdate, &finalize));
}
