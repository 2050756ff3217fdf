//! End-to-end scenarios of the update agent state machine and its
//! tick scheduler.

use zincati::agent::TickSchedule;
use zincati::agent::UpdateAgent;
use zincati::agent::excluded_deployments;
use zincati::metrics::Metrics;
use zincati::release::Identity;
use zincati::release::Release;
use zincati::release::ReleaseSet;
use zincati::state::Action;
use zincati::state::DEFAULT_REFRESH_PERIOD_SECS;
use zincati::state::MAX_DEPLOY_ATTEMPTS;
use zincati::state::MAX_FINALIZE_POSTPONEMENTS;
use zincati::state::UpdateAgentState;

fn release(version: &str, checksum: &str, age_index: Option<u64>) -> Release {
    Release { version: version.to_string(), checksum: checksum.to_string(), age_index }
}

fn identity() -> Identity {
    Identity {
        current_os: release("39.20231204.0", "sha-booted", Some(4)),
        basearch: "x86_64".to_string(),
        stream: "stable".to_string(),
        node_uuid: "7ddc1282c5f0495b978de9a8dcb5e0a5".to_string(),
    }
}

fn agent(enabled: bool) -> UpdateAgent {
    UpdateAgent::new(enabled, false, 300, identity()).unwrap()
}

fn local_set(agent: &UpdateAgent) -> ReleaseSet {
    let mut set = ReleaseSet::new();
    set.insert(agent.identity.current_os.clone());
    set
}

fn target() -> Release {
    release("40.20240101.0", "abc", Some(5))
}

#[test]
fn test_should_tick_immediately() {
    // Dummy `Release`.
    let update = Release {
        version: "v1".to_string(),
        checksum: "ostree-checksum".to_string(),
        age_index: None,
    };

    // Transition between states with different discriminants.
    let prev_state = UpdateAgentState::Initialized;
    let cur_state = UpdateAgentState::ReportedSteady;
    assert!(UpdateAgent::should_tick_immediately(&prev_state, &cur_state));
    let prev_state = UpdateAgentState::NoNewUpdate;
    let cur_state = UpdateAgentState::UpdateAvailable((update.clone(), 0));
    assert!(UpdateAgent::should_tick_immediately(&prev_state, &cur_state));
    // Note we do NOT expect an immediate tick as this is a special case.
    let prev_state = UpdateAgentState::ReportedSteady;
    let cur_state = UpdateAgentState::NoNewUpdate;
    assert!(!UpdateAgent::should_tick_immediately(&prev_state, &cur_state));

    // Transition between states with same discriminants.
    let prev_state = UpdateAgentState::NoNewUpdate;
    let cur_state = UpdateAgentState::NoNewUpdate;
    assert!(!UpdateAgent::should_tick_immediately(&prev_state, &cur_state));
    let prev_state = UpdateAgentState::UpdateAvailable((update.clone(), 0));
    let cur_state = UpdateAgentState::UpdateAvailable((update.clone(), 1));
    assert!(!UpdateAgent::should_tick_immediately(&prev_state, &cur_state));
    let prev_state = UpdateAgentState::UpdateStaged((update.clone(), MAX_FINALIZE_POSTPONEMENTS));
    let cur_state = UpdateAgentState::UpdateStaged((
        update.clone(),
        MAX_FINALIZE_POSTPONEMENTS.saturating_sub(1),
    ));
    assert!(!UpdateAgent::should_tick_immediately(&prev_state, &cur_state));
}

#[test]
fn fresh_start_disabled_halts() {
    let mut a = agent(false);
    let prev = UpdateAgentState::StartState;
    let excluded = a.tick_initialize(None);
    assert!(excluded.is_none());
    assert!(matches!(a.state, UpdateAgentState::EndState));
    // The scheduler emits no further ticks and the machine asks for
    // no further action.
    assert!(matches!(a.refresh_delay(&prev, &a.state.clone()), TickSchedule::Halt));
    assert!(matches!(a.state.action_for(), Action::Nop));
}

#[test]
fn no_update_available_polls_steadily() {
    let mut a = agent(true);
    let depls = local_set(&a);

    let excluded = a.tick_initialize(Some(&depls));
    assert_eq!(excluded.unwrap().len(), 0);
    assert!(matches!(a.state, UpdateAgentState::Initialized));

    a.tick_report_steady(true);
    assert!(matches!(a.state, UpdateAgentState::ReportedSteady));

    let prev = a.state.clone();
    a.tick_check_updates(Some(&depls), None);
    assert!(matches!(a.state, UpdateAgentState::NoNewUpdate));
    // Settling from ReportedSteady into NoNewUpdate is treated as
    // stable: a jittered steady delay, not an immediate tick.
    let bound = 300 + 10 * (300 / 100);
    match a.refresh_delay(&prev, &a.state.clone()) {
        TickSchedule::After(d) => assert!(300 <= d && d <= bound),
        _ => panic!("expected a delayed tick"),
    }

    let prev = a.state.clone();
    a.tick_check_updates(Some(&depls), None);
    assert!(matches!(a.state, UpdateAgentState::NoNewUpdate));
    match a.refresh_delay(&prev, &a.state.clone()) {
        TickSchedule::After(d) => assert!(300 <= d && d <= bound),
        _ => panic!("expected a delayed tick"),
    }
}

#[test]
fn failed_deployment_query_keeps_state() {
    let mut a = agent(true);
    let depls = local_set(&a);
    a.tick_initialize(Some(&depls));
    a.tick_report_steady(true);

    // A transient deployment-tool failure leaves the state unchanged;
    // the retry comes on the short fixed delay, not the steady
    // interval.
    let prev = a.state.clone();
    a.tick_check_updates(None, None);
    assert!(matches!(a.state, UpdateAgentState::ReportedSteady));
    match a.refresh_delay(&prev, &a.state.clone()) {
        TickSchedule::After(d) => assert_eq!(d, DEFAULT_REFRESH_PERIOD_SECS),
        _ => panic!("expected a delayed tick"),
    }

    // The graph is never consulted without the deployment list: a
    // candidate without one changes nothing either.
    a.tick_check_updates(Some(&depls), None);
    assert!(matches!(a.state, UpdateAgentState::NoNewUpdate));
    a.tick_check_updates(None, Some(target()));
    assert!(matches!(a.state, UpdateAgentState::NoNewUpdate));
}

#[test]
fn update_staged_and_finalized() {
    let mut a = agent(true);
    let mut metrics = Metrics::new();
    let depls = local_set(&a);

    a.tick_initialize(Some(&depls));
    a.tick_report_steady(true);
    a.tick_check_updates(Some(&depls), None);
    assert!(matches!(a.state, UpdateAgentState::NoNewUpdate));

    let prev = a.state.clone();
    a.tick_check_updates(Some(&depls), Some(target()));
    match &a.state {
        UpdateAgentState::UpdateAvailable((r, fail_count)) => {
            assert_eq!(r.version, "40.20240101.0");
            assert_eq!(*fail_count, 0);
        },
        _ => panic!("expected an available update"),
    }
    // A state change warrants an immediate tick.
    assert!(matches!(a.refresh_delay(&prev, &a.state.clone()), TickSchedule::Immediate));

    let (abandoned, _) = a.tick_stage_update(true);
    assert!(!abandoned);
    match &a.state {
        UpdateAgentState::UpdateStaged((r, remaining)) => {
            assert_eq!(r.version, "40.20240101.0");
            assert_eq!(*remaining, MAX_FINALIZE_POSTPONEMENTS);
        },
        _ => panic!("expected a staged update"),
    }

    let proceed = a.tick_finalize_update(&mut metrics, true, false, false);
    assert!(proceed);
    a.apply_finalize_outcome(&mut metrics, true);
    match &a.state {
        UpdateAgentState::UpdateFinalized(r) => assert_eq!(r.version, "40.20240101.0"),
        _ => panic!("expected a finalized update"),
    }
    assert!(metrics.finalization_attempts >= 1);
    assert_eq!(metrics.finalization_successes, 1);

    a.tick_end();
    assert!(matches!(a.state, UpdateAgentState::EndState));
}

#[test]
fn stage_failures_abandon_target() {
    let mut a = agent(true);
    let depls = local_set(&a);
    a.tick_initialize(Some(&depls));
    a.tick_report_steady(true);
    a.tick_check_updates(Some(&depls), Some(target()));

    for expected_count in 1..MAX_DEPLOY_ATTEMPTS {
        let (abandoned, fail_count) = a.tick_stage_update(false);
        assert!(!abandoned);
        assert_eq!(fail_count, expected_count);
        match &a.state {
            UpdateAgentState::UpdateAvailable((r, count)) => {
                assert_eq!(r.version, "40.20240101.0");
                assert_eq!(*count, expected_count);
            },
            _ => panic!("expected the target to be kept"),
        }
    }

    let (abandoned, fail_count) = a.tick_stage_update(false);
    assert!(abandoned);
    assert_eq!(fail_count, MAX_DEPLOY_ATTEMPTS);
    assert!(matches!(a.state, UpdateAgentState::NoNewUpdate));
}

#[test]
fn user_sessions_block_then_admit() {
    let mut a = agent(true);
    let mut metrics = Metrics::new();
    a.state = UpdateAgentState::UpdateStaged((target(), MAX_FINALIZE_POSTPONEMENTS));

    for spent in 1..=MAX_FINALIZE_POSTPONEMENTS {
        let proceed = a.tick_finalize_update(&mut metrics, true, true, false);
        assert!(!proceed);
        match &a.state {
            UpdateAgentState::UpdateStaged((_, remaining)) => {
                assert_eq!(*remaining, MAX_FINALIZE_POSTPONEMENTS - spent);
            },
            _ => panic!("expected the update to stay staged"),
        }
    }
    assert_eq!(
        metrics.finalization_blocked_usersessions,
        u64::from(MAX_FINALIZE_POSTPONEMENTS)
    );

    // The postponement budget is spent: the session gate is bypassed.
    let proceed = a.tick_finalize_update(&mut metrics, true, true, false);
    assert!(proceed);
    a.apply_finalize_outcome(&mut metrics, true);
    assert!(matches!(a.state, UpdateAgentState::UpdateFinalized(_)));
}

#[test]
fn strategy_block_resets_postponements() {
    let mut a = agent(true);
    let mut metrics = Metrics::new();
    a.state = UpdateAgentState::UpdateStaged((target(), 3));

    let proceed = a.tick_finalize_update(&mut metrics, false, false, false);
    assert!(!proceed);
    match &a.state {
        UpdateAgentState::UpdateStaged((_, remaining)) => {
            assert_eq!(*remaining, MAX_FINALIZE_POSTPONEMENTS);
        },
        _ => panic!("expected the update to stay staged"),
    }
    assert_eq!(metrics.finalization_blocked_usersessions, 0);
}

#[test]
fn force_bypasses_session_gate_only() {
    let mut a = agent(true);
    let mut metrics = Metrics::new();
    a.state = UpdateAgentState::UpdateStaged((target(), MAX_FINALIZE_POSTPONEMENTS));

    // Force does not bypass the strategy gate.
    let proceed = a.tick_finalize_update(&mut metrics, false, true, true);
    assert!(!proceed);

    // Force bypasses the user-session gate.
    let proceed = a.tick_finalize_update(&mut metrics, true, true, true);
    assert!(proceed);
}

#[test]
fn failed_finalization_keeps_postponements() {
    let mut a = agent(true);
    let mut metrics = Metrics::new();
    a.state = UpdateAgentState::UpdateStaged((target(), 7));

    a.apply_finalize_outcome(&mut metrics, false);
    match &a.state {
        UpdateAgentState::UpdateStaged((_, remaining)) => assert_eq!(*remaining, 7),
        _ => panic!("expected the update to stay staged"),
    }
    assert_eq!(metrics.finalization_successes, 0);
}

#[test]
fn booted_deployment_is_never_a_target() {
    let mut a = agent(true);
    let depls = local_set(&a);
    a.state = UpdateAgentState::NoNewUpdate;

    // The graph proposing the booted deployment itself yields no
    // update.
    let booted_again = release("39.20231204.0", "sha-booted", Some(9));
    a.tick_check_updates(Some(&depls), Some(booted_again));
    assert!(matches!(a.state, UpdateAgentState::NoNewUpdate));

    // A locally deployed release is not offered again.
    let mut with_local = local_set(&a);
    with_local.insert(release("40.20240101.0", "abc", Some(5)));
    a.tick_check_updates(Some(&with_local), Some(target()));
    assert!(matches!(a.state, UpdateAgentState::NoNewUpdate));

    // An older release is rejected unless downgrades are allowed.
    let older = release("38.20230501.0", "old-sum", Some(3));
    a.tick_check_updates(Some(&depls), Some(older.clone()));
    assert!(matches!(a.state, UpdateAgentState::NoNewUpdate));

    let mut downgrader = UpdateAgent::new(true, true, 300, identity()).unwrap();
    downgrader.state = UpdateAgentState::NoNewUpdate;
    downgrader.tick_check_updates(Some(&depls), Some(older));
    assert!(matches!(downgrader.state, UpdateAgentState::UpdateAvailable(_)));
}

#[test]
fn jitter_stays_within_bounds() {
    for period in [1u64, 60, 300, 86400] {
        let unit = if period / 100 >= 1 { period / 100 } else { 1 };
        for _ in 0..50 {
            let jittered = UpdateAgent::add_jitter(period);
            assert!(period <= jittered);
            assert!(jittered <= period + 10 * unit);
        }
    }
}

#[test]
fn steady_interval_bounds_are_enforced() {
    assert!(UpdateAgent::new(true, false, 59, identity()).is_none());
    assert!(UpdateAgent::new(true, false, 60, identity()).is_some());
    assert!(UpdateAgent::new(true, false, 86400, identity()).is_some());
    assert!(UpdateAgent::new(true, false, 86401, identity()).is_none());
}

#[test]
fn excluded_deployments_drop_booted() {
    let booted = release("39.20231204.0", "sha-booted", Some(4));
    let other = release("38.20230501.0", "sha-old", Some(3));
    let mut depls = ReleaseSet::new();
    depls.insert(booted.clone());
    depls.insert(other.clone());

    let excluded = excluded_deployments(&depls, &booted).unwrap();
    assert_eq!(excluded.len(), 1);
    assert_eq!(excluded[0].checksum, "sha-old");

    // Without the booted deployment among them, nothing is reported.
    let mut others_only = ReleaseSet::new();
    others_only.insert(other);
    assert!(excluded_deployments(&others_only, &booted).is_none());
}
