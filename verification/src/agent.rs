//! The update agent: its configuration, the per-tick handlers that
//! apply external outcomes to the state machine, and the scheduler
//! that decides when the next tick fires.

use vstd::prelude::*;

use crate::metrics::Metrics;
use crate::release::Identity;
use crate::release::Release;
use crate::release::ReleaseSet;
use crate::release::same_release;
use crate::state::MAX_DEPLOY_ATTEMPTS;
use crate::state::MAX_FINALIZE_POSTPONEMENTS;
use crate::state::UpdateAgentState;
use crate::state::same_variant;
use crate::state::spec_refresh_delay_table;

verus! {

/// Lower bound of the configurable steady polling interval.
pub const STEADY_INTERVAL_MIN_SECS: u64 = 60;

/// Upper bound of the configurable steady polling interval.
pub const STEADY_INTERVAL_MAX_SECS: u64 = 86400;

/// The update agent: immutable configuration and identity, plus the
/// machine state the tick handlers advance.
pub struct UpdateAgent {
    /// Whether the auto-updates logic runs at all.
    pub enabled: bool,
    /// Whether a release older than the booted one may be staged.
    pub allow_downgrade: bool,
    /// Base polling period while no update is available, in seconds.
    pub steady_interval_secs: u64,
    /// The booted deployment's identity; fixed for the agent's lifetime.
    pub identity: Identity,
    /// Current state of the machine.
    pub state: UpdateAgentState,
}

/// Configuration and identity are fixed for the agent's lifetime: the
/// tick handlers only move the machine state.
pub open spec fn same_setup(a: UpdateAgent, b: UpdateAgent) -> bool {
    &&& a.enabled == b.enabled
    &&& a.allow_downgrade == b.allow_downgrade
    &&& a.steady_interval_secs == b.steady_interval_secs
    &&& a.identity == b.identity
}

/// What one tick may do to the machine, whatever the external
/// outcomes were: the union, over the action of the current state, of
/// the transitions its handler can apply. Every tick handler ensures
/// this relation between the agent before and after it ran.
pub open spec fn spec_tick_step(pre: UpdateAgent, post: UpdateAgent) -> bool {
    &&& same_setup(pre, post)
    &&& match pre.state {
        UpdateAgentState::StartState => post.state == (if pre.enabled {
            UpdateAgentState::Initialized
        } else {
            UpdateAgentState::EndState
        }),
        UpdateAgentState::Initialized => post.state == UpdateAgentState::ReportedSteady
            || post.state == pre.state,
        UpdateAgentState::ReportedSteady | UpdateAgentState::NoNewUpdate => post.state
            == UpdateAgentState::NoNewUpdate || post.state == pre.state || (exists|c: Release|
            post.state == UpdateAgentState::UpdateAvailable((c, 0u8)) && !same_release(
                c,
                pre.identity.current_os,
            )),
        UpdateAgentState::UpdateAvailable((r, c)) => post.state
            == UpdateAgentState::UpdateStaged((r, MAX_FINALIZE_POSTPONEMENTS)) || post.state
            == UpdateAgentState::NoNewUpdate || post.state
            == UpdateAgentState::UpdateAvailable((r, (c + 1) as u8)),
        UpdateAgentState::UpdateStaged((r, p)) => post.state == UpdateAgentState::UpdateStaged(
            (r, MAX_FINALIZE_POSTPONEMENTS),
        ) || (p > 0 && post.state == UpdateAgentState::UpdateStaged((r, (p - 1) as u8)))
            || post.state == pre.state || post.state == UpdateAgentState::UpdateFinalized(r),
        UpdateAgentState::UpdateFinalized(_) => post.state == UpdateAgentState::EndState,
        UpdateAgentState::EndState => post.state == pre.state,
    }
}

/// Whenever the release identity held by `UpdateAvailable` changes
/// across a tick — a fresh target, or one replacing another — its
/// failure count is reset to zero; only recorded failures for the
/// kept target raise it.
pub proof fn lemma_fail_count_reset(pre: UpdateAgent, post: UpdateAgent)
    requires
        spec_tick_step(pre, post),
        post.state is UpdateAvailable,
        pre.state matches UpdateAgentState::UpdateAvailable((r1, _)) ==> !same_release(
            r1,
            post.state->UpdateAvailable_0.0,
        ),
    ensures
        post.state->UpdateAvailable_0.1 == 0,
{
}

/// Every entry to `UpdateStaged` from another state carries the full
/// postponement budget; only a user-session postponement, staying
/// staged, lowers it.
pub proof fn lemma_postponements_reset_on_entry(pre: UpdateAgent, post: UpdateAgent)
    requires
        spec_tick_step(pre, post),
        post.state is UpdateStaged,
        !(pre.state is UpdateStaged),
    ensures
        post.state->UpdateStaged_0.1 == MAX_FINALIZE_POSTPONEMENTS,
{
}

/// Once `EndState` is reached, no tick moves the machine again.
pub proof fn lemma_end_state_is_terminal(pre: UpdateAgent, post: UpdateAgent)
    requires
        spec_tick_step(pre, post),
        pre.state is EndState,
    ensures
        post.state is EndState,
{
}

/// What the tick scheduler decides after a tick.
pub enum TickSchedule {
    /// Fire the next tick at once.
    Immediate,
    /// Fire the next tick after this many seconds.
    After(u64),
    /// Never tick again.
    Halt,
}

/// A state change warrants an immediate tick, with one exception:
/// settling from `ReportedSteady` into `NoNewUpdate` is treated as
/// stable.
pub open spec fn spec_should_tick_immediately(
    prev_state: UpdateAgentState,
    cur_state: UpdateAgentState,
) -> bool {
    &&& !same_variant(prev_state, cur_state)
    &&& !(prev_state is ReportedSteady && cur_state is NoNewUpdate)
}

/// Size of one jitter step for a period: a hundredth of it, and at
/// least one second.
pub open spec fn spec_jitter_unit(period_secs: u64) -> u64 {
    if period_secs / 100 >= 1 {
        period_secs / 100
    } else {
        1u64
    }
}

/// Whether `candidate` is strictly newer than `current` by age index.
/// An unindexed candidate is never newer; any indexed candidate is
/// newer than an unindexed current release.
pub open spec fn spec_age_newer(candidate: Option<u64>, current: Option<u64>) -> bool {
    match (candidate, current) {
        (Some(a), Some(b)) => a > b,
        (Some(_), None) => true,
        (None, _) => false,
    }
}

/// `v` holds exactly the members of `depls` other than the booted
/// release.
pub open spec fn spec_excluded(v: Seq<Release>, depls: Seq<Release>, booted: Release) -> bool {
    &&& forall|j: int|
        0 <= j < v.len() ==> !same_release(#[trigger] v[j], booted) && depls.contains(v[j])
    &&& forall|k: int|
        0 <= k < depls.len() && !same_release(#[trigger] depls[k], booted) ==> v.contains(depls[k])
}

/// Decide whether `candidate` is strictly newer than `current` by age
/// index: the rule under which staging a release is admissible when
/// downgrades are not allowed.
pub fn age_newer(candidate: &Option<u64>, current: &Option<u64>) -> (r: bool)
    ensures
        r == spec_age_newer(*candidate, *current),
{
    match (candidate, current) {
        (Some(a), Some(b)) => *a > *b,
        (Some(_), None) => true,
        (None, _) => false,
    }
}

/// Relies on `rand::Rng::gen_range` over `rand::thread_rng`: the
/// sample lies within the given inclusive range.
#[verifier::external_body]
fn sample_jitter_unit() -> (r: u8)
    ensures
        r <= 10,
{
    rand::Rng::gen_range(&mut rand::thread_rng(), 0..=10u8)
}

/// Relies on `std::time::SystemTime::now` for the current wall-clock
/// time, converted to whole seconds from the Unix epoch (negative
/// before it, so a misset clock cannot make this panic). The result
/// depends on the clock alone, so nothing is promised of it.
#[verifier::external_body]
fn utc_timestamp_now() -> i64 {
    match std::time::SystemTime::now().duration_since(std::time::UNIX_EPOCH) {
        Ok(since) => since.as_secs() as i64,
        Err(before) => -(before.duration().as_secs() as i64),
    }
}

/// Publish the timestamp of the current tick on the last-refresh
/// gauge; no counter moves.
pub fn record_tick(metrics: &mut Metrics)
    ensures
        *final(metrics) == (Metrics { last_refresh: final(metrics).last_refresh, ..*old(metrics) }),
{
    let now = utc_timestamp_now();
    metrics.set_last_refresh(now);
}

/// List the deployments that will be excluded from being future
/// update targets: every member of `depls` other than `booted`.
/// Yields nothing when `booted` is not among `depls`, which callers
/// report as an error.
pub fn excluded_deployments(depls: &ReleaseSet, booted: &Release) -> (r: Option<Vec<Release>>)
    ensures
        depls.spec_contains(booted.checksum@) ==> (r matches Some(v) && spec_excluded(
            v@,
            depls@,
            *booted,
        )),
        !depls.spec_contains(booted.checksum@) ==> r is None,
{
    if !depls.contains(booted) {
        return None;
    }
    let items = depls.as_slice();
    let n = items.len();
    let mut v: Vec<Release> = Vec::new();
    for i in 0..n
        invariant
            n == items@.len(),
            items@ == depls@,
            forall|j: int|
                0 <= j < v@.len() ==> !same_release(#[trigger] v@[j], *booted) && depls@.contains(
                    v@[j],
                ),
            forall|k: int|
                0 <= k < i && !same_release(#[trigger] depls@[k], *booted) ==> v@.contains(
                    depls@[k],
                ),
    {
        if !(items[i].checksum == booted.checksum) {
            let ghost old_v = v@;
            v.push(items[i].clone());
            proof {
                assert(v@ =~= old_v.push(depls@[i as int]));
                assert forall|j: int| 0 <= j < v@.len() implies !same_release(
                    #[trigger] v@[j],
                    *booted,
                ) && depls@.contains(v@[j]) by {
                    if j == old_v.len() {
                        assert(v@[j] == depls@[i as int]);
                    } else {
                        assert(v@[j] == old_v[j]);
                    }
                }
                assert forall|k: int|
                    0 <= k < i + 1 && !same_release(#[trigger] depls@[k], *booted) implies v@
                    .contains(depls@[k]) by {
                    if k == i as int {
                        assert(v@[old_v.len() as int] == depls@[k]);
                    } else {
                        assert(old_v.contains(depls@[k]));
                        let m = choose|m: int| 0 <= m < old_v.len() && old_v[m] == depls@[k];
                        assert(v@[m] == depls@[k]);
                    }
                }
            }
        }
    }
    Some(v)
}

/// The booted deployment is never the value of an available update,
/// nor of a staged or finalized one.
pub proof fn lemma_booted_never_target(agent: UpdateAgent)
    requires
        agent.wf(),
    ensures
        agent.state matches UpdateAgentState::UpdateAvailable((r, _)) ==> !same_release(
            r,
            agent.identity.current_os,
        ),
        agent.state matches UpdateAgentState::UpdateStaged((r, _)) ==> !same_release(
            r,
            agent.identity.current_os,
        ),
        agent.state matches UpdateAgentState::UpdateFinalized(r) ==> !same_release(
            r,
            agent.identity.current_os,
        ),
{
}

impl UpdateAgent {
    /// The machine never holds the booted deployment as a target, its
    /// failure counter never reaches the abandonment bound, its
    /// postponement counter never exceeds the reset value, and the
    /// steady interval stays within its configured bounds.
    pub open spec fn wf(self) -> bool {
        &&& STEADY_INTERVAL_MIN_SECS <= self.steady_interval_secs <= STEADY_INTERVAL_MAX_SECS
        &&& match self.state {
            UpdateAgentState::UpdateAvailable((r, c)) => c < MAX_DEPLOY_ATTEMPTS && !same_release(
                r,
                self.identity.current_os,
            ),
            UpdateAgentState::UpdateStaged((r, p)) => p <= MAX_FINALIZE_POSTPONEMENTS
                && !same_release(r, self.identity.current_os),
            UpdateAgentState::UpdateFinalized(r) => !same_release(r, self.identity.current_os),
            _ => true,
        }
    }

    /// Build an agent in `StartState`; the steady interval must lie
    /// within its bounds.
    pub fn new(
        enabled: bool,
        allow_downgrade: bool,
        steady_interval_secs: u64,
        identity: Identity,
    ) -> (r: Option<UpdateAgent>)
        ensures
            r is Some <==> STEADY_INTERVAL_MIN_SECS <= steady_interval_secs
                <= STEADY_INTERVAL_MAX_SECS,
            r matches Some(agent) ==> agent == (UpdateAgent {
                enabled,
                allow_downgrade,
                steady_interval_secs,
                identity,
                state: UpdateAgentState::StartState,
            }) && agent.wf(),
    {
        if steady_interval_secs < STEADY_INTERVAL_MIN_SECS || steady_interval_secs
            > STEADY_INTERVAL_MAX_SECS {
            return None;
        }
        Some(
            UpdateAgent {
                enabled,
                allow_downgrade,
                steady_interval_secs,
                identity,
                state: UpdateAgentState::StartState,
            },
        )
    }

    /// Return whether a transition from `prev_state` to `cur_state`
    /// warrants an immediate tick.
    pub fn should_tick_immediately(
        prev_state: &UpdateAgentState,
        cur_state: &UpdateAgentState,
    ) -> (r: bool)
        ensures
            r == spec_should_tick_immediately(*prev_state, *cur_state),
    {
        let same = match (prev_state, cur_state) {
            (UpdateAgentState::StartState, UpdateAgentState::StartState) => true,
            (UpdateAgentState::Initialized, UpdateAgentState::Initialized) => true,
            (UpdateAgentState::ReportedSteady, UpdateAgentState::ReportedSteady) => true,
            (UpdateAgentState::NoNewUpdate, UpdateAgentState::NoNewUpdate) => true,
            (UpdateAgentState::UpdateAvailable(_), UpdateAgentState::UpdateAvailable(_)) => true,
            (UpdateAgentState::UpdateStaged(_), UpdateAgentState::UpdateStaged(_)) => true,
            (UpdateAgentState::UpdateFinalized(_), UpdateAgentState::UpdateFinalized(_)) => true,
            (UpdateAgentState::EndState, UpdateAgentState::EndState) => true,
            _ => false,
        };
        if same {
            return false;
        }
        match (prev_state, cur_state) {
            (UpdateAgentState::ReportedSteady, UpdateAgentState::NoNewUpdate) => false,
            _ => true,
        }
    }

    /// Add a small random amount (zero to ten jitter steps) to a
    /// period, to keep a fleet of nodes from phase-locking.
    pub fn add_jitter(period_secs: u64) -> (r: u64)
        ensures
            period_secs <= r,
            r as int <= period_secs + 10 * spec_jitter_unit(period_secs),
    {
        let q = period_secs / 100;
        let unit: u64 = if q >= 1 {
            q
        } else {
            1
        };
        let steps = sample_jitter_unit();
        proof {
            assert(unit <= u64::MAX / 100 + 1);
            assert(unit * (steps as u64) <= unit * 10) by (nonlinear_arith)
                requires
                    steps <= 10,
                    0 <= unit,
            ;
            assert(unit * 10 <= (u64::MAX / 100 + 1) * 10) by (nonlinear_arith)
                requires
                    unit <= u64::MAX / 100 + 1,
            ;
        }
        let jitter = unit * (steps as u64);
        period_secs.saturating_add(jitter)
    }

    /// Whether a candidate target may become the next update: it must
    /// not be the booted deployment, must not already be deployed
    /// locally, and must be strictly newer than the booted release
    /// unless downgrades are allowed.
    pub open spec fn spec_target_admissible(
        self,
        local_depls: ReleaseSet,
        candidate: Release,
    ) -> bool {
        &&& !same_release(candidate, self.identity.current_os)
        &&& !local_depls.spec_contains(candidate.checksum@)
        &&& (self.allow_downgrade || spec_age_newer(
            candidate.age_index,
            self.identity.current_os.age_index,
        ))
    }

    /// Decide whether a candidate target may become the next update.
    fn target_admissible(&self, local_depls: &ReleaseSet, candidate: &Release) -> (r: bool)
        ensures
            r == self.spec_target_admissible(*local_depls, *candidate),
    {
        if candidate.checksum == self.identity.current_os.checksum {
            return false;
        }
        if local_depls.contains(candidate) {
            return false;
        }
        if self.allow_downgrade {
            return true;
        }
        age_newer(&candidate.age_index, &self.identity.current_os.age_index)
    }

    /// Initialize the update agent: enter `Initialized` when the
    /// auto-updates logic is enabled, else go straight to `EndState`.
    /// `local_depls` is the outcome of enumerating local non-staged
    /// deployments (absent when that query failed); the returned list
    /// names the deployments excluded from being future targets, for
    /// the caller to report, and is absent when the booted deployment
    /// was not found among them.
    pub fn tick_initialize(&mut self, local_depls: Option<&ReleaseSet>) -> (excluded: Option<
        Vec<Release>,
    >)
        requires
            old(self).wf(),
            old(self).state is StartState,
        ensures
            same_setup(*old(self), *final(self)),
            spec_tick_step(*old(self), *final(self)),
            final(self).wf(),
            old(self).enabled ==> final(self).state == UpdateAgentState::Initialized,
            !old(self).enabled ==> final(self).state == UpdateAgentState::EndState,
            ({
                match local_depls {
                    Some(depls) => {
                        &&& depls.spec_contains(old(self).identity.current_os.checksum@) ==> (
                        excluded matches Some(v) && spec_excluded(
                            v@,
                            depls@,
                            old(self).identity.current_os,
                        ))
                        &&& !depls.spec_contains(old(self).identity.current_os.checksum@)
                            ==> excluded is None
                    },
                    None => excluded is None,
                }
            }),
    {
        let excluded = match local_depls {
            Some(depls) => excluded_deployments(depls, &self.identity.current_os),
            None => None,
        };
        if self.enabled {
            self.state.initialized();
        } else {
            self.state.end();
        }
        excluded
    }

    /// Try to report steady state: enter `ReportedSteady` exactly when
    /// the strategy acknowledged it.
    pub fn tick_report_steady(&mut self, is_steady: bool)
        requires
            old(self).wf(),
            old(self).state is Initialized,
        ensures
            same_setup(*old(self), *final(self)),
            spec_tick_step(*old(self), *final(self)),
            final(self).wf(),
            is_steady ==> final(self).state == UpdateAgentState::ReportedSteady,
            !is_steady ==> final(self).state == old(self).state,
    {
        if is_steady {
            self.state.reported_steady();
        }
    }

    /// Apply the outcome of an update check. `local_depls` is the
    /// enumeration of local deployments and `candidate` the target the
    /// update graph proposed, if any. The candidate becomes the
    /// available update exactly when it is admissible against the
    /// enumerated deployments; an inadmissible or absent candidate
    /// means there is no new update. A failed deployment query
    /// (`local_depls` absent) is a transient external failure: the
    /// graph is never consulted without the deployment list, and the
    /// state is left unchanged — the next tick is the retry.
    pub fn tick_check_updates(
        &mut self,
        local_depls: Option<&ReleaseSet>,
        candidate: Option<Release>,
    )
        requires
            old(self).wf(),
            old(self).state is ReportedSteady || old(self).state is NoNewUpdate,
        ensures
            same_setup(*old(self), *final(self)),
            spec_tick_step(*old(self), *final(self)),
            final(self).wf(),
            ({
                match (local_depls, candidate) {
                    (Some(depls), Some(c)) => {
                        &&& old(self).spec_target_admissible(*depls, c) ==> final(self).state
                            == UpdateAgentState::UpdateAvailable((c, 0u8))
                        &&& !old(self).spec_target_admissible(*depls, c) ==> final(self).state
                            == UpdateAgentState::NoNewUpdate
                    },
                    (Some(_), None) => final(self).state == UpdateAgentState::NoNewUpdate,
                    (None, _) => final(self).state == old(self).state,
                }
            }),
    {
        if let Some(depls) = local_depls {
            let chosen = match candidate {
                Some(c) => if self.target_admissible(depls, &c) {
                    Some(c)
                } else {
                    None
                },
                None => None,
            };
            match chosen {
                Some(release) => self.state.update_available(release),
                None => self.state.no_new_update(),
            }
        }
    }

    /// Apply the outcome of trying to stage the available update.
    /// Success enters `UpdateStaged` with full postponements; failure
    /// is recorded, and once the count reaches `MAX_DEPLOY_ATTEMPTS`
    /// the target is abandoned for `NoNewUpdate`. Returns whether the
    /// target was abandoned and the total failed attempts.
    pub fn tick_stage_update(&mut self, stage_ok: bool) -> (r: (bool, u8))
        requires
            old(self).wf(),
            old(self).state is UpdateAvailable,
        ensures
            same_setup(*old(self), *final(self)),
            spec_tick_step(*old(self), *final(self)),
            final(self).wf(),
            ({
                let (release, fail_count) = (old(self).state)->UpdateAvailable_0;
                &&& stage_ok ==> final(self).state == UpdateAgentState::UpdateStaged(
                    (release, MAX_FINALIZE_POSTPONEMENTS),
                ) && r == (false, 0u8)
                &&& !stage_ok ==> ({
                    let new_count = (fail_count + 1) as u8;
                    let abandoned = new_count >= MAX_DEPLOY_ATTEMPTS;
                    &&& r == (abandoned, new_count)
                    &&& abandoned ==> final(self).state == UpdateAgentState::NoNewUpdate
                    &&& !abandoned ==> final(self).state == UpdateAgentState::UpdateAvailable(
                        (release, new_count),
                    )
                })
            }),
    {
        if stage_ok {
            let release = match &self.state {
                UpdateAgentState::UpdateAvailable((r, _)) => r.clone(),
                _ => {
                    return (false, 0);
                },
            };
            self.state.update_staged(release);
            (false, 0)
        } else {
            self.state.record_failed_deploy()
        }
    }

    /// Try to finalize the staged update: gate first on the strategy,
    /// then on active user sessions. A strategic block resets the
    /// postponement budget; a user-session block spends one
    /// postponement and is counted; only when both gates admit may the
    /// caller invoke the deployment subsystem, which this function
    /// signals by returning true with the state unchanged. `force`
    /// bypasses the user-session gate only. The finalization attempt
    /// is always counted.
    pub fn tick_finalize_update(
        &mut self,
        metrics: &mut Metrics,
        strategy_can_finalize: bool,
        sessions_active: bool,
        force: bool,
    ) -> (proceed: bool)
        requires
            old(self).wf(),
            old(self).state is UpdateStaged,
        ensures
            same_setup(*old(self), *final(self)),
            spec_tick_step(*old(self), *final(self)),
            final(self).wf(),
            ({
                let (release, remaining) = (old(self).state)->UpdateStaged_0;
                let sessions_admit = force || remaining == 0 || !sessions_active;
                let counted = (Metrics {
                    finalization_attempts: old(metrics).finalization_attempts.saturating_add(1),
                    ..*old(metrics)
                });
                let counted_blocked = (Metrics {
                    finalization_blocked_usersessions: old(metrics)
                        .finalization_blocked_usersessions
                        .saturating_add(1),
                    ..counted
                });
                &&& !strategy_can_finalize ==> !proceed && final(self).state
                    == UpdateAgentState::UpdateStaged((release, MAX_FINALIZE_POSTPONEMENTS))
                    && *final(metrics) == counted
                &&& strategy_can_finalize && !sessions_admit ==> !proceed && final(self).state
                    == UpdateAgentState::UpdateStaged((release, (remaining - 1) as u8))
                    && *final(metrics) == counted_blocked
                &&& strategy_can_finalize && sessions_admit ==> proceed && final(self).state
                    == old(self).state && *final(metrics) == counted
            }),
    {
        metrics.finalization_attempts = metrics.finalization_attempts.saturating_add(1);
        if !strategy_can_finalize {
            let release = match &self.state {
                UpdateAgentState::UpdateStaged((r, _)) => r.clone(),
                _ => {
                    return false;
                },
            };
            self.state.update_staged(release);
            false
        } else {
            let sessions_ok = self.state.usersessions_can_finalize(sessions_active, force);
            if !sessions_ok {
                metrics.finalization_blocked_usersessions =
                    metrics.finalization_blocked_usersessions.saturating_add(1);
                self.state.record_postponement();
                false
            } else {
                true
            }
        }
    }

    /// Apply the outcome of invoking the deployment subsystem to
    /// finalize the staged update: success enters `UpdateFinalized`
    /// and is counted; failure leaves the state, postponements
    /// included, unchanged — the next tick is the retry.
    pub fn apply_finalize_outcome(&mut self, metrics: &mut Metrics, finalize_ok: bool)
        requires
            old(self).wf(),
            old(self).state is UpdateStaged,
        ensures
            same_setup(*old(self), *final(self)),
            spec_tick_step(*old(self), *final(self)),
            final(self).wf(),
            ({
                let (release, remaining) = (old(self).state)->UpdateStaged_0;
                &&& finalize_ok ==> final(self).state == UpdateAgentState::UpdateFinalized(release)
                    && *final(metrics) == (Metrics {
                    finalization_successes: old(metrics).finalization_successes.saturating_add(1),
                    ..*old(metrics)
                })
                &&& !finalize_ok ==> final(self).state == old(self).state && *final(metrics)
                    == *old(metrics)
            }),
    {
        if finalize_ok {
            metrics.finalization_successes = metrics.finalization_successes.saturating_add(1);
            let release = match &self.state {
                UpdateAgentState::UpdateStaged((r, _)) => r.clone(),
                _ => {
                    return ;
                },
            };
            self.state.update_finalized(release);
        }
    }

    /// The update was applied and a reboot requested: the machine is
    /// done on the next tick.
    pub fn tick_end(&mut self)
        requires
            old(self).wf(),
            old(self).state is UpdateFinalized,
        ensures
            same_setup(*old(self), *final(self)),
            spec_tick_step(*old(self), *final(self)),
            final(self).wf(),
            final(self).state == UpdateAgentState::EndState,
    {
        self.state.end();
    }

    /// Pausing decision between state-machine refresh cycles: an
    /// immediate tick on a state change (with the steady-settling
    /// exception), no tick at all once the machine has ended, and
    /// otherwise the per-state delay, jittered where flagged.
    pub fn refresh_delay(
        &self,
        prev_state: &UpdateAgentState,
        cur_state: &UpdateAgentState,
    ) -> (r: TickSchedule)
        ensures
            *cur_state is EndState ==> r is Halt,
            !(*cur_state is EndState) && spec_should_tick_immediately(*prev_state, *cur_state)
                ==> r is Immediate,
            !(*cur_state is EndState) && !spec_should_tick_immediately(*prev_state, *cur_state)
                ==> ({
                let (base, jittered) = spec_refresh_delay_table(
                    *cur_state,
                    self.steady_interval_secs,
                );
                &&& r matches TickSchedule::After(d)
                &&& base <= d
                &&& jittered ==> d as int <= base + 10 * spec_jitter_unit(base)
                &&& !jittered ==> d == base
            }),
    {
        if let UpdateAgentState::EndState = cur_state {
            return TickSchedule::Halt;
        }
        if Self::should_tick_immediately(prev_state, cur_state) {
            return TickSchedule::Immediate;
        }
        let (base, jittered) = cur_state.get_refresh_delay(self.steady_interval_secs);
        let delay = if jittered {
            Self::add_jitter(base)
        } else {
            base
        };
        TickSchedule::After(delay)
    }
}

} // verus!
