//! What holds of every backup run, whatever the collaborators answer.
//!
//! The laws are stated of [`step_spec`], the protocol as a function, and of
//! [`run_spec`], the state that a sequence of answers leads to.

use crate::config::types::{ConfigView, HookView, ResolvedServiceConfigView};
use crate::managers::backup::{
    action_spec, archive_path, batch_is_consistent, cause_of, destination_error, enter_archives,
    enter_destination,
    enter_notify, enter_paths, enter_post_hooks, enter_pre_hooks, enter_volume_checks,
    failures_before, failures_of, hook_label, next_failure, next_service_spec, paths, post_hooks,
    pre_hooks, record_spec, result_spec, seconds_between, start_spec, step_spec, volumes,
    ActionView,
    AggregateErrorView, BatchRunView, DestinationFailureView, DestinationOutcomeView, EventView,
    ExecutionErrorView, Phase, ServiceRunView,
};
use crate::managers::backup::outcome_event;
use crate::utils::docker::archive_outcome;
use crate::utils::executor::CommandErrorView;
use crate::utils::paths::join_spec;
use crate::utils::restic::{backup_outcome, init_outcome, soft_outcome};
use vstd::prelude::*;

verus! {

/// What holds of a run at every time. The outcomes that are in are those of
/// the first targets, one for each, in their order. Before the destinations
/// no outcome is in; at the destination at position `i` the outcomes of the
/// `i` destinations before it are in; after the destinations either all
/// outcomes are in, or none is and the run had nothing to back up or was
/// given up.
pub open spec fn run_is_consistent(s: ServiceRunView) -> bool {
    let n = s.policy.targets.len();
    &&& n <= usize::MAX
    &&& s.repositories.len() == n || s.phase == Phase::Finished
    &&& s.outcomes.len() <= n
    &&& forall|k: int|
        0 <= k < s.outcomes.len() ==> (#[trigger] s.outcomes[k]).destination == s.policy.targets[k]
    &&& match s.phase {
        Phase::AcquireLock
        | Phase::PreHook(_)
        | Phase::CheckPath(_)
        | Phase::VolumeExists(_)
        | Phase::ArchiveVolume(_) => s.outcomes.len() == 0 && s.abort is None,
        Phase::LongRunning(i) | Phase::InitRepo(i) | Phase::Transfer(i) => {
            &&& i < n
            &&& s.outcomes.len() == i
            &&& s.abort is None
            &&& s.units.len() > 0
        },
        Phase::Retention(i) => {
            &&& i < n
            &&& s.outcomes.len() == i + 1
            &&& s.abort is None
            &&& s.units.len() > 0
            &&& s.outcomes[i as int].error is None
        },
        Phase::Unlock(i) => {
            &&& i < n
            &&& s.outcomes.len() == i + 1
            &&& s.abort is None
            &&& s.units.len() > 0
            &&& s.outcomes[i as int].error is Some
        },
        _ => {
            ||| s.outcomes.len() == 0 && (s.units.len() == 0 || s.abort is Some)
            ||| s.outcomes.len() == n
        },
    }
}

/// The phases in which a destination is contacted.
pub open spec fn at_a_destination(phase: Phase) -> bool {
    match phase {
        Phase::LongRunning(_)
        | Phase::InitRepo(_)
        | Phase::Transfer(_)
        | Phase::Retention(_)
        | Phase::Unlock(_) => true,
        _ => false,
    }
}

/// The state that a run reaches from `s` when the actions that come due end
/// with `answers`, each an event and its time.
pub open spec fn run_spec(s: ServiceRunView, answers: Seq<(EventView, u64)>) -> ServiceRunView
    decreases answers.len(),
{
    if answers.len() == 0 {
        s
    } else {
        step_spec(run_spec(s, answers.drop_last()), answers.last().0, answers.last().1)
    }
}

/// A run starts in a consistent state.
pub proof fn lemma_start_is_consistent(p: ResolvedServiceConfigView, config: ConfigView, notify: bool)
    requires
        p.targets.len() <= usize::MAX,
        start_spec(p, config, notify) is Ok,
    ensures
        run_is_consistent(start_spec(p, config, notify)->Ok_0),
{
}

/// Every step leads from a consistent state to a consistent state.
pub proof fn lemma_step_is_consistent(s: ServiceRunView, e: EventView, now: u64)
    requires
        run_is_consistent(s),
    ensures
        run_is_consistent(step_spec(s, e, now)),
{
    match s.phase {
        Phase::Notify(j) => {
            lemma_next_failure(s.outcomes, j + 1);
        },
        Phase::ReleaseLock => {
            lemma_next_failure(s.outcomes, 0);
        },
        _ => {},
    }
}

/// What `next_failure` finds lies between `from` and the number of outcomes.
pub proof fn lemma_next_failure(outcomes: Seq<DestinationOutcomeView>, from: int)
    requires
        0 <= from,
    ensures
        from <= next_failure(outcomes, from) || next_failure(outcomes, from) == outcomes.len(),
        next_failure(outcomes, from) <= outcomes.len(),
        next_failure(outcomes, from) < outcomes.len() ==> outcomes[next_failure(
            outcomes,
            from,
        )].error is Some,
        forall|k: int|
            from <= k < next_failure(outcomes, from) ==> (#[trigger] outcomes[k]).error is None,
    decreases outcomes.len() - from,
{
    if from < outcomes.len() && outcomes[from].error is None {
        lemma_next_failure(outcomes, from + 1);
    }
}

/// Every state of a run that started consistent is consistent.
pub proof fn lemma_run_is_consistent(s: ServiceRunView, answers: Seq<(EventView, u64)>)
    requires
        run_is_consistent(s),
    ensures
        run_is_consistent(run_spec(s, answers)),
    decreases answers.len(),
{
    if answers.len() > 0 {
        lemma_run_is_consistent(s, answers.drop_last());
        lemma_step_is_consistent(
            run_spec(s, answers.drop_last()),
            answers.last().0,
            answers.last().1,
        );
    }
}

/// The outcome at position `k` is the failure `f`.
pub open spec fn is_origin(outcomes: Seq<DestinationOutcomeView>, k: int, f: DestinationFailureView) -> bool {
    &&& 0 <= k < outcomes.len()
    &&& outcomes[k].error == Some(f.error)
    &&& outcomes[k].destination == f.destination
    &&& outcomes[k].elapsed_secs == f.elapsed_secs
}

/// One of the first `n` outcomes is the failure `f`.
pub open spec fn has_origin(outcomes: Seq<DestinationOutcomeView>, n: int, f: DestinationFailureView) -> bool {
    exists|k: int| k < n && #[trigger] is_origin(outcomes, k, f)
}

/// No failure without a failed outcome: each failure among the first `n`
/// outcomes is one of these outcomes.
pub proof fn lemma_each_failure_has_its_outcome(outcomes: Seq<DestinationOutcomeView>, n: int)
    requires
        0 <= n <= outcomes.len(),
    ensures
        failures_before(outcomes, n).len() <= n,
        forall|j: int|
            0 <= j < failures_before(outcomes, n).len() ==> has_origin(
                outcomes,
                n,
                #[trigger] failures_before(outcomes, n)[j],
            ),
    decreases n,
{
    if n > 0 {
        lemma_each_failure_has_its_outcome(outcomes, n - 1);
        let before = failures_before(outcomes, n - 1);
        let now = failures_before(outcomes, n);
        assert forall|j: int| 0 <= j < now.len() implies has_origin(outcomes, n, #[trigger] now[j]) by {
            if j < before.len() {
                assert(now[j] == before[j]);
                assert(has_origin(outcomes, n - 1, before[j]));
                let k = choose|k: int| k < n - 1 && #[trigger] is_origin(outcomes, k, before[j]);
                assert(k < n && is_origin(outcomes, k, now[j]));
            } else {
                assert(is_origin(outcomes, n - 1, now[j]));
            }
        }
    }
}

/// The failures among fewer outcomes open the failures among more.
pub proof fn lemma_failures_grow(outcomes: Seq<DestinationOutcomeView>, k: int, n: int)
    requires
        0 <= k <= n <= outcomes.len(),
    ensures
        failures_before(outcomes, k).len() <= failures_before(outcomes, n).len(),
        forall|j: int|
            0 <= j < failures_before(outcomes, k).len() ==> failures_before(outcomes, n)[j]
                == #[trigger] failures_before(outcomes, k)[j],
    decreases n - k,
{
    if k < n {
        lemma_failures_grow(outcomes, k, n - 1);
    }
}

/// No failed outcome without a failure: the outcome at position `k`, where
/// it holds an error, stands among the failures, after the failures of the
/// outcomes before it.
pub proof fn lemma_each_failed_outcome_is_reported(
    outcomes: Seq<DestinationOutcomeView>,
    k: int,
    n: int,
)
    requires
        0 <= k < n <= outcomes.len(),
        outcomes[k].error is Some,
    ensures
        failures_before(outcomes, k).len() < failures_before(outcomes, n).len(),
        is_origin(
            outcomes,
            k,
            failures_before(outcomes, n)[failures_before(outcomes, k).len() as int],
        ),
{
    lemma_failures_grow(outcomes, k + 1, n);
    let upto = failures_before(outcomes, k + 1);
    assert(upto == failures_before(outcomes, k).push(upto.last()));
    assert(upto[failures_before(outcomes, k).len() as int] == upto.last());
}

/// There is no failure exactly when no outcome holds an error.
pub proof fn lemma_no_failure_means_all_succeeded(outcomes: Seq<DestinationOutcomeView>, n: int)
    requires
        0 <= n <= outcomes.len(),
    ensures
        failures_before(outcomes, n).len() == 0 <==> forall|k: int|
            0 <= k < n ==> (#[trigger] outcomes[k]).error is None,
    decreases n,
{
    if n > 0 {
        lemma_no_failure_means_all_succeeded(outcomes, n - 1);
        if failures_before(outcomes, n).len() == 0 {
            assert(outcomes[n - 1].error is None);
        }
    }
}

/// Destinations are independent. A run that was not given up and had
/// something to back up ends with one outcome for each target, in the order
/// of the targets: none was skipped. It succeeds exactly when no outcome is
/// a failure, and else its error holds exactly the failed outcomes.
pub proof fn lemma_every_destination_has_its_outcome(s: ServiceRunView)
    requires
        run_is_consistent(s),
        s.phase == Phase::Finished,
        s.abort is None,
        s.units.len() > 0,
    ensures
        s.outcomes.len() == s.policy.targets.len(),
        forall|k: int|
            0 <= k < s.outcomes.len() ==> (#[trigger] s.outcomes[k]).destination
                == s.policy.targets[k],
        result_spec(s) == Some(Ok::<(), AggregateErrorView>(())) <==> forall|k: int|
            0 <= k < s.outcomes.len() ==> (#[trigger] s.outcomes[k]).error is None,
        result_spec(s) != Some(Ok::<(), AggregateErrorView>(())) ==> result_spec(s) == Some(
            Err::<(), AggregateErrorView>(AggregateErrorView::Destinations(failures_of(s.outcomes))),
        ),
{
    lemma_no_failure_means_all_succeeded(s.outcomes, s.outcomes.len() as int);
}

/// A failure at one destination neither ends the run nor gives it up: the
/// failure is recorded as the outcome of that destination, and the run goes
/// on with that destination's repository lock.
pub proof fn lemma_failure_is_recorded_and_the_run_goes_on(s: ServiceRunView, e: EventView, now: u64)
    requires
        run_is_consistent(s),
        s.phase is InitRepo || s.phase is Transfer,
    ensures
        step_spec(s, e, now).abort is None,
        step_spec(s, e, now).phase != Phase::Finished,
        ({
            let i = match s.phase {
                Phase::InitRepo(i) => i,
                Phase::Transfer(i) => i,
                _ => 0,
            };
            let error = destination_error(e, s.policy.targets[i as int]);
            &&& error is Some ==> step_spec(s, e, now).phase == Phase::Unlock(i) && step_spec(
                s,
                e,
                now,
            ).outcomes.len() == i + 1 && step_spec(s, e, now).outcomes[i as int].error == error
            &&& error is None && s.phase is Transfer ==> step_spec(s, e, now).phase
                == Phase::Retention(i) && step_spec(s, e, now).outcomes[i as int].error is None
        }),
{
}

/// After a destination, whatever the last answer for it, the run turns to
/// the next target: none is skipped, and the outcomes stay as they are.
pub proof fn lemma_next_destination_is_attempted(s: ServiceRunView, e: EventView, now: u64)
    requires
        run_is_consistent(s),
        s.phase is Retention || s.phase is Unlock,
    ensures
        step_spec(s, e, now).outcomes == s.outcomes,
        step_spec(s, e, now).abort is None,
        ({
            let i = match s.phase {
                Phase::Retention(i) => i,
                Phase::Unlock(i) => i,
                _ => 0,
            };
            if i + 1 < s.policy.targets.len() {
                step_spec(s, e, now).phase == Phase::InitRepo((i + 1) as usize) || step_spec(
                    s,
                    e,
                    now,
                ).phase == Phase::LongRunning((i + 1) as usize)
            } else {
                step_spec(s, e, now).phase == Phase::RemoveStaging
            }
        }),
{
}

/// Pruning is best effort: whatever comes of it, the destination stays the
/// success that its transfer made it.
pub proof fn lemma_retention_failure_is_soft(s: ServiceRunView, e: EventView, now: u64)
    requires
        run_is_consistent(s),
        s.phase is Retention,
    ensures
        step_spec(s, e, now).outcomes == s.outcomes,
        step_spec(s, e, now).abort == s.abort,
        s.outcomes[s.phase->Retention_0 as int].error is None,
        s.outcomes[s.phase->Retention_0 as int].destination
            == s.policy.targets[s.phase->Retention_0 as int],
{
}

/// What holds of a run of a service with no path and no volume.
pub open spec fn has_nothing_to_back_up(s: ServiceRunView) -> bool {
    &&& paths(s.policy).len() == 0
    &&& volumes(s.policy).len() == 0
    &&& s.units.len() == 0
    &&& s.outcomes.len() == 0
    &&& match s.phase {
        Phase::AcquireLock
        | Phase::PreHook(_)
        | Phase::RemoveStaging
        | Phase::PostHook(_)
        | Phase::ReleaseLock
        | Phase::NotifySuccess
        | Phase::Finished => true,
        _ => false,
    }
}

/// A service with no path and no volume is a successful no-op: in no state
/// of its run is a destination contacted, no outcome is ever recorded, and
/// unless the run is given up (the lock is busy, a hook fails) it ends in
/// success.
pub proof fn lemma_nothing_to_back_up(s: ServiceRunView, answers: Seq<(EventView, u64)>)
    requires
        has_nothing_to_back_up(s),
    ensures
        has_nothing_to_back_up(run_spec(s, answers)),
        !at_a_destination(run_spec(s, answers).phase),
        run_spec(s, answers).phase == Phase::Finished && run_spec(s, answers).abort is None
            ==> result_spec(run_spec(s, answers)) == Some(Ok::<(), AggregateErrorView>(())),
    decreases answers.len(),
{
    if answers.len() > 0 {
        lemma_nothing_to_back_up(s, answers.drop_last());
    }
}

/// A run that starts for a service with no path and no volume has nothing
/// to back up.
pub proof fn lemma_start_with_nothing(p: ResolvedServiceConfigView, config: ConfigView, notify: bool)
    requires
        start_spec(p, config, notify) is Ok,
        paths(p).len() == 0,
        volumes(p).len() == 0,
    ensures
        has_nothing_to_back_up(start_spec(p, config, notify)->Ok_0),
{
}

/// A run is over exactly when nothing is left to do, and it stays over.
pub proof fn lemma_finished_is_final(s: ServiceRunView, e: EventView, now: u64)
    ensures
        s.phase == Phase::Finished <==> action_spec(s) == ActionView::Finish,
        s.phase == Phase::Finished ==> step_spec(s, e, now) == s,
        s.phase == Phase::Finished <==> result_spec(s) is Some,
{
}

/// In a batch every service has its turn, whatever came of those before it:
/// a result moves the turn on by one and changes neither the services nor
/// the results that are in.
pub proof fn lemma_services_are_isolated(b: BatchRunView, result: Option<AggregateErrorView>)
    requires
        batch_is_consistent(b),
        b.done < b.services.len(),
    ensures
        batch_is_consistent(record_spec(b, result)),
        record_spec(b, result).services == b.services,
        record_spec(b, result).done == b.done + 1,
        next_service_spec(record_spec(b, result)) == if b.done + 1 < b.services.len() {
            Some(b.services[(b.done + 1) as int])
        } else {
            None
        },
        result is None ==> record_spec(b, result).errors == b.errors,
        result is Some ==> record_spec(b, result).succeeded == b.succeeded && record_spec(
            b,
            result,
        ).errors.last().service == b.services[b.done as int] && record_spec(
            b,
            result,
        ).errors.last().error == result->0,
{
}

/// `n`, or zero where `n` is negative.
pub open spec fn at_least_zero(n: int) -> nat {
    if n < 0 {
        0
    } else {
        n as nat
    }
}

/// A bound on the number of steps that a run still takes, whatever the
/// answers: what is left of the phase it is in, and all of the phases after
/// it. A destination counts for six: its four steps, the report that it
/// runs long, and the report of its failure.
pub open spec fn steps_left(s: ServiceRunView) -> nat {
    let pre = pre_hooks(s.policy).len();
    let paths = paths(s.policy).len();
    let volumes = volumes(s.policy).len();
    let targets = s.policy.targets.len();
    let post = post_hooks(s.policy).len();
    let outcomes = s.outcomes.len();
    let from_staging = 4 + outcomes + post;
    let from_destinations = 6 * targets + 10 + outcomes + post;
    match s.phase {
        Phase::Finished => 0,
        Phase::Notify(j) => 1 + at_least_zero(outcomes - j),
        Phase::NotifySuccess => 1,
        Phase::ReleaseLock => 2 + outcomes,
        Phase::PostHook(i) => 3 + outcomes + at_least_zero(post - i),
        Phase::RemoveStaging => from_staging,
        Phase::Retention(i) | Phase::Unlock(i) => 6 * at_least_zero(targets - i) + 1 + from_staging,
        Phase::Transfer(i) => 6 * at_least_zero(targets - i) + 3 + from_staging,
        Phase::InitRepo(i) => 6 * at_least_zero(targets - i) + 4 + from_staging,
        Phase::LongRunning(i) => 6 * at_least_zero(targets - i) + 5 + from_staging,
        Phase::ArchiveVolume(i) => at_least_zero(volumes - i) + from_destinations,
        Phase::VolumeExists(i) => at_least_zero(volumes - i) + volumes + 1 + from_destinations,
        Phase::CheckPath(i) => at_least_zero(paths - i) + 2 * volumes + 2 + from_destinations,
        Phase::PreHook(i) => at_least_zero(pre - i) + paths + 2 * volumes + 3 + from_destinations,
        Phase::AcquireLock => pre + paths + 2 * volumes + 4 + from_destinations,
    }
}

/// The lists of the policy are no longer than a program can hold.
pub open spec fn lists_fit(s: ServiceRunView) -> bool {
    &&& pre_hooks(s.policy).len() <= usize::MAX
    &&& post_hooks(s.policy).len() <= usize::MAX
    &&& paths(s.policy).len() <= usize::MAX
    &&& volumes(s.policy).len() <= usize::MAX
    &&& s.policy.targets.len() <= usize::MAX
}

/// The steps that are left from the removal of the staging directory on.
pub open spec fn steps_from_staging(s: ServiceRunView) -> nat {
    4 + s.outcomes.len() + post_hooks(s.policy).len()
}

/// The steps that are left from the destinations on.
pub open spec fn steps_from_destinations(s: ServiceRunView) -> nat {
    6 * s.policy.targets.len() + 10 + s.outcomes.len() + post_hooks(s.policy).len()
}

/// Turning to a destination leaves no more steps than the destinations from
/// it on, and all that follows them, can take.
pub proof fn lemma_steps_at_destination(s: ServiceRunView, i: int, now: u64)
    requires
        lists_fit(s),
        0 <= i,
    ensures
        enter_destination(s, i, now).policy == s.policy,
        enter_destination(s, i, now).outcomes == s.outcomes,
        steps_left(enter_destination(s, i, now)) <= 6 * at_least_zero(s.policy.targets.len() - i)
            + 5 + steps_from_staging(s),
        i >= s.policy.targets.len() ==> steps_left(enter_destination(s, i, now))
            == steps_from_staging(s),
{
}

/// Turning to an archive leaves no more steps than the archives from it on,
/// and all that follows them, can take.
pub proof fn lemma_steps_at_archive(s: ServiceRunView, i: int, now: u64)
    requires
        lists_fit(s),
        0 <= i,
    ensures
        enter_archives(s, i, now).policy == s.policy,
        enter_archives(s, i, now).outcomes == s.outcomes,
        steps_left(enter_archives(s, i, now)) <= at_least_zero(volumes(s.policy).len() - i)
            + steps_from_destinations(s),
{
    lemma_steps_at_destination(s, 0, now);
}

/// Turning to the check of a volume leaves no more steps than the checks
/// from it on, and all that follows them, can take.
pub proof fn lemma_steps_at_volume_check(s: ServiceRunView, i: int, now: u64)
    requires
        lists_fit(s),
        0 <= i,
    ensures
        enter_volume_checks(s, i, now).policy == s.policy,
        enter_volume_checks(s, i, now).outcomes == s.outcomes,
        steps_left(enter_volume_checks(s, i, now)) <= at_least_zero(volumes(s.policy).len() - i)
            + volumes(s.policy).len() + 1 + steps_from_destinations(s),
{
    lemma_steps_at_archive(s, 0, now);
}

/// Turning to a path leaves no more steps than the paths from it on, and
/// all that follows them, can take.
pub proof fn lemma_steps_at_path(s: ServiceRunView, i: int, now: u64)
    requires
        lists_fit(s),
        0 <= i,
    ensures
        enter_paths(s, i, now).policy == s.policy,
        enter_paths(s, i, now).outcomes == s.outcomes,
        steps_left(enter_paths(s, i, now)) <= at_least_zero(paths(s.policy).len() - i) + 2
            * volumes(s.policy).len() + 2 + steps_from_destinations(s),
{
    lemma_steps_at_volume_check(s, 0, now);
}

/// Turning to a pre-backup hook leaves no more steps than the hooks from it
/// on, and all that follows them, can take.
pub proof fn lemma_steps_at_pre_hook(s: ServiceRunView, i: int, now: u64)
    requires
        lists_fit(s),
        0 <= i,
    ensures
        enter_pre_hooks(s, i, now).policy == s.policy,
        enter_pre_hooks(s, i, now).outcomes == s.outcomes,
        steps_left(enter_pre_hooks(s, i, now)) <= at_least_zero(pre_hooks(s.policy).len() - i)
            + paths(s.policy).len() + 2 * volumes(s.policy).len() + 3 + steps_from_destinations(
            s,
        ),
{
    lemma_steps_at_path(s, 0, now);
}

/// Turning to a post-backup hook leaves no more steps than the hooks from
/// it on, and all that follows them, can take.
pub proof fn lemma_steps_at_post_hook(s: ServiceRunView, i: int)
    requires
        lists_fit(s),
        0 <= i,
    ensures
        enter_post_hooks(s, i).policy == s.policy,
        enter_post_hooks(s, i).outcomes == s.outcomes,
        steps_left(enter_post_hooks(s, i)) <= 3 + s.outcomes.len() + at_least_zero(
            post_hooks(s.policy).len() - i,
        ),
{
}

/// Turning to the report of a failure leaves no more steps than there are
/// outcomes from it on.
pub proof fn lemma_steps_at_report(s: ServiceRunView, j: int)
    requires
        s.outcomes.len() <= usize::MAX,
        0 <= j,
    ensures
        enter_notify(s, j).policy == s.policy,
        enter_notify(s, j).outcomes == s.outcomes,
        steps_left(enter_notify(s, j)) <= 1 + at_least_zero(s.outcomes.len() - j),
{
    lemma_next_failure(s.outcomes, j);
}

/// Every step before the destinations brings the end nearer.
pub proof fn lemma_nearer_before_the_destinations(s: ServiceRunView, e: EventView, now: u64)
    requires
        lists_fit(s),
        s.phase is AcquireLock || s.phase is PreHook || s.phase is CheckPath
            || s.phase is VolumeExists || s.phase is ArchiveVolume,
    ensures
        steps_left(step_spec(s, e, now)) < steps_left(s),
        step_spec(s, e, now).policy == s.policy,
{
    match s.phase {
        Phase::AcquireLock => {
            lemma_steps_at_pre_hook(ServiceRunView { started_at: now, ..s }, 0, now);
        },
        Phase::PreHook(i) => {
            lemma_steps_at_pre_hook(s, i + 1, now);
            lemma_steps_at_path(s, 0, now);
        },
        Phase::CheckPath(i) => {
            if i < paths(s.policy).len() {
                let found = ServiceRunView {
                    units: s.units.push(
                        join_spec(s.base_dir, paths(s.policy)[i as int]),
                    ),
                    ..s
                };
                lemma_steps_at_path(found, i + 1, now);
                lemma_steps_at_path(s, i + 1, now);
            }
            lemma_steps_at_volume_check(s, 0, now);
        },
        Phase::VolumeExists(i) => {
            lemma_steps_at_volume_check(s, i + 1, now);
            lemma_steps_at_archive(s, 0, now);
        },
        Phase::ArchiveVolume(i) => {
            if i < volumes(s.policy).len() {
                let packed = ServiceRunView {
                    units: s.units.push(
                        archive_path(
                            s.policy.name,
                            volumes(s.policy)[i as int],
                        ),
                    ),
                    ..s
                };
                lemma_steps_at_archive(packed, i + 1, now);
            }
            lemma_steps_at_archive(s, i as int, now);
        },
        _ => {},
    }
}

/// Every step at a destination brings the end nearer.
pub proof fn lemma_nearer_at_the_destinations(s: ServiceRunView, e: EventView, now: u64)
    requires
        lists_fit(s),
        at_a_destination(s.phase),
    ensures
        steps_left(step_spec(s, e, now)) < steps_left(s),
        step_spec(s, e, now).policy == s.policy,
{
    match s.phase {
        Phase::Retention(i) => {
            lemma_steps_at_destination(s, i + 1, now);
        },
        Phase::Unlock(i) => {
            lemma_steps_at_destination(s, i + 1, now);
        },
        _ => {},
    }
}

/// Every step after the destinations brings the end nearer.
pub proof fn lemma_nearer_after_the_destinations(s: ServiceRunView, e: EventView, now: u64)
    requires
        lists_fit(s),
        s.outcomes.len() <= usize::MAX,
        s.phase is RemoveStaging || s.phase is PostHook || s.phase is ReleaseLock
            || s.phase is NotifySuccess || s.phase is Notify,
    ensures
        steps_left(step_spec(s, e, now)) < steps_left(s),
        step_spec(s, e, now).policy == s.policy,
{
    match s.phase {
        Phase::RemoveStaging => {
            lemma_steps_at_post_hook(s, 0);
        },
        Phase::PostHook(i) => {
            lemma_steps_at_post_hook(s, i + 1);
        },
        Phase::ReleaseLock => {
            lemma_steps_at_report(ServiceRunView { finished_at: now, ..s }, 0);
        },
        Phase::Notify(j) => {
            lemma_steps_at_report(s, j + 1);
        },
        _ => {},
    }
}

/// Every step brings the end nearer: whatever the answer, a run that is not
/// over has fewer steps left after the step than before it, and its policy
/// is the same.
pub proof fn lemma_step_brings_the_end_nearer(s: ServiceRunView, e: EventView, now: u64)
    requires
        lists_fit(s),
        run_is_consistent(s),
        s.phase != Phase::Finished,
    ensures
        steps_left(step_spec(s, e, now)) < steps_left(s),
        step_spec(s, e, now).policy == s.policy,
{
    if at_a_destination(s.phase) {
        lemma_nearer_at_the_destinations(s, e, now);
    } else if s.phase is RemoveStaging || s.phase is PostHook || s.phase is ReleaseLock
        || s.phase is NotifySuccess || s.phase is Notify {
        lemma_nearer_after_the_destinations(s, e, now);
    } else {
        lemma_nearer_before_the_destinations(s, e, now);
    }
}

/// A step changes nothing of the policy.
pub proof fn lemma_step_keeps_the_policy(s: ServiceRunView, e: EventView, now: u64)
    ensures
        step_spec(s, e, now).policy == s.policy,
{
}

/// A run that is over has no step left, and only such a run.
pub proof fn lemma_no_step_left(s: ServiceRunView)
    ensures
        steps_left(s) == 0 <==> s.phase == Phase::Finished,
{
}

/// After any answers, no more steps are left than were left at the start,
/// less the number of the answers.
pub proof fn lemma_steps_are_used_up(s: ServiceRunView, answers: Seq<(EventView, u64)>)
    requires
        lists_fit(s),
        run_is_consistent(s),
    ensures
        steps_left(run_spec(s, answers)) <= at_least_zero(steps_left(s) - answers.len()),
        run_spec(s, answers).policy == s.policy,
    decreases answers.len(),
{
    if answers.len() > 0 {
        let before = run_spec(s, answers.drop_last());
        lemma_steps_are_used_up(s, answers.drop_last());
        lemma_run_is_consistent(s, answers.drop_last());
        if before.phase != Phase::Finished {
            lemma_step_brings_the_end_nearer(before, answers.last().0, answers.last().1);
        }
    }
}

/// Every run ends. Whatever the collaborators answer, and whenever, a run
/// is over once it has had as many answers as it had steps left.
pub proof fn lemma_every_run_ends(s: ServiceRunView, answers: Seq<(EventView, u64)>)
    requires
        lists_fit(s),
        run_is_consistent(s),
        answers.len() >= steps_left(s),
    ensures
        run_spec(s, answers).phase == Phase::Finished,
        result_spec(run_spec(s, answers)) is Some,
{
    lemma_steps_are_used_up(s, answers);
    lemma_no_step_left(run_spec(s, answers));
}

/// A lock that is busy ends the run at once: nothing else of the run
/// changes, and its result is that the service is busy.
pub proof fn lemma_busy_lock_ends_the_run(s: ServiceRunView, e: EventView, now: u64)
    requires
        s.phase == Phase::AcquireLock,
        e != EventView::Done,
    ensures
        step_spec(s, e, now) == (ServiceRunView {
            phase: Phase::Finished,
            abort: Some(ExecutionErrorView::ServiceBusy(s.policy.name)),
            ..s
        }),
        result_spec(step_spec(s, e, now)) == Some(
            Err::<(), AggregateErrorView>(
                AggregateErrorView::Aborted(ExecutionErrorView::ServiceBusy(s.policy.name)),
            ),
        ),
{
}

/// The hook that a run is at, where it is at one.
pub open spec fn hook_at(s: ServiceRunView) -> Option<HookView> {
    match s.phase {
        Phase::PreHook(i) => if i < pre_hooks(s.policy).len() {
            Some(pre_hooks(s.policy)[i as int])
        } else {
            None
        },
        Phase::PostHook(i) => if i < post_hooks(s.policy).len() {
            Some(post_hooks(s.policy)[i as int])
        } else {
            None
        },
        _ => None,
    }
}

/// The failure of a hook that is not to be passed over gives the run up:
/// the run turns to giving the lock back, and its error names the hook and
/// the cause.
pub proof fn lemma_hard_hook_failure_gives_up(s: ServiceRunView, e: EventView, now: u64, cause: Seq<char>)
    requires
        hook_at(s) is Some,
        !hook_at(s)->0.continue_on_error,
        cause_of(e) == Some(cause),
    ensures
        step_spec(s, e, now).phase == Phase::ReleaseLock,
        step_spec(s, e, now).abort == Some(
            ExecutionErrorView::HookFailed(hook_label(hook_at(s)->0), cause),
        ),
        step_spec(s, e, now).outcomes == s.outcomes,
{
}

/// The failure of a hook that is to be passed over changes nothing: the run
/// goes on as it does after a hook that succeeded.
pub proof fn lemma_soft_hook_failure_goes_on(s: ServiceRunView, e: EventView, now: u64)
    requires
        hook_at(s) is Some,
        hook_at(s)->0.continue_on_error,
    ensures
        step_spec(s, e, now) == step_spec(s, EventView::Done, now),
        step_spec(s, e, now).abort == s.abort,
{
}

/// A volume that is missing, that cannot be looked for, or that cannot be
/// archived gives the run up before any destination: the run turns to the
/// removal of the staging directory with an archive error.
pub proof fn lemma_volume_failure_gives_up(s: ServiceRunView, e: EventView, now: u64)
    requires
        match s.phase {
            Phase::VolumeExists(i) => i < volumes(s.policy).len() && e != EventView::Found(true),
            Phase::ArchiveVolume(i) => i < volumes(s.policy).len() && cause_of(
                e,
            ) is Some,
            _ => false,
        },
    ensures
        step_spec(s, e, now).phase == Phase::RemoveStaging,
        step_spec(s, e, now).abort matches Some(ExecutionErrorView::ArchiveFailed(_)),
        step_spec(s, e, now).outcomes == s.outcomes,
        step_spec(s, e, now).units == s.units,
{
}

/// A run that was given up is on its way out: it gives the lock back where
/// it holds it, and is over.
pub open spec fn is_given_up(s: ServiceRunView) -> bool {
    &&& s.abort is Some
    &&& s.phase == Phase::RemoveStaging || s.phase == Phase::ReleaseLock || s.phase
        == Phase::Finished
}

/// A run that was given up stays given up, for the same reason. It contacts
/// no destination, runs no hook and reports nothing, and when it is over
/// its result is the error for which it was given up.
pub proof fn lemma_given_up_is_final(s: ServiceRunView, answers: Seq<(EventView, u64)>)
    requires
        is_given_up(s),
    ensures
        is_given_up(run_spec(s, answers)),
        run_spec(s, answers).abort == s.abort,
        run_spec(s, answers).outcomes == s.outcomes,
        run_spec(s, answers).phase == Phase::Finished ==> result_spec(run_spec(s, answers))
            == Some(Err::<(), AggregateErrorView>(AggregateErrorView::Aborted(s.abort->0))),
    decreases answers.len(),
{
    if answers.len() > 0 {
        lemma_given_up_is_final(s, answers.drop_last());
    }
}

/// A run is reported as long-running at most once. Once it was, no step
/// leads to that report again, whatever the time.
pub proof fn lemma_long_running_is_reported_once(s: ServiceRunView, answers: Seq<(EventView, u64)>)
    requires
        s.long_running_notified,
    ensures
        run_spec(s, answers).long_running_notified,
        answers.len() > 0 ==> !(run_spec(s, answers).phase is LongRunning),
    decreases answers.len(),
{
    if answers.len() > 0 {
        lemma_long_running_is_reported_once(s, answers.drop_last());
    }
}

/// The report that a run is long-running is due only where the run was just
/// found to be past its threshold, and only where it reports at all.
pub proof fn lemma_long_running_needs_the_threshold(s: ServiceRunView, e: EventView, now: u64)
    requires
        !(s.phase is LongRunning),
        step_spec(s, e, now).phase is LongRunning,
    ensures
        s.notify,
        !s.long_running_notified,
        step_spec(s, e, now).long_running_notified,
        seconds_between(step_spec(s, e, now).started_at, now)
            > s.threshold_minutes * 60,
        step_spec(s, e, now).long_running_elapsed == seconds_between(
            step_spec(s, e, now).started_at,
            now,
        ),
{
}

/// Only the answers at a destination decide on its outcome: the outcomes of
/// a run change in the steps of initialising and transferring, and in no
/// other step.
pub proof fn lemma_outcomes_change_at_destinations_only(s: ServiceRunView, e: EventView, now: u64)
    requires
        !(s.phase is InitRepo || s.phase is Transfer),
    ensures
        step_spec(s, e, now).outcomes == s.outcomes,
{
}

/// Work on a repository or a volume that ran out of time is reported as
/// such: the results that the collaborators' functions give for a command
/// that timed out stand for the event that says so.
pub proof fn lemma_timeouts_are_told_apart()
    ensures
        outcome_event(init_outcome(Err(CommandErrorView::TimedOut))) == EventView::TimedOut,
        outcome_event(backup_outcome(Err(CommandErrorView::TimedOut))) == EventView::TimedOut,
        outcome_event(
            soft_outcome(
                Err(CommandErrorView::TimedOut),
                "Retention policy application timed out"@,
                "Failed to execute restic forget"@,
            ),
        ) == EventView::TimedOut,
        outcome_event(
            soft_outcome(
                Err(CommandErrorView::TimedOut),
                "Unlock timed out"@,
                "Failed to execute restic unlock"@,
            ),
        ) == EventView::TimedOut,
        forall|volume: Seq<char>|
            outcome_event(#[trigger] archive_outcome(volume, Err(CommandErrorView::TimedOut)))
                == EventView::TimedOut,
{
    reveal_strlit("timed out");
    reveal_strlit("Repository initialization timed out");
    reveal_strlit("Backup timed out");
    reveal_strlit("Retention policy application timed out");
    reveal_strlit("Unlock timed out");
    reveal_strlit("Volume archiving timed out");
    let suffix = "timed out"@;
    let init = "Repository initialization timed out"@;
    assert(init.subrange(init.len() - suffix.len(), init.len() as int) =~= suffix);
    let backup = "Backup timed out"@;
    assert(backup.subrange(backup.len() - suffix.len(), backup.len() as int) =~= suffix);
    let retention = "Retention policy application timed out"@;
    assert(retention.subrange(retention.len() - suffix.len(), retention.len() as int) =~= suffix);
    let unlock = "Unlock timed out"@;
    assert(unlock.subrange(unlock.len() - suffix.len(), unlock.len() as int) =~= suffix);
    let archive = "Volume archiving timed out"@;
    assert(archive.subrange(archive.len() - suffix.len(), archive.len() as int) =~= suffix);
}

} // verus!
