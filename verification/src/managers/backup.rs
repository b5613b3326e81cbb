//! The execution coordinator.
//!
//! The backup of one service is a protocol of many steps, each of them work
//! that some collaborator does: a lock, hooks, archives, transfers, pruning,
//! alerts. The coordinator decides; it does not do. A [`ServiceRun`] says
//! which [`Action`] is due ([`ServiceRun::next_action`]); the caller performs
//! it and reports what came of it as an [`Event`] ([`ServiceRun::advance`]),
//! until the run is [`Phase::Finished`] and has a result.
//!
//! [`step_spec`] is the whole protocol as a function from state and event to
//! the next state. What holds of every run is proved of it in
//! [`crate::managers::laws`].

use crate::config::loader::first_unknown;
use crate::config::types::{
    clone_strings, Config, ConfigView, DestinationView, Hook, HookView, ResolvedServiceConfig,
    ResolvedServiceConfigView, RetentionPolicy,
};
use crate::config::{effective_excludes, get_effective_excludes};
use crate::managers::laws::{
    lemma_step_brings_the_end_nearer, lemma_step_is_consistent, lemma_step_keeps_the_policy,
    lists_fit, run_is_consistent, steps_left,
};
use crate::managers::notification::{
    failure_event, long_running_event, success_event, Notification, NotificationManager,
    NotificationView,
};
use crate::name_map::{lookup, NameMap};
use crate::text::{concat2, concat3, ends_with, has_suffix};
use crate::utils::executor::{CommandError, CommandErrorView, CommandOutput, CommandOutputView};
use crate::utils::paths::{join, join_spec};
use crate::utils::restic::{build_repository_url, repository_url_spec};
use vstd::prelude::*;

verus! {

/// Seconds granted to the attempt to clear a stale lock on a repository.
pub const UNLOCK_TIMEOUT_SECS: u64 = 30;

/// Why a backup did not run to its end, or why one destination failed.
#[derive(Debug)]
pub enum ExecutionError {
    /// No service of this name is configured.
    ServiceNotFound(String),
    /// A target of the service is no destination.
    DestinationNotFound(String),
    /// Another backup of the service holds its lock.
    ServiceBusy(String),
    /// The named hook failed, and its failure is not to be passed over.
    HookFailed(String, String),
    /// A volume is missing or could not be archived.
    ArchiveFailed(String),
    /// The repository could not be initialised or the transfer failed.
    TransferFailed(String),
    /// The work on the named destination ran out of time.
    Timeout(String),
}

/// What an [`ExecutionError`] holds, as a value of specifications.
pub enum ExecutionErrorView {
    ServiceNotFound(Seq<char>),
    DestinationNotFound(Seq<char>),
    ServiceBusy(Seq<char>),
    HookFailed(Seq<char>, Seq<char>),
    ArchiveFailed(Seq<char>),
    TransferFailed(Seq<char>),
    Timeout(Seq<char>),
}

impl View for ExecutionError {
    type V = ExecutionErrorView;

    open spec fn view(&self) -> ExecutionErrorView {
        match self {
            ExecutionError::ServiceNotFound(s) => ExecutionErrorView::ServiceNotFound(s@),
            ExecutionError::DestinationNotFound(s) => ExecutionErrorView::DestinationNotFound(s@),
            ExecutionError::ServiceBusy(s) => ExecutionErrorView::ServiceBusy(s@),
            ExecutionError::HookFailed(h, c) => ExecutionErrorView::HookFailed(h@, c@),
            ExecutionError::ArchiveFailed(c) => ExecutionErrorView::ArchiveFailed(c@),
            ExecutionError::TransferFailed(c) => ExecutionErrorView::TransferFailed(c@),
            ExecutionError::Timeout(d) => ExecutionErrorView::Timeout(d@),
        }
    }
}

impl DeepView for ExecutionError {
    type V = ExecutionErrorView;

    open spec fn deep_view(&self) -> ExecutionErrorView {
        self@
    }
}

/// The text of an error, as shown to the user.
pub open spec fn execution_error_text(e: ExecutionErrorView) -> Seq<char> {
    match e {
        ExecutionErrorView::ServiceNotFound(s) => "Service not found: "@ + s,
        ExecutionErrorView::DestinationNotFound(d) => "Destination not found: "@ + d,
        ExecutionErrorView::ServiceBusy(s) => "Service '"@ + s
            + "' is already being backed up (lock held)"@,
        ExecutionErrorView::HookFailed(h, c) => "Failed to execute hook: "@ + h + ": "@ + c,
        ExecutionErrorView::ArchiveFailed(c) => "Failed to backup Docker volumes: "@ + c,
        ExecutionErrorView::TransferFailed(c) => "Transfer failed: "@ + c,
        ExecutionErrorView::Timeout(d) => "Timed out: "@ + d,
    }
}

impl ExecutionError {
    /// The text of the error, as shown to the user.
    pub fn message(&self) -> (r: String)
        ensures
            r@ == execution_error_text(self@),
    {
        match self {
            ExecutionError::ServiceNotFound(s) => concat2("Service not found: ", s.as_str()),
            ExecutionError::DestinationNotFound(d) => concat2(
                "Destination not found: ",
                d.as_str(),
            ),
            ExecutionError::ServiceBusy(s) => concat3(
                "Service '",
                s.as_str(),
                "' is already being backed up (lock held)",
            ),
            ExecutionError::HookFailed(h, c) => {
                let mut r = concat3("Failed to execute hook: ", h.as_str(), ": ");
                r.append(c.as_str());
                r
            },
            ExecutionError::ArchiveFailed(c) => concat2(
                "Failed to backup Docker volumes: ",
                c.as_str(),
            ),
            ExecutionError::TransferFailed(c) => concat2("Transfer failed: ", c.as_str()),
            ExecutionError::Timeout(d) => concat2("Timed out: ", d.as_str()),
        }
    }
}

impl Clone for ExecutionError {
    fn clone(&self) -> (r: Self)
        ensures
            r@ == self@,
    {
        match self {
            ExecutionError::ServiceNotFound(s) => ExecutionError::ServiceNotFound(s.clone()),
            ExecutionError::DestinationNotFound(s) => ExecutionError::DestinationNotFound(
                s.clone(),
            ),
            ExecutionError::ServiceBusy(s) => ExecutionError::ServiceBusy(s.clone()),
            ExecutionError::HookFailed(h, c) => ExecutionError::HookFailed(h.clone(), c.clone()),
            ExecutionError::ArchiveFailed(c) => ExecutionError::ArchiveFailed(c.clone()),
            ExecutionError::TransferFailed(c) => ExecutionError::TransferFailed(c.clone()),
            ExecutionError::Timeout(d) => ExecutionError::Timeout(d.clone()),
        }
    }
}

/// One destination that failed, with its cause and the time the run had
/// taken when it failed.
#[derive(Debug)]
pub struct DestinationFailure {
    pub destination: String,
    pub error: ExecutionError,
    pub elapsed_secs: u64,
}

/// What a [`DestinationFailure`] holds, as a value of specifications.
pub struct DestinationFailureView {
    pub destination: Seq<char>,
    pub error: ExecutionErrorView,
    pub elapsed_secs: u64,
}

impl View for DestinationFailure {
    type V = DestinationFailureView;

    open spec fn view(&self) -> DestinationFailureView {
        DestinationFailureView {
            destination: self.destination@,
            error: self.error@,
            elapsed_secs: self.elapsed_secs,
        }
    }
}

impl DeepView for DestinationFailure {
    type V = DestinationFailureView;

    open spec fn deep_view(&self) -> DestinationFailureView {
        self@
    }
}

impl Clone for DestinationFailure {
    fn clone(&self) -> (r: Self)
        ensures
            r@ == self@,
    {
        DestinationFailure {
            destination: self.destination.clone(),
            error: self.error.clone(),
            elapsed_secs: self.elapsed_secs,
        }
    }
}

/// What came of one destination: its failure, or none, and the time the
/// run had taken by then.
#[derive(Debug)]
pub struct DestinationOutcome {
    pub destination: String,
    pub error: Option<ExecutionError>,
    pub elapsed_secs: u64,
}

/// What a [`DestinationOutcome`] holds, as a value of specifications.
pub struct DestinationOutcomeView {
    pub destination: Seq<char>,
    pub error: Option<ExecutionErrorView>,
    pub elapsed_secs: u64,
}

impl View for DestinationOutcome {
    type V = DestinationOutcomeView;

    open spec fn view(&self) -> DestinationOutcomeView {
        DestinationOutcomeView {
            destination: self.destination@,
            error: self.error.deep_view(),
            elapsed_secs: self.elapsed_secs,
        }
    }
}

impl DeepView for DestinationOutcome {
    type V = DestinationOutcomeView;

    open spec fn deep_view(&self) -> DestinationOutcomeView {
        self@
    }
}

/// Why the backup of a service failed as a whole.
#[derive(Debug)]
pub enum AggregateError {
    /// The run was given up before or after the destinations.
    Aborted(ExecutionError),
    /// Every destination was attempted; these failed.
    Destinations(Vec<DestinationFailure>),
}

/// What an [`AggregateError`] holds, as a value of specifications.
pub enum AggregateErrorView {
    Aborted(ExecutionErrorView),
    Destinations(Seq<DestinationFailureView>),
}

impl View for AggregateError {
    type V = AggregateErrorView;

    open spec fn view(&self) -> AggregateErrorView {
        match self {
            AggregateError::Aborted(e) => AggregateErrorView::Aborted(e@),
            AggregateError::Destinations(f) => AggregateErrorView::Destinations(f.deep_view()),
        }
    }
}

/// Where a run stands. The number in a phase is the position of the hook,
/// path, volume, destination or failure that the phase is about.
#[derive(Debug, Clone, Copy, PartialEq, Eq, Structural)]
pub enum Phase {
    AcquireLock,
    PreHook(usize),
    CheckPath(usize),
    VolumeExists(usize),
    ArchiveVolume(usize),
    LongRunning(usize),
    InitRepo(usize),
    Transfer(usize),
    Retention(usize),
    Unlock(usize),
    RemoveStaging,
    PostHook(usize),
    ReleaseLock,
    NotifySuccess,
    Notify(usize),
    Finished,
}

/// What came of an action.
#[derive(Debug)]
pub enum Event {
    /// The action was carried out.
    Done,
    /// The repository was there already.
    AlreadyInitialized,
    /// The answer to a question of existence.
    Found(bool),
    /// The action failed, for the reason given.
    Failed(String),
    /// The action ran out of time and was ended.
    TimedOut,
    /// The lock is held by someone else.
    Busy,
}

/// What an [`Event`] holds, as a value of specifications.
pub enum EventView {
    Done,
    AlreadyInitialized,
    Found(bool),
    Failed(Seq<char>),
    TimedOut,
    Busy,
}

impl View for Event {
    type V = EventView;

    open spec fn view(&self) -> EventView {
        match self {
            Event::Done => EventView::Done,
            Event::AlreadyInitialized => EventView::AlreadyInitialized,
            Event::Found(b) => EventView::Found(*b),
            Event::Failed(c) => EventView::Failed(c@),
            Event::TimedOut => EventView::TimedOut,
            Event::Busy => EventView::Busy,
        }
    }
}

/// What the caller is to do next.
#[derive(Debug)]
pub enum Action {
    /// Take the service's lock without waiting. Answer: `Done` or `Busy`.
    AcquireLock { service: String },
    /// Run a shell command. Answer: `Done`, `Failed` or `TimedOut`.
    RunHook { command: String, working_dir: Option<String>, timeout_secs: u64 },
    /// Say whether the path exists. Answer: `Found`.
    CheckPath { path: String },
    /// Say whether the volume exists. Answer: `Found` or `Failed`.
    VolumeExists { volume: String },
    /// Archive the volume into the file. Answer: `Done`, `Failed`, `TimedOut`.
    ArchiveVolume { volume: String, output: String, timeout_secs: u64 },
    /// Initialise the repository. Answer: `Done`, `AlreadyInitialized`,
    /// `Failed` or `TimedOut`.
    InitRepository { repository: String, timeout_secs: u64 },
    /// Transfer the units. Answer: `Done`, `Failed` or `TimedOut`.
    Transfer { repository: String, paths: Vec<String>, excludes: Vec<String>, timeout_secs: u64 },
    /// Prune the repository. Any answer will do.
    ApplyRetention { repository: String, retention: RetentionPolicy, timeout_secs: u64 },
    /// Clear a stale lock on the repository. Any answer will do.
    Unlock { repository: String, timeout_secs: u64 },
    /// Remove the staging directory. Any answer will do.
    RemoveStaging { directory: String },
    /// Give the service's lock back. Any answer will do.
    ReleaseLock { service: String },
    /// Hand the event to the notifier. Any answer will do.
    Notify(Notification),
    /// Nothing is to be done in this phase. Any answer will do.
    Proceed,
    /// The run is over.
    Finish,
}

/// What an [`Action`] holds, as a value of specifications.
pub enum ActionView {
    AcquireLock { service: Seq<char> },
    RunHook { command: Seq<char>, working_dir: Option<Seq<char>>, timeout_secs: u64 },
    CheckPath { path: Seq<char> },
    VolumeExists { volume: Seq<char> },
    ArchiveVolume { volume: Seq<char>, output: Seq<char>, timeout_secs: u64 },
    InitRepository { repository: Seq<char>, timeout_secs: u64 },
    Transfer {
        repository: Seq<char>,
        paths: Seq<Seq<char>>,
        excludes: Seq<Seq<char>>,
        timeout_secs: u64,
    },
    ApplyRetention { repository: Seq<char>, retention: RetentionPolicy, timeout_secs: u64 },
    Unlock { repository: Seq<char>, timeout_secs: u64 },
    RemoveStaging { directory: Seq<char> },
    ReleaseLock { service: Seq<char> },
    Notify(NotificationView),
    Proceed,
    Finish,
}

impl View for Action {
    type V = ActionView;

    open spec fn view(&self) -> ActionView {
        match self {
            Action::AcquireLock { service } => ActionView::AcquireLock { service: service@ },
            Action::RunHook { command, working_dir, timeout_secs } => ActionView::RunHook {
                command: command@,
                working_dir: working_dir.deep_view(),
                timeout_secs: *timeout_secs,
            },
            Action::CheckPath { path } => ActionView::CheckPath { path: path@ },
            Action::VolumeExists { volume } => ActionView::VolumeExists { volume: volume@ },
            Action::ArchiveVolume { volume, output, timeout_secs } => ActionView::ArchiveVolume {
                volume: volume@,
                output: output@,
                timeout_secs: *timeout_secs,
            },
            Action::InitRepository { repository, timeout_secs } => ActionView::InitRepository {
                repository: repository@,
                timeout_secs: *timeout_secs,
            },
            Action::Transfer { repository, paths, excludes, timeout_secs } => ActionView::Transfer {
                repository: repository@,
                paths: paths.deep_view(),
                excludes: excludes.deep_view(),
                timeout_secs: *timeout_secs,
            },
            Action::ApplyRetention { repository, retention, timeout_secs } => {
                ActionView::ApplyRetention {
                    repository: repository@,
                    retention: *retention,
                    timeout_secs: *timeout_secs,
                }
            },
            Action::Unlock { repository, timeout_secs } => ActionView::Unlock {
                repository: repository@,
                timeout_secs: *timeout_secs,
            },
            Action::RemoveStaging { directory } => ActionView::RemoveStaging {
                directory: directory@,
            },
            Action::ReleaseLock { service } => ActionView::ReleaseLock { service: service@ },
            Action::Notify(n) => ActionView::Notify(n@),
            Action::Proceed => ActionView::Proceed,
            Action::Finish => ActionView::Finish,
        }
    }
}

/// The backup of one service, under way.
#[derive(Debug)]
pub struct ServiceRun {
    /// The resolved policy of the service.
    pub policy: ResolvedServiceConfig,
    /// The repository of the service at each of its targets, in their order.
    pub repositories: Vec<String>,
    /// The global exclusion patterns followed by the service's own.
    pub excludes: Vec<String>,
    /// The directory under which relative paths are resolved.
    pub base_dir: String,
    /// The threshold past which a run is reported as long-running.
    pub threshold_minutes: u64,
    /// Whether events are handed to a notifier at all.
    pub notify: bool,
    pub phase: Phase,
    /// When the lock was taken.
    pub started_at: u64,
    /// When the lock was given back.
    pub finished_at: u64,
    /// The paths that exist and the archives that were made, in this order.
    pub units: Vec<String>,
    /// What came of each destination that was attempted, in the order of
    /// the targets.
    pub outcomes: Vec<DestinationOutcome>,
    /// Whether this run was reported as long-running already.
    pub long_running_notified: bool,
    /// The time the run had taken when it was found to be long-running.
    pub long_running_elapsed: u64,
    /// Why the run was given up, if it was.
    pub abort: Option<ExecutionError>,
}

/// What a [`ServiceRun`] holds, as a value of specifications.
pub struct ServiceRunView {
    pub policy: ResolvedServiceConfigView,
    pub repositories: Seq<Seq<char>>,
    pub excludes: Seq<Seq<char>>,
    pub base_dir: Seq<char>,
    pub threshold_minutes: u64,
    pub notify: bool,
    pub phase: Phase,
    pub started_at: u64,
    pub finished_at: u64,
    pub units: Seq<Seq<char>>,
    pub outcomes: Seq<DestinationOutcomeView>,
    pub long_running_notified: bool,
    pub long_running_elapsed: u64,
    pub abort: Option<ExecutionErrorView>,
}

impl View for ServiceRun {
    type V = ServiceRunView;

    open spec fn view(&self) -> ServiceRunView {
        ServiceRunView {
            policy: self.policy@,
            repositories: self.repositories.deep_view(),
            excludes: self.excludes.deep_view(),
            base_dir: self.base_dir@,
            threshold_minutes: self.threshold_minutes,
            notify: self.notify,
            phase: self.phase,
            started_at: self.started_at,
            finished_at: self.finished_at,
            units: self.units.deep_view(),
            outcomes: self.outcomes.deep_view(),
            long_running_notified: self.long_running_notified,
            long_running_elapsed: self.long_running_elapsed,
            abort: self.abort.deep_view(),
        }
    }
}

/// The hooks that run before the backup.
pub open spec fn pre_hooks(p: ResolvedServiceConfigView) -> Seq<HookView> {
    match p.config {
        Some(c) => c.pre_backup_hooks,
        None => Seq::empty(),
    }
}

/// The hooks that run after the backup.
pub open spec fn post_hooks(p: ResolvedServiceConfigView) -> Seq<HookView> {
    match p.config {
        Some(c) => c.post_backup_hooks,
        None => Seq::empty(),
    }
}

/// The paths that the service backs up.
pub open spec fn paths(p: ResolvedServiceConfigView) -> Seq<Seq<char>> {
    match p.config {
        Some(c) => c.paths,
        None => Seq::empty(),
    }
}

/// The volumes that the service backs up.
pub open spec fn volumes(p: ResolvedServiceConfigView) -> Seq<Seq<char>> {
    match p.config {
        Some(c) => c.volumes,
        None => Seq::empty(),
    }
}

/// The name by which a hook is reported: its name, or its command where it
/// has no name.
pub open spec fn hook_label(h: HookView) -> Seq<char> {
    if h.name.len() == 0 {
        h.command
    } else {
        h.name
    }
}

/// The time granted to a hook: its own, or else the service's.
pub open spec fn hook_timeout(h: HookView, p: ResolvedServiceConfigView) -> u64 {
    match h.timeout_seconds {
        Some(t) => t,
        None => p.timeout_seconds,
    }
}

/// The staging directory of a service.
pub open spec fn staging_dir(service: Seq<char>) -> Seq<char> {
    "/tmp/restic-manager/"@ + service
}

/// The file that a volume of a service is archived into.
pub open spec fn archive_path(service: Seq<char>, volume: Seq<char>) -> Seq<char> {
    staging_dir(service) + "/"@ + volume + ".tar.gz"@
}

/// The seconds from `from` to `to`; zero where the clock went backwards.
pub open spec fn seconds_between(from: u64, to: u64) -> u64 {
    if to >= from {
        (to - from) as u64
    } else {
        0
    }
}

/// The reason that an event gives for a failure, if it reports one.
pub open spec fn cause_of(e: EventView) -> Option<Seq<char>> {
    match e {
        EventView::Failed(c) => Some(c),
        EventView::TimedOut => Some("timed out"@),
        EventView::Busy => Some("busy"@),
        _ => None,
    }
}

/// The error of the destination `destination` that an event reports, if it
/// reports a failure.
pub open spec fn destination_error(e: EventView, destination: Seq<char>) -> Option<
    ExecutionErrorView,
> {
    match e {
        EventView::Failed(c) => Some(ExecutionErrorView::TransferFailed(c)),
        EventView::TimedOut => Some(ExecutionErrorView::Timeout(destination)),
        EventView::Busy => Some(ExecutionErrorView::TransferFailed("busy"@)),
        _ => None,
    }
}

/// The state `s` in another phase.
pub open spec fn at(s: ServiceRunView, phase: Phase) -> ServiceRunView {
    ServiceRunView { phase: phase, ..s }
}

/// The state `s` given up for the reason `e`, in the phase in which giving
/// up goes on.
pub open spec fn given_up(s: ServiceRunView, e: ExecutionErrorView, phase: Phase) -> ServiceRunView {
    ServiceRunView { abort: Some(e), phase: phase, ..s }
}

/// The run turns to the destination at position `i`, or past the
/// destinations where there is none. A run that is past the threshold for
/// the first time reports that before it goes on.
pub open spec fn enter_destination(s: ServiceRunView, i: int, now: u64) -> ServiceRunView {
    if i < 0 || i >= s.policy.targets.len() || i >= s.repositories.len() {
        at(s, Phase::RemoveStaging)
    } else if s.notify && !s.long_running_notified && seconds_between(s.started_at, now)
        > s.threshold_minutes * 60 {
        ServiceRunView {
            phase: Phase::LongRunning(i as usize),
            long_running_notified: true,
            long_running_elapsed: seconds_between(s.started_at, now),
            ..s
        }
    } else {
        at(s, Phase::InitRepo(i as usize))
    }
}

/// The run turns to archiving the volume at position `i`; past the volumes
/// it turns to the destinations, or past them where there is nothing to
/// back up.
pub open spec fn enter_archives(s: ServiceRunView, i: int, now: u64) -> ServiceRunView {
    if 0 <= i < volumes(s.policy).len() {
        at(s, Phase::ArchiveVolume(i as usize))
    } else if s.units.len() == 0 {
        at(s, Phase::RemoveStaging)
    } else {
        enter_destination(s, 0, now)
    }
}

/// The run turns to checking the volume at position `i`, or to the archives
/// where every volume is checked.
pub open spec fn enter_volume_checks(s: ServiceRunView, i: int, now: u64) -> ServiceRunView {
    if 0 <= i < volumes(s.policy).len() {
        at(s, Phase::VolumeExists(i as usize))
    } else {
        enter_archives(s, 0, now)
    }
}

/// The run turns to the path at position `i`, or to the volumes where there
/// is no such path.
pub open spec fn enter_paths(s: ServiceRunView, i: int, now: u64) -> ServiceRunView {
    if 0 <= i < paths(s.policy).len() {
        at(s, Phase::CheckPath(i as usize))
    } else {
        enter_volume_checks(s, 0, now)
    }
}

/// The run turns to the pre-backup hook at position `i`, or to the paths
/// where there is no such hook.
pub open spec fn enter_pre_hooks(s: ServiceRunView, i: int, now: u64) -> ServiceRunView {
    if 0 <= i < pre_hooks(s.policy).len() {
        at(s, Phase::PreHook(i as usize))
    } else {
        enter_paths(s, 0, now)
    }
}

/// The run turns to the post-backup hook at position `i`, or to giving the
/// lock back where there is no such hook.
pub open spec fn enter_post_hooks(s: ServiceRunView, i: int) -> ServiceRunView {
    if 0 <= i < post_hooks(s.policy).len() {
        at(s, Phase::PostHook(i as usize))
    } else {
        at(s, Phase::ReleaseLock)
    }
}

/// The outcome of the destination at position `i` is in: with an error the
/// run turns to clearing the repository's lock, without one to pruning.
pub open spec fn destination_done(
    s: ServiceRunView,
    i: int,
    error: Option<ExecutionErrorView>,
    now: u64,
) -> ServiceRunView {
    ServiceRunView {
        outcomes: s.outcomes.push(
            DestinationOutcomeView {
                destination: s.policy.targets[i],
                error: error,
                elapsed_secs: seconds_between(s.started_at, now),
            },
        ),
        phase: if error is Some {
            Phase::Unlock(i as usize)
        } else {
            Phase::Retention(i as usize)
        },
        ..s
    }
}

/// The position of the first outcome, from `from` on, that is a failure;
/// the number of outcomes where there is none.
pub open spec fn next_failure(outcomes: Seq<DestinationOutcomeView>, from: int) -> int
    decreases outcomes.len() - from,
{
    if from < 0 || from >= outcomes.len() {
        outcomes.len() as int
    } else if outcomes[from].error is Some {
        from
    } else {
        next_failure(outcomes, from + 1)
    }
}

/// The failures among the first `n` outcomes, in their order.
pub open spec fn failures_before(outcomes: Seq<DestinationOutcomeView>, n: int) -> Seq<
    DestinationFailureView,
>
    decreases n,
{
    if n <= 0 || n > outcomes.len() {
        Seq::empty()
    } else if outcomes[n - 1].error is Some {
        failures_before(outcomes, n - 1).push(
            DestinationFailureView {
                destination: outcomes[n - 1].destination,
                error: outcomes[n - 1].error->0,
                elapsed_secs: outcomes[n - 1].elapsed_secs,
            },
        )
    } else {
        failures_before(outcomes, n - 1)
    }
}

/// The failures among the outcomes, in their order.
pub open spec fn failures_of(outcomes: Seq<DestinationOutcomeView>) -> Seq<DestinationFailureView> {
    failures_before(outcomes, outcomes.len() as int)
}

/// The run turns to reporting the failure at or after position `j`, or is
/// over where there is none.
pub open spec fn enter_notify(s: ServiceRunView, j: int) -> ServiceRunView {
    if 0 <= j && next_failure(s.outcomes, j) < s.outcomes.len() {
        at(s, Phase::Notify(next_failure(s.outcomes, j) as usize))
    } else {
        at(s, Phase::Finished)
    }
}

/// The protocol: the state that follows `s` when the action that was due in
/// `s` has ended with `e` at time `now`.
pub open spec fn step_spec(s: ServiceRunView, e: EventView, now: u64) -> ServiceRunView {
    match s.phase {
        Phase::AcquireLock => match e {
            EventView::Done => enter_pre_hooks(ServiceRunView { started_at: now, ..s }, 0, now),
            _ => given_up(s, ExecutionErrorView::ServiceBusy(s.policy.name), Phase::Finished),
        },
        Phase::PreHook(i) => if i < pre_hooks(s.policy).len() {
            let hook = pre_hooks(s.policy)[i as int];
            match cause_of(e) {
                Some(c) => if hook.continue_on_error {
                    enter_pre_hooks(s, i + 1, now)
                } else {
                    given_up(
                        s,
                        ExecutionErrorView::HookFailed(hook_label(hook), c),
                        Phase::ReleaseLock,
                    )
                },
                None => enter_pre_hooks(s, i + 1, now),
            }
        } else {
            enter_paths(s, 0, now)
        },
        Phase::CheckPath(i) => if i < paths(s.policy).len() {
            if e == EventView::Found(true) {
                enter_paths(
                    ServiceRunView {
                        units: s.units.push(join_spec(s.base_dir, paths(s.policy)[i as int])),
                        ..s
                    },
                    i + 1,
                    now,
                )
            } else {
                enter_paths(s, i + 1, now)
            }
        } else {
            enter_volume_checks(s, 0, now)
        },
        Phase::VolumeExists(i) => if i < volumes(s.policy).len() {
            match e {
                EventView::Found(true) => enter_volume_checks(s, i + 1, now),
                EventView::Found(false) => given_up(
                    s,
                    ExecutionErrorView::ArchiveFailed(
                        "Docker volume does not exist: "@ + volumes(s.policy)[i as int],
                    ),
                    Phase::RemoveStaging,
                ),
                _ => given_up(
                    s,
                    ExecutionErrorView::ArchiveFailed(
                        match cause_of(e) {
                            Some(c) => c,
                            None => "no answer"@,
                        },
                    ),
                    Phase::RemoveStaging,
                ),
            }
        } else {
            enter_archives(s, 0, now)
        },
        Phase::ArchiveVolume(i) => if i < volumes(s.policy).len() {
            match cause_of(e) {
                Some(c) => given_up(s, ExecutionErrorView::ArchiveFailed(c), Phase::RemoveStaging),
                None => enter_archives(
                    ServiceRunView {
                        units: s.units.push(
                            archive_path(s.policy.name, volumes(s.policy)[i as int]),
                        ),
                        ..s
                    },
                    i + 1,
                    now,
                ),
            }
        } else {
            enter_archives(s, i as int, now)
        },
        Phase::LongRunning(i) => if i < s.policy.targets.len() && i < s.repositories.len() {
            at(s, Phase::InitRepo(i))
        } else {
            at(s, Phase::RemoveStaging)
        },
        Phase::InitRepo(i) => if i < s.policy.targets.len() && i < s.repositories.len() {
            match destination_error(e, s.policy.targets[i as int]) {
                Some(error) => destination_done(s, i as int, Some(error), now),
                None => at(s, Phase::Transfer(i)),
            }
        } else {
            at(s, Phase::RemoveStaging)
        },
        Phase::Transfer(i) => if i < s.policy.targets.len() && i < s.repositories.len() {
            destination_done(s, i as int, destination_error(e, s.policy.targets[i as int]), now)
        } else {
            at(s, Phase::RemoveStaging)
        },
        Phase::Retention(i) => enter_destination(s, i + 1, now),
        Phase::Unlock(i) => enter_destination(s, i + 1, now),
        Phase::RemoveStaging => if s.abort is Some {
            at(s, Phase::ReleaseLock)
        } else {
            enter_post_hooks(s, 0)
        },
        Phase::PostHook(i) => if i < post_hooks(s.policy).len() {
            let hook = post_hooks(s.policy)[i as int];
            match cause_of(e) {
                Some(c) => if hook.continue_on_error {
                    enter_post_hooks(s, i + 1)
                } else {
                    given_up(
                        s,
                        ExecutionErrorView::HookFailed(hook_label(hook), c),
                        Phase::ReleaseLock,
                    )
                },
                None => enter_post_hooks(s, i + 1),
            }
        } else {
            at(s, Phase::ReleaseLock)
        },
        Phase::ReleaseLock => {
            let released = ServiceRunView { finished_at: now, ..s };
            if s.abort is Some || !s.notify {
                at(released, Phase::Finished)
            } else if next_failure(s.outcomes, 0) >= s.outcomes.len() {
                at(released, Phase::NotifySuccess)
            } else {
                enter_notify(released, 0)
            }
        },
        Phase::NotifySuccess => at(s, Phase::Finished),
        Phase::Notify(j) => enter_notify(s, j + 1),
        Phase::Finished => s,
    }
}

/// The action that is due in state `s`.
pub open spec fn action_spec(s: ServiceRunView) -> ActionView {
    let p = s.policy;
    match s.phase {
        Phase::AcquireLock => ActionView::AcquireLock { service: p.name },
        Phase::PreHook(i) => if i < pre_hooks(p).len() {
            ActionView::RunHook {
                command: pre_hooks(p)[i as int].command,
                working_dir: pre_hooks(p)[i as int].working_dir,
                timeout_secs: hook_timeout(pre_hooks(p)[i as int], p),
            }
        } else {
            ActionView::Proceed
        },
        Phase::CheckPath(i) => if i < paths(p).len() {
            ActionView::CheckPath { path: join_spec(s.base_dir, paths(p)[i as int]) }
        } else {
            ActionView::Proceed
        },
        Phase::VolumeExists(i) => if i < volumes(p).len() {
            ActionView::VolumeExists { volume: volumes(p)[i as int] }
        } else {
            ActionView::Proceed
        },
        Phase::ArchiveVolume(i) => if i < volumes(p).len() {
            ActionView::ArchiveVolume {
                volume: volumes(p)[i as int],
                output: archive_path(p.name, volumes(p)[i as int]),
                timeout_secs: p.timeout_seconds,
            }
        } else {
            ActionView::Proceed
        },
        Phase::LongRunning(i) => if i < p.targets.len() && i < s.repositories.len() {
            ActionView::Notify(
                long_running_event(
                    p.name,
                    Some(p.targets[i as int]),
                    s.long_running_elapsed,
                    s.threshold_minutes,
                ),
            )
        } else {
            ActionView::Proceed
        },
        Phase::InitRepo(i) => if i < p.targets.len() && i < s.repositories.len() {
            ActionView::InitRepository {
                repository: s.repositories[i as int],
                timeout_secs: p.timeout_seconds,
            }
        } else {
            ActionView::Proceed
        },
        Phase::Transfer(i) => if i < p.targets.len() && i < s.repositories.len() {
            ActionView::Transfer {
                repository: s.repositories[i as int],
                paths: s.units,
                excludes: s.excludes,
                timeout_secs: p.timeout_seconds,
            }
        } else {
            ActionView::Proceed
        },
        Phase::Retention(i) => if i < p.targets.len() && i < s.repositories.len() {
            ActionView::ApplyRetention {
                repository: s.repositories[i as int],
                retention: p.retention,
                timeout_secs: p.timeout_seconds,
            }
        } else {
            ActionView::Proceed
        },
        Phase::Unlock(i) => if i < p.targets.len() && i < s.repositories.len() {
            ActionView::Unlock {
                repository: s.repositories[i as int],
                timeout_secs: UNLOCK_TIMEOUT_SECS,
            }
        } else {
            ActionView::Proceed
        },
        Phase::RemoveStaging => ActionView::RemoveStaging { directory: staging_dir(p.name) },
        Phase::PostHook(i) => if i < post_hooks(p).len() {
            ActionView::RunHook {
                command: post_hooks(p)[i as int].command,
                working_dir: post_hooks(p)[i as int].working_dir,
                timeout_secs: hook_timeout(post_hooks(p)[i as int], p),
            }
        } else {
            ActionView::Proceed
        },
        Phase::ReleaseLock => ActionView::ReleaseLock { service: p.name },
        Phase::NotifySuccess => ActionView::Notify(
            success_event(p.name, None, seconds_between(s.started_at, s.finished_at)),
        ),
        Phase::Notify(j) => if j < s.outcomes.len() && s.outcomes[j as int].error is Some {
            ActionView::Notify(
                failure_event(
                    p.name,
                    Some(s.outcomes[j as int].destination),
                    execution_error_text(s.outcomes[j as int].error->0),
                    Some(s.outcomes[j as int].elapsed_secs),
                ),
            )
        } else {
            ActionView::Proceed
        },
        Phase::Finished => ActionView::Finish,
    }
}

/// The result of a run, once it is over: the reason it was given up, else
/// the destinations that failed, else success.
pub open spec fn result_spec(s: ServiceRunView) -> Option<Result<(), AggregateErrorView>> {
    if s.phase != Phase::Finished {
        None
    } else if s.abort is Some {
        Some(Err(AggregateErrorView::Aborted(s.abort->0)))
    } else if failures_of(s.outcomes).len() > 0 {
        Some(Err(AggregateErrorView::Destinations(failures_of(s.outcomes))))
    } else {
        Some(Ok(()))
    }
}

/// Appends `s` to `v`.
pub fn push_text(v: &mut Vec<String>, s: String)
    ensures
        final(v).deep_view() == old(v).deep_view().push(s@),
{
    let ghost before = v.deep_view();
    v.push(s);
    assert(v.deep_view() =~= before.push(s@));
}

/// The seconds from `from` to `to`; zero where the clock went backwards.
pub fn seconds_from(from: u64, to: u64) -> (r: u64)
    ensures
        r == seconds_between(from, to),
{
    if to >= from {
        to - from
    } else {
        0
    }
}

/// The number of hooks that run before the backup.
fn pre_hook_count(p: &ResolvedServiceConfig) -> (r: usize)
    ensures
        r == pre_hooks(p@).len(),
{
    match &p.config {
        Some(c) => c.pre_backup_hooks.len(),
        None => 0,
    }
}

/// The hook at position `i` of those that run before the backup.
fn pre_hook_at(p: &ResolvedServiceConfig, i: usize) -> (r: &Hook)
    requires
        i < pre_hooks(p@).len(),
    ensures
        r@ == pre_hooks(p@)[i as int],
{
    match &p.config {
        Some(c) => &c.pre_backup_hooks[i],
        None => vstd::pervasive::unreached(),
    }
}

/// The number of hooks that run after the backup.
fn post_hook_count(p: &ResolvedServiceConfig) -> (r: usize)
    ensures
        r == post_hooks(p@).len(),
{
    match &p.config {
        Some(c) => c.post_backup_hooks.len(),
        None => 0,
    }
}

/// The hook at position `i` of those that run after the backup.
fn post_hook_at(p: &ResolvedServiceConfig, i: usize) -> (r: &Hook)
    requires
        i < post_hooks(p@).len(),
    ensures
        r@ == post_hooks(p@)[i as int],
{
    match &p.config {
        Some(c) => &c.post_backup_hooks[i],
        None => vstd::pervasive::unreached(),
    }
}

/// The number of paths that the service backs up.
fn path_count(p: &ResolvedServiceConfig) -> (r: usize)
    ensures
        r == paths(p@).len(),
{
    match &p.config {
        Some(c) => c.paths.len(),
        None => 0,
    }
}

/// The path at position `i`.
fn path_at(p: &ResolvedServiceConfig, i: usize) -> (r: &String)
    requires
        i < paths(p@).len(),
    ensures
        r@ == paths(p@)[i as int],
{
    match &p.config {
        Some(c) => &c.paths[i],
        None => vstd::pervasive::unreached(),
    }
}

/// The number of volumes that the service backs up.
fn volume_count(p: &ResolvedServiceConfig) -> (r: usize)
    ensures
        r == volumes(p@).len(),
{
    match &p.config {
        Some(c) => c.volumes.len(),
        None => 0,
    }
}

/// The volume at position `i`.
fn volume_at(p: &ResolvedServiceConfig, i: usize) -> (r: &String)
    requires
        i < volumes(p@).len(),
    ensures
        r@ == volumes(p@)[i as int],
{
    match &p.config {
        Some(c) => &c.volumes[i],
        None => vstd::pervasive::unreached(),
    }
}

/// The name by which a hook is reported.
pub fn hook_name(hook: &Hook) -> (r: String)
    ensures
        r@ == hook_label(hook@),
{
    if hook.name.as_str().unicode_len() == 0 {
        hook.command.clone()
    } else {
        hook.name.clone()
    }
}

/// The action that runs `hook` for a service with policy `p`.
fn hook_action(hook: &Hook, p: &ResolvedServiceConfig) -> (r: Action)
    ensures
        r@ == (ActionView::RunHook {
            command: hook@.command,
            working_dir: hook@.working_dir,
            timeout_secs: hook_timeout(hook@, p@),
        }),
{
    Action::RunHook {
        command: hook.command.clone(),
        working_dir: match &hook.working_dir {
            Some(d) => Some(d.clone()),
            None => None,
        },
        timeout_secs: match hook.timeout_seconds {
            Some(t) => t,
            None => p.timeout_seconds,
        },
    }
}

/// The staging directory of a service.
pub fn staging_directory(service: &str) -> (r: String)
    ensures
        r@ == staging_dir(service@),
{
    concat2("/tmp/restic-manager/", service)
}

/// The file that a volume of a service is archived into.
pub fn archive_file(service: &str, volume: &str) -> (r: String)
    ensures
        r@ == archive_path(service@, volume@),
{
    let mut r = staging_directory(service);
    r.append("/");
    r.append(volume);
    r.append(".tar.gz");
    r
}

/// The position of the first outcome, from `from` on, that is a failure.
pub fn first_failure(outcomes: &Vec<DestinationOutcome>, from: usize) -> (r: usize)
    ensures
        r == next_failure(outcomes.deep_view(), from as int),
{
    let mut k: usize = from;
    while k < outcomes.len() && outcomes[k].error.is_none()
        invariant
            from <= k,
            next_failure(outcomes.deep_view(), from as int) == next_failure(
                outcomes.deep_view(),
                k as int,
            ),
        decreases outcomes@.len() - k,
    {
        k = k + 1;
    }
    if k < outcomes.len() {
        k
    } else {
        outcomes.len()
    }
}

/// The failures among the outcomes, in their order.
pub fn failures_in(outcomes: &Vec<DestinationOutcome>) -> (r: Vec<DestinationFailure>)
    ensures
        r.deep_view() == failures_of(outcomes.deep_view()),
{
    let mut r: Vec<DestinationFailure> = Vec::new();
    let mut i: usize = 0;
    assert(r.deep_view() =~= Seq::<DestinationFailureView>::empty());
    while i < outcomes.len()
        invariant
            i <= outcomes@.len(),
            r.deep_view() == failures_before(outcomes.deep_view(), i as int),
        decreases outcomes@.len() - i,
    {
        if let Some(error) = &outcomes[i].error {
            let failure = DestinationFailure {
                destination: outcomes[i].destination.clone(),
                error: error.clone(),
                elapsed_secs: outcomes[i].elapsed_secs,
            };
            let ghost before = r.deep_view();
            r.push(failure);
            assert(r.deep_view() =~= before.push(failure@));
        }
        i = i + 1;
    }
    r
}

/// The event that the result of a collaborator's work stands for: done, or
/// failed for the reason given; a reason that ends in `timed out` stands
/// for work that ran out of time.
pub open spec fn outcome_event(result: Result<(), Seq<char>>) -> EventView {
    match result {
        Ok(_) => EventView::Done,
        Err(m) => if has_suffix(m, "timed out"@) {
            EventView::TimedOut
        } else {
            EventView::Failed(m)
        },
    }
}

/// The event that the answer to a question of existence stands for.
pub open spec fn found_event(result: Result<bool, Seq<char>>) -> EventView {
    match result {
        Ok(b) => EventView::Found(b),
        Err(m) => EventView::Failed(m),
    }
}

/// The event that the answer of an executor stands for: a command that
/// failed or could not be started has failed, for what it wrote or for why
/// it could not be started.
pub open spec fn command_event(answer: Result<CommandOutputView, CommandErrorView>) -> EventView {
    match answer {
        Ok(_) => EventView::Done,
        Err(e) => match e {
            CommandErrorView::Failed { exit_code, stdout, stderr } => EventView::Failed(stderr),
            CommandErrorView::TimedOut => EventView::TimedOut,
            CommandErrorView::NotStarted(m) => EventView::Failed(m),
        },
    }
}

impl Event {
    /// The event that the result of a collaborator's work stands for.
    pub fn of(result: Result<(), String>) -> (r: Event)
        ensures
            r@ == outcome_event(
                match result {
                    Ok(_) => Ok(()),
                    Err(m) => Err(m@),
                },
            ),
    {
        match result {
            Ok(_) => Event::Done,
            Err(m) => if ends_with(m.as_str(), "timed out") {
                Event::TimedOut
            } else {
                Event::Failed(m)
            },
        }
    }

    /// The event that the answer to a question of existence stands for.
    pub fn of_found(result: Result<bool, String>) -> (r: Event)
        ensures
            r@ == found_event(
                match result {
                    Ok(b) => Ok(b),
                    Err(m) => Err(m@),
                },
            ),
    {
        match result {
            Ok(b) => Event::Found(b),
            Err(m) => Event::Failed(m),
        }
    }

    /// The event that the answer of an executor stands for.
    pub fn of_command(answer: Result<CommandOutput, CommandError>) -> (r: Event)
        ensures
            r@ == command_event(crate::utils::executor::answer_view(answer)),
    {
        match answer {
            Ok(_) => Event::Done,
            Err(e) => match e {
                CommandError::Failed { exit_code, stdout, stderr } => Event::Failed(stderr),
                CommandError::TimedOut => Event::TimedOut,
                CommandError::NotStarted(m) => Event::Failed(m),
            },
        }
    }

    /// The reason that the event gives for a failure, if it reports one.
    pub fn cause(&self) -> (r: Option<String>)
        ensures
            r.deep_view() == cause_of(self@),
    {
        match self {
            Event::Failed(c) => Some(c.clone()),
            Event::TimedOut => Some("timed out".to_owned()),
            Event::Busy => Some("busy".to_owned()),
            _ => None,
        }
    }

    /// The error of `destination` that the event reports, if it reports a
    /// failure.
    pub fn error_for(&self, destination: &str) -> (r: Option<ExecutionError>)
        ensures
            r.deep_view() == destination_error(self@, destination@),
    {
        match self {
            Event::Failed(c) => Some(ExecutionError::TransferFailed(c.clone())),
            Event::TimedOut => Some(ExecutionError::Timeout(destination.to_owned())),
            Event::Busy => Some(ExecutionError::TransferFailed("busy".to_owned())),
            _ => None,
        }
    }

    /// Whether the event says that the thing asked about exists.
    pub fn is_found(&self) -> (r: bool)
        ensures
            r == (self@ == EventView::Found(true)),
    {
        match self {
            Event::Found(b) => *b,
            _ => false,
        }
    }
}

impl ServiceRun {
    /// The run turns to the destination at position `i`.
    fn to_destination(self, i: usize, now: u64) -> (r: Self)
        ensures
            r@ == enter_destination(self@, i as int, now),
    {
        let mut this = self;
        if i >= this.policy.targets.len() || i >= this.repositories.len() {
            this.phase = Phase::RemoveStaging;
            return this;
        }
        let elapsed = seconds_from(this.started_at, now);
        if this.notify && !this.long_running_notified && (elapsed as u128) > (
        this.threshold_minutes as u128) * 60 {
            this.phase = Phase::LongRunning(i);
            this.long_running_notified = true;
            this.long_running_elapsed = elapsed;
        } else {
            this.phase = Phase::InitRepo(i);
        }
        this
    }

    /// The run turns to archiving the volume at position `i`.
    fn to_archives(self, i: usize, now: u64) -> (r: Self)
        ensures
            r@ == enter_archives(self@, i as int, now),
    {
        let mut this = self;
        if i < volume_count(&this.policy) {
            this.phase = Phase::ArchiveVolume(i);
            this
        } else if this.units.len() == 0 {
            this.phase = Phase::RemoveStaging;
            this
        } else {
            this.to_destination(0, now)
        }
    }

    /// The run turns to checking the volume at position `i`.
    fn to_volume_checks(self, i: usize, now: u64) -> (r: Self)
        ensures
            r@ == enter_volume_checks(self@, i as int, now),
    {
        let mut this = self;
        if i < volume_count(&this.policy) {
            this.phase = Phase::VolumeExists(i);
            this
        } else {
            this.to_archives(0, now)
        }
    }

    /// The run turns to the path at position `i`.
    fn to_paths(self, i: usize, now: u64) -> (r: Self)
        ensures
            r@ == enter_paths(self@, i as int, now),
    {
        let mut this = self;
        if i < path_count(&this.policy) {
            this.phase = Phase::CheckPath(i);
            this
        } else {
            this.to_volume_checks(0, now)
        }
    }

    /// The run turns to the pre-backup hook at position `i`.
    fn to_pre_hooks(self, i: usize, now: u64) -> (r: Self)
        ensures
            r@ == enter_pre_hooks(self@, i as int, now),
    {
        let mut this = self;
        if i < pre_hook_count(&this.policy) {
            this.phase = Phase::PreHook(i);
            this
        } else {
            this.to_paths(0, now)
        }
    }

    /// The run turns to the post-backup hook at position `i`.
    fn to_post_hooks(self, i: usize) -> (r: Self)
        ensures
            r@ == enter_post_hooks(self@, i as int),
    {
        let mut this = self;
        if i < post_hook_count(&this.policy) {
            this.phase = Phase::PostHook(i);
        } else {
            this.phase = Phase::ReleaseLock;
        }
        this
    }

    /// The run is given up for the reason `e` and goes on in `phase`.
    fn give_up(self, e: ExecutionError, phase: Phase) -> (r: Self)
        ensures
            r@ == given_up(self@, e@, phase),
    {
        let mut this = self;
        this.abort = Some(e);
        this.phase = phase;
        this
    }

    /// The outcome of the destination at position `i` is in.
    fn finish_destination(self, i: usize, error: Option<ExecutionError>, now: u64) -> (r: Self)
        requires
            i < self@.policy.targets.len(),
        ensures
            r@ == destination_done(self@, i as int, error.deep_view(), now),
    {
        let mut this = self;
        let failed = error.is_some();
        let outcome = DestinationOutcome {
            destination: this.policy.targets[i].clone(),
            error,
            elapsed_secs: seconds_from(this.started_at, now),
        };
        let ghost before = this.outcomes.deep_view();
        this.outcomes.push(outcome);
        assert(this.outcomes.deep_view() =~= before.push(outcome@));
        if failed {
            this.phase = Phase::Unlock(i);
        } else {
            this.phase = Phase::Retention(i);
        }
        this
    }

    /// The run turns to reporting the failure at or after position `j`.
    fn to_notify(self, j: usize) -> (r: Self)
        ensures
            r@ == enter_notify(self@, j as int),
    {
        let mut this = self;
        let k = first_failure(&this.outcomes, j);
        if k < this.outcomes.len() {
            this.phase = Phase::Notify(k);
        } else {
            this.phase = Phase::Finished;
        }
        this
    }

    /// Whether the run is over.
    pub fn is_finished(&self) -> (r: bool)
        ensures
            r == (self@.phase == Phase::Finished),
    {
        self.phase == Phase::Finished
    }

    /// The action that is due.
    pub fn next_action(&self) -> (r: Action)
        ensures
            r@ == action_spec(self@),
    {
        let p = &self.policy;
        match self.phase {
            Phase::AcquireLock => Action::AcquireLock { service: p.name.clone() },
            Phase::PreHook(i) => if i < pre_hook_count(p) {
                hook_action(pre_hook_at(p, i), p)
            } else {
                Action::Proceed
            },
            Phase::CheckPath(i) => if i < path_count(p) {
                Action::CheckPath { path: join(self.base_dir.as_str(), path_at(p, i).as_str()) }
            } else {
                Action::Proceed
            },
            Phase::VolumeExists(i) => if i < volume_count(p) {
                Action::VolumeExists { volume: volume_at(p, i).clone() }
            } else {
                Action::Proceed
            },
            Phase::ArchiveVolume(i) => if i < volume_count(p) {
                Action::ArchiveVolume {
                    volume: volume_at(p, i).clone(),
                    output: archive_file(p.name.as_str(), volume_at(p, i).as_str()),
                    timeout_secs: p.timeout_seconds,
                }
            } else {
                Action::Proceed
            },
            Phase::LongRunning(i) => if i < p.targets.len() && i < self.repositories.len() {
                Action::Notify(
                    Notification::long_running(
                        p.name.as_str(),
                        Some(p.targets[i].as_str()),
                        self.long_running_elapsed,
                        self.threshold_minutes,
                    ),
                )
            } else {
                Action::Proceed
            },
            Phase::InitRepo(i) => if i < p.targets.len() && i < self.repositories.len() {
                Action::InitRepository {
                    repository: self.repositories[i].clone(),
                    timeout_secs: p.timeout_seconds,
                }
            } else {
                Action::Proceed
            },
            Phase::Transfer(i) => if i < p.targets.len() && i < self.repositories.len() {
                Action::Transfer {
                    repository: self.repositories[i].clone(),
                    paths: clone_strings(&self.units),
                    excludes: clone_strings(&self.excludes),
                    timeout_secs: p.timeout_seconds,
                }
            } else {
                Action::Proceed
            },
            Phase::Retention(i) => if i < p.targets.len() && i < self.repositories.len() {
                Action::ApplyRetention {
                    repository: self.repositories[i].clone(),
                    retention: p.retention,
                    timeout_secs: p.timeout_seconds,
                }
            } else {
                Action::Proceed
            },
            Phase::Unlock(i) => if i < p.targets.len() && i < self.repositories.len() {
                Action::Unlock {
                    repository: self.repositories[i].clone(),
                    timeout_secs: UNLOCK_TIMEOUT_SECS,
                }
            } else {
                Action::Proceed
            },
            Phase::RemoveStaging => Action::RemoveStaging {
                directory: staging_directory(p.name.as_str()),
            },
            Phase::PostHook(i) => if i < post_hook_count(p) {
                hook_action(post_hook_at(p, i), p)
            } else {
                Action::Proceed
            },
            Phase::ReleaseLock => Action::ReleaseLock { service: p.name.clone() },
            Phase::NotifySuccess => Action::Notify(
                Notification::success(
                    p.name.as_str(),
                    None,
                    seconds_from(self.started_at, self.finished_at),
                ),
            ),
            Phase::Notify(j) => {
                if j < self.outcomes.len() {
                    let outcome = &self.outcomes[j];
                    match &outcome.error {
                        Some(error) => {
                            let text = error.message();
                            Action::Notify(
                                Notification::failure(
                                    p.name.as_str(),
                                    Some(outcome.destination.as_str()),
                                    text.as_str(),
                                    Some(outcome.elapsed_secs),
                                ),
                            )
                        },
                        None => Action::Proceed,
                    }
                } else {
                    Action::Proceed
                }
            },
            Phase::Finished => Action::Finish,
        }
    }

    /// Takes what came of the action that was due, at time `now`, and moves
    /// on to the state that the protocol prescribes.
    pub fn advance(self, event: Event, now: u64) -> (r: Self)
        ensures
            r@ == step_spec(self@, event@, now),
            run_is_consistent(self@) ==> run_is_consistent(r@),
            lists_fit(self@) ==> lists_fit(r@),
            run_is_consistent(self@) && lists_fit(self@) && self@.phase != Phase::Finished
                ==> steps_left(r@) < steps_left(self@),
    {
        proof {
            if run_is_consistent(self@) {
                lemma_step_is_consistent(self@, event@, now);
                if lists_fit(self@) && self@.phase != Phase::Finished {
                    lemma_step_brings_the_end_nearer(self@, event@, now);
                }
            }
            lemma_step_keeps_the_policy(self@, event@, now);
        }
        let mut this = self;
        match this.phase {
            Phase::AcquireLock => match event {
                Event::Done => {
                    this.started_at = now;
                    this.to_pre_hooks(0, now)
                },
                _ => {
                    let e = ExecutionError::ServiceBusy(this.policy.name.clone());
                    this.give_up(e, Phase::Finished)
                },
            },
            Phase::PreHook(i) => if i < pre_hook_count(&this.policy) {
                match event.cause() {
                    Some(c) => {
                        let hook = pre_hook_at(&this.policy, i);
                        if hook.continue_on_error {
                            this.to_pre_hooks(i + 1, now)
                        } else {
                            let e = ExecutionError::HookFailed(hook_name(hook), c);
                            this.give_up(e, Phase::ReleaseLock)
                        }
                    },
                    None => this.to_pre_hooks(i + 1, now),
                }
            } else {
                this.to_paths(0, now)
            },
            Phase::CheckPath(i) => if i < path_count(&this.policy) {
                if event.is_found() {
                    let full = join(this.base_dir.as_str(), path_at(&this.policy, i).as_str());
                    push_text(&mut this.units, full);
                }
                this.to_paths(i + 1, now)
            } else {
                this.to_volume_checks(0, now)
            },
            Phase::VolumeExists(i) => if i < volume_count(&this.policy) {
                match event {
                    Event::Found(true) => this.to_volume_checks(i + 1, now),
                    Event::Found(false) => {
                        let e = ExecutionError::ArchiveFailed(
                            concat2(
                                "Docker volume does not exist: ",
                                volume_at(&this.policy, i).as_str(),
                            ),
                        );
                        this.give_up(e, Phase::RemoveStaging)
                    },
                    _ => {
                        let e = ExecutionError::ArchiveFailed(
                            match event.cause() {
                                Some(c) => c,
                                None => "no answer".to_owned(),
                            },
                        );
                        this.give_up(e, Phase::RemoveStaging)
                    },
                }
            } else {
                this.to_archives(0, now)
            },
            Phase::ArchiveVolume(i) => if i < volume_count(&this.policy) {
                match event.cause() {
                    Some(c) => this.give_up(ExecutionError::ArchiveFailed(c), Phase::RemoveStaging),
                    None => {
                        let archive = archive_file(
                            this.policy.name.as_str(),
                            volume_at(&this.policy, i).as_str(),
                        );
                        push_text(&mut this.units, archive);
                        this.to_archives(i + 1, now)
                    },
                }
            } else {
                this.to_archives(i, now)
            },
            Phase::LongRunning(i) => {
                if i < this.policy.targets.len() && i < this.repositories.len() {
                    this.phase = Phase::InitRepo(i);
                } else {
                    this.phase = Phase::RemoveStaging;
                }
                this
            },
            Phase::InitRepo(i) => if i < this.policy.targets.len() && i
                < this.repositories.len() {
                match event.error_for(this.policy.targets[i].as_str()) {
                    Some(error) => this.finish_destination(i, Some(error), now),
                    None => {
                        this.phase = Phase::Transfer(i);
                        this
                    },
                }
            } else {
                this.phase = Phase::RemoveStaging;
                this
            },
            Phase::Transfer(i) => if i < this.policy.targets.len() && i
                < this.repositories.len() {
                let error = event.error_for(this.policy.targets[i].as_str());
                this.finish_destination(i, error, now)
            } else {
                this.phase = Phase::RemoveStaging;
                this
            },
            Phase::Retention(i) => if i < this.policy.targets.len() {
                this.to_destination(i + 1, now)
            } else {
                this.phase = Phase::RemoveStaging;
                this
            },
            Phase::Unlock(i) => if i < this.policy.targets.len() {
                this.to_destination(i + 1, now)
            } else {
                this.phase = Phase::RemoveStaging;
                this
            },
            Phase::RemoveStaging => if this.abort.is_some() {
                this.phase = Phase::ReleaseLock;
                this
            } else {
                this.to_post_hooks(0)
            },
            Phase::PostHook(i) => if i < post_hook_count(&this.policy) {
                match event.cause() {
                    Some(c) => {
                        let hook = post_hook_at(&this.policy, i);
                        if hook.continue_on_error {
                            this.to_post_hooks(i + 1)
                        } else {
                            let e = ExecutionError::HookFailed(hook_name(hook), c);
                            this.give_up(e, Phase::ReleaseLock)
                        }
                    },
                    None => this.to_post_hooks(i + 1),
                }
            } else {
                this.phase = Phase::ReleaseLock;
                this
            },
            Phase::ReleaseLock => {
                this.finished_at = now;
                if this.abort.is_some() || !this.notify {
                    this.phase = Phase::Finished;
                    this
                } else if first_failure(&this.outcomes, 0) >= this.outcomes.len() {
                    this.phase = Phase::NotifySuccess;
                    this
                } else {
                    this.to_notify(0)
                }
            },
            Phase::NotifySuccess => {
                this.phase = Phase::Finished;
                this
            },
            Phase::Notify(j) => if j < this.outcomes.len() {
                this.to_notify(j + 1)
            } else {
                this.phase = Phase::Finished;
                this
            },
            Phase::Finished => this,
        }
    }

    /// The result of the run, once it is over.
    pub fn result(&self) -> (r: Option<Result<(), AggregateError>>)
        ensures
            match r {
                None => result_spec(self@) is None,
                Some(Ok(_)) => result_spec(self@) == Some(Ok::<(), AggregateErrorView>(())),
                Some(Err(e)) => result_spec(self@) == Some(Err::<(), AggregateErrorView>(e@)),
            },
    {
        if !self.is_finished() {
            return None;
        }
        match &self.abort {
            Some(e) => Some(Err(AggregateError::Aborted(e.clone()))),
            None => {
                let failures = failures_in(&self.outcomes);
                if failures.len() > 0 {
                    Some(Err(AggregateError::Destinations(failures)))
                } else {
                    Some(Ok(()))
                }
            },
        }
    }
}

/// The repository of the service at each of its targets.
pub open spec fn repositories_spec(
    p: ResolvedServiceConfigView,
    destinations: Seq<(Seq<char>, DestinationView)>,
) -> Seq<Seq<char>> {
    Seq::new(
        p.targets.len(),
        |i: int| repository_url_spec(lookup(destinations, p.targets[i])->0, p.name, None),
    )
}

/// The state in which the backup of a service starts. A service that is
/// disabled starts finished: nothing is done, and the result is success. A
/// target that is no destination keeps the run from starting.
pub open spec fn start_spec(p: ResolvedServiceConfigView, config: ConfigView, notify: bool) -> Result<
    ServiceRunView,
    ExecutionErrorView,
> {
    let fresh = ServiceRunView {
        policy: p,
        repositories: Seq::empty(),
        excludes: effective_excludes(p, config.global),
        base_dir: config.global.docker_base,
        threshold_minutes: config.global.long_running_threshold_minutes,
        notify: notify,
        phase: Phase::Finished,
        started_at: 0,
        finished_at: 0,
        units: Seq::empty(),
        outcomes: Seq::empty(),
        long_running_notified: false,
        long_running_elapsed: 0,
        abort: None,
    };
    if !p.enabled {
        Ok(fresh)
    } else {
        match first_unknown(p.targets, config.destinations, 0) {
            Some(t) => Err(ExecutionErrorView::DestinationNotFound(t)),
            None => Ok(
                ServiceRunView {
                    repositories: repositories_spec(p, config.destinations),
                    phase: Phase::AcquireLock,
                    ..fresh
                },
            ),
        }
    }
}

impl ServiceRun {
    /// Starts the backup of the service with policy `policy`.
    pub fn start(policy: &ResolvedServiceConfig, config: &Config, notify: bool) -> (r: Result<
        ServiceRun,
        ExecutionError,
    >)
        ensures
            match r {
                Ok(run) => start_spec(policy@, config@, notify) == Ok::<
                    ServiceRunView,
                    ExecutionErrorView,
                >(run@),
                Err(e) => start_spec(policy@, config@, notify) == Err::<
                    ServiceRunView,
                    ExecutionErrorView,
                >(e@),
            },
            r matches Ok(run) ==> run_is_consistent(run@) && lists_fit(run@),
    {
        proof {
            lemma_lists_of_a_policy_fit(policy);
        }
        let mut repositories: Vec<String> = Vec::new();
        let mut phase = Phase::Finished;
        if policy.enabled {
            let mut i: usize = 0;
            while i < policy.targets.len()
                invariant
                    i <= policy.targets@.len(),
                    policy@.enabled,
                    first_unknown(policy@.targets, config@.destinations, 0) == first_unknown(
                        policy@.targets,
                        config@.destinations,
                        i as int,
                    ),
                    repositories@.len() == i,
                    forall|j: int|
                        0 <= j < i ==> (#[trigger] repositories@[j])@ == repository_url_spec(
                            lookup(config@.destinations, policy@.targets[j])->0,
                            policy@.name,
                            None,
                        ),
                decreases policy.targets@.len() - i,
            {
                assert(policy@.targets[i as int] == policy.targets@[i as int]@);
                match config.destinations.find(policy.targets[i].as_str()) {
                    None => {
                        return Err(ExecutionError::DestinationNotFound(policy.targets[i].clone()));
                    },
                    Some(d) => {
                        repositories.push(build_repository_url(d, policy.name.as_str(), None));
                    },
                }
                i = i + 1;
            }
            phase = Phase::AcquireLock;
            assert(repositories.deep_view() =~= repositories_spec(policy@, config@.destinations));
        } else {
            assert(repositories.deep_view() =~= Seq::<Seq<char>>::empty());
        }
        let units: Vec<String> = Vec::new();
        let outcomes: Vec<DestinationOutcome> = Vec::new();
        assert(units.deep_view() =~= Seq::<Seq<char>>::empty());
        assert(outcomes.deep_view() =~= Seq::<DestinationOutcomeView>::empty());
        Ok(
            ServiceRun {
                policy: policy.clone(),
                repositories,
                excludes: get_effective_excludes(policy, &config.global),
                base_dir: config.global.docker_base.clone(),
                threshold_minutes: config.global.long_running_threshold_minutes,
                notify,
                phase,
                started_at: 0,
                finished_at: 0,
                units,
                outcomes,
                long_running_notified: false,
                long_running_elapsed: 0,
                abort: None,
            },
        )
    }
}

/// One service whose backup failed.
#[derive(Debug)]
pub struct ServiceFailure {
    pub service: String,
    pub error: AggregateError,
}

/// What a [`ServiceFailure`] holds, as a value of specifications.
pub struct ServiceFailureView {
    pub service: Seq<char>,
    pub error: AggregateErrorView,
}

impl View for ServiceFailure {
    type V = ServiceFailureView;

    open spec fn view(&self) -> ServiceFailureView {
        ServiceFailureView { service: self.service@, error: self.error@ }
    }
}

impl DeepView for ServiceFailure {
    type V = ServiceFailureView;

    open spec fn deep_view(&self) -> ServiceFailureView {
        self@
    }
}

/// The backup of every enabled service, one after the other. Each service
/// has its turn whatever came of those before it.
#[derive(Debug)]
pub struct BatchRun {
    /// The enabled services, in the order of their turns.
    pub services: Vec<String>,
    /// The number of services whose result is in.
    pub done: usize,
    /// The services that succeeded, in the order of their turns.
    pub succeeded: Vec<String>,
    /// The services that failed, each with its error, in the order of their
    /// turns.
    pub errors: Vec<ServiceFailure>,
}

/// What a [`BatchRun`] holds, as a value of specifications.
pub struct BatchRunView {
    pub services: Seq<Seq<char>>,
    pub done: nat,
    pub succeeded: Seq<Seq<char>>,
    pub errors: Seq<ServiceFailureView>,
}

impl View for BatchRun {
    type V = BatchRunView;

    open spec fn view(&self) -> BatchRunView {
        BatchRunView {
            services: self.services.deep_view(),
            done: self.done as nat,
            succeeded: self.succeeded.deep_view(),
            errors: self.errors.deep_view(),
        }
    }
}

/// The names of the first `n` of `services` that are enabled.
pub open spec fn enabled_before(services: Seq<(Seq<char>, ResolvedServiceConfigView)>, n: int) -> Seq<
    Seq<char>,
>
    decreases n,
{
    if n <= 0 || n > services.len() {
        Seq::empty()
    } else if services[n - 1].1.enabled {
        enabled_before(services, n - 1).push(services[n - 1].0)
    } else {
        enabled_before(services, n - 1)
    }
}

/// The batch before any service had its turn.
pub open spec fn batch_spec(services: Seq<(Seq<char>, ResolvedServiceConfigView)>) -> BatchRunView {
    BatchRunView {
        services: enabled_before(services, services.len() as int),
        done: 0,
        succeeded: Seq::empty(),
        errors: Seq::empty(),
    }
}

/// The service whose turn it is, if any is left.
pub open spec fn next_service_spec(b: BatchRunView) -> Option<Seq<char>> {
    if b.done < b.services.len() {
        Some(b.services[b.done as int])
    } else {
        None
    }
}

/// The batch after the service whose turn it was ended with `result`. A
/// result that comes when no service is left changes nothing.
pub open spec fn record_spec(b: BatchRunView, result: Option<AggregateErrorView>) -> BatchRunView {
    if b.done >= b.services.len() {
        b
    } else {
        match result {
            None => BatchRunView {
                done: b.done + 1,
                succeeded: b.succeeded.push(b.services[b.done as int]),
                ..b
            },
            Some(e) => BatchRunView {
                done: b.done + 1,
                errors: b.errors.push(
                    ServiceFailureView { service: b.services[b.done as int], error: e },
                ),
                ..b
            },
        }
    }
}

/// What holds of a batch at every time: the services that succeeded and
/// those that failed are those whose result is in, and no more results are
/// in than there are services.
pub open spec fn batch_is_consistent(b: BatchRunView) -> bool {
    &&& b.done <= b.services.len()
    &&& b.succeeded.len() + b.errors.len() == b.done
}

/// The outcome of a batch.
#[derive(Debug)]
pub struct BackupSummary {
    pub succeeded: usize,
    pub failed: usize,
    /// Each service that failed, with the text of its error.
    pub errors: Vec<(String, String)>,
}

/// The text of an aggregate error: why the run was given up, or how many
/// destinations failed and, for each of them, its name and its cause.
pub open spec fn aggregate_error_text(e: AggregateErrorView) -> Seq<char> {
    match e {
        AggregateErrorView::Aborted(x) => execution_error_text(x),
        AggregateErrorView::Destinations(f) => "Backup failed for "@ + crate::text::decimal(
            f.len(),
        ) + " destination(s): "@ + failures_text(f, f.len() as int),
    }
}

/// The first `n` failures as text: each as its destination, a colon and its
/// cause, with commas between.
pub open spec fn failures_text(f: Seq<DestinationFailureView>, n: int) -> Seq<char>
    decreases n,
{
    if n <= 0 || n > f.len() {
        Seq::empty()
    } else if n == 1 {
        f[0].destination + ": "@ + execution_error_text(f[0].error)
    } else {
        failures_text(f, n - 1) + ", "@ + f[n - 1].destination + ": "@ + execution_error_text(
            f[n - 1].error,
        )
    }
}

impl AggregateError {
    /// The text of the error, as shown to the user.
    pub fn message(&self) -> (r: String)
        ensures
            r@ == aggregate_error_text(self@),
    {
        match self {
            AggregateError::Aborted(e) => e.message(),
            AggregateError::Destinations(f) => {
                let mut list = String::new();
                let mut i: usize = 0;
                while i < f.len()
                    invariant
                        i <= f@.len(),
                        list@ == failures_text(f.deep_view(), i as int),
                    decreases f@.len() - i,
                {
                    if i > 0 {
                        list.append(", ");
                    }
                    list.append(f[i].destination.as_str());
                    list.append(": ");
                    list.append(f[i].error.message().as_str());
                    proof {
                        assert(Seq::<char>::empty() + f[i as int].destination@ + ": "@
                            + execution_error_text(f[i as int].error@) =~= f[i as int].destination@
                            + ": "@ + execution_error_text(f[i as int].error@));
                    }
                    i = i + 1;
                }
                let mut r = concat3(
                    "Backup failed for ",
                    crate::text::decimal_text(f.len() as u64).as_str(),
                    " destination(s): ",
                );
                r.append(list.as_str());
                r
            },
        }
    }
}

impl BatchRun {
    /// The service whose turn it is, if any is left.
    pub fn next_service(&self) -> (r: Option<&String>)
        ensures
            r.deep_view() == next_service_spec(self@),
    {
        if self.done < self.services.len() {
            Some(&self.services[self.done])
        } else {
            None
        }
    }

    /// Takes the result of the service whose turn it was, and gives the turn
    /// to the next.
    pub fn record(self, result: Result<(), AggregateError>) -> (r: Self)
        ensures
            r@ == record_spec(
                self@,
                match result {
                    Ok(_) => None,
                    Err(e) => Some(e@),
                },
            ),
            batch_is_consistent(self@) ==> batch_is_consistent(r@),
    {
        let mut this = self;
        if this.done >= this.services.len() {
            return this;
        }
        match result {
            Ok(_) => {
                let name = this.services[this.done].clone();
                push_text(&mut this.succeeded, name);
                this.done = this.done + 1;
            },
            Err(e) => {
                let failure = ServiceFailure { service: this.services[this.done].clone(), error: e };
                let ghost before = this.errors.deep_view();
                this.errors.push(failure);
                assert(this.errors.deep_view() =~= before.push(failure@));
                this.done = this.done + 1;
            },
        }
        this
    }

    /// Whether every service had its turn.
    pub fn is_finished(&self) -> (r: bool)
        ensures
            r == (next_service_spec(self@) is None),
    {
        self.done >= self.services.len()
    }

    /// The outcome so far: how many services succeeded, how many failed,
    /// and each failure with its text.
    pub fn summary(&self) -> (r: BackupSummary)
        ensures
            r.succeeded == self@.succeeded.len(),
            r.failed == self@.errors.len(),
            r.errors@.len() == self@.errors.len(),
            forall|i: int|
                0 <= i < r.errors@.len() ==> (#[trigger] r.errors@[i]).0@ == self@.errors[i].service
                    && r.errors@[i].1@ == aggregate_error_text(self@.errors[i].error),
    {
        let mut errors: Vec<(String, String)> = Vec::new();
        let mut i: usize = 0;
        while i < self.errors.len()
            invariant
                i <= self.errors@.len(),
                errors@.len() == i,
                forall|j: int|
                    0 <= j < i ==> (#[trigger] errors@[j]).0@ == self@.errors[j].service
                        && errors@[j].1@ == aggregate_error_text(self@.errors[j].error),
            decreases self.errors@.len() - i,
        {
            errors.push((self.errors[i].service.clone(), self.errors[i].error.message()));
            i = i + 1;
        }
        BackupSummary { succeeded: self.succeeded.len(), failed: self.errors.len(), errors }
    }
}

/// The coordinator: the configuration, the resolved policies and, where an
/// endpoint is configured, the notifier.
pub struct BackupManager {
    pub config: Config,
    pub resolved_services: NameMap<ResolvedServiceConfig>,
    pub notification_manager: Option<NotificationManager>,
}

/// The state in which the backup of the service called `name` starts, or
/// why it cannot start.
pub open spec fn backup_service_spec(
    resolved: Seq<(Seq<char>, ResolvedServiceConfigView)>,
    config: ConfigView,
    notify: bool,
    name: Seq<char>,
) -> Result<ServiceRunView, ExecutionErrorView> {
    match lookup(resolved, name) {
        Some(p) => start_spec(p, config, notify),
        None => Err(ExecutionErrorView::ServiceNotFound(name)),
    }
}

impl BackupManager {
    /// A coordinator. It has a notifier exactly where the
    /// configuration names an endpoint.
    pub fn new(config: Config, resolved_services: NameMap<ResolvedServiceConfig>) -> (r: Self)
        ensures
            r.config@ == config@,
            r.resolved_services.deep_view() == resolved_services.deep_view(),
            r.notification_manager is Some <==> config@.notifications.discord_webhook_url.len() > 0,
            r.notification_manager is Some ==> r.notification_manager->0.config@
                == config@.notifications,
    {
        let notification_manager = if config.notifications.discord_webhook_url.as_str().unicode_len()
            > 0 {
            Some(NotificationManager::new(config.notifications.clone()))
        } else {
            None
        };
        BackupManager { config, resolved_services, notification_manager }
    }

    /// A coordinator with the given notifier.
    pub fn with_notification_manager(
        config: Config,
        resolved_services: NameMap<ResolvedServiceConfig>,
        notification_manager: NotificationManager,
    ) -> (r: Self)
        ensures
            r.config@ == config@,
            r.resolved_services.deep_view() == resolved_services.deep_view(),
            r.notification_manager == Some(notification_manager),
    {
        BackupManager {
            config,
            resolved_services,
            notification_manager: Some(notification_manager),
        }
    }

    /// Starts the backup of the service called `service_name`. The run that
    /// comes back says what is to be done, step by step.
    pub fn backup_service(&self, service_name: &str) -> (r: Result<ServiceRun, ExecutionError>)
        ensures
            match r {
                Ok(run) => backup_service_spec(
                    self.resolved_services.deep_view(),
                    self.config@,
                    self.notification_manager is Some,
                    service_name@,
                ) == Ok::<ServiceRunView, ExecutionErrorView>(run@),
                Err(e) => backup_service_spec(
                    self.resolved_services.deep_view(),
                    self.config@,
                    self.notification_manager is Some,
                    service_name@,
                ) == Err::<ServiceRunView, ExecutionErrorView>(e@),
            },
    {
        match self.resolved_services.find(service_name) {
            Some(policy) => ServiceRun::start(
                policy,
                &self.config,
                self.notification_manager.is_some(),
            ),
            None => Err(ExecutionError::ServiceNotFound(service_name.to_owned())),
        }
    }

    /// Starts the backup of every enabled service. Each of them is then run
    /// through [`BackupManager::backup_service`] in its turn.
    pub fn backup_all(&self) -> (r: BatchRun)
        ensures
            r@ == batch_spec(self.resolved_services.deep_view()),
            batch_is_consistent(r@),
    {
        let mut services: Vec<String> = Vec::new();
        let mut i: usize = 0;
        assert(services.deep_view() =~= Seq::<Seq<char>>::empty());
        while i < self.resolved_services.len()
            invariant
                i <= self.resolved_services@.len(),
                self.resolved_services.deep_view().len() == self.resolved_services@.len(),
                services.deep_view() == enabled_before(
                    self.resolved_services.deep_view(),
                    i as int,
                ),
            decreases self.resolved_services@.len() - i,
        {
            let policy = self.resolved_services.value_at(i);
            assert(self.resolved_services.deep_view()[i as int].1 == policy@);
            if policy.enabled {
                push_text(&mut services, self.resolved_services.name_at(i).clone());
            }
            i = i + 1;
        }
        let errors: Vec<ServiceFailure> = Vec::new();
        assert(errors.deep_view() =~= Seq::<ServiceFailureView>::empty());
        let succeeded: Vec<String> = Vec::new();
        assert(succeeded.deep_view() =~= Seq::<Seq<char>>::empty());
        BatchRun { services, done: 0, succeeded, errors }
    }

    /// The names of the services, in the order of the configuration.
    pub fn list_services(&self) -> (r: Vec<String>)
        ensures
            r.deep_view() == Seq::new(
                self.resolved_services@.len(),
                |i: int| self.resolved_services@[i].0,
            ),
    {
        self.resolved_services.keys()
    }

    /// The policy of the service called `name`.
    pub fn get_service(&self, name: &str) -> (r: Option<&ResolvedServiceConfig>)
        ensures
            r.deep_view() == lookup(self.resolved_services.deep_view(), name@),
    {
        self.resolved_services.find(name)
    }
}

/// The lists of a policy that a program holds are no longer than a program
/// can hold.
pub proof fn lemma_lists_of_a_policy_fit(p: &ResolvedServiceConfig)
    ensures
        pre_hooks(p@).len() <= usize::MAX,
        post_hooks(p@).len() <= usize::MAX,
        paths(p@).len() <= usize::MAX,
        volumes(p@).len() <= usize::MAX,
        p@.targets.len() <= usize::MAX,
{
    match p.config {
        Some(c) => {
            assert(c.pre_backup_hooks.len() <= usize::MAX);
            assert(c.post_backup_hooks.len() <= usize::MAX);
            assert(c.paths.len() <= usize::MAX);
            assert(c.volumes.len() <= usize::MAX);
        },
        None => {},
    }
    assert(p.targets.len() <= usize::MAX);
}

} // verus!
