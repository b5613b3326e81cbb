//! The backup tool as something that can be handed in: the real one, and
//! one that only records what it is asked.

use crate::config::types::{clone_strings, RetentionPolicy};
use crate::name_map::{lookup, with_entry, NameMap};
use crate::utils::executor::{CommandExecutor, Exchange, Recorded};
use crate::utils::command::asked_for;
use crate::utils::restic::{
    apply_retention, backup, backup_args, backup_outcome, check_args, check_outcome,
    check_repository, count_snapshots, get_latest_snapshot, get_stats, init_args, init_outcome,
    init_repository, latest_of, list_snapshot_files, list_snapshots, ls_args, ls_outcome,
    restic_call, restore_args, restore_outcome, restore_snapshot, retention_args,
    snapshots_args, snapshots_outcome, snapshots_view, soft_outcome, stats_args, stats_outcome,
    text_view, texts_view, unit_view, unlock_args, unlock_repository, ResticEnv, Snapshot,
    SnapshotView,
};
use vstd::prelude::*;

verus! {

/// What the library asks of a backup tool. What comes back depends on the
/// tool and the repository, so nothing is promised of it here.
pub trait ResticOperations {
    /// Initialises the repository unless it is there already.
    fn init_repository(&mut self, env: &ResticEnv, timeout_secs: u64) -> (r: Result<(), String>);

    /// Transfers the paths into the repository.
    fn backup(
        &mut self,
        env: &ResticEnv,
        paths: &Vec<String>,
        excludes: &Vec<String>,
        timeout_secs: u64,
    ) -> (r: Result<(), String>);

    /// Lists the snapshots of the repository.
    fn list_snapshots(&mut self, env: &ResticEnv, timeout_secs: u64) -> (r: Result<
        Vec<Snapshot>,
        String,
    >);

    /// Restores a snapshot.
    fn restore_snapshot(
        &mut self,
        env: &ResticEnv,
        snapshot_id: &str,
        target_dir: Option<&str>,
        include_paths: &Vec<String>,
        timeout_secs: u64,
    ) -> (r: Result<(), String>);

    /// Prunes the repository down to the keep-counts.
    fn apply_retention(&mut self, env: &ResticEnv, retention: &RetentionPolicy, timeout_secs: u64) -> (r:
        Result<(), String>);

    /// Checks the integrity of the repository.
    fn check_repository(&mut self, env: &ResticEnv, read_data: bool, timeout_secs: u64) -> (r:
        Result<String, String>);

    /// Clears stale locks on the repository.
    fn unlock_repository(&mut self, env: &ResticEnv, timeout_secs: u64) -> (r: Result<(), String>);

    /// The size of the repository.
    fn get_stats(&mut self, env: &ResticEnv, timeout_secs: u64) -> (r: Result<String, String>);

    /// The number of snapshots of the repository.
    fn count_snapshots(&mut self, env: &ResticEnv, timeout_secs: u64) -> (r: Result<usize, String>);

    /// The latest snapshot of the repository.
    fn get_latest_snapshot(&mut self, env: &ResticEnv, timeout_secs: u64) -> (r: Result<
        Option<Snapshot>,
        String,
    >);

    /// Lists the files of a snapshot.
    fn list_snapshot_files(&mut self, env: &ResticEnv, snapshot_id: &str, timeout_secs: u64) -> (r:
        Result<Vec<String>, String>);
}

/// The backup tool behind an executor of commands.
pub struct RealResticOps<E: CommandExecutor> {
    pub executor: Recorded<E>,
    /// The program that is run.
    pub restic_bin: String,
}

impl<E: CommandExecutor> RealResticOps<E> {
    /// The tool `restic_bin`, reached through `executor`.
    pub fn new(executor: E, restic_bin: String) -> (r: Self)
        ensures
            r.executor.executor == executor,
            r.executor.history() == Seq::<Exchange>::empty(),
            r.restic_bin == restic_bin,
    {
        RealResticOps { executor: Recorded::new(executor), restic_bin }
    }
}

impl<E: CommandExecutor> ResticOperations for RealResticOps<E> {
    fn init_repository(&mut self, env: &ResticEnv, timeout_secs: u64) -> (r: Result<(), String>)
        ensures
            asked_for(
                old(self).executor.history(),
                final(self).executor.history(),
                restic_call(old(self).restic_bin@, init_args(), env@, timeout_secs),
            ),
            unit_view(r) == init_outcome(final(self).executor.history().last().answer),
            final(self).restic_bin == old(self).restic_bin,
    {
        init_repository(&mut self.executor, self.restic_bin.as_str(), env, timeout_secs)
    }

    fn backup(
        &mut self,
        env: &ResticEnv,
        paths: &Vec<String>,
        excludes: &Vec<String>,
        timeout_secs: u64,
    ) -> (r: Result<(), String>)
        ensures
            paths@.len() == 0 ==> r is Ok && final(self).executor.history() == old(self).executor.history(),
            paths@.len() > 0 ==> asked_for(
                old(self).executor.history(),
                final(self).executor.history(),
                restic_call(
                    old(self).restic_bin@,
                    backup_args(paths.deep_view(), excludes.deep_view()),
                    env@,
                    timeout_secs,
                ),
            ) && unit_view(r) == backup_outcome(final(self).executor.history().last().answer),
            final(self).restic_bin == old(self).restic_bin,
    {
        backup(&mut self.executor, self.restic_bin.as_str(), env, paths, excludes, timeout_secs)
    }

    fn list_snapshots(&mut self, env: &ResticEnv, timeout_secs: u64) -> (r: Result<
        Vec<Snapshot>,
        String,
    >)
        ensures
            asked_for(
                old(self).executor.history(),
                final(self).executor.history(),
                restic_call(old(self).restic_bin@, snapshots_args(), env@, timeout_secs),
            ),
            snapshots_view(r) == snapshots_outcome(final(self).executor.history().last().answer),
            final(self).restic_bin == old(self).restic_bin,
    {
        list_snapshots(&mut self.executor, self.restic_bin.as_str(), env, timeout_secs)
    }

    fn restore_snapshot(
        &mut self,
        env: &ResticEnv,
        snapshot_id: &str,
        target_dir: Option<&str>,
        include_paths: &Vec<String>,
        timeout_secs: u64,
    ) -> (r: Result<(), String>)
        ensures
            asked_for(
                old(self).executor.history(),
                final(self).executor.history(),
                restic_call(
                    old(self).restic_bin@,
                    restore_args(snapshot_id@, target_dir.deep_view(), include_paths.deep_view()),
                    env@,
                    timeout_secs,
                ),
            ),
            unit_view(r) == restore_outcome(final(self).executor.history().last().answer),
            final(self).restic_bin == old(self).restic_bin,
    {
        restore_snapshot(
            &mut self.executor,
            self.restic_bin.as_str(),
            env,
            snapshot_id,
            target_dir,
            include_paths,
            timeout_secs,
        )
    }

    fn apply_retention(&mut self, env: &ResticEnv, retention: &RetentionPolicy, timeout_secs: u64) -> (r:
        Result<(), String>)
        ensures
            asked_for(
                old(self).executor.history(),
                final(self).executor.history(),
                restic_call(old(self).restic_bin@, retention_args(*retention), env@, timeout_secs),
            ),
            unit_view(r) == soft_outcome(
                final(self).executor.history().last().answer,
                "Retention policy application timed out"@,
                "Failed to execute restic forget"@,
            ),
            final(self).restic_bin == old(self).restic_bin,
    {
        apply_retention(&mut self.executor, self.restic_bin.as_str(), env, retention, timeout_secs)
    }

    fn check_repository(&mut self, env: &ResticEnv, read_data: bool, timeout_secs: u64) -> (r:
        Result<String, String>)
        ensures
            asked_for(
                old(self).executor.history(),
                final(self).executor.history(),
                restic_call(old(self).restic_bin@, check_args(read_data), env@, timeout_secs),
            ),
            text_view(r) == check_outcome(final(self).executor.history().last().answer),
            final(self).restic_bin == old(self).restic_bin,
    {
        check_repository(&mut self.executor, self.restic_bin.as_str(), env, read_data, timeout_secs)
    }

    fn unlock_repository(&mut self, env: &ResticEnv, timeout_secs: u64) -> (r: Result<(), String>)
        ensures
            asked_for(
                old(self).executor.history(),
                final(self).executor.history(),
                restic_call(old(self).restic_bin@, unlock_args(), env@, timeout_secs),
            ),
            unit_view(r) == soft_outcome(
                final(self).executor.history().last().answer,
                "Unlock timed out"@,
                "Failed to execute restic unlock"@,
            ),
            final(self).restic_bin == old(self).restic_bin,
    {
        unlock_repository(&mut self.executor, self.restic_bin.as_str(), env, timeout_secs)
    }

    fn get_stats(&mut self, env: &ResticEnv, timeout_secs: u64) -> (r: Result<String, String>)
        ensures
            asked_for(
                old(self).executor.history(),
                final(self).executor.history(),
                restic_call(old(self).restic_bin@, stats_args(), env@, timeout_secs),
            ),
            text_view(r) == stats_outcome(final(self).executor.history().last().answer),
            final(self).restic_bin == old(self).restic_bin,
    {
        get_stats(&mut self.executor, self.restic_bin.as_str(), env, timeout_secs)
    }

    fn count_snapshots(&mut self, env: &ResticEnv, timeout_secs: u64) -> (r: Result<usize, String>)
        ensures
            asked_for(
                old(self).executor.history(),
                final(self).executor.history(),
                restic_call(old(self).restic_bin@, snapshots_args(), env@, timeout_secs),
            ),
            match r {
                Ok(n) => snapshots_outcome(final(self).executor.history().last().answer) is Ok && n
                    == snapshots_outcome(final(self).executor.history().last().answer)->Ok_0.len(),
                Err(m) => snapshots_outcome(final(self).executor.history().last().answer) == Err::<
                    Seq<SnapshotView>,
                    Seq<char>,
                >(m@),
            },
            final(self).restic_bin == old(self).restic_bin,
    {
        count_snapshots(&mut self.executor, self.restic_bin.as_str(), env, timeout_secs)
    }

    fn get_latest_snapshot(&mut self, env: &ResticEnv, timeout_secs: u64) -> (r: Result<
        Option<Snapshot>,
        String,
    >)
        ensures
            asked_for(
                old(self).executor.history(),
                final(self).executor.history(),
                restic_call(old(self).restic_bin@, snapshots_args(), env@, timeout_secs),
            ),
            match r {
                Ok(s) => snapshots_outcome(final(self).executor.history().last().answer) is Ok && s.deep_view()
                    == latest_of(snapshots_outcome(final(self).executor.history().last().answer)->Ok_0),
                Err(m) => snapshots_outcome(final(self).executor.history().last().answer) == Err::<
                    Seq<SnapshotView>,
                    Seq<char>,
                >(m@),
            },
            final(self).restic_bin == old(self).restic_bin,
    {
        get_latest_snapshot(&mut self.executor, self.restic_bin.as_str(), env, timeout_secs)
    }

    fn list_snapshot_files(&mut self, env: &ResticEnv, snapshot_id: &str, timeout_secs: u64) -> (r:
        Result<Vec<String>, String>)
        ensures
            asked_for(
                old(self).executor.history(),
                final(self).executor.history(),
                restic_call(old(self).restic_bin@, ls_args(snapshot_id@), env@, timeout_secs),
            ),
            texts_view(r) == ls_outcome(final(self).executor.history().last().answer),
            final(self).restic_bin == old(self).restic_bin,
    {
        list_snapshot_files(
            &mut self.executor,
            self.restic_bin.as_str(),
            env,
            snapshot_id,
            timeout_secs,
        )
    }
}

/// A recorded request.
#[derive(Debug)]
pub enum ResticCall {
    Init,
    Backup { paths: Vec<String> },
    ListSnapshots,
    Restore { snapshot_id: String },
    ApplyRetention,
    Check { read_data: bool },
    Unlock,
    GetStats,
    CountSnapshots,
    GetLatestSnapshot,
    ListSnapshotFiles { snapshot_id: String },
}

/// What a [`ResticCall`] holds, as a value of specifications.
pub enum ResticCallView {
    Init,
    Backup { paths: Seq<Seq<char>> },
    ListSnapshots,
    Restore { snapshot_id: Seq<char> },
    ApplyRetention,
    Check { read_data: bool },
    Unlock,
    GetStats,
    CountSnapshots,
    GetLatestSnapshot,
    ListSnapshotFiles { snapshot_id: Seq<char> },
}

impl View for ResticCall {
    type V = ResticCallView;

    open spec fn view(&self) -> ResticCallView {
        match self {
            ResticCall::Init => ResticCallView::Init,
            ResticCall::Backup { paths } => ResticCallView::Backup { paths: paths.deep_view() },
            ResticCall::ListSnapshots => ResticCallView::ListSnapshots,
            ResticCall::Restore { snapshot_id } => ResticCallView::Restore {
                snapshot_id: snapshot_id@,
            },
            ResticCall::ApplyRetention => ResticCallView::ApplyRetention,
            ResticCall::Check { read_data } => ResticCallView::Check { read_data: *read_data },
            ResticCall::Unlock => ResticCallView::Unlock,
            ResticCall::GetStats => ResticCallView::GetStats,
            ResticCall::CountSnapshots => ResticCallView::CountSnapshots,
            ResticCall::GetLatestSnapshot => ResticCallView::GetLatestSnapshot,
            ResticCall::ListSnapshotFiles { snapshot_id } => ResticCallView::ListSnapshotFiles {
                snapshot_id: snapshot_id@,
            },
        }
    }
}

impl DeepView for ResticCall {
    type V = ResticCallView;

    open spec fn deep_view(&self) -> ResticCallView {
        self@
    }
}

impl Clone for ResticCall {
    fn clone(&self) -> (r: Self)
        ensures
            r@ == self@,
    {
        match self {
            ResticCall::Init => ResticCall::Init,
            ResticCall::Backup { paths } => ResticCall::Backup { paths: clone_strings(paths) },
            ResticCall::ListSnapshots => ResticCall::ListSnapshots,
            ResticCall::Restore { snapshot_id } => ResticCall::Restore {
                snapshot_id: snapshot_id.clone(),
            },
            ResticCall::ApplyRetention => ResticCall::ApplyRetention,
            ResticCall::Check { read_data } => ResticCall::Check { read_data: *read_data },
            ResticCall::Unlock => ResticCall::Unlock,
            ResticCall::GetStats => ResticCall::GetStats,
            ResticCall::CountSnapshots => ResticCall::CountSnapshots,
            ResticCall::GetLatestSnapshot => ResticCall::GetLatestSnapshot,
            ResticCall::ListSnapshotFiles { snapshot_id } => ResticCall::ListSnapshotFiles {
                snapshot_id: snapshot_id.clone(),
            },
        }
    }
}

/// A copy of `v`.
pub fn clone_snapshots(v: &Vec<Snapshot>) -> (r: Vec<Snapshot>)
    ensures
        r.deep_view() == v.deep_view(),
{
    let r = v.clone();
    assert(r.deep_view() =~= v.deep_view());
    r
}

/// A tool that does nothing: it records what it is asked and answers as it
/// was set up.
pub struct MockResticOps {
    /// The requests so far.
    pub calls: Vec<ResticCall>,
    /// The snapshots of the repository.
    pub snapshots: Vec<Snapshot>,
    pub should_fail_backup: bool,
    pub should_fail_restore: bool,
    pub should_fail_init: bool,
    pub should_fail_list: bool,
    pub should_fail_check: bool,
    /// The size of the repository.
    pub stats: String,
    /// What a check writes.
    pub check_result: String,
    /// The files of snapshots, by snapshot.
    pub snapshot_files: NameMap<Vec<String>>,
}

/// The files that the recording tool lists for a snapshot without files of
/// its own.
pub open spec fn default_files() -> Seq<Seq<char>> {
    seq!["/data/file1.txt"@, "/data/file2.txt"@]
}

/// The last of `snapshots`, where there is one.
pub open spec fn last_snapshot(snapshots: Seq<SnapshotView>) -> Option<SnapshotView> {
    if snapshots.len() == 0 {
        None
    } else {
        Some(snapshots.last())
    }
}

impl MockResticOps {
    /// `other` is set up as this tool is: the same snapshots, files and
    /// texts, and the same failures.
    pub open spec fn same_setup(&self, other: &MockResticOps) -> bool {
        &&& self.snapshots == other.snapshots
        &&& self.stats == other.stats
        &&& self.check_result == other.check_result
        &&& self.snapshot_files == other.snapshot_files
        &&& self.should_fail_backup == other.should_fail_backup
        &&& self.should_fail_restore == other.should_fail_restore
        &&& self.should_fail_init == other.should_fail_init
        &&& self.should_fail_list == other.should_fail_list
        &&& self.should_fail_check == other.should_fail_check
    }

    /// A tool without snapshots that never fails.
    pub fn new() -> (r: Self)
        ensures
            r.calls@.len() == 0,
            r.snapshots@.len() == 0,
            r.snapshot_files@.len() == 0,
            r.stats@ == "1.0 GiB"@,
            r.check_result@ == "no errors found"@,
            !r.should_fail_backup,
            !r.should_fail_restore,
            !r.should_fail_init,
            !r.should_fail_list,
            !r.should_fail_check,
    {
        MockResticOps {
            calls: Vec::new(),
            snapshots: Vec::new(),
            should_fail_backup: false,
            should_fail_restore: false,
            should_fail_init: false,
            should_fail_list: false,
            should_fail_check: false,
            stats: "1.0 GiB".to_owned(),
            check_result: "no errors found".to_owned(),
            snapshot_files: NameMap::new(),
        }
    }

    /// Sets the snapshots of the repository.
    pub fn with_snapshots(self, snapshots: Vec<Snapshot>) -> (r: Self)
        ensures
            r.snapshots == snapshots,
            r.calls == self.calls,
            r.should_fail_backup == self.should_fail_backup,
            r.should_fail_restore == self.should_fail_restore,
            r.should_fail_init == self.should_fail_init,
            r.should_fail_list == self.should_fail_list,
            r.should_fail_check == self.should_fail_check,
            r.stats == self.stats,
            r.check_result == self.check_result,
            r.snapshot_files == self.snapshot_files,
    {
        let mut this = self;
        this.snapshots = snapshots;
        this
    }

    /// Makes the transfer fail.
    pub fn with_failing_backup(self) -> (r: Self)
        ensures
            r.should_fail_backup,
            r.calls == self.calls,
            r.snapshots == self.snapshots,
            r.should_fail_restore == self.should_fail_restore,
            r.should_fail_init == self.should_fail_init,
            r.should_fail_list == self.should_fail_list,
            r.should_fail_check == self.should_fail_check,
            r.stats == self.stats,
            r.check_result == self.check_result,
            r.snapshot_files == self.snapshot_files,
    {
        let mut this = self;
        this.should_fail_backup = true;
        this
    }

    /// Makes the restore fail.
    pub fn with_failing_restore(self) -> (r: Self)
        ensures
            r.should_fail_restore,
            r.calls == self.calls,
            r.snapshots == self.snapshots,
            r.should_fail_backup == self.should_fail_backup,
            r.should_fail_init == self.should_fail_init,
            r.should_fail_list == self.should_fail_list,
            r.should_fail_check == self.should_fail_check,
            r.stats == self.stats,
            r.check_result == self.check_result,
            r.snapshot_files == self.snapshot_files,
    {
        let mut this = self;
        this.should_fail_restore = true;
        this
    }

    /// Makes the initialisation fail.
    pub fn with_failing_init(self) -> (r: Self)
        ensures
            r.should_fail_init,
            r.calls == self.calls,
            r.snapshots == self.snapshots,
            r.should_fail_backup == self.should_fail_backup,
            r.should_fail_restore == self.should_fail_restore,
            r.should_fail_list == self.should_fail_list,
            r.should_fail_check == self.should_fail_check,
            r.stats == self.stats,
            r.check_result == self.check_result,
            r.snapshot_files == self.snapshot_files,
    {
        let mut this = self;
        this.should_fail_init = true;
        this
    }

    /// Sets the size of the repository.
    pub fn with_stats(self, stats: &str) -> (r: Self)
        ensures
            r.stats@ == stats@,
            r.calls == self.calls,
            r.snapshots == self.snapshots,
            r.should_fail_backup == self.should_fail_backup,
            r.should_fail_restore == self.should_fail_restore,
            r.should_fail_init == self.should_fail_init,
            r.should_fail_list == self.should_fail_list,
            r.should_fail_check == self.should_fail_check,
            r.check_result == self.check_result,
            r.snapshot_files == self.snapshot_files,
    {
        let mut this = self;
        this.stats = stats.to_owned();
        this
    }

    /// Sets what a check writes.
    pub fn with_check_result(self, result: &str) -> (r: Self)
        ensures
            r.check_result@ == result@,
            r.calls == self.calls,
            r.snapshots == self.snapshots,
            r.should_fail_backup == self.should_fail_backup,
            r.should_fail_restore == self.should_fail_restore,
            r.should_fail_init == self.should_fail_init,
            r.should_fail_list == self.should_fail_list,
            r.should_fail_check == self.should_fail_check,
            r.stats == self.stats,
            r.snapshot_files == self.snapshot_files,
    {
        let mut this = self;
        this.check_result = result.to_owned();
        this
    }

    /// Makes the listing of snapshots fail.
    pub fn with_failing_list(self) -> (r: Self)
        ensures
            r.should_fail_list,
            r.calls == self.calls,
            r.snapshots == self.snapshots,
            r.should_fail_backup == self.should_fail_backup,
            r.should_fail_restore == self.should_fail_restore,
            r.should_fail_init == self.should_fail_init,
            r.should_fail_check == self.should_fail_check,
            r.stats == self.stats,
            r.check_result == self.check_result,
            r.snapshot_files == self.snapshot_files,
    {
        let mut this = self;
        this.should_fail_list = true;
        this
    }

    /// Makes the check fail.
    pub fn with_failing_check(self) -> (r: Self)
        ensures
            r.should_fail_check,
            r.calls == self.calls,
            r.snapshots == self.snapshots,
            r.should_fail_backup == self.should_fail_backup,
            r.should_fail_restore == self.should_fail_restore,
            r.should_fail_init == self.should_fail_init,
            r.should_fail_list == self.should_fail_list,
            r.stats == self.stats,
            r.check_result == self.check_result,
            r.snapshot_files == self.snapshot_files,
    {
        let mut this = self;
        this.should_fail_check = true;
        this
    }

    /// Sets the files of a snapshot.
    pub fn with_snapshot_files(self, snapshot_id: &str, files: Vec<String>) -> (r: Self)
        ensures
            r.snapshot_files@ == with_entry(self.snapshot_files@, snapshot_id@, files),
            r.calls == self.calls,
            r.snapshots == self.snapshots,
            r.should_fail_backup == self.should_fail_backup,
            r.should_fail_restore == self.should_fail_restore,
            r.should_fail_init == self.should_fail_init,
            r.should_fail_list == self.should_fail_list,
            r.should_fail_check == self.should_fail_check,
            r.stats == self.stats,
            r.check_result == self.check_result,
    {
        let mut this = self;
        this.snapshot_files.insert(snapshot_id.to_owned(), files);
        this
    }

    /// The requests so far.
    pub fn get_calls(&self) -> (r: Vec<ResticCall>)
        ensures
            r.deep_view() == self.calls.deep_view(),
    {
        let r = self.calls.clone();
        assert(r.deep_view() =~= self.calls.deep_view());
        r
    }

    /// Whether a repository was initialised.
    pub fn init_called(&self) -> (r: bool)
        ensures
            r == exists|i: int|
                0 <= i < self.calls@.len() && (#[trigger] self.calls.deep_view()[i]) is Init,
    {
        let mut i: usize = 0;
        while i < self.calls.len()
            invariant
                i <= self.calls@.len(),
                forall|j: int| 0 <= j < i ==> !((#[trigger] self.calls.deep_view()[j]) is Init),
            decreases self.calls@.len() - i,
        {
            assert(self.calls.deep_view()[i as int] == self.calls@[i as int]@);
            if let ResticCall::Init = &self.calls[i] {
                return true;
            }
            i = i + 1;
        }
        false
    }

    /// Whether a transfer was asked for.
    pub fn backup_called(&self) -> (r: bool)
        ensures
            r == exists|i: int|
                0 <= i < self.calls@.len() && (#[trigger] self.calls.deep_view()[i]) is Backup,
    {
        let mut i: usize = 0;
        while i < self.calls.len()
            invariant
                i <= self.calls@.len(),
                forall|j: int| 0 <= j < i ==> !((#[trigger] self.calls.deep_view()[j]) is Backup),
            decreases self.calls@.len() - i,
        {
            assert(self.calls.deep_view()[i as int] == self.calls@[i as int]@);
            if let ResticCall::Backup { .. } = &self.calls[i] {
                return true;
            }
            i = i + 1;
        }
        false
    }

    /// Whether a restore was asked for.
    pub fn restore_called(&self) -> (r: bool)
        ensures
            r == exists|i: int|
                0 <= i < self.calls@.len() && (#[trigger] self.calls.deep_view()[i]) is Restore,
    {
        let mut i: usize = 0;
        while i < self.calls.len()
            invariant
                i <= self.calls@.len(),
                forall|j: int| 0 <= j < i ==> !((#[trigger] self.calls.deep_view()[j]) is Restore),
            decreases self.calls@.len() - i,
        {
            assert(self.calls.deep_view()[i as int] == self.calls@[i as int]@);
            if let ResticCall::Restore { .. } = &self.calls[i] {
                return true;
            }
            i = i + 1;
        }
        false
    }

    /// Whether a check was asked for.
    pub fn check_called(&self) -> (r: bool)
        ensures
            r == exists|i: int|
                0 <= i < self.calls@.len() && (#[trigger] self.calls.deep_view()[i]) is Check,
    {
        let mut i: usize = 0;
        while i < self.calls.len()
            invariant
                i <= self.calls@.len(),
                forall|j: int| 0 <= j < i ==> !((#[trigger] self.calls.deep_view()[j]) is Check),
            decreases self.calls@.len() - i,
        {
            assert(self.calls.deep_view()[i as int] == self.calls@[i as int]@);
            if let ResticCall::Check { .. } = &self.calls[i] {
                return true;
            }
            i = i + 1;
        }
        false
    }

    /// Whether an unlock was asked for.
    pub fn unlock_called(&self) -> (r: bool)
        ensures
            r == exists|i: int|
                0 <= i < self.calls@.len() && (#[trigger] self.calls.deep_view()[i]) is Unlock,
    {
        let mut i: usize = 0;
        while i < self.calls.len()
            invariant
                i <= self.calls@.len(),
                forall|j: int| 0 <= j < i ==> !((#[trigger] self.calls.deep_view()[j]) is Unlock),
            decreases self.calls@.len() - i,
        {
            assert(self.calls.deep_view()[i as int] == self.calls@[i as int]@);
            if let ResticCall::Unlock = &self.calls[i] {
                return true;
            }
            i = i + 1;
        }
        false
    }

    /// Adds a request to the record.
    fn record_call(&mut self, call: ResticCall)
        ensures
            final(self).calls.deep_view() == old(self).calls.deep_view().push(call@),
            old(self).same_setup(final(self)),
    {
        let ghost before = self.calls.deep_view();
        self.calls.push(call);
        assert(self.calls.deep_view() =~= before.push(call@));
    }
}

impl ResticOperations for MockResticOps {
    /// Records the request and succeeds, unless initialising is set to fail.
    fn init_repository(&mut self, env: &ResticEnv, timeout_secs: u64) -> (r: Result<(), String>)
        ensures
            final(self).calls.deep_view() == old(self).calls.deep_view().push(ResticCallView::Init),
            old(self).same_setup(final(self)),
            match r {
                Ok(_) => !old(self).should_fail_init,
                Err(m) => old(self).should_fail_init && m@ == "Mock init failure"@,
            },
    {
        self.record_call(ResticCall::Init);
        if self.should_fail_init {
            return Err("Mock init failure".to_owned());
        }
        Ok(())
    }

    /// Records the request with its paths and succeeds, unless the transfer
    /// is set to fail.
    fn backup(
        &mut self,
        env: &ResticEnv,
        paths: &Vec<String>,
        excludes: &Vec<String>,
        timeout_secs: u64,
    ) -> (r: Result<(), String>)
        ensures
            final(self).calls.deep_view() == old(self).calls.deep_view().push(
                ResticCallView::Backup { paths: paths.deep_view() },
            ),
            old(self).same_setup(final(self)),
            match r {
                Ok(_) => !old(self).should_fail_backup,
                Err(m) => old(self).should_fail_backup && m@ == "Mock backup failure"@,
            },
    {
        self.record_call(ResticCall::Backup { paths: clone_strings(paths) });
        if self.should_fail_backup {
            return Err("Mock backup failure".to_owned());
        }
        Ok(())
    }

    /// Records the request and hands out the snapshots, unless listing is
    /// set to fail.
    fn list_snapshots(&mut self, env: &ResticEnv, timeout_secs: u64) -> (r: Result<
        Vec<Snapshot>,
        String,
    >)
        ensures
            final(self).calls.deep_view() == old(self).calls.deep_view().push(
                ResticCallView::ListSnapshots,
            ),
            old(self).same_setup(final(self)),
            match r {
                Ok(s) => !old(self).should_fail_list && s.deep_view() == old(
                    self,
                ).snapshots.deep_view(),
                Err(m) => old(self).should_fail_list && m@ == "Mock list_snapshots failure"@,
            },
    {
        self.record_call(ResticCall::ListSnapshots);
        if self.should_fail_list {
            return Err("Mock list_snapshots failure".to_owned());
        }
        Ok(clone_snapshots(&self.snapshots))
    }

    /// Records the request and succeeds, unless restoring is set to fail.
    fn restore_snapshot(
        &mut self,
        env: &ResticEnv,
        snapshot_id: &str,
        target_dir: Option<&str>,
        include_paths: &Vec<String>,
        timeout_secs: u64,
    ) -> (r: Result<(), String>)
        ensures
            final(self).calls.deep_view() == old(self).calls.deep_view().push(
                ResticCallView::Restore { snapshot_id: snapshot_id@ },
            ),
            old(self).same_setup(final(self)),
            match r {
                Ok(_) => !old(self).should_fail_restore,
                Err(m) => old(self).should_fail_restore && m@ == "Mock restore failure"@,
            },
    {
        self.record_call(ResticCall::Restore { snapshot_id: snapshot_id.to_owned() });
        if self.should_fail_restore {
            return Err("Mock restore failure".to_owned());
        }
        Ok(())
    }

    /// Records the request and succeeds.
    fn apply_retention(&mut self, env: &ResticEnv, retention: &RetentionPolicy, timeout_secs: u64) -> (r:
        Result<(), String>)
        ensures
            final(self).calls.deep_view() == old(self).calls.deep_view().push(
                ResticCallView::ApplyRetention,
            ),
            old(self).same_setup(final(self)),
            r is Ok,
    {
        self.record_call(ResticCall::ApplyRetention);
        Ok(())
    }

    /// Records the request and hands out what a check writes, unless the
    /// check is set to fail.
    fn check_repository(&mut self, env: &ResticEnv, read_data: bool, timeout_secs: u64) -> (r:
        Result<String, String>)
        ensures
            final(self).calls.deep_view() == old(self).calls.deep_view().push(
                ResticCallView::Check { read_data: read_data },
            ),
            old(self).same_setup(final(self)),
            match r {
                Ok(t) => !old(self).should_fail_check && t@ == old(self).check_result@,
                Err(m) => old(self).should_fail_check && m@ == "Mock check failure"@,
            },
    {
        self.record_call(ResticCall::Check { read_data });
        if self.should_fail_check {
            return Err("Mock check failure".to_owned());
        }
        Ok(self.check_result.clone())
    }

    /// Records the request and succeeds.
    fn unlock_repository(&mut self, env: &ResticEnv, timeout_secs: u64) -> (r: Result<(), String>)
        ensures
            final(self).calls.deep_view() == old(self).calls.deep_view().push(
                ResticCallView::Unlock,
            ),
            old(self).same_setup(final(self)),
            r is Ok,
    {
        self.record_call(ResticCall::Unlock);
        Ok(())
    }

    /// Records the request and hands out the size that was set.
    fn get_stats(&mut self, env: &ResticEnv, timeout_secs: u64) -> (r: Result<String, String>)
        ensures
            final(self).calls.deep_view() == old(self).calls.deep_view().push(
                ResticCallView::GetStats,
            ),
            old(self).same_setup(final(self)),
            r is Ok,
            r->Ok_0@ == old(self).stats@,
    {
        self.record_call(ResticCall::GetStats);
        Ok(self.stats.clone())
    }

    /// Records the request and hands out the number of snapshots.
    fn count_snapshots(&mut self, env: &ResticEnv, timeout_secs: u64) -> (r: Result<usize, String>)
        ensures
            final(self).calls.deep_view() == old(self).calls.deep_view().push(
                ResticCallView::CountSnapshots,
            ),
            old(self).same_setup(final(self)),
            r is Ok,
            r->Ok_0 == old(self).snapshots@.len(),
    {
        self.record_call(ResticCall::CountSnapshots);
        Ok(self.snapshots.len())
    }

    /// Records the request and hands out the last of the snapshots.
    fn get_latest_snapshot(&mut self, env: &ResticEnv, timeout_secs: u64) -> (r: Result<
        Option<Snapshot>,
        String,
    >)
        ensures
            final(self).calls.deep_view() == old(self).calls.deep_view().push(
                ResticCallView::GetLatestSnapshot,
            ),
            old(self).same_setup(final(self)),
            r is Ok,
            r->Ok_0.deep_view() == last_snapshot(old(self).snapshots.deep_view()),
    {
        self.record_call(ResticCall::GetLatestSnapshot);
        let n = self.snapshots.len();
        if n == 0 {
            Ok(None)
        } else {
            Ok(Some(self.snapshots[n - 1].clone()))
        }
    }

    /// Records the request and hands out the files that were set for the
    /// snapshot, or two files that stand for any.
    fn list_snapshot_files(&mut self, env: &ResticEnv, snapshot_id: &str, timeout_secs: u64) -> (r:
        Result<Vec<String>, String>)
        ensures
            final(self).calls.deep_view() == old(self).calls.deep_view().push(
                ResticCallView::ListSnapshotFiles { snapshot_id: snapshot_id@ },
            ),
            old(self).same_setup(final(self)),
            r is Ok,
            r->Ok_0.deep_view() == match lookup(old(self).snapshot_files@, snapshot_id@) {
                Some(files) => files.deep_view(),
                None => default_files(),
            },
    {
        self.record_call(ResticCall::ListSnapshotFiles { snapshot_id: snapshot_id.to_owned() });
        match self.snapshot_files.get(snapshot_id) {
            Some(files) => Ok(clone_strings(files)),
            None => {
                let mut files: Vec<String> = Vec::new();
                files.push("/data/file1.txt".to_owned());
                files.push("/data/file2.txt".to_owned());
                assert(files.deep_view() =~= default_files());
                Ok(files)
            },
        }
    }
}

} // verus!
