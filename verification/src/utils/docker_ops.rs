//! The container runtime as something that can be handed in: the real one,
//! and one that only records what it is asked.

use crate::config::types::clone_strings;
use crate::name_map::{lookup, with_entry, NameMap};
use crate::text::{concat2, same_text};
use crate::utils::command::{asked_for, plain_call};
use crate::utils::docker::{
    archive_args, archive_outcome, archive_volume, get_volume_size, is_listed, list_args,
    list_outcome, list_volumes, restore_volume, restored, size_args,
    size_outcome, volume_exists,
};
use crate::utils::paths::{file_name_spec, parent_spec};
use crate::utils::restic::{texts_view, unit_view};
use crate::utils::executor::{CommandExecutor, Exchange, Recorded};
use vstd::prelude::*;

verus! {

/// What the library asks of a container runtime. What comes back depends on
/// the runtime, so nothing is promised of it here.
pub trait DockerOperations {
    /// Lists the names of the volumes.
    fn list_volumes(&mut self, timeout_secs: u64) -> (r: Result<Vec<String>, String>);

    /// Whether a volume of exactly this name exists.
    fn volume_exists(&mut self, volume_name: &str, timeout_secs: u64) -> (r: Result<bool, String>);

    /// Packs a volume into a file.
    fn archive_volume(&mut self, volume_name: &str, output_path: &str, timeout_secs: u64) -> (r:
        Result<(), String>);

    /// Unpacks a file into a volume.
    fn restore_volume(&mut self, volume_name: &str, archive_path: &str, timeout_secs: u64) -> (r:
        Result<(), String>);

    /// The size of a volume in bytes.
    fn get_volume_size(&mut self, volume_name: &str, timeout_secs: u64) -> (r: Result<u64, String>);
}

/// The container runtime behind an executor of commands.
pub struct RealDockerOps<E: CommandExecutor> {
    pub executor: Recorded<E>,
}

impl<E: CommandExecutor> RealDockerOps<E> {
    /// The runtime that is reached through `executor`.
    pub fn new(executor: E) -> (r: Self)
        ensures
            r.executor.executor == executor,
            r.executor.history() == Seq::<Exchange>::empty(),
    {
        RealDockerOps { executor: Recorded::new(executor) }
    }
}

impl<E: CommandExecutor> DockerOperations for RealDockerOps<E> {
    fn list_volumes(&mut self, timeout_secs: u64) -> (r: Result<Vec<String>, String>)
        ensures
            asked_for(
                old(self).executor.history(),
                final(self).executor.history(),
                plain_call("docker"@, list_args(), None, Some(timeout_secs)),
            ),
            texts_view(r) == list_outcome(final(self).executor.history().last().answer),
    {
        list_volumes(&mut self.executor, timeout_secs)
    }

    fn volume_exists(&mut self, volume_name: &str, timeout_secs: u64) -> (r: Result<bool, String>)
        ensures
            asked_for(
                old(self).executor.history(),
                final(self).executor.history(),
                plain_call("docker"@, list_args(), None, Some(timeout_secs)),
            ),
            match r {
                Ok(b) => list_outcome(final(self).executor.history().last().answer) is Ok && b == list_outcome(
                    final(self).executor.history().last().answer,
                )->Ok_0.contains(volume_name@),
                Err(m) => list_outcome(final(self).executor.history().last().answer) == Err::<
                    Seq<Seq<char>>,
                    Seq<char>,
                >(m@),
            },
    {
        volume_exists(&mut self.executor, volume_name, timeout_secs)
    }

    fn archive_volume(&mut self, volume_name: &str, output_path: &str, timeout_secs: u64) -> (r:
        Result<(), String>)
        ensures
            match file_name_spec(output_path@) {
                None => final(self).executor.history() == old(self).executor.history() && unit_view(r) == Err::<
                    (),
                    Seq<char>,
                >("Invalid output path"@),
                Some(file) => asked_for(
                    old(self).executor.history(),
                    final(self).executor.history(),
                    plain_call(
                        "docker"@,
                        archive_args(volume_name@, parent_spec(output_path@), file),
                        None,
                        Some(timeout_secs),
                    ),
                ) && unit_view(r) == archive_outcome(
                    volume_name@,
                    final(self).executor.history().last().answer,
                ),
            },
    {
        archive_volume(&mut self.executor, volume_name, output_path, timeout_secs)
    }

    fn restore_volume(&mut self, volume_name: &str, archive_path: &str, timeout_secs: u64) -> (r:
        Result<(), String>)
        ensures
            exists|archive_exists: bool|
                restored(
                    old(self).executor.history(),
                    final(self).executor.history(),
                    volume_name@,
                    archive_path@,
                    archive_exists,
                    timeout_secs,
                    unit_view(r),
                ),
    {
        let ghost before = self.executor.history();
        let r = restore_volume(&mut self.executor, volume_name, archive_path, timeout_secs);
        proof {
            let there = choose|there: bool|
                restored(
                    before,
                    self.executor.history(),
                    volume_name@,
                    archive_path@,
                    there,
                    timeout_secs,
                    unit_view(r),
                );
            assert(restored(
                before,
                self.executor.history(),
                volume_name@,
                archive_path@,
                there,
                timeout_secs,
                unit_view(r),
            ));
        }
        r
    }

    fn get_volume_size(&mut self, volume_name: &str, timeout_secs: u64) -> (r: Result<u64, String>)
        ensures
            asked_for(
                old(self).executor.history(),
                final(self).executor.history(),
                plain_call("docker"@, size_args(volume_name@), None, Some(timeout_secs)),
            ),
            match r {
                Ok(n) => size_outcome(final(self).executor.history().last().answer) == Ok::<u64, Seq<char>>(n),
                Err(m) => size_outcome(final(self).executor.history().last().answer) == Err::<u64, Seq<char>>(
                    m@,
                ),
            },
    {
        get_volume_size(&mut self.executor, volume_name, timeout_secs)
    }
}

/// A recorded request.
#[derive(Debug)]
pub enum DockerCall {
    ListVolumes,
    VolumeExists { name: String },
    ArchiveVolume { name: String, path: String },
    RestoreVolume { name: String, path: String },
    GetVolumeSize { name: String },
}

/// What a [`DockerCall`] holds, as a value of specifications.
pub enum DockerCallView {
    ListVolumes,
    VolumeExists { name: Seq<char> },
    ArchiveVolume { name: Seq<char>, path: Seq<char> },
    RestoreVolume { name: Seq<char>, path: Seq<char> },
    GetVolumeSize { name: Seq<char> },
}

impl View for DockerCall {
    type V = DockerCallView;

    open spec fn view(&self) -> DockerCallView {
        match self {
            DockerCall::ListVolumes => DockerCallView::ListVolumes,
            DockerCall::VolumeExists { name } => DockerCallView::VolumeExists { name: name@ },
            DockerCall::ArchiveVolume { name, path } => DockerCallView::ArchiveVolume {
                name: name@,
                path: path@,
            },
            DockerCall::RestoreVolume { name, path } => DockerCallView::RestoreVolume {
                name: name@,
                path: path@,
            },
            DockerCall::GetVolumeSize { name } => DockerCallView::GetVolumeSize { name: name@ },
        }
    }
}

impl DeepView for DockerCall {
    type V = DockerCallView;

    open spec fn deep_view(&self) -> DockerCallView {
        self@
    }
}

impl Clone for DockerCall {
    fn clone(&self) -> (r: Self)
        ensures
            r@ == self@,
    {
        match self {
            DockerCall::ListVolumes => DockerCall::ListVolumes,
            DockerCall::VolumeExists { name } => DockerCall::VolumeExists { name: name.clone() },
            DockerCall::ArchiveVolume { name, path } => DockerCall::ArchiveVolume {
                name: name.clone(),
                path: path.clone(),
            },
            DockerCall::RestoreVolume { name, path } => DockerCall::RestoreVolume {
                name: name.clone(),
                path: path.clone(),
            },
            DockerCall::GetVolumeSize { name } => DockerCall::GetVolumeSize { name: name.clone() },
        }
    }
}

/// The size that the recording runtime reports for a volume without one of
/// its own.
pub const DEFAULT_VOLUME_SIZE: u64 = 1024;

/// A runtime that does nothing: it records what it is asked and answers as
/// it was set up.
pub struct MockDockerOps {
    /// The requests so far.
    pub calls: Vec<DockerCall>,
    /// The volumes that exist.
    pub volumes: Vec<String>,
    /// The sizes of volumes.
    pub volume_sizes: NameMap<u64>,
    pub should_fail_archive: bool,
    pub should_fail_restore: bool,
    pub should_fail_list: bool,
}

/// Whether `call` packs the volume `volume`.
pub open spec fn is_archive_of(call: DockerCallView, volume: Seq<char>) -> bool {
    call matches DockerCallView::ArchiveVolume { name, .. } && name == volume
}

/// The requests among the first `n` that pack the volume `volume`.
pub open spec fn archives_of(calls: Seq<DockerCallView>, volume: Seq<char>, n: int) -> Seq<
    DockerCallView,
>
    decreases n,
{
    if n <= 0 || n > calls.len() {
        Seq::empty()
    } else if is_archive_of(calls[n - 1], volume) {
        archives_of(calls, volume, n - 1).push(calls[n - 1])
    } else {
        archives_of(calls, volume, n - 1)
    }
}

impl MockDockerOps {
    /// `other` is set up as this runtime is: the same volumes and sizes, and
    /// the same failures.
    pub open spec fn same_setup(&self, other: &MockDockerOps) -> bool {
        &&& self.volumes == other.volumes
        &&& self.volume_sizes == other.volume_sizes
        &&& self.should_fail_archive == other.should_fail_archive
        &&& self.should_fail_restore == other.should_fail_restore
        &&& self.should_fail_list == other.should_fail_list
    }

    /// A runtime without volumes that never fails.
    pub fn new() -> (r: Self)
        ensures
            r.calls@.len() == 0,
            r.volumes@.len() == 0,
            r.volume_sizes@.len() == 0,
            !r.should_fail_archive,
            !r.should_fail_restore,
            !r.should_fail_list,
    {
        MockDockerOps {
            calls: Vec::new(),
            volumes: Vec::new(),
            volume_sizes: NameMap::new(),
            should_fail_archive: false,
            should_fail_restore: false,
            should_fail_list: false,
        }
    }

    /// Sets the volumes that exist.
    pub fn with_volumes(self, volumes: Vec<String>) -> (r: Self)
        ensures
            r.volumes == volumes,
            r.calls == self.calls,
            r.volume_sizes == self.volume_sizes,
            r.should_fail_archive == self.should_fail_archive,
            r.should_fail_restore == self.should_fail_restore,
            r.should_fail_list == self.should_fail_list,
    {
        let mut this = self;
        this.volumes = volumes;
        this
    }

    /// Sets the size of a volume.
    pub fn with_volume_size(self, name: &str, size: u64) -> (r: Self)
        ensures
            r.volume_sizes@ == with_entry(self.volume_sizes@, name@, size),
            r.volumes == self.volumes,
            r.calls == self.calls,
            r.should_fail_archive == self.should_fail_archive,
            r.should_fail_restore == self.should_fail_restore,
            r.should_fail_list == self.should_fail_list,
    {
        let mut this = self;
        this.volume_sizes.insert(name.to_owned(), size);
        this
    }

    /// Makes packing fail.
    pub fn with_failing_archive(self) -> (r: Self)
        ensures
            r.should_fail_archive,
            r.volumes == self.volumes,
            r.calls == self.calls,
            r.volume_sizes == self.volume_sizes,
            r.should_fail_restore == self.should_fail_restore,
            r.should_fail_list == self.should_fail_list,
    {
        let mut this = self;
        this.should_fail_archive = true;
        this
    }

    /// Makes unpacking fail.
    pub fn with_failing_restore(self) -> (r: Self)
        ensures
            r.should_fail_restore,
            r.volumes == self.volumes,
            r.calls == self.calls,
            r.volume_sizes == self.volume_sizes,
            r.should_fail_archive == self.should_fail_archive,
            r.should_fail_list == self.should_fail_list,
    {
        let mut this = self;
        this.should_fail_restore = true;
        this
    }

    /// Makes listing, and with it the question of existence, fail.
    pub fn with_failing_list(self) -> (r: Self)
        ensures
            r.should_fail_list,
            r.volumes == self.volumes,
            r.calls == self.calls,
            r.volume_sizes == self.volume_sizes,
            r.should_fail_archive == self.should_fail_archive,
            r.should_fail_restore == self.should_fail_restore,
    {
        let mut this = self;
        this.should_fail_list = true;
        this
    }

    /// The requests so far.
    pub fn get_calls(&self) -> (r: Vec<DockerCall>)
        ensures
            r.deep_view() == self.calls.deep_view(),
    {
        let r = self.calls.clone();
        assert(r.deep_view() =~= self.calls.deep_view());
        r
    }

    /// Whether the volumes were listed.
    pub fn list_volumes_called(&self) -> (r: bool)
        ensures
            r == exists|i: int|
                0 <= i < self.calls@.len() && (#[trigger] self.calls.deep_view()[i]) is ListVolumes,
    {
        let mut i: usize = 0;
        while i < self.calls.len()
            invariant
                i <= self.calls@.len(),
                forall|j: int| 0 <= j < i ==> !((#[trigger] self.calls.deep_view()[j]) is ListVolumes),
            decreases self.calls@.len() - i,
        {
            assert(self.calls.deep_view()[i as int] == self.calls@[i as int]@);
            if let DockerCall::ListVolumes = &self.calls[i] {
                return true;
            }
            i = i + 1;
        }
        false
    }

    /// Whether a volume was packed.
    pub fn archive_called(&self) -> (r: bool)
        ensures
            r == exists|i: int|
                0 <= i < self.calls@.len() && (#[trigger] self.calls.deep_view()[i]) is ArchiveVolume,
    {
        let mut i: usize = 0;
        while i < self.calls.len()
            invariant
                i <= self.calls@.len(),
                forall|j: int|
                    0 <= j < i ==> !((#[trigger] self.calls.deep_view()[j]) is ArchiveVolume),
            decreases self.calls@.len() - i,
        {
            assert(self.calls.deep_view()[i as int] == self.calls@[i as int]@);
            if let DockerCall::ArchiveVolume { .. } = &self.calls[i] {
                return true;
            }
            i = i + 1;
        }
        false
    }

    /// Whether a volume was unpacked.
    pub fn restore_called(&self) -> (r: bool)
        ensures
            r == exists|i: int|
                0 <= i < self.calls@.len() && (#[trigger] self.calls.deep_view()[i]) is RestoreVolume,
    {
        let mut i: usize = 0;
        while i < self.calls.len()
            invariant
                i <= self.calls@.len(),
                forall|j: int|
                    0 <= j < i ==> !((#[trigger] self.calls.deep_view()[j]) is RestoreVolume),
            decreases self.calls@.len() - i,
        {
            assert(self.calls.deep_view()[i as int] == self.calls@[i as int]@);
            if let DockerCall::RestoreVolume { .. } = &self.calls[i] {
                return true;
            }
            i = i + 1;
        }
        false
    }

    /// The requests that packed the volume `volume`, in their order.
    pub fn archive_calls_for(&self, volume: &str) -> (r: Vec<DockerCall>)
        ensures
            r.deep_view() == archives_of(self.calls.deep_view(), volume@, self.calls@.len() as int),
    {
        let mut r: Vec<DockerCall> = Vec::new();
        let mut i: usize = 0;
        assert(r.deep_view() =~= Seq::<DockerCallView>::empty());
        while i < self.calls.len()
            invariant
                i <= self.calls@.len(),
                r.deep_view() == archives_of(self.calls.deep_view(), volume@, i as int),
            decreases self.calls@.len() - i,
        {
            assert(self.calls.deep_view()[i as int] == self.calls@[i as int]@);
            let hit = match &self.calls[i] {
                DockerCall::ArchiveVolume { name, path } => same_text(name.as_str(), volume),
                _ => false,
            };
            if hit {
                let ghost before = r.deep_view();
                let call = self.calls[i].clone();
                r.push(call);
                assert(r.deep_view() =~= before.push(call@));
            }
            i = i + 1;
        }
        r
    }

    /// Adds a request to the record.
    fn record_call(&mut self, call: DockerCall)
        ensures
            final(self).calls.deep_view() == old(self).calls.deep_view().push(call@),
            old(self).same_setup(final(self)),
    {
        let ghost before = self.calls.deep_view();
        self.calls.push(call);
        assert(self.calls.deep_view() =~= before.push(call@));
    }
}

impl DockerOperations for MockDockerOps {
    /// Records the request and hands out the volumes, unless listing is set
    /// to fail.
    fn list_volumes(&mut self, timeout_secs: u64) -> (r: Result<Vec<String>, String>)
        ensures
            final(self).calls.deep_view() == old(self).calls.deep_view().push(
                DockerCallView::ListVolumes,
            ),
            old(self).same_setup(final(self)),
            match r {
                Ok(v) => !old(self).should_fail_list && v.deep_view() == old(
                    self,
                ).volumes.deep_view(),
                Err(m) => old(self).should_fail_list && m@ == "Mock list_volumes failure"@,
            },
    {
        self.record_call(DockerCall::ListVolumes);
        if self.should_fail_list {
            return Err("Mock list_volumes failure".to_owned());
        }
        Ok(clone_strings(&self.volumes))
    }

    /// Records the request and says whether the name is among the volumes,
    /// character for character, unless listing is set to fail.
    fn volume_exists(&mut self, volume_name: &str, timeout_secs: u64) -> (r: Result<bool, String>)
        ensures
            final(self).calls.deep_view() == old(self).calls.deep_view().push(
                DockerCallView::VolumeExists { name: volume_name@ },
            ),
            old(self).same_setup(final(self)),
            match r {
                Ok(b) => !old(self).should_fail_list && b == old(
                    self,
                ).volumes.deep_view().contains(volume_name@),
                Err(m) => old(self).should_fail_list && m@ == "Mock volume_exists failure"@,
            },
    {
        self.record_call(DockerCall::VolumeExists { name: volume_name.to_owned() });
        if self.should_fail_list {
            return Err("Mock volume_exists failure".to_owned());
        }
        Ok(is_listed(&self.volumes, volume_name))
    }

    /// Records the request and succeeds, unless packing is set to fail.
    fn archive_volume(&mut self, volume_name: &str, output_path: &str, timeout_secs: u64) -> (r:
        Result<(), String>)
        ensures
            final(self).calls.deep_view() == old(self).calls.deep_view().push(
                DockerCallView::ArchiveVolume { name: volume_name@, path: output_path@ },
            ),
            old(self).same_setup(final(self)),
            match r {
                Ok(_) => !old(self).should_fail_archive,
                Err(m) => old(self).should_fail_archive && m@
                    == "Mock archive failure for volume "@ + volume_name@,
            },
    {
        self.record_call(
            DockerCall::ArchiveVolume {
                name: volume_name.to_owned(),
                path: output_path.to_owned(),
            },
        );
        if self.should_fail_archive {
            return Err(concat2("Mock archive failure for volume ", volume_name));
        }
        Ok(())
    }

    /// Records the request and succeeds, unless unpacking is set to fail.
    fn restore_volume(&mut self, volume_name: &str, archive_path: &str, timeout_secs: u64) -> (r:
        Result<(), String>)
        ensures
            final(self).calls.deep_view() == old(self).calls.deep_view().push(
                DockerCallView::RestoreVolume { name: volume_name@, path: archive_path@ },
            ),
            old(self).same_setup(final(self)),
            match r {
                Ok(_) => !old(self).should_fail_restore,
                Err(m) => old(self).should_fail_restore && m@
                    == "Mock restore failure for volume "@ + volume_name@,
            },
    {
        self.record_call(
            DockerCall::RestoreVolume {
                name: volume_name.to_owned(),
                path: archive_path.to_owned(),
            },
        );
        if self.should_fail_restore {
            return Err(concat2("Mock restore failure for volume ", volume_name));
        }
        Ok(())
    }

    /// Records the request and hands out the size that was set for the
    /// volume, or the default.
    fn get_volume_size(&mut self, volume_name: &str, timeout_secs: u64) -> (r: Result<u64, String>)
        ensures
            final(self).calls.deep_view() == old(self).calls.deep_view().push(
                DockerCallView::GetVolumeSize { name: volume_name@ },
            ),
            old(self).same_setup(final(self)),
            r == Ok::<u64, String>(
                match lookup(old(self).volume_sizes@, volume_name@) {
                    Some(size) => size,
                    None => DEFAULT_VOLUME_SIZE,
                },
            ),
    {
        self.record_call(DockerCall::GetVolumeSize { name: volume_name.to_owned() });
        match self.volume_sizes.get(volume_name) {
            Some(size) => Ok(*size),
            None => Ok(DEFAULT_VOLUME_SIZE),
        }
    }
}

} // verus!
