//! Sample data for trying the library out.

use crate::text::{concat2, concat3, decimal, decimal_text};
use crate::utils::host::path_exists;
use crate::utils::paths::{join, join_spec};
use crate::utils::restic::{Snapshot, SnapshotView};
use vstd::prelude::*;

verus! {

/// `k` zeros.
pub open spec fn zeros(k: int) -> Seq<char> {
    Seq::new(
        if k < 0 {
            0nat
        } else {
            k as nat
        },
        |i: int| '0',
    )
}

/// The decimal notation of `n`, with zeros before it up to `width`
/// characters.
pub open spec fn padded(n: nat, width: nat) -> Seq<char> {
    zeros(width - decimal(n).len()) + decimal(n)
}

/// The decimal notation of `n`, with zeros before it up to `width`
/// characters.
pub fn zero_padded(n: u64, width: usize) -> (r: String)
    ensures
        r@ == padded(n as nat, width as nat),
{
    let digits = decimal_text(n);
    let len = digits.as_str().unicode_len();
    let mut r = String::new();
    let mut k: usize = 0;
    assert(r@ =~= zeros(0));
    while k < width && width - k > len
        invariant
            k <= width,
            len == digits@.len(),
            r@ == zeros(k as int),
            k <= width - len || k == 0,
        decreases width - k,
    {
        proof {
            reveal_strlit("0");
            assert(zeros(k as int) + "0"@ =~= zeros(k + 1));
        }
        r.append("0");
        k = k + 1;
    }
    assert(r@ =~= zeros(width - len));
    r.append(digits.as_str());
    r
}

/// A snapshot.
pub fn sample_snapshot() -> (r: Snapshot)
    ensures
        r@ == (SnapshotView {
            id: "abc123def456789012345678901234567890abcd"@,
            short_id: "abc123de"@,
            time: "2025-12-28T10:30:00.000000000Z"@,
            hostname: "test-host"@,
            paths: seq!["/data"@],
        }),
{
    let mut paths: Vec<String> = Vec::new();
    paths.push("/data".to_owned());
    assert(paths.deep_view() =~= seq!["/data"@]);
    Snapshot {
        id: "abc123def456789012345678901234567890abcd".to_owned(),
        short_id: "abc123de".to_owned(),
        time: "2025-12-28T10:30:00.000000000Z".to_owned(),
        hostname: "test-host".to_owned(),
        paths,
    }
}

/// The snapshot at position `i` of a series: its number in its
/// identifiers, and a day of December that goes back from the 28th.
pub open spec fn series_snapshot(i: nat) -> SnapshotView {
    SnapshotView {
        id: "snapshot"@ + padded(i, 40),
        short_id: "snap"@ + padded(i, 4),
        time: "2025-12-"@ + padded((28 - (i % 28)) as nat, 2) + "T10:30:00.000000000Z"@,
        hostname: "test-host"@,
        paths: seq!["/data"@],
    }
}

/// A series of `count` snapshots.
pub fn sample_snapshots(count: usize) -> (r: Vec<Snapshot>)
    ensures
        r.deep_view() == Seq::new(count as nat, |i: int| series_snapshot(i as nat)),
{
    let mut r: Vec<Snapshot> = Vec::new();
    let mut i: usize = 0;
    while i < count
        invariant
            i <= count,
            r@.len() == i,
            forall|j: int| 0 <= j < i ==> (#[trigger] r@[j])@ == series_snapshot(j as nat),
        decreases count - i,
    {
        let mut paths: Vec<String> = Vec::new();
        paths.push("/data".to_owned());
        assert(paths.deep_view() =~= seq!["/data"@]);
        let day: u64 = 28 - ((i % 28) as u64);
        r.push(
            Snapshot {
                id: concat2("snapshot", zero_padded(i as u64, 40).as_str()),
                short_id: concat2("snap", zero_padded(i as u64, 4).as_str()),
                time: concat3("2025-12-", zero_padded(day, 2).as_str(), "T10:30:00.000000000Z"),
                hostname: "test-host".to_owned(),
                paths,
            },
        );
        i = i + 1;
    }
    assert(r.deep_view() =~= Seq::new(count as nat, |i: int| series_snapshot(i as nat)));
    r
}

/// A snapshot taken at `time`.
pub fn snapshot_with_time(time: &str) -> (r: Snapshot)
    ensures
        r@ == (SnapshotView {
            id: "time-specific-snapshot-id-12345678901234567890"@,
            short_id: "time-spe"@,
            time: time@,
            hostname: "test-host"@,
            paths: seq!["/data"@],
        }),
{
    let mut paths: Vec<String> = Vec::new();
    paths.push("/data".to_owned());
    assert(paths.deep_view() =~= seq!["/data"@]);
    Snapshot {
        id: "time-specific-snapshot-id-12345678901234567890".to_owned(),
        short_id: "time-spe".to_owned(),
        time: time.to_owned(),
        hostname: "test-host".to_owned(),
        paths,
    }
}

/// A configuration document with one destination and one service. The
/// names in braces stand for paths that the reader fills in.
pub const MINIMAL_CONFIG_TOML: &'static str = "\n[global]\nrestic_password_file = \"{password_file}\"\ndocker_base = \"{docker_base}\"\nlog_dir = \"{log_dir}\"\n\n[destinations.local]\ntype = \"local\"\nurl = \"{backup_path}\"\ndescription = \"Local test destination\"\n\n[services.test]\nenabled = true\ndescription = \"Test service\"\nschedule = \"0 2 * * *\"\ntargets = [\"local\"]\nstrategy = \"generic\"\n";

/// A configuration document with one destination and one service. The
/// names in braces stand for paths that the reader fills in.
pub fn minimal_config_toml() -> (r: &'static str)
    ensures
        r@ == MINIMAL_CONFIG_TOML@,
{
    MINIMAL_CONFIG_TOML
}

/// A configuration document with three services.
pub const MULTI_SERVICE_CONFIG_TOML: &'static str = "\n[global]\nrestic_password_file = \"{password_file}\"\ndocker_base = \"{docker_base}\"\nlog_dir = \"{log_dir}\"\n\n[destinations.local]\ntype = \"local\"\nurl = \"{backup_path}\"\ndescription = \"Local test destination\"\n\n[services.appwrite]\nenabled = true\ndescription = \"Appwrite service\"\nschedule = \"0 2 * * *\"\ntargets = [\"local\"]\nstrategy = \"appwrite\"\n\n[services.immich]\nenabled = true\ndescription = \"Immich service\"\nschedule = \"0 3 * * *\"\ntargets = [\"local\"]\nstrategy = \"immich\"\n\n[services.generic]\nenabled = true\ndescription = \"Generic service\"\nschedule = \"0 4 * * *\"\ntargets = [\"local\"]\nstrategy = \"generic\"\n\n[services.generic.strategy_config]\npaths = [\"data\"]\nvolumes = [\"app_data\"]\n";

/// A configuration document with three services.
pub fn multi_service_config_toml() -> (r: &'static str)
    ensures
        r@ == MULTI_SERVICE_CONFIG_TOML@,
{
    MULTI_SERVICE_CONFIG_TOML
}

/// A configuration document with two profiles.
pub const CONFIG_WITH_PROFILES_TOML: &'static str = "\n[global]\nrestic_password_file = \"{password_file}\"\ndocker_base = \"{docker_base}\"\nlog_dir = \"{log_dir}\"\n\n[destinations.local]\ntype = \"local\"\nurl = \"{backup_path}\"\ndescription = \"Local test destination\"\n\n[profiles.default]\nretention = { daily = 7, weekly = 4, monthly = 6, yearly = 1 }\ntimeout_seconds = 3600\n\n[profiles.production]\nretention = { daily = 14, weekly = 8, monthly = 12, yearly = 2 }\ntimeout_seconds = 7200\n\n[services.test]\nenabled = true\ndescription = \"Test service with profile\"\nschedule = \"0 2 * * *\"\ntargets = [\"local\"]\nstrategy = \"generic\"\nprofile = \"production\"\n";

/// A configuration document with two profiles.
pub fn config_with_profiles_toml() -> (r: &'static str)
    ensures
        r@ == CONFIG_WITH_PROFILES_TOML@,
{
    CONFIG_WITH_PROFILES_TOML
}

/// A configuration document with a service that has two destinations.
pub const MULTI_DESTINATION_CONFIG_TOML: &'static str = "\n[global]\nrestic_password_file = \"{password_file}\"\ndocker_base = \"{docker_base}\"\nlog_dir = \"{log_dir}\"\n\n[destinations.local]\ntype = \"local\"\nurl = \"{backup_path}\"\ndescription = \"Local backup\"\n\n[destinations.remote]\ntype = \"sftp\"\nurl = \"sftp://user@host/backups\"\ndescription = \"Remote backup\"\n\n[services.important]\nenabled = true\ndescription = \"Important service backed up to multiple destinations\"\nschedule = \"0 2 * * *\"\ntargets = [\"local\", \"remote\"]\nstrategy = \"generic\"\n";

/// A configuration document with a service that has two destinations.
pub fn multi_destination_config_toml() -> (r: &'static str)
    ensures
        r@ == MULTI_DESTINATION_CONFIG_TOML@,
{
    MULTI_DESTINATION_CONFIG_TOML
}

/// A configuration document with a service that has hooks.
pub const CONFIG_WITH_HOOKS_TOML: &'static str = "\n[global]\nrestic_password_file = \"{password_file}\"\ndocker_base = \"{docker_base}\"\nlog_dir = \"{log_dir}\"\n\n[destinations.local]\ntype = \"local\"\nurl = \"{backup_path}\"\ndescription = \"Local test destination\"\n\n[services.hooked]\nenabled = true\ndescription = \"Service with hooks\"\nschedule = \"0 2 * * *\"\ntargets = [\"local\"]\nstrategy = \"generic\"\n\n[services.hooked.strategy_config]\npaths = [\"data\"]\npre_hooks = [\"echo 'pre-backup'\"]\npost_hooks = [\"echo 'post-backup'\"]\n";

/// A configuration document with a service that has hooks.
pub fn config_with_hooks_toml() -> (r: &'static str)
    ensures
        r@ == CONFIG_WITH_HOOKS_TOML@,
{
    CONFIG_WITH_HOOKS_TOML
}

/// The names of the volumes of an Appwrite installation.
pub fn appwrite_volumes() -> (r: Vec<String>)
    ensures
        r.deep_view() == seq![
            "appwrite_appwrite-cache"@,
            "appwrite_appwrite-certificates"@,
            "appwrite_appwrite-config"@,
            "appwrite_appwrite-functions"@,
            "appwrite_appwrite-mariadb"@,
            "appwrite_appwrite-redis"@,
            "appwrite_appwrite-uploads"@,
        ],
{
    let mut r: Vec<String> = Vec::new();
    r.push("appwrite_appwrite-cache".to_owned());
    r.push("appwrite_appwrite-certificates".to_owned());
    r.push("appwrite_appwrite-config".to_owned());
    r.push("appwrite_appwrite-functions".to_owned());
    r.push("appwrite_appwrite-mariadb".to_owned());
    r.push("appwrite_appwrite-redis".to_owned());
    r.push("appwrite_appwrite-uploads".to_owned());
    assert(r.deep_view() =~= seq![
        "appwrite_appwrite-cache"@,
        "appwrite_appwrite-certificates"@,
        "appwrite_appwrite-config"@,
        "appwrite_appwrite-functions"@,
        "appwrite_appwrite-mariadb"@,
        "appwrite_appwrite-redis"@,
        "appwrite_appwrite-uploads"@,
    ]);
    r
}

/// The names of the volumes of an Immich installation.
pub fn immich_volumes() -> (r: Vec<String>)
    ensures
        r.deep_view() == seq!["immich_pgdata"@, "immich_model-cache"@],
{
    let mut r: Vec<String> = Vec::new();
    r.push("immich_pgdata".to_owned());
    r.push("immich_model-cache".to_owned());
    assert(r.deep_view() =~= seq!["immich_pgdata"@, "immich_model-cache"@]);
    r
}

/// The three files of the sample data under `dir`.
pub open spec fn test_data_paths(dir: Seq<char>) -> Seq<Seq<char>> {
    seq![
        join_spec(dir, "data/file1.txt"@),
        join_spec(dir, "data/file2.txt"@),
        join_spec(dir, "config/settings.json"@),
    ]
}

/// The three files of the sample data under `dir`.
pub fn test_data_files(dir: &str) -> (r: Vec<String>)
    ensures
        r.deep_view() == test_data_paths(dir@),
{
    let mut r: Vec<String> = Vec::new();
    r.push(join(dir, "data/file1.txt"));
    r.push(join(dir, "data/file2.txt"));
    r.push(join(dir, "config/settings.json"));
    assert(r.deep_view() =~= test_data_paths(dir@));
    r
}

/// Whether the files of [`test_data_files`] are all there under `dir` right
/// now. Each is looked for until one is missing.
pub fn verify_test_data(dir: &str) -> (r: bool) {
    let files = test_data_files(dir);
    let mut i: usize = 0;
    while i < files.len()
        invariant
            i <= files@.len(),
        decreases files@.len() - i,
    {
        if !path_exists(files[i].as_str()) {
            return false;
        }
        i = i + 1;
    }
    true
}

} // verus!
