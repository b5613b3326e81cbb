use restic_manager::config::types::{Destination, DestinationType, RetentionPolicy};
use restic_manager::fixtures::{sample_snapshot, sample_snapshots, snapshot_with_time};
use restic_manager::utils::executor::{MockExecutor, MockResponse, Recorded};
use restic_manager::utils::restic::{
    apply_retention, backup, build_repository_url, check_repository, count_snapshots,
    get_latest_snapshot, get_stats, init_repository, latest_position, latest_snapshot,
    list_snapshot_files, list_snapshots, parse_snapshots, read_after_colon, read_snapshots,
    read_total_size, restore_snapshot, unlock_repository, ResticEnv, Snapshot,
};
use restic_manager::utils::restic_ops::{
    MockResticOps, RealResticOps, ResticCall, ResticOperations,
};

fn destination(url: &str) -> Destination {
    Destination {
        dest_type: DestinationType::Sftp,
        url: url.to_string(),
        description: "Test destination".to_string(),
    }
}

fn answering(stdout: &str) -> Recorded<MockExecutor> {
    Recorded::new(MockExecutor::new().with_default_response(MockResponse::Success {
        stdout: stdout.to_string(),
        stderr: String::new(),
    }))
}

fn failing(stderr: &str) -> Recorded<MockExecutor> {
    Recorded::new(
        MockExecutor::new()
            .with_default_response(MockResponse::Failure { stderr: stderr.to_string(), exit_code: 1 }),
    )
}

fn env() -> ResticEnv {
    ResticEnv::new("/etc/restic/password", "/tmp/repo")
}

#[test]
fn restic_test_build_repository_url_with_trailing_slash() {
    let destination = destination("sftp://user@host/backups/");

    let url = build_repository_url(&destination, "postgres", None);
    assert_eq!(url, "sftp://user@host/backups/postgres");
}

#[test]
fn restic_test_build_repository_url_without_trailing_slash() {
    let destination = destination("sftp://user@host/backups");

    let url = build_repository_url(&destination, "postgres", None);
    assert_eq!(url, "sftp://user@host/backups/postgres");
}

#[test]
fn restic_test_build_repository_url_with_suffix() {
    let destination = Destination {
        dest_type: DestinationType::Local,
        url: "/tmp/backups".to_string(),
        description: "Test destination".to_string(),
    };

    let url = build_repository_url(&destination, "postgres", Some("-prod"));
    assert_eq!(url, "/tmp/backups/postgres-prod");
}

#[test]
fn test_build_repository_url_local() {
    let destination = Destination {
        dest_type: DestinationType::Local,
        url: "/var/backups".to_string(),
        description: "Test".to_string(),
    };

    let url = build_repository_url(&destination, "myservice", None);
    assert_eq!(url, "/var/backups/myservice");
}

#[test]
fn a_repository_url_keeps_odd_base_urls_as_they_are() {
    assert_eq!(build_repository_url(&destination(""), "svc", None), "/svc");
    assert_eq!(build_repository_url(&destination("/"), "svc", Some("")), "/svc");
    assert_eq!(build_repository_url(&destination("s3:bucket//"), "svc", Some("-db")), "s3:bucket//svc-db");
}

#[test]
fn test_restic_env_creation() {
    let env = ResticEnv::new("/tmp/password", "/tmp/repo");
    let vars = env.vars();

    assert!(vars.contains_key("RESTIC_PASSWORD_FILE"));
    assert!(vars.contains_key("RESTIC_REPOSITORY"));
    assert_eq!(vars.get("RESTIC_REPOSITORY").unwrap(), "/tmp/repo");
    assert_eq!(vars.get("RESTIC_PASSWORD_FILE").unwrap(), "/tmp/password");
}

#[test]
fn a_variable_that_is_set_again_takes_the_new_value() {
    let mut env = env();
    env.add("AWS_ACCESS_KEY_ID".to_string(), "key".to_string());
    env.add("RESTIC_REPOSITORY".to_string(), "/other".to_string());
    let vars = env.vars();
    assert_eq!(vars.len(), 3);
    assert_eq!(
        vars.keys(),
        vec![
            "RESTIC_PASSWORD_FILE".to_string(),
            "RESTIC_REPOSITORY".to_string(),
            "AWS_ACCESS_KEY_ID".to_string(),
        ]
    );
    assert_eq!(vars.get("RESTIC_REPOSITORY").unwrap(), "/other");
    assert_eq!(vars.get("AWS_ACCESS_KEY_ID").unwrap(), "key");
}

#[test]
fn test_real_restic_ops_creation() {
    let ops = RealResticOps::new(MockExecutor::new(), "restic".to_string());
    let _ = ops;
}

#[test]
fn test_mock_restic_ops_init() {
    let mut mock = MockResticOps::new();
    let result = mock.init_repository(&env(), 30);

    assert!(result.is_ok());
    assert!(mock.init_called());
}

#[test]
fn test_mock_restic_ops_backup() {
    let mut mock = MockResticOps::new();
    let paths = vec!["/data".to_string()];
    let result = mock.backup(&env(), &paths, &vec![], 60);

    assert!(result.is_ok());
    assert!(mock.backup_called());
}

#[test]
fn test_mock_restic_ops_backup_failure() {
    let mut mock = MockResticOps::new().with_failing_backup();
    let result = mock.backup(&env(), &vec!["/data".to_string()], &vec![], 60);

    assert!(result.is_err());
    assert!(result.unwrap_err().to_string().contains("Mock backup failure"));
}

#[test]
fn test_mock_restic_ops_failing_backup() {
    let mut mock = MockResticOps::new().with_failing_backup();
    let result = mock.backup(&env(), &vec!["/data".to_string()], &vec![], 30);
    assert!(result.is_err());
    assert!(result.unwrap_err().to_string().contains("Mock backup failure"));
}

#[test]
fn test_mock_restic_ops_list_snapshots() {
    let mut mock = MockResticOps::new().with_snapshots(sample_snapshots(3));
    let snapshots = mock.list_snapshots(&env(), 30).unwrap();
    assert_eq!(snapshots.len(), 3);
}

#[test]
fn test_mock_restic_ops_get_latest_snapshot() {
    let mut mock = MockResticOps::new().with_snapshots(sample_snapshots(5));
    let latest = mock.get_latest_snapshot(&env(), 30).unwrap();
    assert!(latest.is_some());
    assert_eq!(latest.unwrap().short_id, "snap0004");
    let mut empty = MockResticOps::new();
    assert!(empty.get_latest_snapshot(&env(), 30).unwrap().is_none());
}

#[test]
fn test_mock_restic_ops_count_snapshots() {
    let mut mock = MockResticOps::new().with_snapshots(sample_snapshots(10));
    let count = mock.count_snapshots(&env(), 30).unwrap();
    assert_eq!(count, 10);
}

#[test]
fn test_mock_restic_ops_restore() {
    let mut mock = MockResticOps::new();
    let result = mock.restore_snapshot(&env(), "abc123", None, &vec![], 60);
    assert!(result.is_ok());
    assert!(mock.restore_called());
}

#[test]
fn test_mock_restic_ops_restore_failure() {
    let mut mock = MockResticOps::new().with_failing_restore();
    let result = mock.restore_snapshot(&env(), "abc123", None, &vec![], 60);
    assert!(result.is_err());
    assert!(result.unwrap_err().to_string().contains("Mock restore failure"));
}

#[test]
fn test_mock_restic_ops_check() {
    let mut mock = MockResticOps::new().with_check_result("all good");
    let result = mock.check_repository(&env(), false, 60).unwrap();
    assert_eq!(result, "all good");
    assert!(mock.check_called());
    let mut failing = MockResticOps::new().with_failing_check();
    assert_eq!(failing.check_repository(&env(), true, 60).unwrap_err(), "Mock check failure");
}

#[test]
fn restic_test_mock_restic_ops_stats() {
    let mut mock = MockResticOps::new().with_stats("2.5 GiB");
    let stats = mock.get_stats(&env(), 30).unwrap();
    assert_eq!(stats, "2.5 GiB");
}

#[test]
fn restic_ops_test_mock_restic_ops_stats() {
    let mut mock = MockResticOps::new().with_stats("2.5 GiB");
    let stats = mock.get_stats(&env(), 30).unwrap();
    assert_eq!(stats, "2.5 GiB");
    assert_eq!(MockResticOps::new().get_stats(&env(), 30).unwrap(), "1.0 GiB");
}

#[test]
fn test_mock_restic_ops_apply_retention() {
    let mut mock = MockResticOps::new();
    let retention = RetentionPolicy { daily: 7, weekly: 4, monthly: 6, yearly: 1 };
    let result = mock.apply_retention(&env(), &retention, 60);
    assert!(result.is_ok());
}

#[test]
fn test_mock_restic_ops_unlock() {
    let mut mock = MockResticOps::new();
    let result = mock.unlock_repository(&env(), 30);
    assert!(result.is_ok());
    assert!(mock.unlock_called());
}

#[test]
fn test_mock_restic_ops_records_calls() {
    let mut mock = MockResticOps::new().with_snapshots(vec![Snapshot {
        id: "abc123".to_string(),
        short_id: "abc".to_string(),
        time: "2025-01-01T00:00:00Z".to_string(),
        hostname: "test".to_string(),
        paths: vec!["/data".to_string()],
    }]);

    let env = ResticEnv::new("/tmp/password", "/tmp/repo");
    let timeout = 30;

    mock.init_repository(&env, timeout).unwrap();
    mock.backup(&env, &vec!["/data".to_string()], &vec![], timeout).unwrap();
    let snapshots = mock.list_snapshots(&env, timeout).unwrap();

    assert!(mock.init_called());
    assert!(mock.backup_called());
    assert_eq!(snapshots.len(), 1);
    assert_eq!(snapshots[0].id, "abc123");
}

#[test]
fn test_run_backup_creates_snapshot() {
    let mut mock = MockResticOps::new();
    let result = mock.backup(&env(), &vec![], &vec![], 60);
    assert!(result.is_ok());
    assert!(mock.backup_called());
}

#[test]
fn test_run_applies_retention() {
    let mut mock = MockResticOps::new();
    let retention = RetentionPolicy { daily: 7, weekly: 4, monthly: 6, yearly: 1 };
    let result = mock.apply_retention(&env(), &retention, 60);
    assert!(result.is_ok());
}

#[test]
fn test_run_handles_backup_failure() {
    let mut mock = MockResticOps::new().with_failing_backup();
    let result = mock.backup(&env(), &vec![], &vec![], 60);
    assert!(result.is_err());
}

#[test]
fn the_recording_tool_keeps_what_it_was_asked() {
    let mut mock = MockResticOps::new()
        .with_snapshot_files("abc", vec!["/etc/hosts".to_string()])
        .with_failing_init()
        .with_failing_list();
    assert!(!mock.init_called());
    assert_eq!(mock.init_repository(&env(), 1).unwrap_err(), "Mock init failure");
    assert_eq!(mock.list_snapshots(&env(), 1).unwrap_err(), "Mock list_snapshots failure");
    assert_eq!(mock.list_snapshot_files(&env(), "abc", 1).unwrap(), vec!["/etc/hosts".to_string()]);
    assert_eq!(
        mock.list_snapshot_files(&env(), "other", 1).unwrap(),
        vec!["/data/file1.txt".to_string(), "/data/file2.txt".to_string()]
    );
    mock.backup(&env(), &vec!["/a".to_string(), "/b".to_string()], &vec![], 1).unwrap();
    mock.check_repository(&env(), true, 1).unwrap();
    assert_eq!(mock.count_snapshots(&env(), 1).unwrap(), 0);
    let calls = mock.get_calls();
    assert_eq!(calls.len(), 7);
    assert!(matches!(calls[0], ResticCall::Init));
    assert!(matches!(calls[1], ResticCall::ListSnapshots));
    assert!(matches!(&calls[2], ResticCall::ListSnapshotFiles { snapshot_id } if snapshot_id == "abc"));
    assert!(matches!(&calls[4], ResticCall::Backup { paths } if paths == &vec!["/a".to_string(), "/b".to_string()]));
    assert!(matches!(calls[5], ResticCall::Check { read_data: true }));
    assert!(matches!(calls[6], ResticCall::CountSnapshots));
    assert!(!mock.unlock_called());
    assert!(!mock.restore_called());
}

#[test]
fn a_repository_that_is_there_already_counts_as_initialised() {
    let mut fresh = Recorded::new(MockExecutor::new());
    assert_eq!(init_repository(&mut fresh, "restic", &env(), 30), Ok(()));
    let calls = fresh.executor.get_calls();
    assert_eq!(calls[0].program, "restic");
    assert_eq!(calls[0].args, vec!["init"]);
    let mut there = failing("Fatal: create repository failed: config file already exists");
    assert_eq!(init_repository(&mut there, "restic", &env(), 30), Ok(()));
    let mut there = failing("repository master key and config already initialized");
    assert_eq!(init_repository(&mut there, "restic", &env(), 30), Ok(()));
    let mut broken = failing("Fatal: unable to open repository");
    assert_eq!(
        init_repository(&mut broken, "restic", &env(), 30),
        Err("Failed to initialize repository: Fatal: unable to open repository".to_string())
    );
    let mut slow = Recorded::new(MockExecutor::new().with_default_response(MockResponse::Timeout));
    assert_eq!(
        init_repository(&mut slow, "restic", &env(), 30),
        Err("Repository initialization timed out".to_string())
    );
}

#[test]
fn a_transfer_names_paths_then_excludes_then_the_cache_flag() {
    let mut executor = Recorded::new(MockExecutor::new());
    let paths = vec!["/srv/data".to_string(), "/tmp/restic-manager/web/db.tar.gz".to_string()];
    let excludes = vec!["*.log".to_string(), "cache/".to_string()];
    assert_eq!(backup(&mut executor, "/opt/restic", &env(), &paths, &excludes, 3600), Ok(()));
    let calls = executor.executor.get_calls();
    assert_eq!(calls.len(), 1);
    assert_eq!(calls[0].program, "/opt/restic");
    assert_eq!(
        calls[0].args,
        vec![
            "backup",
            "/srv/data",
            "/tmp/restic-manager/web/db.tar.gz",
            "--exclude",
            "*.log",
            "--exclude",
            "cache/",
            "--exclude-caches",
        ]
    );
    assert_eq!(backup(&mut executor, "restic", &env(), &vec![], &excludes, 3600), Ok(()));
    assert_eq!(executor.executor.get_calls().len(), 1);
    let mut broken = failing("repository is locked");
    assert_eq!(
        backup(&mut broken, "restic", &env(), &paths, &vec![], 5),
        Err("Backup failed: repository is locked".to_string())
    );
    let mut slow = Recorded::new(MockExecutor::new().with_default_response(MockResponse::Timeout));
    assert_eq!(
        backup(&mut slow, "restic", &env(), &paths, &vec![], 5),
        Err("Backup timed out".to_string())
    );
}

#[test]
fn pruning_and_unlocking_pass_over_a_failure() {
    let retention = RetentionPolicy { daily: 7, weekly: 4, monthly: 12, yearly: 0 };
    let mut executor = failing("nothing to prune");
    assert_eq!(apply_retention(&mut executor, "restic", &env(), &retention, 60), Ok(()));
    assert_eq!(unlock_repository(&mut executor, "restic", &env(), 30), Ok(()));
    let calls = executor.executor.get_calls();
    assert_eq!(
        calls[0].args,
        vec![
            "forget",
            "--prune",
            "--keep-daily",
            "7",
            "--keep-weekly",
            "4",
            "--keep-monthly",
            "12",
            "--keep-yearly",
            "0",
        ]
    );
    assert_eq!(calls[1].args, vec!["unlock"]);
    let mut slow = Recorded::new(MockExecutor::new().with_default_response(MockResponse::Timeout));
    assert_eq!(
        apply_retention(&mut slow, "restic", &env(), &retention, 60),
        Err("Retention policy application timed out".to_string())
    );
    assert_eq!(
        unlock_repository(&mut slow, "restic", &env(), 30),
        Err("Unlock timed out".to_string())
    );
}

const LISTING: &str = r#"[
  {"time":"2025-12-27T10:30:00.5Z","hostname":"alpha","paths":["/data",7,"/etc"],
   "id":"aaaa1111aaaa1111","short_id":"aaaa1111","tree":"ffff"},
  {"time":"2025-12-28T09:00:00+02:00","hostname":"beta","id":"bbbb2222bbbb2222","short_id":"bbbb2222"},
  {"time":12,"paths":"none","id":null},
  "not an object"
]"#;

#[test]
fn a_listing_is_read_item_by_item() {
    let snapshots = parse_snapshots(LISTING).unwrap();
    assert_eq!(snapshots.len(), 4);
    assert_eq!(snapshots[0].id, "aaaa1111aaaa1111");
    assert_eq!(snapshots[0].short_id, "aaaa1111");
    assert_eq!(snapshots[0].time, "2025-12-27T10:30:00.5Z");
    assert_eq!(snapshots[0].hostname, "alpha");
    assert_eq!(snapshots[0].paths, vec!["/data".to_string(), "/etc".to_string()]);
    assert_eq!(snapshots[1].hostname, "beta");
    assert!(snapshots[1].paths.is_empty());
    assert_eq!(snapshots[2].id, "");
    assert_eq!(snapshots[2].time, "");
    assert_eq!(snapshots[2].hostname, "");
    assert!(snapshots[2].paths.is_empty());
    assert_eq!(snapshots[3].id, "");
    let empty = parse_snapshots("[]").unwrap();
    assert!(empty.is_empty());
}

#[test]
fn a_listing_that_is_no_array_is_refused() {
    assert!(parse_snapshots("{\"id\":\"x\"}").is_none());
    assert!(parse_snapshots("").is_none());
    assert!(parse_snapshots("[{\"id\":\"x\"}").is_none());
    assert!(parse_snapshots("null").is_none());
    let document: serde_json::Value = serde_json::from_str("\"text\"").unwrap();
    assert!(read_snapshots(&document).is_none());
    let document: serde_json::Value = serde_json::from_str("[{\"hostname\":\"h\"}]").unwrap();
    let snapshots = read_snapshots(&document).unwrap();
    assert_eq!(snapshots.len(), 1);
    assert_eq!(snapshots[0].hostname, "h");
}

#[test]
fn snapshots_are_listed_from_what_the_tool_writes() {
    let mut executor = answering(LISTING);
    let snapshots = list_snapshots(&mut executor, "restic", &env(), 60).unwrap();
    assert_eq!(snapshots.len(), 4);
    assert_eq!(executor.executor.get_calls()[0].args, vec!["snapshots", "--json"]);
    assert_eq!(count_snapshots(&mut executor, "restic", &env(), 60), Ok(4));
    let mut garbled = answering("Fatal: not json");
    assert_eq!(
        list_snapshots(&mut garbled, "restic", &env(), 60).unwrap_err(),
        "Failed to parse snapshots JSON"
    );
    let mut broken = failing("wrong password");
    assert_eq!(
        list_snapshots(&mut broken, "restic", &env(), 60).unwrap_err(),
        "Failed to list snapshots: wrong password"
    );
    assert_eq!(
        count_snapshots(&mut broken, "restic", &env(), 60).unwrap_err(),
        "Failed to list snapshots: wrong password"
    );
}

#[test]
fn the_latest_snapshot_is_the_one_with_the_latest_time() {
    let mut executor = answering(LISTING);
    let latest = get_latest_snapshot(&mut executor, "restic", &env(), 60).unwrap().unwrap();
    assert_eq!(latest.hostname, "beta");
    let snapshots = vec![
        snapshot_with_time("2025-12-28T10:00:00Z"),
        snapshot_with_time("2025-12-29T09:00:00+01:00"),
        snapshot_with_time("2025-12-29T07:59:59Z"),
        snapshot_with_time("yesterday"),
    ];
    assert_eq!(latest_snapshot(&snapshots).unwrap().time, "2025-12-29T09:00:00+01:00");
    let same = vec![
        snapshot_with_time("2025-12-29T09:00:00+01:00"),
        snapshot_with_time("2025-12-29T08:00:00Z"),
    ];
    assert_eq!(latest_snapshot(&same).unwrap().time, "2025-12-29T08:00:00Z");
    let unreadable = vec![snapshot_with_time("a"), snapshot_with_time("b")];
    assert_eq!(latest_snapshot(&unreadable).unwrap().time, "b");
    assert!(latest_snapshot(&vec![]).is_none());
    assert_eq!(latest_snapshot(&vec![sample_snapshot()]).unwrap().id, sample_snapshot().id);
    let mut none = answering("[]");
    assert!(get_latest_snapshot(&mut none, "restic", &env(), 60).unwrap().is_none());
}

#[test]
fn the_latest_position_prefers_the_later_of_equals() {
    assert_eq!(latest_position(&vec![]), None);
    assert_eq!(latest_position(&vec![None]), Some(0));
    assert_eq!(latest_position(&vec![Some(5), None, Some(3)]), Some(0));
    assert_eq!(latest_position(&vec![Some(5), Some(9), Some(9), Some(-1)]), Some(2));
    assert_eq!(latest_position(&vec![None, None]), Some(1));
    assert_eq!(latest_position(&vec![None, Some(i64::MIN)]), Some(1));
}

#[test]
fn the_size_is_what_follows_the_first_colon_of_its_line() {
    let stdout = "repository 1234 opened\nStats in restore-size mode:\n  Snapshots processed:  3\n        Total Size:   1.500 GiB  \n";
    assert_eq!(read_total_size(stdout), "1.500 GiB");
    assert_eq!(read_total_size("Total Size: 12:30 MiB\nTotal Size: 2 B"), "12");
    assert_eq!(read_total_size("Total Size"), "Unknown");
    assert_eq!(read_total_size("total size: 1 B"), "Unknown");
    assert_eq!(read_total_size(""), "Unknown");
    assert_eq!(read_after_colon("a:  b  :c"), "b");
    assert_eq!(read_after_colon("no colon"), "Unknown");
    assert_eq!(read_after_colon("end:"), "");
    let mut executor = answering(stdout);
    assert_eq!(get_stats(&mut executor, "restic", &env(), 30), Ok("1.500 GiB".to_string()));
    assert_eq!(executor.executor.get_calls()[0].args, vec!["stats", "--mode", "restore-size"]);
    let mut broken = failing("locked");
    assert_eq!(get_stats(&mut broken, "restic", &env(), 30), Ok("Unknown".to_string()));
    let mut slow = Recorded::new(MockExecutor::new().with_default_response(MockResponse::Timeout));
    assert_eq!(
        get_stats(&mut slow, "restic", &env(), 30),
        Err("Getting stats timed out".to_string())
    );
}

#[test]
fn a_check_hands_out_all_that_was_written() {
    let mut executor = Recorded::new(MockExecutor::new().with_default_response(MockResponse::Success {
        stdout: "no errors were found\n".to_string(),
        stderr: "warning: cache\n".to_string(),
    }));
    assert_eq!(
        check_repository(&mut executor, "restic", &env(), false, 300),
        Ok("no errors were found\nwarning: cache\n".to_string())
    );
    check_repository(&mut executor, "restic", &env(), true, 1800).unwrap();
    let calls = executor.executor.get_calls();
    assert_eq!(calls[0].args, vec!["check"]);
    assert_eq!(calls[1].args, vec!["check", "--read-data"]);
    let mut broken = failing("pack 1234 damaged");
    assert_eq!(
        check_repository(&mut broken, "restic", &env(), false, 300),
        Err("Repository check failed:\n\npack 1234 damaged".to_string())
    );
}

#[test]
fn a_restore_names_the_target_and_what_is_included() {
    let mut executor = Recorded::new(MockExecutor::new());
    restore_snapshot(
        &mut executor,
        "restic",
        &env(),
        "abc123",
        Some("/restore"),
        &vec!["/data/a".to_string(), "/data/b".to_string()],
        1800,
    )
    .unwrap();
    restore_snapshot(&mut executor, "restic", &env(), "latest", None, &vec![], 1800).unwrap();
    let calls = executor.executor.get_calls();
    assert_eq!(
        calls[0].args,
        vec!["restore", "abc123", "--target", "/restore", "--include", "/data/a", "--include", "/data/b"]
    );
    assert_eq!(calls[1].args, vec!["restore", "latest"]);
    let mut broken = failing("no snapshot");
    assert_eq!(
        restore_snapshot(&mut broken, "restic", &env(), "x", None, &vec![], 1),
        Err("Restore failed: no snapshot".to_string())
    );
}

#[test]
fn the_files_of_a_snapshot_are_the_lines_of_the_answer() {
    let mut executor = answering("drwxr-xr-x /data\n-rw-r--r-- /data/file1.txt\n");
    assert_eq!(
        list_snapshot_files(&mut executor, "restic", &env(), "abc", 30),
        Ok(vec!["drwxr-xr-x /data".to_string(), "-rw-r--r-- /data/file1.txt".to_string()])
    );
    assert_eq!(executor.executor.get_calls()[0].args, vec!["ls", "abc", "--long"]);
    let mut broken = failing("unknown snapshot");
    assert_eq!(
        list_snapshot_files(&mut broken, "restic", &env(), "abc", 30),
        Err("Failed to list files: unknown snapshot".to_string())
    );
}

#[test]
fn the_tool_behind_an_executor_runs_the_named_program() {
    let mut ops = RealResticOps::new(answering("[]").executor, "/opt/bin/restic".to_string());
    ops.init_repository(&env(), 5).unwrap();
    ops.backup(&env(), &vec!["/data".to_string()], &vec![], 5).unwrap();
    assert!(ops.list_snapshots(&env(), 5).unwrap().is_empty());
    assert_eq!(ops.count_snapshots(&env(), 5), Ok(0));
    assert!(ops.get_latest_snapshot(&env(), 5).unwrap().is_none());
    ops.apply_retention(&env(), &RetentionPolicy { daily: 1, weekly: 1, monthly: 1, yearly: 1 }, 5)
        .unwrap();
    ops.unlock_repository(&env(), 5).unwrap();
    assert_eq!(ops.get_stats(&env(), 5), Ok("Unknown".to_string()));
    assert_eq!(ops.check_repository(&env(), false, 5), Ok("[]".to_string()));
    ops.restore_snapshot(&env(), "abc", None, &vec![], 5).unwrap();
    assert_eq!(ops.list_snapshot_files(&env(), "abc", 5), Ok(vec!["[]".to_string()]));
    assert_eq!(ops.executor.executor.call_count("/opt/bin/restic"), 11);
    assert_eq!(ops.executor.executor.call_count("restic"), 0);
}
