use restic_manager::config::types::{
    BackupConfig, Config, Destination, DestinationType, GlobalConfig, Hook, NotificationConfig,
    NotifyEvent, ResolvedServiceConfig, RetentionPolicy,
};
use restic_manager::managers::backup::{
    archive_file, hook_name, staging_directory, Action, AggregateError, BackupManager,
    DestinationFailure, Event, ExecutionError, Phase, ServiceRun,
};
use restic_manager::managers::notification::NotificationManager;
use restic_manager::name_map::NameMap;
use restic_manager::strategies::generic::GenericStrategy;
use restic_manager::strategies::BackupStrategy;

fn config(webhook: &str) -> Config {
    let mut destinations = NameMap::new();
    for (name, url) in [("A", "/backups/a"), ("B", "sftp://host/b/"), ("C", "s3:bucket")] {
        destinations.insert(
            name.to_string(),
            Destination {
                dest_type: DestinationType::Local,
                url: url.to_string(),
                description: String::new(),
            },
        );
    }
    Config {
        global: GlobalConfig {
            restic_password_file: "/etc/restic/password".to_string(),
            docker_base: "/srv/docker".to_string(),
            retention_daily: 7,
            retention_weekly: 4,
            retention_monthly: 6,
            retention_yearly: 1,
            default_timeout_seconds: 3600,
            long_running_threshold_minutes: 2,
            log_directory: "/logs".to_string(),
            log_level: "info".to_string(),
            log_max_files: 10,
            log_max_size_mb: 10,
            default_excludes: vec!["*.tmp".to_string()],
            use_system_restic: false,
        },
        destinations,
        notifications: NotificationConfig {
            discord_webhook_url: webhook.to_string(),
            notify_on: vec![NotifyEvent::Failure, NotifyEvent::Success, NotifyEvent::LongRunning],
            rate_limit_minutes: 60,
            cache_file: "/tmp/cache.json".to_string(),
        },
        profiles: NameMap::new(),
        services: NameMap::new(),
    }
}

fn hook(command: &str, continue_on_error: bool) -> Hook {
    Hook {
        name: String::new(),
        command: command.to_string(),
        working_dir: None,
        timeout_seconds: None,
        continue_on_error,
    }
}

fn policy(name: &str, targets: Vec<&str>, unit: Option<BackupConfig>) -> ResolvedServiceConfig {
    ResolvedServiceConfig {
        name: name.to_string(),
        enabled: true,
        description: String::new(),
        schedule: "0 2 * * *".to_string(),
        targets: targets.into_iter().map(|t| t.to_string()).collect(),
        timeout_seconds: 900,
        retention: RetentionPolicy { daily: 7, weekly: 4, monthly: 6, yearly: 1 },
        notify_on: vec![],
        config: unit,
    }
}

fn unit(paths: Vec<&str>, volumes: Vec<&str>) -> BackupConfig {
    BackupConfig {
        paths: paths.into_iter().map(|p| p.to_string()).collect(),
        volumes: volumes.into_iter().map(|v| v.to_string()).collect(),
        excludes: vec!["cache/".to_string()],
        pre_backup_hooks: vec![],
        post_backup_hooks: vec![],
    }
}

/// Runs to the end, answering each action through `answer`, which also
/// says what time it is. Hands back the finished run and the actions.
fn drive(run: ServiceRun, mut answer: impl FnMut(&Action) -> (Event, u64)) -> (ServiceRun, Vec<Action>) {
    let mut run = run;
    let mut actions = Vec::new();
    let mut steps = 0;
    while !run.is_finished() {
        let action = run.next_action();
        let (event, now) = answer(&action);
        actions.push(action);
        run = run.advance(event, now);
        steps += 1;
        assert!(steps < 1000, "the run does not end");
    }
    assert!(matches!(run.next_action(), Action::Finish));
    (run, actions)
}

fn all_is_well(action: &Action) -> (Event, u64) {
    match action {
        Action::CheckPath { .. } | Action::VolumeExists { .. } => (Event::Found(true), 100),
        _ => (Event::Done, 100),
    }
}

fn contacted(actions: &[Action]) -> usize {
    actions
        .iter()
        .filter(|a| {
            matches!(
                a,
                Action::InitRepository { .. }
                    | Action::Transfer { .. }
                    | Action::ApplyRetention { .. }
                    | Action::Unlock { .. }
            )
        })
        .count()
}

fn failures(run: &ServiceRun) -> Vec<DestinationFailure> {
    match run.result() {
        Some(Err(AggregateError::Destinations(f))) => f,
        other => panic!("the run did not fail at its destinations: {:?}", other),
    }
}

#[test]
fn a_failing_destination_is_named_and_the_next_is_still_attempted() {
    let config = config("");
    let policy = policy("web", vec!["A", "B"], Some(unit(vec!["/data"], vec![])));
    let run = ServiceRun::start(&policy, &config, false).unwrap();
    let (run, actions) = drive(run, |action| match action {
        Action::Transfer { repository, .. } if repository == "/backups/a/web" => {
            (Event::Failed("connection reset".to_string()), 130)
        },
        other => all_is_well(other),
    });
    let failed = failures(&run);
    assert_eq!(failed.len(), 1);
    assert_eq!(failed[0].destination, "A");
    assert!(matches!(&failed[0].error, ExecutionError::TransferFailed(c) if c == "connection reset"));
    assert_eq!(failed[0].elapsed_secs, 30);
    let transfers: Vec<&str> = actions
        .iter()
        .filter_map(|a| match a {
            Action::Transfer { repository, .. } => Some(repository.as_str()),
            _ => None,
        })
        .collect();
    assert_eq!(transfers, vec!["/backups/a/web", "sftp://host/b/web"]);
    assert_eq!(run.outcomes.len(), 2);
    assert_eq!(run.outcomes[0].destination, "A");
    assert!(run.outcomes[0].error.is_some());
    assert_eq!(run.outcomes[1].destination, "B");
    assert!(run.outcomes[1].error.is_none());
    assert_eq!(
        run.result().unwrap().unwrap_err().message(),
        "Backup failed for 1 destination(s): A: Transfer failed: connection reset"
    );
}

#[test]
fn the_protocol_runs_its_steps_in_order() {
    let config = config("");
    let mut unit = unit(vec!["data", "/etc/app"], vec!["app_db"]);
    unit.pre_backup_hooks = vec![hook("echo pre", false)];
    unit.post_backup_hooks = vec![hook("echo post", false)];
    let policy = policy("web", vec!["A", "B"], Some(unit));
    let run = ServiceRun::start(&policy, &config, false).unwrap();
    let (run, actions) = drive(run, all_is_well);
    assert!(matches!(run.result(), Some(Ok(()))));
    let shown: Vec<String> = actions.iter().map(|a| format!("{:?}", a)).collect();
    let expected = vec![
        "AcquireLock { service: \"web\" }",
        "RunHook { command: \"echo pre\", working_dir: None, timeout_secs: 900 }",
        "CheckPath { path: \"/srv/docker/data\" }",
        "CheckPath { path: \"/etc/app\" }",
        "VolumeExists { volume: \"app_db\" }",
        "ArchiveVolume { volume: \"app_db\", output: \"/tmp/restic-manager/web/app_db.tar.gz\", timeout_secs: 900 }",
        "InitRepository { repository: \"/backups/a/web\", timeout_secs: 900 }",
        "Transfer { repository: \"/backups/a/web\", paths: [\"/srv/docker/data\", \"/etc/app\", \"/tmp/restic-manager/web/app_db.tar.gz\"], excludes: [\"*.tmp\", \"cache/\"], timeout_secs: 900 }",
        "ApplyRetention { repository: \"/backups/a/web\", retention: RetentionPolicy { daily: 7, weekly: 4, monthly: 6, yearly: 1 }, timeout_secs: 900 }",
        "InitRepository { repository: \"sftp://host/b/web\", timeout_secs: 900 }",
        "Transfer { repository: \"sftp://host/b/web\", paths: [\"/srv/docker/data\", \"/etc/app\", \"/tmp/restic-manager/web/app_db.tar.gz\"], excludes: [\"*.tmp\", \"cache/\"], timeout_secs: 900 }",
        "ApplyRetention { repository: \"sftp://host/b/web\", retention: RetentionPolicy { daily: 7, weekly: 4, monthly: 6, yearly: 1 }, timeout_secs: 900 }",
        "RemoveStaging { directory: \"/tmp/restic-manager/web\" }",
        "RunHook { command: \"echo post\", working_dir: None, timeout_secs: 900 }",
        "ReleaseLock { service: \"web\" }",
    ];
    assert_eq!(shown, expected);
}

#[test]
fn a_retention_failure_leaves_the_destination_a_success() {
    let config = config("");
    let policy = policy("web", vec!["A", "B"], Some(unit(vec!["/data"], vec![])));
    let run = ServiceRun::start(&policy, &config, false).unwrap();
    let (run, actions) = drive(run, |action| match action {
        Action::ApplyRetention { repository, .. } if repository == "/backups/a/web" => {
            (Event::Failed("prune failed".to_string()), 100)
        },
        Action::ApplyRetention { .. } => (Event::TimedOut, 100),
        other => all_is_well(other),
    });
    assert!(matches!(run.result(), Some(Ok(()))));
    assert_eq!(run.outcomes.len(), 2);
    assert!(run.outcomes.iter().all(|o| o.error.is_none()));
    assert!(run.abort.is_none());
    assert!(!actions.iter().any(|a| matches!(a, Action::Unlock { .. })));
}

#[test]
fn a_service_with_nothing_to_back_up_is_a_successful_no_op() {
    let config = config("");
    for unit in [None, Some(unit(vec![], vec![]))] {
        let policy = policy("idle", vec!["A", "B"], unit);
        let run = ServiceRun::start(&policy, &config, false).unwrap();
        let (run, actions) = drive(run, all_is_well);
        assert!(matches!(run.result(), Some(Ok(()))));
        assert_eq!(contacted(&actions), 0);
        assert!(run.outcomes.is_empty());
        let shown: Vec<String> = actions.iter().map(|a| format!("{:?}", a)).collect();
        assert_eq!(
            shown,
            vec![
                "AcquireLock { service: \"idle\" }",
                "RemoveStaging { directory: \"/tmp/restic-manager/idle\" }",
                "ReleaseLock { service: \"idle\" }",
            ]
        );
    }
}

#[test]
fn paths_that_do_not_exist_are_passed_over() {
    let config = config("");
    let policy = policy("web", vec!["A"], Some(unit(vec!["gone", "/there", "also-gone"], vec![])));
    let run = ServiceRun::start(&policy, &config, false).unwrap();
    let (run, actions) = drive(run, |action| match action {
        Action::CheckPath { path } => (Event::Found(path == "/there"), 1),
        other => all_is_well(other),
    });
    assert!(matches!(run.result(), Some(Ok(()))));
    assert_eq!(run.units, vec!["/there".to_string()]);
    assert!(actions.iter().any(
        |a| matches!(a, Action::Transfer { paths, .. } if paths == &vec!["/there".to_string()])
    ));
    let run = ServiceRun::start(&policy, &config, false).unwrap();
    let (run, actions) = drive(run, |action| match action {
        Action::CheckPath { .. } => (Event::Found(false), 1),
        other => all_is_well(other),
    });
    assert!(matches!(run.result(), Some(Ok(()))));
    assert_eq!(contacted(&actions), 0);
}

#[test]
fn a_disabled_service_is_done_before_it_starts() {
    let config = config("hook");
    let mut policy = policy("off", vec!["A", "nowhere"], Some(unit(vec!["/data"], vec![])));
    policy.enabled = false;
    let run = ServiceRun::start(&policy, &config, true).unwrap();
    assert!(run.is_finished());
    assert!(matches!(run.next_action(), Action::Finish));
    assert!(matches!(run.result(), Some(Ok(()))));
    let run = run.advance(Event::Failed("late".to_string()), 5);
    assert!(matches!(run.result(), Some(Ok(()))));
}

#[test]
fn a_busy_lock_ends_the_run_without_side_effects() {
    let config = config("hook");
    let mut unit = unit(vec!["/data"], vec![]);
    unit.pre_backup_hooks = vec![hook("echo pre", false)];
    let policy = policy("web", vec!["A"], Some(unit));
    for event in [Event::Busy, Event::Failed("no lock dir".to_string())] {
        let run = ServiceRun::start(&policy, &config, true).unwrap();
        assert!(run.result().is_none());
        let (run, actions) = drive(run, |_| (Event::Busy, 7));
        let _ = event;
        assert_eq!(actions.len(), 1);
        assert!(matches!(&actions[0], Action::AcquireLock { service } if service == "web"));
        assert!(matches!(
            run.result(),
            Some(Err(AggregateError::Aborted(ExecutionError::ServiceBusy(ref s)))) if s == "web"
        ));
    }
}

#[test]
fn a_hook_that_fails_hard_aborts_before_any_destination() {
    let config = config("");
    let mut unit = unit(vec!["/data"], vec!["vol"]);
    unit.pre_backup_hooks = vec![hook("first", true), hook("second", false), hook("third", false)];
    unit.pre_backup_hooks[1].name = "dump database".to_string();
    unit.post_backup_hooks = vec![hook("after", false)];
    let policy = policy("web", vec!["A", "B"], Some(unit));
    let run = ServiceRun::start(&policy, &config, false).unwrap();
    let (run, actions) = drive(run, |action| match action {
        Action::RunHook { .. } => (Event::Failed("exit 1".to_string()), 10),
        other => all_is_well(other),
    });
    let shown: Vec<String> = actions.iter().map(|a| format!("{:?}", a)).collect();
    assert_eq!(
        shown,
        vec![
            "AcquireLock { service: \"web\" }",
            "RunHook { command: \"first\", working_dir: None, timeout_secs: 900 }",
            "RunHook { command: \"second\", working_dir: None, timeout_secs: 900 }",
            "ReleaseLock { service: \"web\" }",
        ]
    );
    match run.result() {
        Some(Err(AggregateError::Aborted(ExecutionError::HookFailed(name, cause)))) => {
            assert_eq!(name, "dump database");
            assert_eq!(cause, "exit 1");
        },
        other => panic!("the run was not aborted by its hook: {:?}", other),
    }
    assert_eq!(
        run.result().unwrap().unwrap_err().message(),
        "Failed to execute hook: dump database: exit 1"
    );
}

#[test]
fn a_hook_has_its_own_timeout_and_directory() {
    let config = config("");
    let mut unit = unit(vec!["/data"], vec![]);
    unit.pre_backup_hooks = vec![Hook {
        name: "dump".to_string(),
        command: "pg_dumpall".to_string(),
        working_dir: Some("/srv/db".to_string()),
        timeout_seconds: Some(30),
        continue_on_error: true,
    }];
    let policy = policy("db", vec!["A"], Some(unit));
    let run = ServiceRun::start(&policy, &config, false).unwrap();
    let (run, actions) = drive(run, |action| match action {
        Action::RunHook { .. } => (Event::TimedOut, 10),
        other => all_is_well(other),
    });
    assert!(matches!(
        &actions[1],
        Action::RunHook { command, working_dir: Some(dir), timeout_secs: 30 } if command == "pg_dumpall" && dir == "/srv/db"
    ));
    assert!(matches!(run.result(), Some(Ok(()))));
    assert_eq!(hook_name(&hook("echo x", false)), "echo x");
}

#[test]
fn a_post_hook_runs_whatever_came_of_the_destinations() {
    let config = config("");
    let mut unit = unit(vec!["/data"], vec![]);
    unit.post_backup_hooks = vec![hook("restart", true), hook("report", false)];
    let policy = policy("web", vec!["A", "B"], Some(unit));
    let run = ServiceRun::start(&policy, &config, false).unwrap();
    let (run, actions) = drive(run, |action| match action {
        Action::InitRepository { .. } => (Event::Failed("unreachable".to_string()), 10),
        Action::RunHook { command, .. } if command == "restart" => {
            (Event::Failed("x".to_string()), 10)
        },
        other => all_is_well(other),
    });
    let hooks: Vec<&Action> =
        actions.iter().filter(|a| matches!(a, Action::RunHook { .. })).collect();
    assert_eq!(hooks.len(), 2);
    assert_eq!(failures(&run).len(), 2);
    assert!(!actions.iter().any(|a| matches!(a, Action::Transfer { .. })));
    assert_eq!(actions.iter().filter(|a| matches!(a, Action::Unlock { timeout_secs: 30, .. })).count(), 2);
    let run = ServiceRun::start(&policy, &config, false).unwrap();
    let (run, _) = drive(run, |action| match action {
        Action::RunHook { command, .. } if command == "report" => (Event::Failed("x".to_string()), 10),
        other => all_is_well(other),
    });
    assert!(matches!(
        run.result(),
        Some(Err(AggregateError::Aborted(ExecutionError::HookFailed(ref h, _)))) if h == "report"
    ));
}

#[test]
fn a_missing_volume_aborts_before_anything_is_archived() {
    let config = config("");
    let policy = policy("web", vec!["A"], Some(unit(vec!["/data"], vec!["one", "two"])));
    let run = ServiceRun::start(&policy, &config, false).unwrap();
    let (run, actions) = drive(run, |action| match action {
        Action::VolumeExists { volume } => (Event::Found(volume == "one"), 10),
        other => all_is_well(other),
    });
    assert!(!actions.iter().any(|a| matches!(a, Action::ArchiveVolume { .. })));
    assert_eq!(contacted(&actions), 0);
    assert!(matches!(actions.last(), Some(Action::ReleaseLock { .. })));
    assert!(matches!(
        run.result(),
        Some(Err(AggregateError::Aborted(ExecutionError::ArchiveFailed(ref m)))) if m == "Docker volume does not exist: two"
    ));
}

#[test]
fn a_failing_archive_aborts_before_any_destination() {
    let config = config("");
    let policy = policy("web", vec!["A", "B"], Some(unit(vec![], vec!["one", "two"])));
    let run = ServiceRun::start(&policy, &config, false).unwrap();
    let (run, actions) = drive(run, |action| match action {
        Action::ArchiveVolume { volume, .. } if volume == "two" => (Event::TimedOut, 10),
        other => all_is_well(other),
    });
    assert_eq!(actions.iter().filter(|a| matches!(a, Action::ArchiveVolume { .. })).count(), 2);
    assert_eq!(contacted(&actions), 0);
    assert!(actions.iter().any(|a| matches!(a, Action::RemoveStaging { .. })));
    assert!(matches!(
        run.result(),
        Some(Err(AggregateError::Aborted(ExecutionError::ArchiveFailed(ref m)))) if m == "timed out"
    ));
    assert_eq!(
        run.result().unwrap().unwrap_err().message(),
        "Failed to backup Docker volumes: timed out"
    );
    assert_eq!(archive_file("web", "two"), "/tmp/restic-manager/web/two.tar.gz");
    assert_eq!(staging_directory("web"), "/tmp/restic-manager/web");
}

#[test]
fn every_failure_is_reported_once_the_lock_is_given_back() {
    let config = config("https://discord.com/api/webhooks/x");
    let policy = policy("web", vec!["A", "B", "C"], Some(unit(vec!["/data"], vec![])));
    let run = ServiceRun::start(&policy, &config, true).unwrap();
    let mut clock = 1000;
    let (run, actions) = drive(run, |action| {
        clock += 10;
        match action {
            Action::Transfer { repository, .. } if repository == "/backups/a/web" => {
                (Event::Failed("disk full".to_string()), clock)
            },
            Action::Transfer { repository, .. } if repository == "s3:bucket/web" => {
                (Event::TimedOut, clock)
            },
            Action::Notify(_) => (Event::Failed("webhook down".to_string()), clock),
            other => (all_is_well(other).0, clock),
        }
    });
    let failed = failures(&run);
    assert_eq!(failed.len(), 2);
    assert_eq!(failed[0].destination, "A");
    assert_eq!(failed[1].destination, "C");
    assert!(matches!(&failed[1].error, ExecutionError::Timeout(d) if d == "C"));
    let release = actions.iter().position(|a| matches!(a, Action::ReleaseLock { .. })).unwrap();
    let notes: Vec<(usize, &restic_manager::managers::notification::Notification)> = actions
        .iter()
        .enumerate()
        .filter_map(|(i, a)| match a {
            Action::Notify(n) => Some((i, n)),
            _ => None,
        })
        .collect();
    assert_eq!(notes.len(), 2);
    assert!(notes.iter().all(|(i, _)| *i > release));
    assert_eq!(notes[0].1.event_type, NotifyEvent::Failure);
    assert_eq!(notes[0].1.service_name, "web");
    assert_eq!(notes[0].1.destination, Some("A".to_string()));
    assert_eq!(notes[0].1.error, Some("Transfer failed: disk full".to_string()));
    assert_eq!(notes[0].1.duration_secs, Some(30));
    assert_eq!(notes[1].1.destination, Some("C".to_string()));
    assert_eq!(notes[1].1.error, Some("Timed out: C".to_string()));
    assert_eq!(
        run.result().unwrap().unwrap_err().message(),
        "Backup failed for 2 destination(s): A: Transfer failed: disk full, C: Timed out: C"
    );
}

#[test]
fn success_is_reported_once_for_the_service() {
    let config = config("https://discord.com/api/webhooks/x");
    let policy = policy("web", vec!["A", "B"], Some(unit(vec!["/data"], vec![])));
    let run = ServiceRun::start(&policy, &config, true).unwrap();
    let mut clock = 500;
    let (run, actions) = drive(run, |action| {
        clock += 5;
        (all_is_well(action).0, clock)
    });
    assert!(matches!(run.result(), Some(Ok(()))));
    let notes: Vec<&Action> = actions.iter().filter(|a| matches!(a, Action::Notify(_))).collect();
    assert_eq!(notes.len(), 1);
    match notes[0] {
        Action::Notify(n) => {
            assert_eq!(n.event_type, NotifyEvent::Success);
            assert_eq!(n.destination, None);
            assert_eq!(n.duration_secs, Some(run.finished_at - run.started_at));
            assert_eq!(n.duration_secs, Some(45));
        },
        _ => unreachable!(),
    }
    assert!(matches!(actions.last(), Some(Action::Notify(_))));
}

#[test]
fn a_long_run_is_reported_exactly_once() {
    let config = config("https://discord.com/api/webhooks/x");
    let policy = policy("web", vec!["A", "B", "C"], Some(unit(vec!["/data"], vec![])));
    let run = ServiceRun::start(&policy, &config, true).unwrap();
    let mut clock = 0;
    let (_, actions) = drive(run, |action| {
        clock += 50;
        (all_is_well(action).0, clock)
    });
    let long: Vec<(usize, &Action)> = actions
        .iter()
        .enumerate()
        .filter(|(_, a)| matches!(a, Action::Notify(n) if n.event_type == NotifyEvent::LongRunning))
        .collect();
    assert_eq!(long.len(), 1);
    match long[0].1 {
        Action::Notify(n) => {
            assert_eq!(n.destination, Some("B".to_string()));
            assert_eq!(n.duration_secs, Some(200));
            assert_eq!(n.message, "Backup is taking longer than expected (>2 minutes)");
        },
        _ => unreachable!(),
    }
    assert!(matches!(
        &actions[long[0].0 + 1],
        Action::InitRepository { repository, .. } if repository == "sftp://host/b/web"
    ));
    let quiet = ServiceRun::start(&policy, &config, false).unwrap();
    let mut clock = 0;
    let (_, actions) = drive(quiet, |action| {
        clock += 500;
        (all_is_well(action).0, clock)
    });
    assert!(!actions.iter().any(|a| matches!(a, Action::Notify(_))));
}

#[test]
fn a_repository_that_is_there_already_is_as_good_as_a_new_one() {
    let config = config("");
    let policy = policy("web", vec!["A"], Some(unit(vec!["/data"], vec![])));
    let run = ServiceRun::start(&policy, &config, false).unwrap();
    let (run, actions) = drive(run, |action| match action {
        Action::InitRepository { .. } => (Event::AlreadyInitialized, 1),
        other => all_is_well(other),
    });
    assert!(matches!(run.result(), Some(Ok(()))));
    assert!(actions.iter().any(|a| matches!(a, Action::Transfer { .. })));
}

#[test]
fn a_target_that_is_no_destination_keeps_the_run_from_starting() {
    let config = config("");
    let policy = policy("web", vec!["A", "nowhere", "nope"], None);
    let result = ServiceRun::start(&policy, &config, false);
    assert!(matches!(result, Err(ExecutionError::DestinationNotFound(ref d)) if d == "nowhere"));
    assert_eq!(result.unwrap_err().message(), "Destination not found: nowhere");
    let strategy = GenericStrategy::new();
    assert_eq!(strategy.name(), "generic");
    assert!(strategy.backup(&policy, &config, false).is_err());
    let fine = policy;
    let fine = ResolvedServiceConfig { targets: vec!["A".to_string()], ..fine };
    let run = strategy.backup(&fine, &config, false).unwrap();
    assert_eq!(run.phase, Phase::AcquireLock);
    assert_eq!(run.repositories, vec!["/backups/a/web".to_string()]);
}

fn manager(webhook: &str) -> BackupManager {
    let config = config(webhook);
    let mut resolved = NameMap::new();
    resolved.insert("web".to_string(), policy("web", vec!["A"], Some(unit(vec!["/d"], vec![]))));
    let mut off = policy("off", vec!["A"], None);
    off.enabled = false;
    resolved.insert("off".to_string(), off);
    resolved.insert("db".to_string(), policy("db", vec!["B"], None));
    BackupManager::new(config, resolved)
}

#[test]
fn the_manager_knows_its_services() {
    let manager = manager("");
    assert!(manager.notification_manager.is_none());
    assert_eq!(
        manager.list_services(),
        vec!["web".to_string(), "off".to_string(), "db".to_string()]
    );
    assert_eq!(manager.get_service("db").unwrap().targets, vec!["B".to_string()]);
    assert!(manager.get_service("mail").is_none());
    let run = manager.backup_service("web").unwrap();
    assert_eq!(run.phase, Phase::AcquireLock);
    assert!(!run.notify);
    assert_eq!(run.excludes, vec!["*.tmp".to_string(), "cache/".to_string()]);
    assert_eq!(run.base_dir, "/srv/docker");
    assert_eq!(run.threshold_minutes, 2);
    assert!(manager.backup_service("off").unwrap().is_finished());
    let missing = manager.backup_service("mail");
    assert!(matches!(missing, Err(ExecutionError::ServiceNotFound(ref s)) if s == "mail"));
    assert_eq!(missing.unwrap_err().message(), "Service not found: mail");
}

#[test]
fn the_manager_alerts_exactly_where_an_endpoint_is_configured() {
    let with = manager("https://discord.com/api/webhooks/x");
    assert!(with.notification_manager.is_some());
    assert!(with.backup_service("web").unwrap().notify);
    let config = config("");
    let gate = NotificationManager::with_cache_path(
        config.notifications.clone(),
        "/tmp/c.json".to_string(),
    );
    let given = BackupManager::with_notification_manager(config, NameMap::new(), gate);
    assert!(given.notification_manager.is_some());
    assert!(given.list_services().is_empty());
}

#[test]
fn every_enabled_service_has_its_turn_whatever_came_before() {
    let manager = manager("");
    let mut batch = manager.backup_all();
    assert_eq!(batch.services, vec!["web".to_string(), "db".to_string()]);
    let mut turns = Vec::new();
    while let Some(name) = batch.next_service().cloned() {
        let run = manager.backup_service(&name).unwrap();
        let (run, _) = drive(run, |action| match action {
            Action::AcquireLock { service } if service == "web" => (Event::Busy, 1),
            other => all_is_well(other),
        });
        turns.push(name);
        batch = batch.record(run.result().unwrap());
    }
    assert!(batch.is_finished());
    assert_eq!(turns, vec!["web".to_string(), "db".to_string()]);
    let summary = batch.summary();
    assert_eq!(summary.succeeded, 1);
    assert_eq!(summary.failed, 1);
    assert_eq!(
        summary.errors,
        vec![(
            "web".to_string(),
            "Service 'web' is already being backed up (lock held)".to_string()
        )]
    );
    let after = batch.record(Ok(()));
    assert_eq!(after.done, 2);
    assert_eq!(after.summary().succeeded, 1);
}

#[test]
fn a_batch_without_enabled_services_is_over_at_once() {
    let config = config("");
    let mut resolved = NameMap::new();
    let mut off = policy("off", vec!["A"], None);
    off.enabled = false;
    resolved.insert("off".to_string(), off);
    let manager = BackupManager::new(config, resolved);
    let batch = manager.backup_all();
    assert!(batch.is_finished());
    assert!(batch.next_service().is_none());
    let summary = batch.summary();
    assert_eq!((summary.succeeded, summary.failed), (0, 0));
    assert!(summary.errors.is_empty());
}

#[test]
fn an_event_names_its_cause() {
    assert_eq!(Event::Failed("x".to_string()).cause(), Some("x".to_string()));
    assert_eq!(Event::TimedOut.cause(), Some("timed out".to_string()));
    assert_eq!(Event::Busy.cause(), Some("busy".to_string()));
    assert_eq!(Event::Done.cause(), None);
    assert_eq!(Event::AlreadyInitialized.cause(), None);
    assert_eq!(Event::Found(false).cause(), None);
    assert!(Event::Found(true).is_found());
    assert!(!Event::Found(false).is_found());
    assert!(!Event::Done.is_found());
    assert!(matches!(Event::TimedOut.error_for("A"), Some(ExecutionError::Timeout(ref d)) if d == "A"));
    assert!(matches!(Event::Busy.error_for("A"), Some(ExecutionError::TransferFailed(ref d)) if d == "busy"));
    assert!(Event::Done.error_for("A").is_none());
}

#[test]
fn results_stand_for_events() {
    assert!(matches!(Event::of(Ok(())), Event::Done));
    assert!(matches!(Event::of(Err("Backup failed: disk full".to_string())), Event::Failed(ref m) if m == "Backup failed: disk full"));
    assert!(matches!(Event::of(Err("Backup timed out".to_string())), Event::TimedOut));
    assert!(matches!(Event::of(Err("Volume archiving timed out".to_string())), Event::TimedOut));
    assert!(matches!(Event::of(Err("timed out, then failed".to_string())), Event::Failed(_)));
    assert!(matches!(Event::of_found(Ok(true)), Event::Found(true)));
    assert!(matches!(Event::of_found(Ok(false)), Event::Found(false)));
    assert!(matches!(Event::of_found(Err("daemon down".to_string())), Event::Failed(ref m) if m == "daemon down"));
    let output = restic_manager::utils::executor::CommandOutput {
        stdout: String::new(),
        stderr: String::new(),
    };
    assert!(matches!(Event::of_command(Ok(output)), Event::Done));
    let failed = restic_manager::utils::executor::CommandError::Failed {
        exit_code: Some(1),
        stdout: "out".to_string(),
        stderr: "err".to_string(),
    };
    assert!(matches!(Event::of_command(Err(failed)), Event::Failed(ref m) if m == "err"));
    assert!(matches!(
        Event::of_command(Err(restic_manager::utils::executor::CommandError::TimedOut)),
        Event::TimedOut
    ));
    assert!(matches!(
        Event::of_command(Err(restic_manager::utils::executor::CommandError::NotStarted("sh missing".to_string()))),
        Event::Failed(ref m) if m == "sh missing"
    ));
}
