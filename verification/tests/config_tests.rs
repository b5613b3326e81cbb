use restic_manager::config::loader::{
    get_effective_targets, resolve_all_services, resolve_service, schedule_has_five_fields,
    validate_config, validate_config_given, validate_service, ConfigError,
};
use restic_manager::config::types::{
    default_notify_on, BackupConfig, Config, Destination, DestinationType, GlobalConfig, Hook,
    NotificationConfig, NotifyEvent, Profile, ResolvedServiceConfig, RetentionPolicy,
    ServiceConfig,
};
use restic_manager::config::{expand_tilde, expand_tilde_in, get_effective_excludes};
use restic_manager::name_map::NameMap;

fn global() -> GlobalConfig {
    GlobalConfig {
        restic_password_file: "/tmp/password".to_string(),
        docker_base: "/docker".to_string(),
        retention_daily: 7,
        retention_weekly: 4,
        retention_monthly: 6,
        retention_yearly: 1,
        default_timeout_seconds: 3600,
        long_running_threshold_minutes: 120,
        log_directory: "/logs".to_string(),
        log_level: "info".to_string(),
        log_max_files: 10,
        log_max_size_mb: 10,
        default_excludes: vec!["*.log".to_string(), "*.tmp".to_string()],
        use_system_restic: false,
    }
}

fn service(targets: Vec<&str>) -> ServiceConfig {
    ServiceConfig {
        enabled: true,
        profile: None,
        description: "Test service".to_string(),
        schedule: "0 2 * * *".to_string(),
        targets: targets.into_iter().map(|t| t.to_string()).collect(),
        timeout_seconds: None,
        retention_daily: None,
        retention_weekly: None,
        retention_monthly: None,
        retention_yearly: None,
        notify_on: vec![],
        config: None,
    }
}

fn config() -> Config {
    let mut destinations = NameMap::new();
    destinations.insert(
        "local".to_string(),
        Destination {
            dest_type: DestinationType::Local,
            url: "/backups".to_string(),
            description: "Local test destination".to_string(),
        },
    );
    destinations.insert(
        "remote".to_string(),
        Destination {
            dest_type: DestinationType::Sftp,
            url: "sftp://user@host/backups".to_string(),
            description: "Remote".to_string(),
        },
    );
    Config {
        global: global(),
        destinations,
        notifications: NotificationConfig::default(),
        profiles: NameMap::new(),
        services: NameMap::new(),
    }
}

fn shown(policy: &ResolvedServiceConfig) -> String {
    format!("{:?}", policy)
}

#[test]
fn loader_test_profile_inheritance() {
    // This would test that profile inheritance works correctly
    // We'll implement tests after setting up the basic structure
}

#[test]
fn test_config_validation() {
    // Test validation logic
}

#[test]
fn test_effective_excludes() {
    // Create a mock global config with default excludes
    let global = global();

    // Create a resolved service with additional excludes
    let service = ResolvedServiceConfig {
        name: "test".to_string(),
        description: "Test service".to_string(),
        enabled: true,
        schedule: "0 2 * * *".to_string(),
        targets: vec!["local".to_string()],
        timeout_seconds: 3600,
        retention: RetentionPolicy { daily: 7, weekly: 4, monthly: 6, yearly: 1 },
        notify_on: vec![],
        config: Some(BackupConfig {
            paths: vec![],
            volumes: vec![],
            pre_backup_hooks: vec![],
            post_backup_hooks: vec![],
            excludes: vec!["*.cache".to_string()],
        }),
    };

    // Get effective excludes
    let excludes = get_effective_excludes(&service, &global);

    // Should contain both global and service excludes
    assert_eq!(excludes.len(), 3);
    assert!(excludes.contains(&"*.log".to_string()));
    assert!(excludes.contains(&"*.tmp".to_string()));
    assert!(excludes.contains(&"*.cache".to_string()));
}

#[test]
fn effective_excludes_keep_the_global_ones_first() {
    let mut policy = resolve_service("svc", &service(vec!["local"]), &config()).unwrap();
    assert_eq!(
        get_effective_excludes(&policy, &global()),
        vec!["*.log".to_string(), "*.tmp".to_string()]
    );
    policy.config = Some(BackupConfig {
        paths: vec![],
        volumes: vec![],
        excludes: vec!["a".to_string(), "b".to_string()],
        pre_backup_hooks: vec![],
        post_backup_hooks: vec![],
    });
    assert_eq!(
        get_effective_excludes(&policy, &global()),
        vec!["*.log".to_string(), "*.tmp".to_string(), "a".to_string(), "b".to_string()]
    );
}

#[test]
fn resolution_is_deterministic() {
    let mut config = config();
    config.profiles.insert(
        "prod".to_string(),
        Profile { retention_daily: Some(14), timeout_seconds: Some(7200), ..Profile::default() },
    );
    let mut svc = service(vec!["local", "remote"]);
    svc.profile = Some("prod".to_string());
    let first = resolve_service("web", &svc, &config).unwrap();
    let second = resolve_service("web", &svc, &config).unwrap();
    assert_eq!(shown(&first), shown(&second));
    let copy = resolve_service("web", &svc.clone(), &config).unwrap();
    assert_eq!(shown(&first), shown(&copy));
}

#[test]
fn profile_value_wins_over_the_global_default() {
    let mut config = config();
    assert_eq!(config.global.retention_daily, 7);
    config.profiles.insert(
        "prod".to_string(),
        Profile { retention_daily: Some(14), ..Profile::default() },
    );
    let mut svc = service(vec!["local"]);
    svc.profile = Some("prod".to_string());
    let policy = resolve_service("web", &svc, &config).unwrap();
    assert_eq!(policy.retention.daily, 14);
    assert_eq!(policy.retention.weekly, 4);
    assert_eq!(policy.retention.monthly, 6);
    assert_eq!(policy.retention.yearly, 1);
}

#[test]
fn service_value_wins_over_profile_and_global() {
    let mut config = config();
    config.profiles.insert(
        "prod".to_string(),
        Profile { retention_daily: Some(14), timeout_seconds: Some(7200), ..Profile::default() },
    );
    let mut svc = service(vec!["local"]);
    svc.profile = Some("prod".to_string());
    svc.retention_daily = Some(3);
    let policy = resolve_service("web", &svc, &config).unwrap();
    assert_eq!(policy.retention.daily, 3);
    assert_eq!(policy.timeout_seconds, 7200);
    svc.timeout_seconds = Some(60);
    let policy = resolve_service("web", &svc, &config).unwrap();
    assert_eq!(policy.timeout_seconds, 60);
}

#[test]
fn global_defaults_fill_what_nobody_sets() {
    let policy = resolve_service("web", &service(vec!["local"]), &config()).unwrap();
    assert_eq!(policy.name, "web");
    assert!(policy.enabled);
    assert_eq!(policy.description, "Test service");
    assert_eq!(policy.schedule, "0 2 * * *");
    assert_eq!(policy.targets, vec!["local".to_string()]);
    assert_eq!(policy.timeout_seconds, 3600);
    assert_eq!(policy.retention, RetentionPolicy { daily: 7, weekly: 4, monthly: 6, yearly: 1 });
    assert_eq!(policy.notify_on, vec![NotifyEvent::Failure, NotifyEvent::Warning]);
    assert!(policy.config.is_none());
}

#[test]
fn missing_targets_are_refused() {
    let result = resolve_service("web", &service(vec![]), &config());
    assert!(matches!(result, Err(ConfigError::NoTargetsDefined(ref s)) if s == "web"));
}

#[test]
fn a_profile_without_targets_does_not_help() {
    let mut config = config();
    config.profiles.insert("empty".to_string(), Profile::default());
    let mut svc = service(vec![]);
    svc.profile = Some("empty".to_string());
    let result = resolve_service("web", &svc, &config);
    assert!(matches!(result, Err(ConfigError::NoTargetsDefined(ref s)) if s == "web"));
}

#[test]
fn targets_come_from_the_profile_where_the_service_has_none() {
    let mut config = config();
    config.profiles.insert(
        "prod".to_string(),
        Profile { targets: vec!["remote".to_string()], ..Profile::default() },
    );
    let mut svc = service(vec![]);
    svc.profile = Some("prod".to_string());
    assert_eq!(get_effective_targets(&svc, &config), vec!["remote".to_string()]);
    let policy = resolve_service("web", &svc, &config).unwrap();
    assert_eq!(policy.targets, vec!["remote".to_string()]);
    svc.targets = vec!["local".to_string()];
    let policy = resolve_service("web", &svc, &config).unwrap();
    assert_eq!(policy.targets, vec!["local".to_string()]);
}

#[test]
fn unknown_profile_is_refused() {
    let mut svc = service(vec!["local"]);
    svc.profile = Some("ghost".to_string());
    let result = resolve_service("web", &svc, &config());
    assert!(matches!(result, Err(ConfigError::ProfileNotFound(ref p)) if p == "ghost"));
    let result = validate_service("web", &svc, &config());
    assert!(matches!(result, Err(ConfigError::ProfileNotFound(ref p)) if p == "ghost"));
}

#[test]
fn unknown_destination_is_refused_by_its_name() {
    let result = resolve_service("web", &service(vec!["local", "nowhere", "nope"]), &config());
    assert!(matches!(result, Err(ConfigError::DestinationNotFound(ref d)) if d == "nowhere"));
}

#[test]
fn schedule_needs_exactly_five_fields() {
    assert!(schedule_has_five_fields("0 2 * * *"));
    assert!(!schedule_has_five_fields("bad cron"));
    assert!(schedule_has_five_fields("  */5\t*  * *   1-5 "));
    assert!(!schedule_has_five_fields(""));
    assert!(!schedule_has_five_fields("0 2 * * * *"));
    assert!(schedule_has_five_fields("0\u{a0}2\u{2003}* * *"));
    let mut svc = service(vec!["local"]);
    svc.schedule = "bad cron".to_string();
    let result = resolve_service("web", &svc, &config());
    assert!(
        matches!(result, Err(ConfigError::InvalidSchedule(ref s, ref c)) if s == "web" && c == "bad cron")
    );
    svc.schedule = "0 2 * * *".to_string();
    assert!(resolve_service("web", &svc, &config()).is_ok());
}

#[test]
fn errors_are_looked_for_in_a_fixed_order() {
    let mut svc = service(vec!["nowhere"]);
    svc.profile = Some("ghost".to_string());
    svc.schedule = "bad".to_string();
    assert!(matches!(
        resolve_service("web", &svc, &config()),
        Err(ConfigError::ProfileNotFound(_))
    ));
    svc.profile = None;
    assert!(matches!(
        resolve_service("web", &svc, &config()),
        Err(ConfigError::DestinationNotFound(_))
    ));
    svc.targets = vec![];
    assert!(matches!(
        resolve_service("web", &svc, &config()),
        Err(ConfigError::NoTargetsDefined(_))
    ));
    svc.targets = vec!["local".to_string()];
    assert!(matches!(
        resolve_service("web", &svc, &config()),
        Err(ConfigError::InvalidSchedule(_, _))
    ));
}

#[test]
fn notify_on_is_taken_whole_from_the_first_list_that_is_not_empty() {
    let mut config = config();
    config.notifications.notify_on = vec![NotifyEvent::Failure];
    config.profiles.insert(
        "loud".to_string(),
        Profile { notify_on: vec![NotifyEvent::Success, NotifyEvent::Warning], ..Profile::default() },
    );
    config.profiles.insert("quiet".to_string(), Profile::default());
    let mut svc = service(vec!["local"]);
    assert_eq!(resolve_service("w", &svc, &config).unwrap().notify_on, vec![NotifyEvent::Failure]);
    svc.profile = Some("quiet".to_string());
    assert_eq!(resolve_service("w", &svc, &config).unwrap().notify_on, vec![NotifyEvent::Failure]);
    svc.profile = Some("loud".to_string());
    assert_eq!(
        resolve_service("w", &svc, &config).unwrap().notify_on,
        vec![NotifyEvent::Success, NotifyEvent::Warning]
    );
    svc.notify_on = vec![NotifyEvent::LongRunning];
    assert_eq!(
        resolve_service("w", &svc, &config).unwrap().notify_on,
        vec![NotifyEvent::LongRunning]
    );
}

#[test]
fn the_backup_unit_of_a_service_is_carried_over() {
    let mut svc = service(vec!["local"]);
    svc.config = Some(BackupConfig {
        paths: vec!["data".to_string(), "/etc/app".to_string()],
        volumes: vec!["app_data".to_string()],
        excludes: vec!["*.bak".to_string()],
        pre_backup_hooks: vec![Hook {
            name: "dump".to_string(),
            command: "pg_dump".to_string(),
            working_dir: Some("/srv".to_string()),
            timeout_seconds: Some(5),
            continue_on_error: true,
        }],
        post_backup_hooks: vec![],
    });
    let policy = resolve_service("db", &svc, &config()).unwrap();
    let unit = policy.config.unwrap();
    assert_eq!(unit.paths, vec!["data".to_string(), "/etc/app".to_string()]);
    assert_eq!(unit.volumes, vec!["app_data".to_string()]);
    assert_eq!(unit.excludes, vec!["*.bak".to_string()]);
    assert_eq!(unit.pre_backup_hooks.len(), 1);
    assert_eq!(unit.pre_backup_hooks[0].name, "dump");
    assert_eq!(unit.pre_backup_hooks[0].command, "pg_dump");
    assert_eq!(unit.pre_backup_hooks[0].working_dir, Some("/srv".to_string()));
    assert_eq!(unit.pre_backup_hooks[0].timeout_seconds, Some(5));
    assert!(unit.pre_backup_hooks[0].continue_on_error);
    assert!(unit.post_backup_hooks.is_empty());
}

#[test]
fn all_services_resolve_in_the_order_of_the_document() {
    let mut config = config();
    config.services.insert("service1".to_string(), service(vec!["local"]));
    config.services.insert("service2".to_string(), service(vec!["remote"]));
    let mut disabled = service(vec!["local"]);
    disabled.enabled = false;
    config.services.insert("service3".to_string(), disabled);
    let resolved = resolve_all_services(&config).unwrap();
    assert_eq!(resolved.len(), 3);
    assert_eq!(
        resolved.keys(),
        vec!["service1".to_string(), "service2".to_string(), "service3".to_string()]
    );
    assert!(resolved.get("service1").unwrap().enabled);
    assert_eq!(resolved.get("service2").unwrap().targets, vec!["remote".to_string()]);
    assert!(!resolved.get("service3").unwrap().enabled);
    assert!(resolved.get("service4").is_none());
}

#[test]
fn the_first_refused_service_ends_the_resolution() {
    let mut config = config();
    config.services.insert("good".to_string(), service(vec!["local"]));
    config.services.insert("bad".to_string(), service(vec![]));
    let mut worse = service(vec!["local"]);
    worse.profile = Some("ghost".to_string());
    config.services.insert("worse".to_string(), worse);
    let error = match resolve_all_services(&config) {
        Err(e) => e,
        Ok(_) => panic!("a service without targets was accepted"),
    };
    assert!(matches!(error, ConfigError::NoTargetsDefined(ref s) if s == "bad"));
    assert_eq!(
        error.message(),
        "Service 'bad' has no targets defined and no profile that defines any"
    );
}

#[test]
fn a_configuration_is_checked_from_the_files_to_the_services() {
    let mut config = config();
    config.services.insert("web".to_string(), service(vec!["local"]));
    assert!(validate_config_given(&config, true, true).is_ok());
    let missing = validate_config_given(&config, false, false).unwrap_err();
    assert_eq!(
        missing.message(),
        "Validation error: Restic password file does not exist: /tmp/password"
    );
    let missing = validate_config_given(&config, true, false).unwrap_err();
    assert_eq!(
        missing.message(),
        "Validation error: Docker base directory does not exist: /docker"
    );
    config.services.insert("odd".to_string(), service(vec!["nowhere"]));
    let refused = validate_config_given(&config, true, true).unwrap_err();
    assert_eq!(refused.message(), "Destination 'nowhere' not found");
    config.destinations = NameMap::new();
    let empty = validate_config_given(&config, true, true).unwrap_err();
    assert_eq!(empty.message(), "Validation error: No destinations defined");
}

#[test]
fn every_error_has_its_text() {
    assert_eq!(
        ConfigError::ReadError("gone".to_string()).message(),
        "Failed to read config file: gone"
    );
    assert_eq!(
        ConfigError::ParseError("line 3".to_string()).message(),
        "Failed to parse config file: line 3"
    );
    assert_eq!(ConfigError::ValidationError("x".to_string()).message(), "Validation error: x");
    assert_eq!(ConfigError::ProfileNotFound("p".to_string()).message(), "Profile 'p' not found");
    assert_eq!(
        ConfigError::DestinationNotFound("d".to_string()).message(),
        "Destination 'd' not found"
    );
    assert_eq!(
        ConfigError::InvalidSchedule("s".to_string(), "bad cron".to_string()).message(),
        "Service 's': invalid cron schedule format (expected 5 fields): bad cron"
    );
}

#[test]
fn defaults_of_the_notification_settings() {
    let settings = NotificationConfig::default();
    assert_eq!(settings.discord_webhook_url, "");
    assert_eq!(settings.notify_on, default_notify_on());
    assert_eq!(settings.notify_on, vec![NotifyEvent::Failure, NotifyEvent::Warning]);
    assert_eq!(settings.rate_limit_minutes, 60);
    assert_eq!(settings.cache_file, "~/.cache/restic-manager-notifications.json");
}

#[test]
fn tilde_is_replaced_by_the_home_directory() {
    assert_eq!(expand_tilde_in("~/test", Some("/home/alice")), "/home/alice/test");
    assert_eq!(expand_tilde_in("~", Some("/home/alice")), "/home/alice");
    assert_eq!(expand_tilde_in("~//logs/x", Some("/home/alice/")), "/home/alice/logs/x");
    assert_eq!(expand_tilde_in("/absolute/path", Some("/home/alice")), "/absolute/path");
    assert_eq!(expand_tilde_in("~bob/x", Some("/home/alice")), "~bob/x");
    assert_eq!(expand_tilde_in("~/test", None), "~/test");
    assert_eq!(expand_tilde_in("", Some("/home/alice")), "");
}

#[test]
fn mod_test_expand_tilde() {
    // Test non-tilde path (should be unchanged)
    let expanded = expand_tilde("/absolute/path");
    assert_eq!(expanded, "/absolute/path");
    let expanded = expand_tilde("~/test");
    assert!(expanded == "~/test" || !expanded.starts_with('~'));
}

#[test]
fn a_configuration_is_checked_against_the_disk() {
    let dir = tempfile::TempDir::new().unwrap();
    let password = tempfile::NamedTempFile::new_in(dir.path()).unwrap();
    let mut config = config();
    config.services.insert("web".to_string(), service(vec!["local"]));
    config.global.restic_password_file = password.path().to_str().unwrap().to_string();
    config.global.docker_base = dir.path().to_str().unwrap().to_string();
    assert!(validate_config(&config).is_ok());
    config.global.docker_base = format!("{}/missing", dir.path().display());
    assert_eq!(
        validate_config(&config).unwrap_err().message(),
        format!("Validation error: Docker base directory does not exist: {}/missing", dir.path().display())
    );
    config.global.restic_password_file = "/nonexistent/password".to_string();
    assert_eq!(
        validate_config(&config).unwrap_err().message(),
        "Validation error: Restic password file does not exist: /nonexistent/password"
    );
}
