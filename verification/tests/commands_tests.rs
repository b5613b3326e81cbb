use restic_manager::config::{
    resolve_all_services, BackupConfig, Config, Destination, DestinationType, GlobalConfig,
    NotificationConfig, Profile, RetentionPolicy, ServiceConfig,
};
use restic_manager::fixtures::appwrite_volumes;
use restic_manager::name_map::NameMap;

/// Builds configurations with sensible defaults.
struct ConfigBuilder {
    global: GlobalConfig,
    destinations: NameMap<Destination>,
    services: NameMap<ServiceConfig>,
    profiles: NameMap<Profile>,
    notifications: NotificationConfig,
}

impl ConfigBuilder {
    fn new() -> Self {
        ConfigBuilder {
            global: GlobalConfig {
                restic_password_file: "/tmp/restic-manager-samples/restic-password".to_string(),
                docker_base: "/tmp/restic-manager-samples/docker".to_string(),
                retention_daily: 7,
                retention_weekly: 4,
                retention_monthly: 6,
                retention_yearly: 1,
                default_timeout_seconds: 300,
                long_running_threshold_minutes: 30,
                log_directory: "/tmp/restic-manager-samples/logs".to_string(),
                log_level: "info".to_string(),
                log_max_files: 5,
                log_max_size_mb: 10,
                default_excludes: vec![],
                use_system_restic: false,
            },
            destinations: NameMap::new(),
            services: NameMap::new(),
            profiles: NameMap::new(),
            notifications: NotificationConfig::default(),
        }
    }

    fn minimal() -> Self {
        let mut builder = Self::new();
        builder.destinations.insert(
            "local".to_string(),
            Destination {
                dest_type: DestinationType::Local,
                url: "/tmp/restic-manager-samples/backups".to_string(),
                description: "Local test destination".to_string(),
            },
        );
        builder
    }

    fn with_timeout(mut self, seconds: u64) -> Self {
        self.global.default_timeout_seconds = seconds;
        self
    }

    fn with_retention(mut self, retention: RetentionPolicy) -> Self {
        self.global.retention_daily = retention.daily;
        self.global.retention_weekly = retention.weekly;
        self.global.retention_monthly = retention.monthly;
        self.global.retention_yearly = retention.yearly;
        self
    }

    fn add_local_destination(mut self, name: &str, path: &str) -> Self {
        self.destinations.insert(
            name.to_string(),
            Destination {
                dest_type: DestinationType::Local,
                url: path.to_string(),
                description: format!("Local destination: {}", name),
            },
        );
        self
    }

    fn add_sftp_destination(mut self, name: &str, url: &str) -> Self {
        self.destinations.insert(
            name.to_string(),
            Destination {
                dest_type: DestinationType::Sftp,
                url: url.to_string(),
                description: format!("SFTP destination: {}", name),
            },
        );
        self
    }

    fn service(name: &str, enabled: bool, config: Option<BackupConfig>) -> ServiceConfig {
        ServiceConfig {
            enabled,
            profile: None,
            description: format!("Test service: {}", name),
            schedule: "0 2 * * *".to_string(),
            targets: vec!["local".to_string()],
            timeout_seconds: None,
            retention_daily: None,
            retention_weekly: None,
            retention_monthly: None,
            retention_yearly: None,
            notify_on: vec![],
            config,
        }
    }

    fn add_service(mut self, name: &str) -> Self {
        self.services.insert(name.to_string(), Self::service(name, true, None));
        self
    }

    fn add_disabled_service(mut self, name: &str) -> Self {
        self.services.insert(name.to_string(), Self::service(name, false, None));
        self
    }

    fn add_service_with_paths(mut self, name: &str, paths: Vec<String>) -> Self {
        let unit = BackupConfig {
            paths,
            volumes: vec![],
            excludes: vec![],
            pre_backup_hooks: vec![],
            post_backup_hooks: vec![],
        };
        self.services.insert(name.to_string(), Self::service(name, true, Some(unit)));
        self
    }

    fn add_service_with_volumes(mut self, name: &str, volumes: Vec<String>) -> Self {
        let unit = BackupConfig {
            paths: vec![],
            volumes,
            excludes: vec![],
            pre_backup_hooks: vec![],
            post_backup_hooks: vec![],
        };
        self.services.insert(name.to_string(), Self::service(name, true, Some(unit)));
        self
    }

    fn build(self) -> Config {
        Config {
            global: self.global,
            destinations: self.destinations,
            services: self.services,
            profiles: self.profiles,
            notifications: self.notifications,
        }
    }
}

#[test]
fn test_minimal_config() {
    let config = ConfigBuilder::minimal().add_service("test").build();

    assert!(config.services.contains_key("test"));
    assert!(config.destinations.contains_key("local"));
    assert!(resolve_all_services(&config).is_ok());
}

#[test]
fn test_add_multiple_services() {
    let config = ConfigBuilder::minimal()
        .add_service("service1")
        .add_service("service2")
        .add_service("service3")
        .build();

    assert_eq!(config.services.len(), 3);
    assert!(config.services.contains_key("service1"));
    assert!(config.services.contains_key("service2"));
    assert!(config.services.contains_key("service3"));
}

#[test]
fn test_list_all_services() {
    let config = ConfigBuilder::minimal()
        .add_service("appwrite")
        .add_service("immich")
        .add_service("generic")
        .build();

    let resolved = resolve_all_services(&config).unwrap();

    assert_eq!(resolved.len(), 3);
    assert!(resolved.contains_key("appwrite"));
    assert!(resolved.contains_key("immich"));
    assert!(resolved.contains_key("generic"));
}

#[test]
fn test_list_shows_enabled_status() {
    let config = ConfigBuilder::minimal()
        .add_service("enabled-service")
        .add_disabled_service("disabled-service")
        .build();

    let resolved = resolve_all_services(&config).unwrap();

    assert!(resolved.get("enabled-service").unwrap().enabled);
    assert!(!resolved.get("disabled-service").unwrap().enabled);
}

#[test]
fn test_list_shows_targets() {
    let config = ConfigBuilder::minimal().add_service("single-target").build();

    let resolved = resolve_all_services(&config).unwrap();
    let service = resolved.get("single-target").unwrap();

    // Service should have at least one target (local from minimal config)
    assert!(!service.targets.is_empty());
    assert!(service.targets.contains(&"local".to_string()));
}

#[test]
fn test_list_shows_schedule() {
    let config = ConfigBuilder::minimal().add_service("scheduled-service").build();

    let resolved = resolve_all_services(&config).unwrap();
    let service = resolved.get("scheduled-service").unwrap();

    // Default schedule from ConfigBuilder
    assert_eq!(service.schedule, "0 2 * * *");
}

#[test]
fn test_list_empty_config() {
    let config = ConfigBuilder::minimal().build();

    let resolved = resolve_all_services(&config).unwrap();

    // No services configured (only destination from minimal)
    assert!(resolved.is_empty());
}

#[test]
fn test_list_with_paths_and_volumes() {
    let config = ConfigBuilder::minimal()
        .add_service_with_paths("files-service", vec!["data".to_string()])
        .add_service_with_volumes("docker-service", vec!["app_data".to_string()])
        .build();

    let resolved = resolve_all_services(&config).unwrap();

    let files_service = resolved.get("files-service").unwrap();
    let files_config = files_service.config.as_ref().unwrap();
    assert!(!files_config.paths.is_empty());

    let docker_service = resolved.get("docker-service").unwrap();
    let docker_config = docker_service.config.as_ref().unwrap();
    assert!(!docker_config.volumes.is_empty());
}

#[test]
fn test_list_service_descriptions() {
    let config = ConfigBuilder::minimal().add_service("test-service").build();

    let resolved = resolve_all_services(&config).unwrap();
    let service = resolved.get("test-service").unwrap();

    // Should have a description
    assert!(!service.description.is_empty());
}

#[test]
fn test_list_service_timeout() {
    let config = ConfigBuilder::minimal().with_timeout(7200).add_service("long-running").build();

    let resolved = resolve_all_services(&config).unwrap();
    let service = resolved.get("long-running").unwrap();

    // Timeout should be inherited from global config
    assert_eq!(service.timeout_seconds, 7200);
}

#[test]
fn test_run_single_service() {
    let config = ConfigBuilder::minimal().add_service("test-service").build();

    let resolved = resolve_all_services(&config).unwrap();
    let service = resolved.get("test-service").unwrap();

    // Service should be enabled and have valid configuration
    assert!(service.enabled);
    assert!(!service.targets.is_empty());
}

#[test]
fn test_run_all_services() {
    let config = ConfigBuilder::minimal()
        .add_service("service1")
        .add_service("service2")
        .add_service("service3")
        .build();

    let resolved = resolve_all_services(&config).unwrap();

    // All services should be resolvable
    assert_eq!(resolved.len(), 3);
    assert!(resolved.keys().iter().all(|name| resolved.get(name).unwrap().enabled));
}

#[test]
fn test_run_skips_disabled_services() {
    let config = ConfigBuilder::minimal()
        .add_service("enabled-service")
        .add_disabled_service("disabled-service")
        .build();

    let resolved = resolve_all_services(&config).unwrap();

    let enabled = resolved.get("enabled-service").unwrap();
    let disabled = resolved.get("disabled-service").unwrap();

    assert!(enabled.enabled);
    assert!(!disabled.enabled);
}

#[test]
fn test_run_with_paths() {
    let config = ConfigBuilder::minimal()
        .add_service_with_paths("files-service", vec!["data".to_string(), "config".to_string()])
        .build();

    let resolved = resolve_all_services(&config).unwrap();
    let service = resolved.get("files-service").unwrap();
    let config = service.config.as_ref().unwrap();

    assert_eq!(config.paths.len(), 2);
    assert!(config.paths.contains(&"data".to_string()));
    assert!(config.paths.contains(&"config".to_string()));
}

#[test]
fn test_run_with_volumes() {
    let volumes = appwrite_volumes();

    let config = ConfigBuilder::minimal()
        .add_service_with_volumes("docker-service", volumes.clone())
        .build();

    let resolved = resolve_all_services(&config).unwrap();
    let service = resolved.get("docker-service").unwrap();
    let strategy_config = service.config.as_ref().unwrap();

    assert_eq!(strategy_config.volumes.len(), volumes.len());
}

#[test]
fn test_run_multi_destination() {
    let config = ConfigBuilder::minimal()
        .add_sftp_destination("remote", "sftp://host/backups")
        .add_service("multi-target")
        .build();

    // Should have local (from minimal) + sftp destinations
    assert!(config.destinations.len() >= 2);
    assert!(config.destinations.contains_key("local"));
    assert!(config.destinations.contains_key("remote"));
}

#[test]
fn test_run_respects_timeout() {
    let config = ConfigBuilder::minimal().with_timeout(7200).add_service("long-running").build();

    let resolved = resolve_all_services(&config).unwrap();
    let service = resolved.get("long-running").unwrap();

    assert_eq!(service.timeout_seconds, 7200);
}

#[test]
fn test_status_overview_counts() {
    let config = ConfigBuilder::minimal()
        .add_service("service1")
        .add_service("service2")
        .add_sftp_destination("remote", "sftp://host/backups")
        .build();

    // Should have 2 services and 2 destinations
    assert_eq!(config.services.len(), 2);
    assert_eq!(config.destinations.len(), 2);
}

#[test]
fn test_status_single_service() {
    let config = ConfigBuilder::minimal().add_service("test-service").build();

    let resolved = resolve_all_services(&config).unwrap();
    let service = resolved.get("test-service").unwrap();

    assert!(service.enabled);
    assert!(!service.description.is_empty());
    assert!(!service.schedule.is_empty());
    assert!(!service.targets.is_empty());
}

#[test]
fn test_status_disabled_service() {
    let config = ConfigBuilder::minimal().add_disabled_service("disabled-service").build();

    let resolved = resolve_all_services(&config).unwrap();
    let service = resolved.get("disabled-service").unwrap();

    assert!(!service.enabled);
}

#[test]
fn test_status_service_timeout() {
    let config = ConfigBuilder::minimal().with_timeout(3600).add_service("test").build();

    let resolved = resolve_all_services(&config).unwrap();
    let service = resolved.get("test").unwrap();

    assert_eq!(service.timeout_seconds, 3600);
}

#[test]
fn test_status_retention_policy() {
    let config = ConfigBuilder::minimal()
        .with_retention(RetentionPolicy { daily: 7, weekly: 4, monthly: 6, yearly: 1 })
        .add_service("test")
        .build();

    let resolved = resolve_all_services(&config).unwrap();
    let service = resolved.get("test").unwrap();

    assert_eq!(service.retention.daily, 7);
    assert_eq!(service.retention.weekly, 4);
    assert_eq!(service.retention.monthly, 6);
    assert_eq!(service.retention.yearly, 1);
}

#[test]
fn test_snapshots_service_destination() {
    let config = ConfigBuilder::minimal()
        .add_sftp_destination("remote", "sftp://host/backups")
        .add_service("multi-dest")
        .build();

    // Verify destinations exist for querying snapshots
    assert!(config.destinations.contains_key("local"));
    assert!(config.destinations.contains_key("remote"));
}

#[test]
fn test_restore_service_config() {
    let config = ConfigBuilder::minimal()
        .add_service_with_volumes("docker-service", vec!["app_data".to_string()])
        .build();

    let resolved = resolve_all_services(&config).unwrap();
    let service = resolved.get("docker-service").unwrap();

    // Service should have volumes for restoration
    let service_config = service.config.as_ref().unwrap();
    assert!(!service_config.volumes.is_empty());
}

#[test]
fn test_verify_single_service() {
    let config = ConfigBuilder::minimal().add_service("test-service").build();

    let resolved = resolve_all_services(&config).unwrap();
    assert!(resolved.contains_key("test-service"));
}

#[test]
fn test_verify_all_services() {
    let config = ConfigBuilder::minimal().add_service("service1").add_service("service2").build();

    let resolved = resolve_all_services(&config).unwrap();
    assert_eq!(resolved.len(), 2);
}

#[test]
fn test_verify_multi_destination() {
    let config = ConfigBuilder::minimal()
        .add_sftp_destination("remote", "sftp://host/backups")
        .add_service("multi-target")
        .build();

    // Both destinations should be available for verification
    assert!(config.destinations.contains_key("local"));
    assert!(config.destinations.contains_key("remote"));
}

#[test]
fn test_verify_timeout_handling() {
    let config = ConfigBuilder::minimal().with_timeout(7200).add_service("large-backup").build();

    let resolved = resolve_all_services(&config).unwrap();
    let service = resolved.get("large-backup").unwrap();

    assert_eq!(service.timeout_seconds, 7200);
}

#[test]
fn test_verify_disabled_service_skipped() {
    let config = ConfigBuilder::minimal().add_disabled_service("disabled-service").build();

    let resolved = resolve_all_services(&config).unwrap();
    let service = resolved.get("disabled-service").unwrap();

    assert!(!service.enabled);
}

#[test]
fn test_setup_dry_run() {
    // Dry run should report what would be done without making changes
    let config = ConfigBuilder::minimal().add_service("test-service").build();

    // In dry run mode, we just verify config is valid
    assert!(!config.services.is_empty());
}

#[test]
fn test_setup_validates_config() {
    let config = ConfigBuilder::minimal().add_service("valid-service").build();

    // Setup should validate configuration before proceeding
    let result = resolve_all_services(&config);
    assert!(result.is_ok());
}

#[test]
fn test_config_service_resolution() {
    let config = ConfigBuilder::minimal()
        .add_service("service1")
        .add_service("service2")
        .add_disabled_service("service3")
        .build();

    let resolved = resolve_all_services(&config);
    assert!(resolved.is_ok());

    let services = resolved.unwrap();
    assert_eq!(services.len(), 3);

    // Check that enabled status is preserved
    assert!(services.get("service1").unwrap().enabled);
    assert!(services.get("service2").unwrap().enabled);
    assert!(!services.get("service3").unwrap().enabled);
}

#[test]
fn test_config_with_paths_and_volumes() {
    let config = ConfigBuilder::minimal()
        .add_service_with_paths("files-service", vec!["data".to_string(), "config".to_string()])
        .add_service_with_volumes("docker-service", vec!["app_data".to_string()])
        .build();

    let resolved = resolve_all_services(&config).unwrap();

    let files_service = resolved.get("files-service").unwrap();
    let files_config = files_service.config.as_ref().unwrap();
    assert_eq!(files_config.paths.len(), 2);
    assert!(files_config.paths.contains(&"data".to_string()));

    let docker_service = resolved.get("docker-service").unwrap();
    let docker_config = docker_service.config.as_ref().unwrap();
    assert_eq!(docker_config.volumes.len(), 1);
    assert_eq!(docker_config.volumes[0], "app_data");
}

#[test]
fn test_config_multiple_destinations() {
    let config = ConfigBuilder::minimal()
        .add_local_destination("backup2", "/tmp/restic-manager-samples/backup2")
        .add_sftp_destination("remote", "sftp://user@host/backups")
        .build();

    assert_eq!(config.destinations.len(), 3); // local + backup2 + remote
    assert!(config.destinations.contains_key("local"));
    assert!(config.destinations.contains_key("backup2"));
    assert!(config.destinations.contains_key("remote"));
}

#[test]
fn test_config_retention_policy() {
    let config = ConfigBuilder::minimal()
        .with_retention(RetentionPolicy { daily: 14, weekly: 8, monthly: 12, yearly: 2 })
        .add_service("test")
        .build();

    assert_eq!(config.global.retention_daily, 14);
    assert_eq!(config.global.retention_weekly, 8);
    assert_eq!(config.global.retention_monthly, 12);
    assert_eq!(config.global.retention_yearly, 2);
}

#[test]
fn test_config_service_has_backup_config() {
    // Test that services can have backup configuration
    let config =
        ConfigBuilder::minimal().add_service_with_paths("files", vec!["data".to_string()]).build();

    let service = config.services.get("files").unwrap();
    assert!(service.config.is_some());

    let backup_config = service.config.as_ref().unwrap();
    assert!(!backup_config.paths.is_empty());

    // Test that resolved services preserve the config
    let resolved = resolve_all_services(&config).unwrap();
    let resolved_service = resolved.get("files").unwrap();
    assert!(resolved_service.config.is_some());
}
