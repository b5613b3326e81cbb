use restic_manager::fixtures::{
    appwrite_volumes, config_with_hooks_toml, config_with_profiles_toml, immich_volumes,
    minimal_config_toml, multi_destination_config_toml, multi_service_config_toml,
    sample_snapshot, sample_snapshots, snapshot_with_time, test_data_files, verify_test_data,
    zero_padded,
};

#[test]
fn test_sample_snapshot() {
    let snapshot = sample_snapshot();
    assert!(!snapshot.id.is_empty());
    assert!(!snapshot.short_id.is_empty());
    assert!(!snapshot.time.is_empty());
}

#[test]
fn test_sample_snapshots() {
    let snapshots = sample_snapshots(5);
    assert_eq!(snapshots.len(), 5);

    // Check they're all unique
    let ids: Vec<_> = snapshots.iter().map(|s| &s.id).collect();
    for (i, id) in ids.iter().enumerate() {
        for (j, other_id) in ids.iter().enumerate() {
            if i != j {
                assert_ne!(id, other_id);
            }
        }
    }
}

#[test]
fn test_appwrite_volumes() {
    let volumes = appwrite_volumes();
    assert!(!volumes.is_empty());
    // All should start with appwrite_appwrite-
    for v in &volumes {
        assert!(v.starts_with("appwrite_appwrite-"));
    }
}

#[test]
fn test_appwrite_volume_names() {
    let volumes = appwrite_volumes();

    // All Appwrite volumes should have the doubled prefix
    for volume in &volumes {
        assert!(
            volume.starts_with("appwrite_appwrite-"),
            "Volume {} doesn't have expected prefix",
            volume
        );
    }

    // Should include key volumes
    assert!(volumes.iter().any(|v| v.contains("mariadb")));
    assert!(volumes.iter().any(|v| v.contains("redis")));
    assert!(volumes.iter().any(|v| v.contains("uploads")));
}

#[test]
fn test_snapshots_display_fields() {
    let snapshot = sample_snapshot();

    // Verify snapshot has expected fields
    assert!(!snapshot.id.is_empty());
    assert!(!snapshot.time.is_empty());
    assert!(!snapshot.hostname.is_empty());
    assert!(!snapshot.paths.is_empty());
}

#[test]
fn test_snapshots_hostname_filter() {
    let mut snapshots = sample_snapshots(3);
    snapshots[0].hostname = "server-a".to_string();
    snapshots[1].hostname = "server-b".to_string();
    snapshots[2].hostname = "server-a".to_string();

    let server_a_count = snapshots.iter().filter(|s| s.hostname == "server-a").count();
    assert_eq!(server_a_count, 2);
}

#[test]
fn test_snapshots_paths_info() {
    let mut snapshot = sample_snapshot();
    snapshot.paths = vec![
        "/home/valerie/docker/appwrite".to_string(),
        "/home/valerie/docker/immich".to_string(),
    ];

    assert_eq!(snapshot.paths.len(), 2);
    assert!(snapshot.paths.iter().any(|p| p.contains("appwrite")));
    assert!(snapshot.paths.iter().any(|p| p.contains("immich")));
}

#[test]
fn test_snapshots_time_parsing() {
    let times = [
        "2025-12-28T10:00:00.000000000Z",
        "2025-01-15T23:59:59.999999999Z",
        "2024-06-01T00:00:00.000000000Z",
    ];

    for time_str in &times {
        let snapshot = snapshot_with_time(time_str);
        assert_eq!(&snapshot.time, *time_str);
    }
}

#[test]
fn test_status_health_healthy() {
    // A healthy backup is less than 24 hours old
    let snapshot = snapshot_with_time("2025-12-28T10:00:00.000000000Z");

    // Snapshot time parsing and health check would be done by the application
    // Here we just verify the snapshot has the expected format
    assert!(snapshot.time.contains("2025-12-28"));
}

#[test]
fn test_snapshot_fixture() {
    let snapshot = sample_snapshot();

    assert!(!snapshot.id.is_empty());
    assert!(!snapshot.short_id.is_empty());
    assert!(snapshot.time.contains("2025"));
    assert_eq!(snapshot.hostname, "test-host");
}

#[test]
fn sample_snapshot_has_the_fixed_values() {
    let snapshot = sample_snapshot();
    assert_eq!(snapshot.id, "abc123def456789012345678901234567890abcd");
    assert_eq!(snapshot.short_id, "abc123de");
    assert_eq!(snapshot.time, "2025-12-28T10:30:00.000000000Z");
    assert_eq!(snapshot.paths, vec!["/data".to_string()]);
}

#[test]
fn series_snapshots_are_numbered_and_dated() {
    let snapshots = sample_snapshots(30);
    assert_eq!(snapshots[0].id, "snapshot0000000000000000000000000000000000000000");
    assert_eq!(snapshots[0].short_id, "snap0000");
    assert_eq!(snapshots[0].time, "2025-12-28T10:30:00.000000000Z");
    assert_eq!(snapshots[7].id, "snapshot0000000000000000000000000000000000000007");
    assert_eq!(snapshots[7].short_id, "snap0007");
    assert_eq!(snapshots[7].time, "2025-12-21T10:30:00.000000000Z");
    assert_eq!(snapshots[27].time, "2025-12-01T10:30:00.000000000Z");
    assert_eq!(snapshots[28].time, "2025-12-28T10:30:00.000000000Z");
    assert_eq!(snapshots[29].short_id, "snap0029");
    assert!(sample_snapshots(0).is_empty());
}

#[test]
fn zero_padding_fills_up_to_the_width_and_never_cuts() {
    assert_eq!(zero_padded(7, 4), "0007");
    assert_eq!(zero_padded(0, 2), "00");
    assert_eq!(zero_padded(12345, 4), "12345");
    assert_eq!(zero_padded(5, 0), "5");
    assert_eq!(zero_padded(42, 2), "42");
}

#[test]
fn immich_has_its_two_volumes() {
    assert_eq!(immich_volumes(), vec!["immich_pgdata".to_string(), "immich_model-cache".to_string()]);
}

#[test]
fn sample_documents_name_their_sections() {
    for document in [
        minimal_config_toml(),
        multi_service_config_toml(),
        config_with_profiles_toml(),
        multi_destination_config_toml(),
        config_with_hooks_toml(),
    ] {
        assert!(document.contains("[global]"));
        assert!(document.contains("[destinations.local]"));
        assert!(document.contains("restic_password_file = \"{password_file}\""));
    }
    assert!(minimal_config_toml().contains("[services.test]"));
    assert!(multi_service_config_toml().contains("volumes = [\"app_data\"]"));
    assert!(config_with_profiles_toml().contains("profile = \"production\""));
    assert!(multi_destination_config_toml().contains("targets = [\"local\", \"remote\"]"));
    assert!(config_with_hooks_toml().contains("pre_hooks = [\"echo 'pre-backup'\"]"));
}

#[test]
fn sample_data_is_missing_until_it_is_written() {
    let dir = tempfile::TempDir::new().unwrap();
    let root = dir.path().to_str().unwrap().to_string();
    assert!(!verify_test_data(&root));
    let data = tempfile::Builder::new().prefix("data").rand_bytes(0).tempdir_in(dir.path()).unwrap();
    let config =
        tempfile::Builder::new().prefix("config").rand_bytes(0).tempdir_in(dir.path()).unwrap();
    let named = |prefix: &str, suffix: &str, under: &std::path::Path| {
        tempfile::Builder::new().prefix(prefix).suffix(suffix).rand_bytes(0).tempfile_in(under).unwrap()
    };
    let _one = named("file1", ".txt", data.path());
    let _two = named("file2", ".txt", data.path());
    assert!(!verify_test_data(&root));
    let _settings = named("settings", ".json", config.path());
    assert!(verify_test_data(&root));
}

#[test]
fn sample_data_is_three_files_under_the_directory() {
    assert_eq!(
        test_data_files("/srv/sample"),
        vec![
            "/srv/sample/data/file1.txt".to_string(),
            "/srv/sample/data/file2.txt".to_string(),
            "/srv/sample/config/settings.json".to_string(),
        ]
    );
}
