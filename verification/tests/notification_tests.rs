use restic_manager::config::types::{NotificationConfig, NotifyEvent};
use restic_manager::managers::notification::{
    cache_key, cache_path_in, format_duration, render, stamp, truncate_error, CacheEntry,
    Delivery, Notification, NotificationCache, NotificationColor, NotificationError,
    NotificationManager,
};

fn settings(url: &str, notify_on: Vec<NotifyEvent>) -> NotificationConfig {
    NotificationConfig {
        discord_webhook_url: url.to_string(),
        notify_on,
        rate_limit_minutes: 60,
        cache_file: "/tmp/test-cache.json".to_string(),
    }
}

fn manager() -> NotificationManager {
    NotificationManager::with_cache_path(
        settings(
            "https://discord.com/api/webhooks/test",
            vec![NotifyEvent::Failure, NotifyEvent::Success],
        ),
        "/tmp/cache.json".to_string(),
    )
}

fn failure() -> Notification {
    Notification::failure("postgres", Some("local"), "Connection refused", Some(120))
}

#[test]
fn test_format_duration_seconds() {
    assert_eq!(format_duration(45), "45s");
}

#[test]
fn test_format_duration_minutes() {
    assert_eq!(format_duration(120), "2m");
    assert_eq!(format_duration(125), "2m 5s");
}

#[test]
fn test_format_duration_hours() {
    assert_eq!(format_duration(3600), "1h");
    assert_eq!(format_duration(3720), "1h 2m");
    assert_eq!(format_duration(7320), "2h 2m");
}

#[test]
fn durations_at_the_edges() {
    assert_eq!(format_duration(0), "0s");
    assert_eq!(format_duration(59), "59s");
    assert_eq!(format_duration(60), "1m");
    assert_eq!(format_duration(3599), "59m 59s");
    assert_eq!(format_duration(3659), "1h");
    assert_eq!(format_duration(3660), "1h 1m");
    assert_eq!(format_duration(86399), "23h 59m");
    assert_eq!(format_duration(u64::MAX), "5124095576030431h");
}

#[test]
fn test_notification_color_values() {
    assert_eq!(NotificationColor::Failure.as_decimal(), 15158332);
    assert_eq!(NotificationColor::Warning.as_decimal(), 15105570);
    assert_eq!(NotificationColor::Success.as_decimal(), 3066993);
    assert_eq!(NotificationColor::LongRunning.as_decimal(), 16776960);
    assert_eq!(NotificationColor::Info.as_decimal(), 3447003);
}

#[test]
fn test_notification_manager_disabled_when_no_url() {
    let config = NotificationConfig {
        discord_webhook_url: String::new(),
        notify_on: vec![NotifyEvent::Failure],
        rate_limit_minutes: 60,
        cache_file: "/tmp/test-cache.json".to_string(),
    };
    let manager = NotificationManager::new(config);
    assert!(!manager.is_enabled(&NotifyEvent::Failure));
}

#[test]
fn test_notification_manager_disabled_for_unregistered_events() {
    let config = NotificationConfig {
        discord_webhook_url: "https://discord.com/api/webhooks/test".to_string(),
        notify_on: vec![NotifyEvent::Failure],
        rate_limit_minutes: 60,
        cache_file: "/tmp/test-cache.json".to_string(),
    };
    let manager = NotificationManager::new(config);
    assert!(manager.is_enabled(&NotifyEvent::Failure));
    assert!(!manager.is_enabled(&NotifyEvent::Warning));
    assert!(!manager.is_enabled(&NotifyEvent::Success));
}

#[test]
fn test_build_failure_payload() {
    let config = NotificationConfig {
        discord_webhook_url: "https://discord.com/api/webhooks/test".to_string(),
        notify_on: vec![NotifyEvent::Failure],
        rate_limit_minutes: 60,
        cache_file: "/tmp/test-cache.json".to_string(),
    };
    let manager = NotificationManager::new(config);

    let notification = Notification {
        event_type: NotifyEvent::Failure,
        service_name: "postgres".to_string(),
        destination: Some("local".to_string()),
        message: "Backup failed".to_string(),
        error: Some("Connection refused".to_string()),
        duration_secs: Some(120),
    };

    let payload = manager.build_payload(&notification, 1766917800);

    assert_eq!(payload.embeds.len(), 1);
    assert!(payload.embeds[0].title.contains("Failure"));
    assert_eq!(payload.embeds[0].color, NotificationColor::Failure.as_decimal());
    assert!(payload.embeds[0].fields.iter().any(|f| f.name == "Service" && f.value == "postgres"));
    assert!(payload.embeds[0].fields.iter().any(|f| f.name == "Destination" && f.value == "local"));
    assert!(payload.embeds[0].fields.iter().any(|f| f.name == "Duration" && f.value == "2m"));
    assert!(payload.embeds[0].fields.iter().any(|f| f.name == "Error"));
}

#[test]
fn test_cache_path_creation() {
    let manager = NotificationManager::new(settings("", vec![]));
    assert!(manager.cache_path.contains("restic-manager-notifications"));
    assert_eq!(
        cache_path_in(Some("/home/alice/.cache".to_string())),
        "/home/alice/.cache/restic-manager-notifications.json"
    );
    assert_eq!(cache_path_in(None), "/tmp/restic-manager-notifications.json");
}

#[test]
fn an_event_is_rendered_field_by_field() {
    let payload = render(&failure(), Some("2025-12-28T10:30:00Z".to_string()));
    assert_eq!(payload.username, Some("Restic Manager".to_string()));
    assert_eq!(payload.avatar_url, None);
    assert_eq!(payload.content, None);
    let embed = &payload.embeds[0];
    assert_eq!(embed.title, "\u{274C} Restic Manager: Failure");
    assert_eq!(embed.description, Some("Backup failed for service 'postgres'".to_string()));
    assert_eq!(embed.color, 15158332);
    assert_eq!(embed.footer, Some("restic-manager".to_string()));
    assert_eq!(embed.timestamp, Some("2025-12-28T10:30:00Z".to_string()));
    let fields: Vec<(&str, &str, bool)> =
        embed.fields.iter().map(|f| (f.name.as_str(), f.value.as_str(), f.inline)).collect();
    assert_eq!(
        fields,
        vec![
            ("Service", "postgres", true),
            ("Destination", "local", true),
            ("Duration", "2m", true),
            ("Error", "```\nConnection refused\n```", false),
        ]
    );
}

#[test]
fn each_kind_of_event_has_its_title_and_colour() {
    let warning = render(&Notification::warning("web", None, "disk almost full"), None);
    assert_eq!(warning.embeds[0].title, "\u{26A0}\u{FE0F} Restic Manager: Warning");
    assert_eq!(warning.embeds[0].color, 15105570);
    assert_eq!(warning.embeds[0].description, Some("disk almost full".to_string()));
    assert_eq!(warning.embeds[0].fields.len(), 1);
    assert_eq!(warning.embeds[0].timestamp, None);
    let long = render(&Notification::long_running("web", Some("remote"), 7500, 120), None);
    assert_eq!(long.embeds[0].title, "\u{23F0} Restic Manager: LongRunning");
    assert_eq!(long.embeds[0].color, 16776960);
    assert_eq!(
        long.embeds[0].description,
        Some("Backup is taking longer than expected (>120 minutes)".to_string())
    );
    assert_eq!(long.embeds[0].fields[2].value, "2h 5m");
    let success = render(&Notification::success("web", None, 59), None);
    assert_eq!(success.embeds[0].title, "\u{2705} Restic Manager: Success");
    assert_eq!(success.embeds[0].color, 3066993);
    assert_eq!(
        success.embeds[0].description,
        Some("Backup completed successfully for service 'web'".to_string())
    );
    assert_eq!(success.embeds[0].fields[1].name, "Duration");
    assert_eq!(success.embeds[0].fields[1].value, "59s");
}

#[test]
fn a_long_error_is_cut_to_five_hundred_characters() {
    let exact = "e".repeat(500);
    assert_eq!(truncate_error(&exact), exact);
    let long = "x".repeat(501);
    let cut = truncate_error(&long);
    assert_eq!(cut.chars().count(), 500);
    assert_eq!(cut, format!("{}...", "x".repeat(497)));
    let wide = "\u{e9}".repeat(600);
    let cut = truncate_error(&wide);
    assert_eq!(cut, format!("{}...", "\u{e9}".repeat(497)));
    assert_eq!(truncate_error(""), "");
}

#[test]
fn the_time_stamp_comes_from_the_calendar() {
    assert_eq!(stamp(0), Some("1970-01-01T00:00:00Z".to_string()));
    assert_eq!(stamp(1766917800), Some("2025-12-28T10:30:00Z".to_string()));
    assert_eq!(stamp(951782399), Some("2000-02-28T23:59:59Z".to_string()));
    assert_eq!(stamp(951782400), Some("2000-02-29T00:00:00Z".to_string()));
    assert_eq!(stamp(u64::MAX), None);
    assert_eq!(stamp(i64::MAX as u64), None);
    let payload = manager().build_payload(&failure(), 86400);
    assert_eq!(payload.embeds[0].timestamp, Some("1970-01-02T00:00:00Z".to_string()));
}

#[test]
fn the_key_names_service_destination_and_kind() {
    assert_eq!(cache_key(&failure()), "postgres:local:Failure");
    assert_eq!(cache_key(&Notification::success("web", None, 1)), "web:all:Success");
    assert_eq!(
        cache_key(&Notification::long_running("web", Some("s3"), 1, 1)),
        "web:s3:LongRunning"
    );
    assert_eq!(cache_key(&Notification::warning("", Some(""), "")), "::Warning");
}

#[test]
fn two_failures_within_the_cooldown_give_one_delivery() {
    let manager = manager();
    let mut cache = NotificationCache::new();
    let start = 1_766_917_800;
    let key = match manager.send(&failure(), &cache, start) {
        Delivery::Deliver { key, payload } => {
            assert_eq!(payload.embeds.len(), 1);
            key
        },
        other => panic!("the first event was not delivered: {:?}", other),
    };
    assert_eq!(key, "postgres:local:Failure");
    manager.confirm(&mut cache, &key, start, Ok(())).unwrap();
    assert!(matches!(manager.send(&failure(), &cache, start + 1), Delivery::Suppressed));
    assert!(matches!(manager.send(&failure(), &cache, start + 3599), Delivery::Suppressed));
    assert!(matches!(manager.send(&failure(), &cache, start - 50), Delivery::Suppressed));
    assert!(matches!(manager.send(&failure(), &cache, start + 3600), Delivery::Deliver { .. }));
    manager.confirm(&mut cache, &key, start + 3600, Ok(())).unwrap();
    let entry = cache.entries.get(&key).unwrap();
    assert_eq!(*entry, CacheEntry { last_sent: start + 3600, count: 2 });
    assert!(matches!(manager.send(&failure(), &cache, start + 3601), Delivery::Suppressed));
}

#[test]
fn the_cooldown_is_kept_by_key() {
    let manager = manager();
    let mut cache = NotificationCache::new();
    manager.confirm(&mut cache, "postgres:local:Failure", 1000, Ok(())).unwrap();
    let other_destination = Notification::failure("postgres", Some("remote"), "x", None);
    let other_service = Notification::failure("mysql", Some("local"), "x", None);
    let other_kind = Notification::success("postgres", Some("local"), 3);
    assert!(matches!(manager.send(&failure(), &cache, 1001), Delivery::Suppressed));
    assert!(matches!(manager.send(&other_destination, &cache, 1001), Delivery::Deliver { .. }));
    assert!(matches!(manager.send(&other_service, &cache, 1001), Delivery::Deliver { .. }));
    assert!(matches!(manager.send(&other_kind, &cache, 1001), Delivery::Deliver { .. }));
}

#[test]
fn a_failed_delivery_leaves_the_cache_alone() {
    let manager = manager();
    let mut cache = NotificationCache::new();
    let result = manager.confirm(&mut cache, "postgres:local:Failure", 1000, Err("503".to_string()));
    assert!(matches!(result, Err(NotificationError::DeliveryFailed(ref m)) if m == "503"));
    assert!(cache.entries.is_empty());
    assert!(matches!(manager.send(&failure(), &cache, 1001), Delivery::Deliver { .. }));
    manager.confirm(&mut cache, "postgres:local:Failure", 1001, Ok(())).unwrap();
    let result = manager.confirm(&mut cache, "postgres:local:Failure", 9000, Err("x".to_string()));
    assert!(result.is_err());
    assert_eq!(
        *cache.entries.get("postgres:local:Failure").unwrap(),
        CacheEntry { last_sent: 1001, count: 1 }
    );
}

#[test]
fn old_entries_leave_the_cache_on_every_write() {
    let mut cache = NotificationCache::new();
    cache.update("old", 1000);
    cache.update("edge", 13_600);
    cache.update("young", 50_000);
    assert_eq!(cache.entries.len(), 3);
    cache.update("now", 100_000);
    assert_eq!(cache.entries.keys(), vec!["young".to_string(), "now".to_string()]);
    cache.update("young", 100_001);
    assert_eq!(*cache.entries.get("young").unwrap(), CacheEntry { last_sent: 100_001, count: 2 });
    assert_eq!(cache.entries.keys(), vec!["young".to_string(), "now".to_string()]);
    let mut early = NotificationCache::new();
    early.update("first", 0);
    assert!(early.entries.is_empty());
    early.update("first", 1);
    assert_eq!(*early.entries.get("first").unwrap(), CacheEntry { last_sent: 1, count: 1 });
}

#[test]
fn the_count_stays_at_its_largest_value() {
    let mut cache = NotificationCache::new();
    cache.entries.insert("k".to_string(), CacheEntry { last_sent: 10, count: u32::MAX - 1 });
    cache.update("k", 20);
    assert_eq!(cache.entries.get("k").unwrap().count, u32::MAX);
    cache.update("k", 30);
    assert_eq!(*cache.entries.get("k").unwrap(), CacheEntry { last_sent: 30, count: u32::MAX });
}

#[test]
fn the_cooldown_is_counted_in_minutes() {
    let mut cache = NotificationCache::new();
    cache.update("k", 1000);
    assert!(cache.is_rate_limited("k", 1000, 1));
    assert!(cache.is_rate_limited("k", 1059, 1));
    assert!(!cache.is_rate_limited("k", 1060, 1));
    assert!(!cache.is_rate_limited("k", 1000, 0));
    assert!(cache.is_rate_limited("k", u64::MAX, u64::MAX));
    assert!(!cache.is_rate_limited("other", 1000, 60));
    assert!(cache.is_rate_limited("k", 5, 1));
}

#[test]
fn a_disabled_kind_is_not_even_looked_up() {
    let manager = manager();
    let cache = NotificationCache::new();
    let warning = Notification::warning("web", None, "w");
    assert!(matches!(manager.send(&warning, &cache, 1), Delivery::Disabled));
    assert!(matches!(manager.send_warning("web", None, "w", &cache, 1), Delivery::Disabled));
    assert!(matches!(
        manager.send_long_running("web", None, 9000, 120, &cache, 1),
        Delivery::Disabled
    ));
    let silent = NotificationManager::with_cache_path(
        settings("", vec![NotifyEvent::Failure]),
        "/tmp/c.json".to_string(),
    );
    assert!(matches!(silent.send(&failure(), &cache, 1), Delivery::Disabled));
}

#[test]
fn the_named_senders_build_their_events() {
    let manager = manager();
    let cache = NotificationCache::new();
    match manager.send_failure("web", Some("remote"), "boom", Some(61), &cache, 0) {
        Delivery::Deliver { key, payload } => {
            assert_eq!(key, "web:remote:Failure");
            assert_eq!(
                payload.embeds[0].description,
                Some("Backup failed for service 'web'".to_string())
            );
            assert_eq!(payload.embeds[0].fields[2].value, "1m 1s");
            assert_eq!(payload.embeds[0].fields[3].value, "```\nboom\n```");
        },
        other => panic!("not delivered: {:?}", other),
    }
    match manager.send_success("web", None, 3600, &cache, 0) {
        Delivery::Deliver { key, payload } => {
            assert_eq!(key, "web:all:Success");
            assert_eq!(payload.embeds[0].fields.len(), 2);
            assert_eq!(payload.embeds[0].fields[1].value, "1h");
        },
        other => panic!("not delivered: {:?}", other),
    }
}
