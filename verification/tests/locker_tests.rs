use restic_manager::managers::backup::ExecutionError;
use restic_manager::utils::locker::{lock_path, LockManager};

#[test]
fn test_lock_acquire_and_release() {
    let service = "test-service";
    let mut manager = LockManager::new();

    // Acquire lock
    let lock = manager.acquire(service).expect("Failed to acquire lock");
    assert_eq!(lock.path(), "/tmp/restic-manager-test-service.lock");

    // Try to acquire again (should fail)
    let result = manager.acquire(service);
    assert!(result.is_err());

    // Drop lock
    manager.release(lock);

    // Should be able to acquire again
    let lock2 = manager.acquire(service).expect("Failed to acquire lock after release");
    manager.release(lock2);
}

#[test]
fn a_second_acquire_is_refused_as_busy_until_the_first_is_released() {
    let mut manager = LockManager::new();
    let first = manager.acquire("svc").unwrap();
    assert_eq!(first.service(), "svc");
    assert!(manager.is_held("svc"));
    let second = manager.acquire("svc");
    assert!(matches!(second, Err(ExecutionError::ServiceBusy(ref s)) if s == "svc"));
    assert_eq!(
        second.unwrap_err().message(),
        "Service 'svc' is already being backed up (lock held)"
    );
    assert!(manager.is_held("svc"));
    manager.release(first);
    assert!(!manager.is_held("svc"));
    let third = manager.acquire("svc");
    assert!(third.is_ok());
}

#[test]
fn locks_of_different_services_do_not_meet() {
    let mut manager = LockManager::new();
    let a = manager.acquire("a").unwrap();
    let b = manager.acquire("b").unwrap();
    let ab = manager.acquire("ab").unwrap();
    assert!(manager.acquire("a").is_err());
    assert!(manager.acquire("b").is_err());
    manager.release(a);
    assert!(!manager.is_held("a"));
    assert!(manager.is_held("b"));
    assert!(manager.is_held("ab"));
    assert!(manager.acquire("b").is_err());
    let again = manager.acquire("a").unwrap();
    manager.release(b);
    manager.release(ab);
    manager.release(again);
    assert!(!manager.is_held("a") && !manager.is_held("b") && !manager.is_held("ab"));
}

#[test]
fn the_lock_file_is_named_after_the_service() {
    assert_eq!(lock_path("postgres"), "/tmp/restic-manager-postgres.lock");
    assert_eq!(lock_path(""), "/tmp/restic-manager-.lock");
    assert_eq!(lock_path("postgres"), lock_path("postgres"));
    assert_ne!(lock_path("postgres"), lock_path("postgres2"));
}
