use notifications::error::ApplicationError;
use notifications::notification::Notification;
use notifications::time::{ClockService, Timestamp};

#[test]
fn test_new() {
    let notification = Notification::new("test".to_string()).unwrap();
    assert_eq!(notification.message, "test");
    assert_eq!(notification.seen, false);
    assert_eq!(notification.deleted, false);
}

#[test]
fn test_set_as_seen() {
    let mut notification = Notification::new("test".to_string()).unwrap();
    notification.set_as_seen();
    assert_eq!(notification.seen, true);
}

#[test]
fn test_set_as_deleted() {
    let mut notification = Notification::new("test".to_string()).unwrap();
    notification.set_as_deleted();
    assert_eq!(notification.seen, true);
    assert_eq!(notification.deleted, true);
}

#[test]
fn new_stamps_creation_and_update_alike() {
    let notification = Notification::new("test".to_string()).unwrap();
    assert_eq!(notification.date_created, notification.last_updated);
}

#[test]
fn new_draws_a_version_four_identifier() {
    let notification = Notification::new("test".to_string()).unwrap();
    assert_eq!((notification.uuid >> 76) & 0xf, 4);
    assert_eq!((notification.uuid >> 62) & 0x3, 2);
    let other = Notification::new("test".to_string()).unwrap();
    assert_ne!(notification.uuid, other.uuid);
}

#[test]
fn new_rejects_an_empty_message() {
    let result = Notification::new(String::new());
    assert!(matches!(result, Err(ApplicationError::InvalidInput(_))));
}

#[test]
fn create_fills_every_field() {
    let now = Timestamp::new(1_700_000_000, 250);
    let notification = Notification::create(42, "hello".to_string(), now).unwrap();
    assert_eq!(notification.uuid, 42);
    assert_eq!(notification.message, "hello");
    assert!(!notification.seen);
    assert!(!notification.deleted);
    assert_eq!(notification.date_created, now);
    assert_eq!(notification.last_updated, now);
}

#[test]
fn create_rejects_an_empty_message() {
    let result = Notification::create(42, String::new(), Timestamp::new(1, 0));
    assert!(matches!(result, Err(ApplicationError::InvalidInput(_))));
}

#[test]
fn mark_seen_moves_the_update_time() {
    let mut notification =
        Notification::create(1, "m".to_string(), Timestamp::new(100, 5)).unwrap();
    notification.mark_seen(Timestamp::new(100, 6));
    assert!(notification.seen);
    assert!(!notification.deleted);
    assert_eq!(notification.date_created, Timestamp::new(100, 5));
    assert_eq!(notification.last_updated, Timestamp::new(100, 6));
}

#[test]
fn mark_seen_again_changes_nothing() {
    let mut notification =
        Notification::create(1, "m".to_string(), Timestamp::new(100, 5)).unwrap();
    notification.mark_seen(Timestamp::new(200, 0));
    notification.mark_seen(Timestamp::new(300, 0));
    assert!(notification.seen);
    assert_eq!(notification.last_updated, Timestamp::new(200, 0));
}

#[test]
fn update_time_never_moves_back() {
    let mut notification =
        Notification::create(1, "m".to_string(), Timestamp::new(100, 5)).unwrap();
    notification.mark_seen(Timestamp::new(99, 999_999_999));
    assert!(notification.seen);
    assert_eq!(notification.last_updated, Timestamp::new(100, 5));
    notification.mark_deleted(Timestamp::new(100, 4));
    assert!(notification.deleted);
    assert_eq!(notification.last_updated, Timestamp::new(100, 5));
}

#[test]
fn mark_deleted_marks_seen_too() {
    let mut notification =
        Notification::create(1, "m".to_string(), Timestamp::new(100, 5)).unwrap();
    notification.mark_deleted(Timestamp::new(101, 0));
    assert!(notification.seen);
    assert!(notification.deleted);
    assert_eq!(notification.last_updated, Timestamp::new(101, 0));
    assert_eq!(notification.date_created, Timestamp::new(100, 5));
}

#[test]
fn deleted_is_terminal() {
    let mut notification =
        Notification::create(1, "m".to_string(), Timestamp::new(100, 5)).unwrap();
    notification.mark_deleted(Timestamp::new(101, 0));
    notification.mark_deleted(Timestamp::new(102, 0));
    notification.mark_seen(Timestamp::new(103, 0));
    assert!(notification.seen);
    assert!(notification.deleted);
    assert_eq!(notification.last_updated, Timestamp::new(101, 0));
}

#[test]
fn clone_keeps_every_field() {
    let mut notification =
        Notification::create(9, "copy me".to_string(), Timestamp::new(7, 8)).unwrap();
    notification.mark_seen(Timestamp::new(9, 0));
    let copy = notification.clone();
    assert_eq!(copy.uuid, 9);
    assert_eq!(copy.message, "copy me");
    assert!(copy.seen);
    assert!(!copy.deleted);
    assert_eq!(copy.date_created, Timestamp::new(7, 8));
    assert_eq!(copy.last_updated, Timestamp::new(9, 0));
}

#[test]
fn timestamps_are_ordered_by_seconds_then_nanoseconds() {
    let early = Timestamp::new(5, 900);
    let late = Timestamp::new(6, 0);
    assert!(early.is_at_or_before(&late));
    assert!(!late.is_at_or_before(&early));
    assert!(early.is_at_or_before(&early));
    assert!(Timestamp::new(5, 899).is_at_or_before(&early));
    assert!(Timestamp::new(-1, 5).is_at_or_before(&Timestamp::new(0, 0)));
    assert_eq!(early.latest(late), late);
    assert_eq!(late.latest(early), late);
}

#[test]
fn clock_reads_a_present_day_instant() {
    let now = ClockService::now();
    assert!(now.secs > 1_600_000_000);
    assert!(now.nanos < 1_000_000_000);
    let later = ClockService::now();
    assert!(later.secs >= now.secs - 1);
}
