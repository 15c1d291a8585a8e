use notifications::entity::NotificationEntity;
use notifications::error::ApplicationError;
use notifications::identifier::{id_from_parsed, id_to_string, parse_id};
use notifications::notification::Notification;
use notifications::repository::{InMemoryNotificationRepository, NotificationRepositoryPort};
use notifications::service::{
    notifications_of, NotificationServiceImplementation, NotificationServicePort,
};
use notifications::time::Timestamp;
use uuid::Uuid;

fn generate_random_notification() -> Notification {
    let random_message = Uuid::new_v4().to_string();
    Notification::new(random_message).unwrap()
}

fn service_over(
    notifications: Vec<Notification>,
) -> NotificationServiceImplementation<InMemoryNotificationRepository> {
    let mut repository = InMemoryNotificationRepository::new();
    for notification in notifications {
        let entity: NotificationEntity = notification.into();
        repository.save(&entity).unwrap();
    }
    NotificationServiceImplementation::new(repository)
}

#[test]
fn notification_service_implementation_test_create_notification_success() {
    let notification = generate_random_notification();
    let message = id_to_string(notification.uuid);

    let mut notification_service = service_over(vec![]);

    let result = notification_service.create_notification(message.clone());

    let result = result.unwrap();

    assert_eq!(result.message, message);
    assert_eq!(result.seen, false);
    assert_eq!(result.deleted, false);
}

#[test]
fn notification_service_implementation_test_get_notification_success() {
    let mut notification = generate_random_notification();
    notification.seen = true;

    let message = notification.message.clone().to_string();
    let uuid_to_look_for = notification.uuid;
    let uuid_to_look_for_as_string = id_to_string(notification.uuid);

    let notification_service = service_over(vec![notification]);

    let result = notification_service.get_notification(uuid_to_look_for_as_string.clone());

    let result = result.unwrap();

    assert_eq!(result.message, message);
    assert!(result.seen);
    assert_eq!(result.deleted, false);
    assert_eq!(result.uuid, uuid_to_look_for);
}

#[test]
fn test_list_notifications_success() {
    let mut notifications: Vec<Notification> = Vec::new();
    for _ in 0..10 {
        notifications.push(generate_random_notification());
    }
    let notification_service = service_over(notifications);

    let result = notification_service.list_notifications().unwrap();

    assert_eq!(result.len(), 10);
}

#[test]
fn test_list_notifications_with_empty_result_success() {
    let notification_service = service_over(vec![]);

    let result = notification_service.list_notifications().unwrap();

    assert_eq!(result.len(), 0);
}

#[test]
fn notification_service_implementation_test_mark_as_seen_success() {
    let notification = generate_random_notification();
    let uuid_to_search_for = id_to_string(notification.uuid);

    let mut service = service_over(vec![notification]);

    let result = service.mark_as_seen(uuid_to_search_for);

    assert!(result.is_ok());
    assert!(result.unwrap());
}

#[test]
fn notification_service_implementation_test_mark_as_deleted_success() {
    let notification = generate_random_notification();
    let uuid_to_search_for = id_to_string(notification.uuid);

    let mut service = service_over(vec![notification]);

    let result = service.mark_as_deleted(uuid_to_search_for);

    assert!(result.is_ok());
    assert!(result.unwrap());
}

#[test]
fn created_notification_is_unseen_and_stamped_once() {
    let mut service = service_over(vec![]);
    let created = service.create_notification("fresh".to_string()).unwrap();
    assert_eq!(created.message, "fresh");
    assert!(!created.seen);
    assert!(!created.deleted);
    assert_eq!(created.date_created, created.last_updated);
    let read = service.get_notification(id_to_string(created.uuid)).unwrap();
    assert_eq!(read.uuid, created.uuid);
    assert_eq!(read.message, "fresh");
    assert_eq!(read.date_created, created.date_created);
}

#[test]
fn create_with_stores_exactly_what_it_answers() {
    let mut service = service_over(vec![]);
    let now = Timestamp::new(1_700_000_000, 17);
    let created = service.create_notification_with(77, "exact".to_string(), now).unwrap();
    assert_eq!(created.uuid, 77);
    assert_eq!(created.message, "exact");
    assert_eq!(created.date_created, now);
    assert_eq!(created.last_updated, now);
    let read = service.get_notification_by_id(77).unwrap();
    assert_eq!(read.uuid, 77);
    assert_eq!(read.message, "exact");
    assert!(!read.seen);
    assert!(!read.deleted);
    assert_eq!(read.date_created, now);
    assert_eq!(read.last_updated, now);
}

#[test]
fn create_rejects_an_empty_message_and_stores_nothing() {
    let mut service = service_over(vec![]);
    let result = service.create_notification(String::new());
    assert!(matches!(result, Err(ApplicationError::InvalidInput(_))));
    assert_eq!(service.list_notifications().unwrap().len(), 0);
}

#[test]
fn seen_shows_after_mark_as_seen() {
    let mut service = service_over(vec![]);
    let created = service.create_notification("watch me".to_string()).unwrap();
    let id = id_to_string(created.uuid);
    assert!(service.mark_as_seen(id.clone()).unwrap());
    let read = service.get_notification(id).unwrap();
    assert!(read.seen);
    assert!(!read.deleted);
    assert_eq!(read.message, "watch me");
}

#[test]
fn seen_and_deleted_show_after_mark_as_deleted() {
    let mut service = service_over(vec![]);
    let created = service.create_notification("drop me".to_string()).unwrap();
    let id = id_to_string(created.uuid);
    assert!(service.mark_as_deleted(id.clone()).unwrap());
    let read = service.get_notification(id).unwrap();
    assert!(read.seen);
    assert!(read.deleted);
}

#[test]
fn mark_as_seen_twice_answers_true_twice() {
    let mut service = service_over(vec![]);
    service
        .create_notification_with(5, "again".to_string(), Timestamp::new(10, 0))
        .unwrap();
    assert!(service.mark_as_seen_at(5, Timestamp::new(20, 0)).unwrap());
    assert!(service.mark_as_seen_at(5, Timestamp::new(30, 0)).unwrap());
    let read = service.get_notification_by_id(5).unwrap();
    assert!(read.seen);
    assert_eq!(read.last_updated, Timestamp::new(20, 0));
    assert_eq!(service.list_notifications().unwrap().len(), 1);
}

#[test]
fn mark_as_deleted_after_deletion_changes_nothing() {
    let mut service = service_over(vec![]);
    service
        .create_notification_with(5, "gone".to_string(), Timestamp::new(10, 0))
        .unwrap();
    assert!(service.mark_as_deleted_at(5, Timestamp::new(20, 0)).unwrap());
    assert!(service.mark_as_deleted_at(5, Timestamp::new(30, 0)).unwrap());
    assert!(service.mark_as_seen_at(5, Timestamp::new(40, 0)).unwrap());
    let read = service.get_notification_by_id(5).unwrap();
    assert!(read.seen);
    assert!(read.deleted);
    assert_eq!(read.last_updated, Timestamp::new(20, 0));
}

#[test]
fn unknown_id_is_not_found() {
    let mut service = service_over(vec![generate_random_notification()]);
    let unknown = "550e8400-e29b-41d4-a716-446655440000".to_string();
    assert!(matches!(
        service.get_notification(unknown.clone()),
        Err(ApplicationError::NotFound(_))
    ));
    assert!(matches!(
        service.mark_as_seen(unknown.clone()),
        Err(ApplicationError::NotFound(_))
    ));
    assert!(matches!(
        service.mark_as_deleted(unknown),
        Err(ApplicationError::NotFound(_))
    ));
    assert_eq!(service.list_notifications().unwrap().len(), 1);
}

#[test]
fn malformed_id_is_invalid_input() {
    let mut service = service_over(vec![generate_random_notification()]);
    assert!(matches!(
        service.get_notification("not-a-uuid".to_string()),
        Err(ApplicationError::InvalidInput(_))
    ));
    assert!(matches!(
        service.mark_as_seen(String::new()),
        Err(ApplicationError::InvalidInput(_))
    ));
    assert!(matches!(
        service.mark_as_deleted("550e8400-e29b-41d4-a716".to_string()),
        Err(ApplicationError::InvalidInput(_))
    ));
}

#[test]
fn hello_goes_through_its_whole_life() {
    let mut service = service_over(vec![]);
    let created = service.create_notification("hello".to_string()).unwrap();
    let id = id_to_string(created.uuid);
    assert!(!id.is_empty());
    assert_eq!(created.message, "hello");
    assert!(!created.seen);
    assert!(!created.deleted);

    assert_eq!(service.mark_as_seen(id.clone()).unwrap(), true);
    let read = service.get_notification(id.clone()).unwrap();
    assert!(read.seen);
    assert!(!read.deleted);

    assert_eq!(service.mark_as_deleted(id.clone()).unwrap(), true);
    let read = service.get_notification(id).unwrap();
    assert!(read.seen);
    assert!(read.deleted);
}

#[test]
fn listing_two_notifications_gives_both() {
    let mut service = service_over(vec![]);
    service.create_notification("a".to_string()).unwrap();
    service.create_notification("b".to_string()).unwrap();
    let list = service.list_notifications().unwrap();
    assert_eq!(list.len(), 2);
    let mut messages: Vec<String> = list.into_iter().map(|n| n.message).collect();
    messages.sort();
    assert_eq!(messages, vec!["a".to_string(), "b".to_string()]);
}

#[test]
fn parse_id_reads_the_hexadecimal_digits() {
    assert_eq!(
        parse_id("550e8400-e29b-41d4-a716-446655440000").unwrap(),
        0x550e8400e29b41d4a716446655440000
    );
    assert_eq!(
        parse_id("550e8400e29b41d4a716446655440000").unwrap(),
        0x550e8400e29b41d4a716446655440000
    );
    assert!(matches!(parse_id("hello"), Err(ApplicationError::InvalidInput(_))));
    assert!(matches!(parse_id(""), Err(ApplicationError::InvalidInput(_))));
}

#[test]
fn id_from_parsed_keeps_the_identifier() {
    assert_eq!(id_from_parsed(Some(12)).unwrap(), 12);
    assert!(matches!(id_from_parsed(None), Err(ApplicationError::InvalidInput(_))));
}

#[test]
fn id_to_string_writes_the_hyphenated_form() {
    let text = id_to_string(0xa1a2a3a4b1b2c1c2d1d2d3d4d5d6d7d8);
    assert_eq!(text, "a1a2a3a4-b1b2-c1c2-d1d2-d3d4d5d6d7d8");
    assert_eq!(text.len(), 36);
    assert_eq!(parse_id(&text).unwrap(), 0xa1a2a3a4b1b2c1c2d1d2d3d4d5d6d7d8);
    assert_eq!(id_to_string(0), "00000000-0000-0000-0000-000000000000");
}

#[test]
fn id_text_agrees_with_the_uuid_crate() {
    let uuid = Uuid::new_v4();
    assert_eq!(id_to_string(uuid.as_u128()), uuid.to_string());
    assert_eq!(parse_id(&uuid.to_string()).unwrap(), uuid.as_u128());
}

#[test]
fn repository_saves_by_identifier() {
    let mut repository = InMemoryNotificationRepository::new();
    assert_eq!(repository.len(), 0);
    assert!(matches!(repository.get(&1), Err(ApplicationError::NotFound(_))));
    assert_eq!(repository.get_all().unwrap().len(), 0);

    let first = NotificationEntity {
        uuid: 1,
        message: "one".to_string(),
        seen: false,
        deleted: false,
        date_created: Timestamp::new(1, 0),
        last_updated: Timestamp::new(1, 0),
    };
    let second = NotificationEntity { uuid: 2, message: "two".to_string(), ..first.clone() };
    assert_eq!(repository.save(&first).unwrap(), first);
    assert_eq!(repository.save(&second).unwrap(), second);
    assert_eq!(repository.len(), 2);

    let changed = NotificationEntity { seen: true, ..first.clone() };
    assert_eq!(repository.save(&changed).unwrap(), changed);
    assert_eq!(repository.len(), 2);
    assert_eq!(repository.get(&1).unwrap(), changed);
    assert_eq!(repository.get(&2).unwrap(), second);
    assert!(matches!(repository.get(&3), Err(ApplicationError::NotFound(_))));
    assert_eq!(repository.get_all().unwrap(), vec![changed, second]);
}

#[test]
fn notifications_of_keeps_the_order() {
    let entities = vec![
        NotificationEntity {
            uuid: 3,
            message: "three".to_string(),
            seen: true,
            deleted: false,
            date_created: Timestamp::new(1, 0),
            last_updated: Timestamp::new(2, 0),
        },
        NotificationEntity {
            uuid: 4,
            message: "four".to_string(),
            seen: true,
            deleted: true,
            date_created: Timestamp::new(3, 0),
            last_updated: Timestamp::new(4, 0),
        },
    ];
    let list = notifications_of(entities);
    assert_eq!(list.len(), 2);
    assert_eq!(list[0].uuid, 3);
    assert_eq!(list[0].message, "three");
    assert!(list[0].seen && !list[0].deleted);
    assert_eq!(list[1].uuid, 4);
    assert_eq!(list[1].message, "four");
    assert!(list[1].seen && list[1].deleted);
    assert_eq!(list[1].last_updated, Timestamp::new(4, 0));
}
