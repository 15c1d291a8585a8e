//! The flat record that the store keeps for a notification, and the two
//! conversions between record and notification.

use vstd::prelude::*;
use vstd::std_specs::convert::FromSpecImpl;
use crate::notification::Notification;
use crate::time::Timestamp;

verus! {

/// A notification as the store holds it.
#[derive(Debug, PartialEq)]
pub struct NotificationEntity {
    pub uuid: u128,
    pub message: String,
    pub seen: bool,
    pub deleted: bool,
    pub date_created: Timestamp,
    pub last_updated: Timestamp,
}

impl Clone for NotificationEntity {
    fn clone(&self) -> (r: Self)
        ensures
            r == *self,
    {
        NotificationEntity {
            uuid: self.uuid,
            message: self.message.clone(),
            seen: self.seen,
            deleted: self.deleted,
            date_created: self.date_created,
            last_updated: self.last_updated,
        }
    }
}

/// The record that holds a notification, field for field.
pub open spec fn record_of(notification: Notification) -> NotificationEntity {
    NotificationEntity {
        uuid: notification.uuid,
        message: notification.message,
        seen: notification.seen,
        deleted: notification.deleted,
        date_created: notification.date_created,
        last_updated: notification.last_updated,
    }
}

/// The notification that a record holds, field for field.
pub open spec fn notification_of(entity: NotificationEntity) -> Notification {
    Notification {
        uuid: entity.uuid,
        message: entity.message,
        seen: entity.seen,
        deleted: entity.deleted,
        date_created: entity.date_created,
        last_updated: entity.last_updated,
    }
}

impl From<Notification> for NotificationEntity {
    fn from(notification: Notification) -> (r: Self) {
        NotificationEntity {
            uuid: notification.uuid,
            message: notification.message,
            seen: notification.seen,
            deleted: notification.deleted,
            date_created: notification.date_created,
            last_updated: notification.last_updated,
        }
    }
}

impl FromSpecImpl<Notification> for NotificationEntity {
    open spec fn obeys_from_spec() -> bool {
        true
    }

    open spec fn from_spec(notification: Notification) -> Self {
        record_of(notification)
    }
}

impl From<NotificationEntity> for Notification {
    fn from(notification_entity: NotificationEntity) -> (r: Self) {
        Notification {
            uuid: notification_entity.uuid,
            message: notification_entity.message,
            seen: notification_entity.seen,
            deleted: notification_entity.deleted,
            date_created: notification_entity.date_created,
            last_updated: notification_entity.last_updated,
        }
    }
}

impl FromSpecImpl<NotificationEntity> for Notification {
    open spec fn obeys_from_spec() -> bool {
        true
    }

    open spec fn from_spec(notification_entity: NotificationEntity) -> Self {
        notification_of(notification_entity)
    }
}

/// The two conversions undo each other: nothing is lost either way.
pub proof fn lemma_mapping_round_trip(notification: Notification, entity: NotificationEntity)
    ensures
        notification_of(record_of(notification)) == notification,
        record_of(notification_of(entity)) == entity,
{
}

} // verus!
