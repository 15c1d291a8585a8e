//! The shapes in which the REST adapter takes requests and gives answers, and
//! the operations it offers on top of the service.

use vstd::prelude::*;
use vstd::std_specs::convert::FromSpecImpl;
use crate::entity::NotificationEntity;
use crate::error::ApplicationError;
use crate::identifier::{id_to_string, is_version_four, uuid_parsed, uuid_text};
use crate::notification::Notification;
use crate::service::{
    create_outcome,
    fetch_outcome,
    is_invalid_input,
    list_outcome,
    mark_deleted_outcome,
    mark_seen_outcome,
    NotificationServicePort,
};
use crate::time::Timestamp;

verus! {

/// The body of a request to create a notification.
#[derive(Debug)]
pub struct CreateNotificationRequest {
    pub message: String,
}

/// A notification as the REST adapter shows it: the identifier in its text
/// form, the message and the two flags.
#[derive(Debug)]
pub struct NotificationResponse {
    pub uuid: String,
    pub message: String,
    pub seen: bool,
    pub deleted: bool,
}

/// The response shows this notification: its identifier in the text form that
/// reads back as the same identifier, its message and its flags.
pub open spec fn shows(response: NotificationResponse, notification: Notification) -> bool {
    &&& response.uuid@ == uuid_text(notification.uuid)
    &&& uuid_parsed(response.uuid@) == Some(notification.uuid)
    &&& response.uuid@.len() == 36
    &&& response.message == notification.message
    &&& response.seen == notification.seen
    &&& response.deleted == notification.deleted
}

impl From<Notification> for NotificationResponse {
    fn from(notification: Notification) -> (r: Self)
        ensures
            shows(r, notification),
    {
        NotificationResponse {
            uuid: id_to_string(notification.uuid),
            message: notification.message,
            seen: notification.seen,
            deleted: notification.deleted,
        }
    }
}

impl FromSpecImpl<Notification> for NotificationResponse {
    /// The identifier's text is known by its characters only, so the
    /// conversion is described by `shows` and not by a value.
    open spec fn obeys_from_spec() -> bool {
        false
    }

    open spec fn from_spec(notification: Notification) -> Self {
        arbitrary()
    }
}

/// The responses for a list of notifications, in the same order.
pub fn responses_of(notifications: Vec<Notification>) -> (r: Vec<NotificationResponse>)
    ensures
        r@.len() == notifications@.len(),
        forall|i: int| 0 <= i < r@.len() ==> shows(#[trigger] r@[i], notifications@[i]),
{
    let mut responses: Vec<NotificationResponse> = Vec::new();
    let mut i: usize = 0;
    while i < notifications.len()
        invariant
            i <= notifications@.len(),
            responses@.len() == i,
            forall|k: int| 0 <= k < i ==> shows(#[trigger] responses@[k], notifications@[k]),
        decreases notifications@.len() - i,
    {
        responses.push(NotificationResponse::from(notifications[i].clone()));
        i += 1;
    }
    responses
}

/// The answer passes on what the service answered: a failure as it is, a
/// notification as the response that shows it.
pub open spec fn passes_on(
    answer: Result<NotificationResponse, ApplicationError>,
    inner: Result<Notification, ApplicationError>,
) -> bool {
    match inner {
        Ok(notification) => answer is Ok && shows(answer->Ok_0, notification),
        Err(e) => answer == Err::<NotificationResponse, ApplicationError>(e),
    }
}

/// The answer passes on the list that the service answered, entry by entry
/// and in its order, or its failure.
pub open spec fn passes_on_all(
    answer: Result<Vec<NotificationResponse>, ApplicationError>,
    inner: Result<Vec<Notification>, ApplicationError>,
) -> bool {
    match inner {
        Ok(list) => answer is Ok && answer->Ok_0@.len() == list@.len() && forall|i: int|
            0 <= i < list@.len() ==> shows(#[trigger] answer->Ok_0@[i], list@[i]),
        Err(e) => answer == Err::<Vec<NotificationResponse>, ApplicationError>(e),
    }
}

/// The operations of the REST adapter, free of any transport: each takes what
/// a request carries and gives what the response carries.
pub struct NotificationApi<S: NotificationServicePort> {
    notification_service: S,
}

impl<S: NotificationServicePort> NotificationApi<S> {
    /// The records in the store behind the service.
    pub closed spec fn records(&self) -> Map<u128, NotificationEntity> {
        self.notification_service.records()
    }

    /// The store behind the service has no storage failures.
    pub closed spec fn reliable(&self) -> bool {
        self.notification_service.reliable()
    }

    /// What the service needs to hold of itself between calls.
    pub closed spec fn inv(&self) -> bool {
        self.notification_service.inv()
    }

    /// The adapter has no state beside the service.
    proof fn lemma_shows_the_service(&self)
        ensures
            self.records() == self.notification_service.records(),
            self.reliable() == self.notification_service.reliable(),
            self.inv() == self.notification_service.inv(),
    {
    }

    pub fn new(notification_service: S) -> (r: Self)
        ensures
            r.records() == notification_service.records(),
            r.reliable() == notification_service.reliable(),
            r.inv() == notification_service.inv(),
    {
        NotificationApi { notification_service }
    }

    /// Creates a notification from the request and shows it.
    pub fn create_notification(&mut self, payload: CreateNotificationRequest) -> (r: Result<
        NotificationResponse,
        ApplicationError,
    >)
        requires
            old(self).inv(),
        ensures
            final(self).inv(),
            final(self).reliable() == old(self).reliable(),
            exists|uuid: u128, now: Timestamp, inner: Result<Notification, ApplicationError>|
                is_version_four(uuid) && #[trigger] create_outcome(
                    old(self).records(),
                    old(self).reliable(),
                    uuid,
                    payload.message,
                    now,
                    final(self).records(),
                    inner,
                ) && passes_on(r, inner),
    {
        let created = self.notification_service.create_notification(payload.message);
        proof {
            old(self).lemma_shows_the_service();
            self.lemma_shows_the_service();
        }
        match created {
            Ok(notification) => Ok(NotificationResponse::from(notification)),
            Err(e) => Err(e),
        }
    }

    /// Shows the notification with this identifier.
    pub fn get_notification(&self, uuid: String) -> (r: Result<
        NotificationResponse,
        ApplicationError,
    >)
        requires
            self.inv(),
        ensures
            match uuid_parsed(uuid@) {
                Some(id) => exists|inner: Result<Notification, ApplicationError>| #[trigger]
                    fetch_outcome(self.records(), self.reliable(), id, inner) && passes_on(
                        r,
                        inner,
                    ),
                None => is_invalid_input(r),
            },
    {
        proof {
            self.lemma_shows_the_service();
        }
        match self.notification_service.get_notification(uuid) {
            Ok(notification) => Ok(NotificationResponse::from(notification)),
            Err(e) => Err(e),
        }
    }

    /// Shows all notifications.
    pub fn get_notifications(&self) -> (r: Result<Vec<NotificationResponse>, ApplicationError>)
        requires
            self.inv(),
        ensures
            exists|inner: Result<Vec<Notification>, ApplicationError>| #[trigger]
                list_outcome(self.records(), self.reliable(), inner) && passes_on_all(r, inner),
    {
        proof {
            self.lemma_shows_the_service();
        }
        match self.notification_service.list_notifications() {
            Ok(notifications) => Ok(responses_of(notifications)),
            Err(e) => Err(e),
        }
    }

    /// Marks the notification with this identifier seen.
    pub fn mark_as_seen(&mut self, uuid: String) -> (r: Result<bool, ApplicationError>)
        requires
            old(self).inv(),
        ensures
            final(self).inv(),
            final(self).reliable() == old(self).reliable(),
            match uuid_parsed(uuid@) {
                Some(id) => exists|now: Timestamp| #[trigger]
                    mark_seen_outcome(
                        old(self).records(),
                        old(self).reliable(),
                        id,
                        now,
                        final(self).records(),
                        r,
                    ),
                None => is_invalid_input(r) && final(self).records() == old(self).records(),
            },
    {
        let r = self.notification_service.mark_as_seen(uuid);
        proof {
            old(self).lemma_shows_the_service();
            self.lemma_shows_the_service();
        }
        r
    }

    /// Marks the notification with this identifier deleted.
    pub fn mark_as_deleted(&mut self, uuid: String) -> (r: Result<bool, ApplicationError>)
        requires
            old(self).inv(),
        ensures
            final(self).inv(),
            final(self).reliable() == old(self).reliable(),
            match uuid_parsed(uuid@) {
                Some(id) => exists|now: Timestamp| #[trigger]
                    mark_deleted_outcome(
                        old(self).records(),
                        old(self).reliable(),
                        id,
                        now,
                        final(self).records(),
                        r,
                    ),
                None => is_invalid_input(r) && final(self).records() == old(self).records(),
            },
    {
        let r = self.notification_service.mark_as_deleted(uuid);
        proof {
            old(self).lemma_shows_the_service();
            self.lemma_shows_the_service();
        }
        r
    }
}

} // verus!
