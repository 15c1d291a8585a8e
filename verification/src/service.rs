//! The notification service: the one place where notifications are created,
//! read and moved through their lifecycle, on top of a store.

use vstd::prelude::*;
use crate::entity::{notification_of, record_of, NotificationEntity};
use crate::error::ApplicationError;
use crate::identifier::{is_version_four, parse_id, random_uuid, uuid_parsed};
use crate::notification::Notification;
use crate::repository::NotificationRepositoryPort;
use crate::time::{ClockService, Timestamp};

verus! {

/// The answer is the failure `InvalidInput`.
pub open spec fn is_invalid_input<T>(r: Result<T, ApplicationError>) -> bool {
    r is Err && r->Err_0 is InvalidInput
}

/// What creating a notification answers and leaves in the store. An empty
/// message is `InvalidInput` and nothing is stored. Otherwise the new
/// notification is unseen, not deleted, created and updated at `now`, and it
/// is stored under its identifier; or the storage fails, which a reliable
/// store does not, and the store stays as it was.
pub open spec fn create_outcome(
    pre: Map<u128, NotificationEntity>,
    reliable: bool,
    uuid: u128,
    message: String,
    now: Timestamp,
    post: Map<u128, NotificationEntity>,
    r: Result<Notification, ApplicationError>,
) -> bool {
    if message@.len() == 0 {
        is_invalid_input(r) && post == pre
    } else {
        match r {
            Ok(created) => created == Notification::fresh(uuid, message, now) && post
                == pre.insert(uuid, record_of(created)),
            Err(e) => e is InternalError && !reliable && post == pre,
        }
    }
}

/// What reading one notification answers: the stored notification, or
/// `NotFound` where none has the identifier, or a storage failure, which a
/// reliable store does not have.
pub open spec fn fetch_outcome(
    records: Map<u128, NotificationEntity>,
    reliable: bool,
    uuid: u128,
    r: Result<Notification, ApplicationError>,
) -> bool {
    match r {
        Ok(found) => records.contains_key(uuid) && found == notification_of(records[uuid])
            && found.uuid == uuid,
        Err(e) => if records.contains_key(uuid) {
            e is InternalError && !reliable
        } else {
            e is NotFound
        },
    }
}

/// The list shows every stored notification once, each as it is stored, and
/// nothing else. The order is left open.
pub open spec fn shows_exactly(
    list: Seq<Notification>,
    records: Map<u128, NotificationEntity>,
) -> bool {
    &&& forall|i: int|
        0 <= i < list.len() ==> records.contains_key((#[trigger] list[i]).uuid)
            && notification_of(records[list[i].uuid]) == list[i]
    &&& forall|uuid: u128| #[trigger]
        records.contains_key(uuid) ==> exists|i: int|
            0 <= i < list.len() && (#[trigger] list[i]).uuid == uuid
    &&& forall|i: int, j: int|
        0 <= i < j < list.len() ==> (#[trigger] list[i]).uuid != (#[trigger] list[j]).uuid
}

/// What listing answers: all stored notifications, or a storage failure,
/// which a reliable store does not have. An empty store is no failure.
pub open spec fn list_outcome(
    records: Map<u128, NotificationEntity>,
    reliable: bool,
    r: Result<Vec<Notification>, ApplicationError>,
) -> bool {
    match r {
        Ok(list) => shows_exactly(list@, records),
        Err(e) => e is InternalError && !reliable,
    }
}

/// What marking a notification seen answers and leaves in the store. On
/// success the answer is `true` and the stored notification is the old one
/// marked seen at `now`. Where no notification has the identifier the answer
/// is `NotFound`; the only other failure is one of the storage. A failure
/// leaves the store as it was.
pub open spec fn mark_seen_outcome(
    pre: Map<u128, NotificationEntity>,
    reliable: bool,
    uuid: u128,
    now: Timestamp,
    post: Map<u128, NotificationEntity>,
    r: Result<bool, ApplicationError>,
) -> bool {
    match r {
        Ok(flag) => flag && pre.contains_key(uuid) && post == pre.insert(
            uuid,
            record_of(notification_of(pre[uuid]).seen_at(now)),
        ),
        Err(e) => post == pre && if pre.contains_key(uuid) {
            e is InternalError && !reliable
        } else {
            e is NotFound
        },
    }
}

/// What marking a notification deleted answers and leaves in the store: as
/// for marking it seen, with the stored notification marked deleted at `now`.
pub open spec fn mark_deleted_outcome(
    pre: Map<u128, NotificationEntity>,
    reliable: bool,
    uuid: u128,
    now: Timestamp,
    post: Map<u128, NotificationEntity>,
    r: Result<bool, ApplicationError>,
) -> bool {
    match r {
        Ok(flag) => flag && pre.contains_key(uuid) && post == pre.insert(
            uuid,
            record_of(notification_of(pre[uuid]).deleted_at(now)),
        ),
        Err(e) => post == pre && if pre.contains_key(uuid) {
            e is InternalError && !reliable
        } else {
            e is NotFound
        },
    }
}

/// The business operations on notifications. Identifiers travel as text; a
/// text that is no UUID is `InvalidInput`.
pub trait NotificationServicePort {
    /// The records in the store behind the service.
    spec fn records(&self) -> Map<u128, NotificationEntity>;

    /// The store behind the service has no storage failures.
    spec fn reliable(&self) -> bool;

    /// What the service needs to hold of itself between calls.
    spec fn inv(&self) -> bool;

    /// Creates a notification with a random identifier, stamped with the
    /// current time, and stores it.
    fn create_notification(&mut self, message: String) -> (r: Result<
        Notification,
        ApplicationError,
    >)
        requires
            old(self).inv(),
        ensures
            final(self).inv(),
            final(self).reliable() == old(self).reliable(),
            exists|uuid: u128, now: Timestamp|
                is_version_four(uuid) && #[trigger] create_outcome(
                    old(self).records(),
                    old(self).reliable(),
                    uuid,
                    message,
                    now,
                    final(self).records(),
                    r,
                ),
    ;

    /// The notification with this identifier.
    fn get_notification(&self, uuid: String) -> (r: Result<Notification, ApplicationError>)
        requires
            self.inv(),
        ensures
            match uuid_parsed(uuid@) {
                Some(id) => fetch_outcome(self.records(), self.reliable(), id, r),
                None => is_invalid_input(r),
            },
    ;

    /// All notifications, in no particular order.
    fn list_notifications(&self) -> (r: Result<Vec<Notification>, ApplicationError>)
        requires
            self.inv(),
        ensures
            list_outcome(self.records(), self.reliable(), r),
    ;

    /// Marks the notification seen at the current time and answers its
    /// `seen` flag.
    fn mark_as_seen(&mut self, uuid: String) -> (r: Result<bool, ApplicationError>)
        requires
            old(self).inv(),
        ensures
            final(self).inv(),
            final(self).reliable() == old(self).reliable(),
            match uuid_parsed(uuid@) {
                Some(id) => exists|now: Timestamp| #[trigger]
                    mark_seen_outcome(
                        old(self).records(),
                        old(self).reliable(),
                        id,
                        now,
                        final(self).records(),
                        r,
                    ),
                None => is_invalid_input(r) && final(self).records() == old(self).records(),
            },
    ;

    /// Marks the notification deleted at the current time and answers its
    /// `deleted` flag.
    fn mark_as_deleted(&mut self, uuid: String) -> (r: Result<bool, ApplicationError>)
        requires
            old(self).inv(),
        ensures
            final(self).inv(),
            final(self).reliable() == old(self).reliable(),
            match uuid_parsed(uuid@) {
                Some(id) => exists|now: Timestamp| #[trigger]
                    mark_deleted_outcome(
                        old(self).records(),
                        old(self).reliable(),
                        id,
                        now,
                        final(self).records(),
                        r,
                    ),
                None => is_invalid_input(r) && final(self).records() == old(self).records(),
            },
    ;
}

/// The notifications that a list of records holds, in the same order.
pub fn notifications_of(entities: Vec<NotificationEntity>) -> (r: Vec<Notification>)
    ensures
        r@.len() == entities@.len(),
        forall|i: int| 0 <= i < r@.len() ==> #[trigger] r@[i] == notification_of(entities@[i]),
{
    let mut list: Vec<Notification> = Vec::new();
    let mut i: usize = 0;
    while i < entities.len()
        invariant
            i <= entities@.len(),
            list@.len() == i,
            forall|k: int| 0 <= k < i ==> #[trigger] list@[k] == notification_of(entities@[k]),
        decreases entities@.len() - i,
    {
        list.push(Notification::from(entities[i].clone()));
        i += 1;
    }
    list
}

/// The service over a store of type `R`.
pub struct NotificationServiceImplementation<R: NotificationRepositoryPort> {
    notification_repository: R,
}

impl<R: NotificationRepositoryPort> NotificationServiceImplementation<R> {
    pub fn new(repository: R) -> (r: Self)
        ensures
            r.records() == repository.records(),
            r.reliable() == repository.reliable(),
            r.inv() == repository.inv(),
    {
        NotificationServiceImplementation { notification_repository: repository }
    }

    /// Creates the notification with the given identifier and creation time
    /// and stores it, in place of any record with the same identifier.
    pub fn create_notification_with(&mut self, uuid: u128, message: String, now: Timestamp) -> (r:
        Result<Notification, ApplicationError>)
        requires
            old(self).inv(),
        ensures
            final(self).inv(),
            final(self).reliable() == old(self).reliable(),
            create_outcome(
                old(self).records(),
                old(self).reliable(),
                uuid,
                message,
                now,
                final(self).records(),
                r,
            ),
    {
        match Notification::create(uuid, message, now) {
            Err(e) => Err(e),
            Ok(notification) => {
                let entity = NotificationEntity::from(notification);
                match self.notification_repository.save(&entity) {
                    Ok(stored) => Ok(Notification::from(stored)),
                    Err(e) => Err(e),
                }
            },
        }
    }

    /// The notification with this identifier.
    pub fn get_notification_by_id(&self, uuid: u128) -> (r: Result<Notification, ApplicationError>)
        requires
            self.inv(),
        ensures
            fetch_outcome(self.records(), self.reliable(), uuid, r),
    {
        match self.notification_repository.get(&uuid) {
            Ok(entity) => Ok(Notification::from(entity)),
            Err(e) => Err(e),
        }
    }

    /// Marks the notification with this identifier seen at `now`, stores it
    /// and answers the stored `seen` flag.
    pub fn mark_as_seen_at(&mut self, uuid: u128, now: Timestamp) -> (r: Result<
        bool,
        ApplicationError,
    >)
        requires
            old(self).inv(),
        ensures
            final(self).inv(),
            final(self).reliable() == old(self).reliable(),
            mark_seen_outcome(
                old(self).records(),
                old(self).reliable(),
                uuid,
                now,
                final(self).records(),
                r,
            ),
    {
        match self.notification_repository.get(&uuid) {
            Err(e) => Err(e),
            Ok(entity) => {
                let mut notification = Notification::from(entity);
                notification.mark_seen(now);
                let updated = NotificationEntity::from(notification);
                match self.notification_repository.save(&updated) {
                    Ok(stored) => Ok(stored.seen),
                    Err(e) => Err(e),
                }
            },
        }
    }

    /// Marks the notification with this identifier deleted at `now`, stores
    /// it and answers the stored `deleted` flag.
    pub fn mark_as_deleted_at(&mut self, uuid: u128, now: Timestamp) -> (r: Result<
        bool,
        ApplicationError,
    >)
        requires
            old(self).inv(),
        ensures
            final(self).inv(),
            final(self).reliable() == old(self).reliable(),
            mark_deleted_outcome(
                old(self).records(),
                old(self).reliable(),
                uuid,
                now,
                final(self).records(),
                r,
            ),
    {
        match self.notification_repository.get(&uuid) {
            Err(e) => Err(e),
            Ok(entity) => {
                let mut notification = Notification::from(entity);
                notification.mark_deleted(now);
                let updated = NotificationEntity::from(notification);
                match self.notification_repository.save(&updated) {
                    Ok(stored) => Ok(stored.deleted),
                    Err(e) => Err(e),
                }
            },
        }
    }
}

impl<R: NotificationRepositoryPort> NotificationServicePort for NotificationServiceImplementation<
    R,
> {
    closed spec fn records(&self) -> Map<u128, NotificationEntity> {
        self.notification_repository.records()
    }

    closed spec fn reliable(&self) -> bool {
        self.notification_repository.reliable()
    }

    closed spec fn inv(&self) -> bool {
        self.notification_repository.inv()
    }

    fn create_notification(&mut self, message: String) -> (r: Result<
        Notification,
        ApplicationError,
    >) {
        let now = ClockService::now();
        let uuid = random_uuid();
        self.create_notification_with(uuid, message, now)
    }

    fn get_notification(&self, uuid: String) -> (r: Result<Notification, ApplicationError>) {
        match parse_id(uuid.as_str()) {
            Ok(id) => self.get_notification_by_id(id),
            Err(e) => Err(e),
        }
    }

    fn list_notifications(&self) -> (r: Result<Vec<Notification>, ApplicationError>) {
        match self.notification_repository.get_all() {
            Ok(entities) => {
                let list = notifications_of(entities);
                proof {
                    let records = self.records();
                    assert forall|uuid: u128| #[trigger] records.contains_key(uuid) implies exists|
                        i: int,
                    |
                        0 <= i < list@.len() && (#[trigger] list@[i]).uuid == uuid by {
                        let k = choose|k: int|
                            0 <= k < entities@.len() && (#[trigger] entities@[k]).uuid == uuid;
                        assert(list@[k].uuid == uuid);
                    }
                    assert forall|i: int| 0 <= i < list@.len() implies records.contains_key(
                        (#[trigger] list@[i]).uuid,
                    ) && notification_of(records[list@[i].uuid]) == list@[i] by {
                        assert(entities@[i].uuid == list@[i].uuid);
                    }
                    assert forall|i: int, j: int| 0 <= i < j < list@.len() implies (
                    #[trigger] list@[i]).uuid != (#[trigger] list@[j]).uuid by {
                        assert(entities@[i].uuid == list@[i].uuid);
                        assert(entities@[j].uuid == list@[j].uuid);
                    }
                }
                Ok(list)
            },
            Err(e) => Err(e),
        }
    }

    fn mark_as_seen(&mut self, uuid: String) -> (r: Result<bool, ApplicationError>) {
        match parse_id(uuid.as_str()) {
            Ok(id) => {
                let now = ClockService::now();
                self.mark_as_seen_at(id, now)
            },
            Err(e) => Err(e),
        }
    }

    fn mark_as_deleted(&mut self, uuid: String) -> (r: Result<bool, ApplicationError>) {
        match parse_id(uuid.as_str()) {
            Ok(id) => {
                let now = ClockService::now();
                self.mark_as_deleted_at(id, now)
            },
            Err(e) => Err(e),
        }
    }
}

} // verus!
