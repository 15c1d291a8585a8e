//! The notification entity and its lifecycle: unseen, then seen, then deleted.

use vstd::prelude::*;
use crate::error::ApplicationError;
use crate::identifier::{is_version_four, random_uuid};
use crate::time::{ClockService, Timestamp};

verus! {

/// A text notification with its lifecycle flags.
#[derive(Debug)]
pub struct Notification {
    pub uuid: u128,
    pub message: String,
    pub seen: bool,
    pub deleted: bool,
    pub date_created: Timestamp,
    pub last_updated: Timestamp,
}

impl Clone for Notification {
    fn clone(&self) -> (r: Self)
        ensures
            r == *self,
    {
        Notification {
            uuid: self.uuid,
            message: self.message.clone(),
            seen: self.seen,
            deleted: self.deleted,
            date_created: self.date_created,
            last_updated: self.last_updated,
        }
    }
}

impl Notification {
    /// The states the lifecycle can reach: the message is not empty, a deleted
    /// notification is also seen, and the last update is not before the
    /// creation.
    pub open spec fn wf(self) -> bool {
        &&& self.message@.len() > 0
        &&& self.deleted ==> self.seen
        &&& self.date_created.at_or_before(self.last_updated)
    }

    /// The notification as it is right after creation.
    pub open spec fn fresh(uuid: u128, message: String, now: Timestamp) -> Notification {
        Notification {
            uuid,
            message,
            seen: false,
            deleted: false,
            date_created: now,
            last_updated: now,
        }
    }

    /// The notification after it was marked seen at `now`. One that is seen
    /// already stays as it is, timestamp included. Otherwise the update time
    /// moves to `now`, unless `now` lies before it: it never moves back.
    pub open spec fn seen_at(self, now: Timestamp) -> Notification {
        if self.seen {
            self
        } else {
            Notification { seen: true, last_updated: self.last_updated.later_of(now), ..self }
        }
    }

    /// The notification after it was marked deleted at `now`, which marks it
    /// seen too. The update time moves as it does for `seen_at`, and stays
    /// where it is for a notification that is deleted already.
    pub open spec fn deleted_at(self, now: Timestamp) -> Notification {
        Notification {
            seen: true,
            deleted: true,
            last_updated: if self.deleted {
                self.last_updated
            } else {
                self.last_updated.later_of(now)
            },
            ..self
        }
    }

    /// Creates a notification with the given identifier and creation time.
    /// An empty message is rejected with `InvalidInput`.
    pub fn create(uuid: u128, message: String, now: Timestamp) -> (r: Result<
        Notification,
        ApplicationError,
    >)
        ensures
            message@.len() == 0 ==> r is Err && r->Err_0 is InvalidInput,
            message@.len() > 0 ==> r == Ok::<Notification, ApplicationError>(
                Notification::fresh(uuid, message, now),
            ),
            r is Ok ==> r->Ok_0.wf(),
    {
        if message.as_str().is_empty() {
            Err(ApplicationError::InvalidInput("notification message is empty".to_owned()))
        } else {
            Ok(
                Notification {
                    uuid,
                    message,
                    seen: false,
                    deleted: false,
                    date_created: now,
                    last_updated: now,
                },
            )
        }
    }

    /// Creates a notification with a random identifier, stamped with the
    /// current time. An empty message is rejected with `InvalidInput`.
    pub fn new(message: String) -> (r: Result<Notification, ApplicationError>)
        ensures
            message@.len() == 0 ==> r is Err && r->Err_0 is InvalidInput,
            message@.len() > 0 ==> r is Ok && r->Ok_0 == Notification::fresh(
                r->Ok_0.uuid,
                message,
                r->Ok_0.date_created,
            ) && is_version_four(r->Ok_0.uuid) && r->Ok_0.wf(),
    {
        let now = ClockService::now();
        let uuid = random_uuid();
        Notification::create(uuid, message, now)
    }

    /// Marks the notification seen at `now`.
    pub fn mark_seen(&mut self, now: Timestamp)
        ensures
            *final(self) == old(self).seen_at(now),
            final(self).seen,
            old(self).wf() ==> final(self).wf(),
    {
        if !self.seen {
            self.seen = true;
            self.last_updated = self.last_updated.latest(now);
        }
    }

    /// Marks the notification deleted, and with that seen, at `now`.
    pub fn mark_deleted(&mut self, now: Timestamp)
        ensures
            *final(self) == old(self).deleted_at(now),
            final(self).seen && final(self).deleted,
            old(self).wf() ==> final(self).wf(),
    {
        if !self.deleted {
            self.deleted = true;
            self.last_updated = self.last_updated.latest(now);
        }
        self.seen = true;
    }

    /// Marks the notification seen at the current time.
    pub fn set_as_seen(&mut self)
        ensures
            exists|now: Timestamp| *final(self) == #[trigger] old(self).seen_at(now),
            final(self).seen,
            old(self).wf() ==> final(self).wf(),
    {
        let now = ClockService::now();
        self.mark_seen(now);
    }

    /// Marks the notification deleted, and with that seen, at the current time.
    pub fn set_as_deleted(&mut self)
        ensures
            exists|now: Timestamp| *final(self) == #[trigger] old(self).deleted_at(now),
            final(self).seen && final(self).deleted,
            old(self).wf() ==> final(self).wf(),
    {
        let now = ClockService::now();
        self.mark_deleted(now);
    }
}

/// Marking never undoes anything: the identifier, the message and the creation
/// time stay, a flag that is set stays set, and the update time does not move
/// back. Marking seen twice is the same as marking once, and so is deleting
/// twice; after a deletion no marking changes the notification any more.
pub proof fn lemma_lifecycle_is_monotonic(n: Notification, first: Timestamp, second: Timestamp)
    ensures
        n.seen_at(first).uuid == n.uuid && n.deleted_at(first).uuid == n.uuid,
        n.seen_at(first).message == n.message && n.deleted_at(first).message == n.message,
        n.seen_at(first).date_created == n.date_created,
        n.deleted_at(first).date_created == n.date_created,
        n.seen_at(first).seen && n.deleted_at(first).seen && n.deleted_at(first).deleted,
        n.seen_at(first).deleted == n.deleted,
        n.last_updated.at_or_before(n.seen_at(first).last_updated),
        n.last_updated.at_or_before(n.deleted_at(first).last_updated),
        n.seen_at(first).seen_at(second) == n.seen_at(first),
        n.deleted_at(first).deleted_at(second) == n.deleted_at(first),
        n.deleted_at(first).seen_at(second) == n.deleted_at(first),
        n.wf() && n.deleted ==> n.seen_at(first) == n && n.deleted_at(first) == n,
        n.wf() ==> n.seen_at(first).wf() && n.deleted_at(first).wf(),
{
}

} // verus!
