//! The storage interface that the service consumes, and a store that keeps
//! its records in memory.

use vstd::prelude::*;
use crate::entity::NotificationEntity;
use crate::error::ApplicationError;

verus! {

/// What `save` may answer and leave behind. On success the record is handed
/// back as it was given and stands in the store under its identifier, in
/// place of any record that stood there; nothing else changes. A failure is a
/// storage failure, which a reliable store does not have, and leaves the
/// store as it was.
pub open spec fn save_outcome(
    pre: Map<u128, NotificationEntity>,
    reliable: bool,
    given: NotificationEntity,
    post: Map<u128, NotificationEntity>,
    r: Result<NotificationEntity, ApplicationError>,
) -> bool {
    match r {
        Ok(stored) => stored == given && post == pre.insert(given.uuid, given),
        Err(e) => e is InternalError && !reliable && post == pre,
    }
}

/// What `get` may answer. A record that is there is handed back, unless the
/// storage fails; a record that is not there is `NotFound`.
pub open spec fn get_outcome(
    records: Map<u128, NotificationEntity>,
    reliable: bool,
    uuid: u128,
    r: Result<NotificationEntity, ApplicationError>,
) -> bool {
    match r {
        Ok(found) => records.contains_key(uuid) && found == records[uuid] && found.uuid == uuid,
        Err(e) => if records.contains_key(uuid) {
            e is InternalError && !reliable
        } else {
            e is NotFound
        },
    }
}

/// The list holds every record of the store once, each as it is stored, and
/// nothing else. The order is left open.
pub open spec fn lists_exactly(
    all: Seq<NotificationEntity>,
    records: Map<u128, NotificationEntity>,
) -> bool {
    &&& forall|i: int|
        0 <= i < all.len() ==> records.contains_key((#[trigger] all[i]).uuid)
            && records[all[i].uuid] == all[i]
    &&& forall|uuid: u128| #[trigger]
        records.contains_key(uuid) ==> exists|i: int|
            0 <= i < all.len() && (#[trigger] all[i]).uuid == uuid
    &&& forall|i: int, j: int|
        0 <= i < j < all.len() ==> (#[trigger] all[i]).uuid != (#[trigger] all[j]).uuid
}

/// What `get_all` may answer: all records, or a storage failure. An empty
/// store gives an empty list, which is no failure.
pub open spec fn get_all_outcome(
    records: Map<u128, NotificationEntity>,
    reliable: bool,
    r: Result<Vec<NotificationEntity>, ApplicationError>,
) -> bool {
    match r {
        Ok(all) => lists_exactly(all@, records),
        Err(e) => e is InternalError && !reliable,
    }
}

/// Durable storage for notification records, keyed by identifier.
pub trait NotificationRepositoryPort {
    /// The records in the store, each under its identifier.
    spec fn records(&self) -> Map<u128, NotificationEntity>;

    /// The store has no storage failures: its operations fail only where the
    /// record asked for is missing.
    spec fn reliable(&self) -> bool;

    /// What the store needs to hold of itself between calls. Every operation
    /// expects it and keeps it.
    spec fn inv(&self) -> bool;

    /// Inserts the record, or replaces the one with the same identifier.
    fn save(&mut self, notification: &NotificationEntity) -> (r: Result<
        NotificationEntity,
        ApplicationError,
    >)
        requires
            old(self).inv(),
        ensures
            final(self).inv(),
            final(self).reliable() == old(self).reliable(),
            save_outcome(
                old(self).records(),
                old(self).reliable(),
                *notification,
                final(self).records(),
                r,
            ),
    ;

    /// The record with this identifier.
    fn get(&self, uuid: &u128) -> (r: Result<NotificationEntity, ApplicationError>)
        requires
            self.inv(),
        ensures
            get_outcome(self.records(), self.reliable(), *uuid, r),
    ;

    /// All records, in no particular order.
    fn get_all(&self) -> (r: Result<Vec<NotificationEntity>, ApplicationError>)
        requires
            self.inv(),
        ensures
            get_all_outcome(self.records(), self.reliable(), r),
    ;
}

/// The records kept, in their order, after `given` was saved: it stands in
/// the place of the record with its identifier, or at the end where there was
/// none.
pub open spec fn saved_into(
    kept: Seq<NotificationEntity>,
    given: NotificationEntity,
) -> Seq<NotificationEntity> {
    if exists|i: int| 0 <= i < kept.len() && (#[trigger] kept[i]).uuid == given.uuid {
        kept.update(
            choose|i: int| 0 <= i < kept.len() && (#[trigger] kept[i]).uuid == given.uuid,
            given,
        )
    } else {
        kept.push(given)
    }
}

/// A store that keeps its records in memory, in the order in which their
/// identifiers were first saved. It is reliable: it has no storage failures.
pub struct InMemoryNotificationRepository {
    items: Vec<NotificationEntity>,
}

impl View for InMemoryNotificationRepository {
    type V = Seq<NotificationEntity>;

    /// The records in the order in which they are kept and listed.
    closed spec fn view(&self) -> Seq<NotificationEntity> {
        self.items@
    }
}

impl InMemoryNotificationRepository {
    /// A place at which the record with this identifier stands, if it stands
    /// anywhere.
    pub closed spec fn place_of(self, uuid: u128) -> int {
        choose|i: int| 0 <= i < self.items@.len() && (#[trigger] self.items@[i]).uuid == uuid
    }

    /// An empty store.
    pub fn new() -> (r: Self)
        ensures
            r.inv(),
            r@ == Seq::<NotificationEntity>::empty(),
            r.records() == Map::<u128, NotificationEntity>::empty(),
            r.reliable(),
    {
        let r = InMemoryNotificationRepository { items: Vec::new() };
        proof {
            assert(r.records() =~= Map::<u128, NotificationEntity>::empty());
        }
        r
    }

    /// The number of records held.
    pub fn len(&self) -> (r: usize)
        requires
            self.inv(),
        ensures
            r == self@.len(),
            r == self.records().dom().len(),
            self.records().dom().finite(),
    {
        proof {
            assert forall|k: int| 0 <= k < self.items@.len() implies self.records().contains_key(
                (#[trigger] self.items@[k]).uuid,
            ) && self.records()[self.items@[k].uuid] == self.items@[k] by {
                let p = self.place_of(self.items@[k].uuid);
                assert(self.items@[p].uuid == self.items@[k].uuid);
                assert(p == k);
            }
            lemma_count(self.items@, self.records());
        }
        self.items.len()
    }

    /// The first place at which the identifier stands.
    fn position(&self, uuid: u128) -> (r: Option<usize>)
        requires
            self.inv(),
        ensures
            match r {
                Some(i) => i < self.items@.len() && self.items@[i as int].uuid == uuid
                    && self.records().contains_key(uuid) && self.records()[uuid]
                    == self.items@[i as int],
                None => !self.records().contains_key(uuid) && forall|k: int|
                    0 <= k < self.items@.len() ==> (#[trigger] self.items@[k]).uuid != uuid,
            },
    {
        let mut i: usize = 0;
        while i < self.items.len()
            invariant
                self.inv(),
                i <= self.items@.len(),
                forall|k: int| 0 <= k < i ==> (#[trigger] self.items@[k]).uuid != uuid,
            decreases self.items@.len() - i,
        {
            if self.items[i].uuid == uuid {
                proof {
                    let p = self.place_of(uuid);
                    assert(self.items@[i as int].uuid == uuid);
                    assert(0 <= p < self.items@.len() && self.items@[p].uuid == uuid);
                    assert(p == i);
                }
                return Some(i);
            }
            i += 1;
        }
        None
    }
}

/// A list without a repeated identifier is as long as the store it lists.
pub proof fn lemma_count(all: Seq<NotificationEntity>, records: Map<u128, NotificationEntity>)
    requires
        lists_exactly(all, records),
    ensures
        records.dom().finite(),
        records.dom().len() == all.len(),
    decreases all.len(),
{
    if all.len() == 0 {
        assert(records.dom() =~= Set::<u128>::empty()) by {
            assert forall|uuid: u128| !records.dom().contains(uuid) by {
                if records.contains_key(uuid) {
                    let i = choose|i: int| 0 <= i < all.len() && (#[trigger] all[i]).uuid == uuid;
                }
            }
        }
    } else {
        let last = all.last();
        let rest = all.drop_last();
        let fewer = records.remove(last.uuid);
        assert(lists_exactly(rest, fewer)) by {
            assert forall|i: int| 0 <= i < rest.len() implies fewer.contains_key(
                (#[trigger] rest[i]).uuid,
            ) && fewer[rest[i].uuid] == rest[i] by {
                assert(rest[i] == all[i]);
                assert(all[all.len() - 1] == last);
            }
            assert forall|uuid: u128| #[trigger] fewer.contains_key(uuid) implies exists|i: int|
                0 <= i < rest.len() && (#[trigger] rest[i]).uuid == uuid by {
                assert(records.contains_key(uuid));
                let i = choose|i: int| 0 <= i < all.len() && (#[trigger] all[i]).uuid == uuid;
                assert(i < all.len() - 1);
                assert(rest[i] == all[i]);
            }
            assert forall|i: int, j: int| 0 <= i < j < rest.len() implies (#[trigger] rest[i]).uuid
                != (#[trigger] rest[j]).uuid by {
                assert(rest[i] == all[i]);
                assert(rest[j] == all[j]);
            }
        }
        lemma_count(rest, fewer);
        assert(all[all.len() - 1] == last);
        assert(records.contains_key(last.uuid));
        assert(records.dom() =~= fewer.dom().insert(last.uuid));
    }
}

impl NotificationRepositoryPort for InMemoryNotificationRepository {
    closed spec fn records(&self) -> Map<u128, NotificationEntity> {
        Map::new(
            |uuid: u128|
                exists|i: int|
                    0 <= i < self.items@.len() && (#[trigger] self.items@[i]).uuid == uuid,
            |uuid: u128| self.items@[self.place_of(uuid)],
        )
    }

    open spec fn reliable(&self) -> bool {
        true
    }

    /// No identifier occurs twice.
    closed spec fn inv(&self) -> bool {
        forall|i: int, j: int|
            0 <= i < j < self.items@.len() ==> (#[trigger] self.items@[i]).uuid != (
            #[trigger] self.items@[j]).uuid
    }

    fn save(&mut self, notification: &NotificationEntity) -> (r: Result<
        NotificationEntity,
        ApplicationError,
    >)
        ensures
            r is Ok,
            final(self)@ == saved_into(old(self)@, *notification),
    {
        let found = self.position(notification.uuid);
        match found {
            Some(i) => {
                self.items.set(i, notification.clone());
            },
            None => {
                self.items.push(notification.clone());
            },
        }
        proof {
            let pre = old(self);
            let post = *self;
            let target = pre.records().insert(notification.uuid, *notification);
            assert forall|uuid: u128| post.records().contains_key(uuid) == target.contains_key(
                uuid,
            ) by {
                if post.records().contains_key(uuid) {
                    let k = choose|k: int|
                        0 <= k < post.items@.len() && (#[trigger] post.items@[k]).uuid == uuid;
                    if uuid != notification.uuid {
                        assert(pre.items@[k].uuid == uuid);
                    }
                }
                if target.contains_key(uuid) {
                    if uuid != notification.uuid {
                        let k = choose|k: int|
                            0 <= k < pre.items@.len() && (#[trigger] pre.items@[k]).uuid == uuid;
                        assert(post.items@[k].uuid == uuid);
                    } else {
                        match found {
                            Some(i) => {
                                assert(post.items@[i as int].uuid == uuid);
                            },
                            None => {
                                assert(post.items@[pre.items@.len() as int].uuid == uuid);
                            },
                        }
                    }
                }
            }
            assert forall|uuid: u128| #[trigger]
                target.contains_key(uuid) implies post.records()[uuid] == target[uuid] by {
                let p = post.place_of(uuid);
                assert(post.items@[p].uuid == uuid);
                if uuid != notification.uuid {
                    let q = pre.place_of(uuid);
                    assert(pre.items@[p].uuid == uuid);
                    assert(pre.items@[q].uuid == uuid);
                    assert(p == q);
                } else {
                    match found {
                        Some(i) => {
                            assert(post.items@[i as int].uuid == uuid);
                            assert(p == i);
                        },
                        None => {
                            assert(post.items@[pre.items@.len() as int].uuid == uuid);
                            assert(p == pre.items@.len());
                        },
                    }
                }
            }
            assert(post.records() =~= target);
            match found {
                Some(i) => {
                    let p = choose|p: int|
                        0 <= p < pre.items@.len() && (#[trigger] pre.items@[p]).uuid
                            == notification.uuid;
                    assert(pre.items@[i as int].uuid == notification.uuid);
                    assert(pre.items@[p].uuid == notification.uuid);
                    assert(p == i);
                },
                None => {},
            }
        }
        Ok(notification.clone())
    }

    fn get(&self, uuid: &u128) -> (r: Result<NotificationEntity, ApplicationError>)
        ensures
            r is Ok <==> self.records().contains_key(*uuid),
    {
        match self.position(*uuid) {
            Some(i) => Ok(self.items[i].clone()),
            None => Err(
                ApplicationError::NotFound("no notification has this identifier".to_owned()),
            ),
        }
    }

    fn get_all(&self) -> (r: Result<Vec<NotificationEntity>, ApplicationError>)
        ensures
            r is Ok,
            r->Ok_0@ == self@,
    {
        let mut all: Vec<NotificationEntity> = Vec::new();
        let mut i: usize = 0;
        while i < self.items.len()
            invariant
                self.inv(),
                i <= self.items@.len(),
                all@ == self.items@.subrange(0, i as int),
            decreases self.items@.len() - i,
        {
            all.push(self.items[i].clone());
            proof {
                assert(all@ =~= self.items@.subrange(0, i + 1));
            }
            i += 1;
        }
        proof {
            assert(all@ =~= self.items@);
            assert forall|k: int| 0 <= k < all@.len() implies self.records().contains_key(
                (#[trigger] all@[k]).uuid,
            ) && self.records()[all@[k].uuid] == all@[k] by {
                let p = self.place_of(all@[k].uuid);
                assert(self.items@[k].uuid == all@[k].uuid);
                assert(self.items@[p].uuid == all@[k].uuid);
                assert(p == k);
            }
        }
        Ok(all)
    }
}

} // verus!
