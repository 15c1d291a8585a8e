//! What holds of the service across calls, proved from the outcomes that its
//! operations promise.

use vstd::prelude::*;
use crate::entity::{notification_of, record_of, NotificationEntity};
use crate::error::ApplicationError;
use crate::notification::Notification;
use crate::repository::{lemma_count, lists_exactly};
use crate::service::{
    create_outcome,
    fetch_outcome,
    list_outcome,
    mark_deleted_outcome,
    mark_seen_outcome,
    shows_exactly,
};
use crate::time::Timestamp;

verus! {

/// Every record stands under its own identifier and holds a notification in a
/// state that the lifecycle can reach.
pub open spec fn store_wf(records: Map<u128, NotificationEntity>) -> bool {
    forall|uuid: u128| #[trigger]
        records.contains_key(uuid) ==> records[uuid].uuid == uuid && notification_of(
            records[uuid],
        ).wf()
}

/// A notification created from a message that is not empty is unseen and not
/// deleted, carries the message, and was last updated when it was created. On
/// a reliable store the creation succeeds, and the notification can be read
/// back under its identifier.
pub proof fn lemma_created_is_unseen(
    pre: Map<u128, NotificationEntity>,
    reliable: bool,
    uuid: u128,
    message: String,
    now: Timestamp,
    post: Map<u128, NotificationEntity>,
    r: Result<Notification, ApplicationError>,
)
    requires
        message@.len() > 0,
        create_outcome(pre, reliable, uuid, message, now, post, r),
    ensures
        reliable ==> r is Ok,
        r is Ok ==> {
            &&& !r->Ok_0.seen
            &&& !r->Ok_0.deleted
            &&& r->Ok_0.message == message
            &&& r->Ok_0.uuid == uuid
            &&& r->Ok_0.date_created == r->Ok_0.last_updated
            &&& r->Ok_0.wf()
            &&& fetch_outcome(post, reliable, uuid, r)
        },
{
}

/// After a notification was marked seen, reading it does not answer
/// `NotFound`, and what is read is seen. Nothing else about it has changed
/// but the update time, which has not moved back.
pub proof fn lemma_seen_after_mark_as_seen(
    pre: Map<u128, NotificationEntity>,
    reliable: bool,
    uuid: u128,
    now: Timestamp,
    post: Map<u128, NotificationEntity>,
    flag: bool,
    read: Result<Notification, ApplicationError>,
)
    requires
        mark_seen_outcome(pre, reliable, uuid, now, post, Ok(flag)),
        fetch_outcome(post, reliable, uuid, read),
    ensures
        flag,
        reliable ==> read is Ok,
        read is Err ==> read->Err_0 is InternalError,
        read is Ok ==> {
            &&& read->Ok_0.seen
            &&& read->Ok_0.deleted == pre[uuid].deleted
            &&& read->Ok_0.message == pre[uuid].message
            &&& read->Ok_0.date_created == pre[uuid].date_created
            &&& pre[uuid].last_updated.at_or_before(read->Ok_0.last_updated)
        },
{
}

/// After a notification was marked deleted, reading it does not answer
/// `NotFound`, and what is read is both seen and deleted.
pub proof fn lemma_deleted_after_mark_as_deleted(
    pre: Map<u128, NotificationEntity>,
    reliable: bool,
    uuid: u128,
    now: Timestamp,
    post: Map<u128, NotificationEntity>,
    flag: bool,
    read: Result<Notification, ApplicationError>,
)
    requires
        mark_deleted_outcome(pre, reliable, uuid, now, post, Ok(flag)),
        fetch_outcome(post, reliable, uuid, read),
    ensures
        flag,
        reliable ==> read is Ok,
        read is Err ==> read->Err_0 is InternalError,
        read is Ok ==> {
            &&& read->Ok_0.seen
            &&& read->Ok_0.deleted
            &&& read->Ok_0.message == pre[uuid].message
            &&& read->Ok_0.date_created == pre[uuid].date_created
            &&& pre[uuid].last_updated.at_or_before(read->Ok_0.last_updated)
        },
{
}

/// Marking a notification seen a second time answers `true` again and
/// changes nothing, the update time included. It cannot answer `NotFound`,
/// and on a reliable store it cannot fail at all.
pub proof fn lemma_mark_as_seen_twice(
    pre: Map<u128, NotificationEntity>,
    reliable: bool,
    uuid: u128,
    first: Timestamp,
    middle: Map<u128, NotificationEntity>,
    second: Timestamp,
    post: Map<u128, NotificationEntity>,
    flag: bool,
    again: Result<bool, ApplicationError>,
)
    requires
        mark_seen_outcome(pre, reliable, uuid, first, middle, Ok(flag)),
        mark_seen_outcome(middle, reliable, uuid, second, post, again),
    ensures
        flag,
        reliable ==> again is Ok,
        again is Ok ==> again->Ok_0,
        again is Err ==> again->Err_0 is InternalError,
        post == middle,
        post[uuid].seen,
{
    assert(post =~= middle);
}

/// Marking a notification deleted a second time answers `true` again and
/// changes nothing; nor does marking a deleted notification seen.
pub proof fn lemma_deleted_is_terminal(
    pre: Map<u128, NotificationEntity>,
    reliable: bool,
    uuid: u128,
    first: Timestamp,
    middle: Map<u128, NotificationEntity>,
    second: Timestamp,
    post: Map<u128, NotificationEntity>,
    flag: bool,
    again: Result<bool, ApplicationError>,
)
    requires
        mark_deleted_outcome(pre, reliable, uuid, first, middle, Ok(flag)),
        mark_deleted_outcome(middle, reliable, uuid, second, post, again)
            || mark_seen_outcome(middle, reliable, uuid, second, post, again),
    ensures
        flag,
        reliable ==> again is Ok,
        again is Ok ==> again->Ok_0,
        again is Err ==> again->Err_0 is InternalError,
        post == middle,
        post[uuid].seen && post[uuid].deleted,
{
    assert(post =~= middle);
}

/// Listing an empty store answers an empty list. It is no failure: the only
/// failure is one of the storage, which a reliable store does not have.
pub proof fn lemma_empty_store_lists_nothing(
    reliable: bool,
    r: Result<Vec<Notification>, ApplicationError>,
)
    requires
        list_outcome(Map::<u128, NotificationEntity>::empty(), reliable, r),
    ensures
        reliable ==> r is Ok,
        r is Ok ==> r->Ok_0@.len() == 0,
        r is Err ==> r->Err_0 is InternalError,
{
    if r is Ok && r->Ok_0@.len() > 0 {
        let first = r->Ok_0@[0];
        assert(Map::<u128, NotificationEntity>::empty().contains_key(first.uuid));
    }
}

/// A list of all notifications is as long as the store has records: with two
/// records it has two entries, one for each.
pub proof fn lemma_list_counts_the_store(
    list: Seq<Notification>,
    records: Map<u128, NotificationEntity>,
)
    requires
        shows_exactly(list, records),
    ensures
        records.dom().finite(),
        records.dom().len() == list.len(),
{
    let all = Seq::new(list.len(), |i: int| record_of(list[i]));
    assert(lists_exactly(all, records)) by {
        assert forall|i: int| 0 <= i < all.len() implies records.contains_key(
            (#[trigger] all[i]).uuid,
        ) && records[all[i].uuid] == all[i] by {
            assert(list[i].uuid == all[i].uuid);
        }
        assert forall|uuid: u128| #[trigger] records.contains_key(uuid) implies exists|i: int|
            0 <= i < all.len() && (#[trigger] all[i]).uuid == uuid by {
            let k = choose|k: int| 0 <= k < list.len() && (#[trigger] list[k]).uuid == uuid;
            assert(all[k].uuid == uuid);
        }
        assert forall|i: int, j: int| 0 <= i < j < all.len() implies (#[trigger] all[i]).uuid != (
        #[trigger] all[j]).uuid by {
            assert(list[i].uuid == all[i].uuid);
            assert(list[j].uuid == all[j].uuid);
        }
    }
    lemma_count(all, records);
}

/// Reading under an identifier that no record has answers `NotFound`.
pub proof fn lemma_unknown_id_is_not_found(
    records: Map<u128, NotificationEntity>,
    reliable: bool,
    uuid: u128,
    r: Result<Notification, ApplicationError>,
)
    requires
        !records.contains_key(uuid),
        fetch_outcome(records, reliable, uuid, r),
    ensures
        r is Err,
        r->Err_0 is NotFound,
{
}

/// Creating a notification keeps a store of well-formed records well
/// formed, and touches no record but the one under the new identifier.
pub proof fn lemma_create_keeps_store_well_formed(
    pre: Map<u128, NotificationEntity>,
    reliable: bool,
    uuid: u128,
    message: String,
    now: Timestamp,
    post: Map<u128, NotificationEntity>,
    r: Result<Notification, ApplicationError>,
)
    requires
        store_wf(pre),
        create_outcome(pre, reliable, uuid, message, now, post, r),
    ensures
        store_wf(post),
        forall|other: u128| #[trigger] pre.contains_key(other) ==> post.contains_key(other),
        forall|other: u128|
            other != uuid ==> (#[trigger] post.contains_key(other)) == pre.contains_key(other)
                && (pre.contains_key(other) ==> post[other] == pre[other]),
{
}

/// Marking a notification seen or deleted keeps a store of well-formed
/// records well formed: a deleted notification is always seen, and no update
/// time lies before the creation time. No record appears or disappears, no
/// record but the one named changes, and that one keeps its message and its
/// creation time; a flag that was set stays set, and the update time does not
/// move back.
pub proof fn lemma_marking_keeps_store_well_formed(
    pre: Map<u128, NotificationEntity>,
    reliable: bool,
    uuid: u128,
    now: Timestamp,
    post: Map<u128, NotificationEntity>,
    r: Result<bool, ApplicationError>,
)
    requires
        store_wf(pre),
        mark_seen_outcome(pre, reliable, uuid, now, post, r) || mark_deleted_outcome(
            pre,
            reliable,
            uuid,
            now,
            post,
            r,
        ),
    ensures
        store_wf(post),
        forall|other: u128| (#[trigger] post.contains_key(other)) == pre.contains_key(other),
        forall|other: u128|
            other != uuid && #[trigger] pre.contains_key(other) ==> post[other] == pre[other],
        pre.contains_key(uuid) ==> {
            &&& post[uuid].message == pre[uuid].message
            &&& post[uuid].date_created == pre[uuid].date_created
            &&& pre[uuid].seen ==> post[uuid].seen
            &&& pre[uuid].deleted ==> post[uuid].deleted
            &&& pre[uuid].last_updated.at_or_before(post[uuid].last_updated)
        },
{
}

} // verus!
