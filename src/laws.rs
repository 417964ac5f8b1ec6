//! Facts about the store that hold for every input, stated over the same
//! spec functions that the operations' contracts use.
use vstd::prelude::*;
use crate::access::{is_known_condition, listed};
use crate::model::{AccessControl, CapsuleContent, CapsuleError, CreateCapsulePayload, TimeCapsule};
use crate::store::{
    create_check, flagged_location, get_check, near_flags, openly_readable, readable_at,
    CapsuleStore,
};

verus! {

/// A creation request whose unlock date is not after the current time is
/// refused as not in the future, whatever its content, policy and metadata.
pub proof fn lemma_past_unlock_refused(payload: CreateCapsulePayload, now: u64)
    requires
        payload.unlock_date <= now,
    ensures
        create_check(payload, now) == Err::<(), CapsuleError>(CapsuleError::UnlockDateNotInFuture),
{
}

/// A creation request with future unlock date and empty text content is
/// refused as empty.
pub proof fn lemma_empty_text_refused(payload: CreateCapsulePayload, now: u64)
    requires
        payload.unlock_date > now,
        payload.content matches CapsuleContent::Text(t) && t@.len() == 0,
    ensures
        create_check(payload, now) == Err::<(), CapsuleError>(CapsuleError::EmptyContent),
{
}

/// In a well-formed store the ids are exactly `0, 1, ..., n-1` in order, so
/// each is unique. Creation gives the new record the counter's value as its
/// id and appends it, so successful creations on a new store get the ids
/// `0, 1, ...` in call order.
pub proof fn lemma_ids_in_order(store: CapsuleStore)
    requires
        store.wf(),
    ensures
        store.records().map_values(|c: TimeCapsule| c.id as int) == Seq::new(
            store.records().len(),
            |i: int| i,
        ),
        forall|i: int, j: int|
            0 <= i < store.records().len() && 0 <= j < store.records().len() && i != j
                ==> #[trigger] store.records()[i].id != #[trigger] store.records()[j].id,
{
    assert(store.records().map_values(|c: TimeCapsule| c.id as int) =~= Seq::new(
        store.records().len(),
        |i: int| i,
    ));
}

/// Before its unlock time a capsule is refused as sealed, whatever its policy
/// and whoever asks.
pub proof fn lemma_sealed_refused(records: Seq<TimeCapsule>, id: u64, caller: Seq<char>, now: u64)
    requires
        id < records.len(),
        now < records[id as int].unlock_date,
    ensures
        get_check(records, id, caller, now) == Err::<(), CapsuleError>(CapsuleError::StillSealed),
{
}

/// A public capsule can be read by anyone once unlocked.
pub proof fn lemma_public_readable(records: Seq<TimeCapsule>, id: u64, caller: Seq<char>, now: u64)
    requires
        id < records.len(),
        records[id as int].access_control is Public,
        now >= records[id as int].unlock_date,
    ensures
        get_check(records, id, caller, now) is Ok,
{
}

/// Once unlocked, a private capsule can be read by its creator and by those
/// on its allow-list, and is refused to everyone else.
pub proof fn lemma_private_readable(records: Seq<TimeCapsule>, id: u64, caller: Seq<char>, now: u64)
    requires
        id < records.len(),
        now >= records[id as int].unlock_date,
        records[id as int].access_control is Private,
    ensures
        ({
            let c = records[id as int];
            let viewers = c.access_control->Private_allowed_viewers;
            &&& get_check(records, id, caller, now) is Ok <==> (c.creator@ == caller || listed(
                viewers@,
                caller,
            ))
            &&& get_check(records, id, caller, now) is Err ==> get_check(records, id, caller, now)
                == Err::<(), CapsuleError>(CapsuleError::AccessDenied)
        }),
{
}

/// Once unlocked, a capsule whose condition type is not recognised is refused
/// for that reason.
pub proof fn lemma_unknown_condition_refused(
    records: Seq<TimeCapsule>,
    id: u64,
    caller: Seq<char>,
    now: u64,
)
    requires
        id < records.len(),
        now >= records[id as int].unlock_date,
        records[id as int].access_control matches AccessControl::Conditional {
            condition_type,
            ..
        } && !is_known_condition(condition_type@),
    ensures
        get_check(records, id, caller, now) == Err::<(), CapsuleError>(CapsuleError::UnknownCondition),
{
}

/// The public listing holds exactly the stored capsules that are public and
/// unlocked: each one it holds is, and each stored one that is appears in it.
pub proof fn lemma_public_listing_exact(records: Seq<TimeCapsule>, now: u64)
    ensures
        forall|i: int|
            0 <= i < records.filter(readable_at(now)).len() ==> openly_readable(
                #[trigger] records.filter(readable_at(now))[i],
                now,
            ),
        forall|i: int|
            0 <= i < records.len() && openly_readable(#[trigger] records[i], now)
                ==> records.filter(readable_at(now)).contains(records[i]),
{
    let f = readable_at(now);
    assert forall|i: int| 0 <= i < records.filter(f).len() implies openly_readable(
        #[trigger] records.filter(f)[i],
        now,
    ) by {
        records.lemma_filter_pred(f, i);
    }
    assert forall|i: int| 0 <= i < records.len() && openly_readable(#[trigger] records[i], now)
        implies records.filter(f).contains(records[i]) by {
        records.lemma_filter_contains(f, i);
    }
}

/// The location listing holds exactly the stored capsules that have a
/// location flagged as near; one without a location is never in it.
pub proof fn lemma_location_listing_exact(records: Seq<TimeCapsule>, near: Seq<bool>)
    ensures
        forall|i: int|
            0 <= i < records.filter(near_flags(near)).len() ==> flagged_location(
                #[trigger] records.filter(near_flags(near))[i],
                near,
            ),
        forall|i: int|
            0 <= i < records.len() && flagged_location(#[trigger] records[i], near)
                ==> records.filter(near_flags(near)).contains(records[i]),
        forall|i: int|
            0 <= i < records.filter(near_flags(near)).len()
                ==> (#[trigger] records.filter(near_flags(near))[i]).metadata.location is Some,
{
    let f = near_flags(near);
    assert forall|i: int| 0 <= i < records.filter(f).len() implies flagged_location(
        #[trigger] records.filter(f)[i],
        near,
    ) by {
        records.lemma_filter_pred(f, i);
    }
    assert forall|i: int| 0 <= i < records.len() && flagged_location(#[trigger] records[i], near)
        implies records.filter(f).contains(records[i]) by {
        records.lemma_filter_contains(f, i);
    }
    assert forall|i: int| 0 <= i < records.filter(f).len() implies (#[trigger] records.filter(
        f,
    )[i]).metadata.location is Some by {
        records.lemma_filter_pred(f, i);
    }
}

} // verus!
