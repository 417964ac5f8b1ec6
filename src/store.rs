use vstd::prelude::*;
use crate::access::{can_reveal, reveal_outcome};
use crate::model::{
    AccessControl, CapsuleError, CapsuleStatus, CreateCapsulePayload, TimeCapsule,
};

verus! {

/// Checks on a creation request, in the order they are made.
pub open spec fn create_check(payload: CreateCapsulePayload, now: u64) -> Result<(), CapsuleError> {
    if payload.unlock_date <= now {
        Err(CapsuleError::UnlockDateNotInFuture)
    } else if payload.content.is_empty_text() {
        Err(CapsuleError::EmptyContent)
    } else {
        Ok(())
    }
}

/// The record that a successful creation stores.
pub open spec fn sealed_record(
    payload: CreateCapsulePayload,
    id: u64,
    creator: String,
    now: u64,
) -> TimeCapsule {
    TimeCapsule {
        id,
        creator,
        creation_date: now,
        unlock_date: payload.unlock_date,
        content: payload.content,
        access_control: payload.access_control,
        metadata: payload.metadata,
        status: CapsuleStatus::Sealed,
    }
}

/// The outcome of reading capsule `id` as `caller` at time `now`: absent,
/// still sealed, or whatever the access policy decides, in that order.
pub open spec fn get_check(records: Seq<TimeCapsule>, id: u64, caller: Seq<char>, now: u64) -> Result<
    (),
    CapsuleError,
> {
    if id >= records.len() {
        Err(CapsuleError::NotFound)
    } else if now < records[id as int].unlock_date {
        Err(CapsuleError::StillSealed)
    } else {
        reveal_outcome(records[id as int], caller)
    }
}

pub open spec fn is_public(c: TimeCapsule) -> bool {
    c.access_control is Public
}

/// Public and unlocked at `now`.
pub open spec fn openly_readable(c: TimeCapsule, now: u64) -> bool {
    is_public(c) && now >= c.unlock_date
}

/// Has a location, and the flag at its id is set.
pub open spec fn flagged_location(c: TimeCapsule, near: Seq<bool>) -> bool {
    c.metadata.location is Some && 0 <= c.id < near.len() && near[c.id as int]
}

pub open spec fn readable_at(now: u64) -> spec_fn(TimeCapsule) -> bool {
    |c: TimeCapsule| openly_readable(c, now)
}

pub open spec fn near_flags(near: Seq<bool>) -> spec_fn(TimeCapsule) -> bool {
    |c: TimeCapsule| flagged_location(c, near)
}

pub open spec fn derefs(v: Seq<&TimeCapsule>) -> Seq<TimeCapsule> {
    v.map_values(|c: &TimeCapsule| *c)
}

/// The capsule records, keyed by id, and the counter that hands out ids.
///
/// Ids are handed out in order from zero and never reused, so the record with
/// id `i` sits at position `i`, and the counter equals the number of records.
pub struct CapsuleStore {
    capsules: Vec<TimeCapsule>,
    next_id: u64,
}

impl CapsuleStore {
    /// The records in ascending order of id.
    pub closed spec fn records(&self) -> Seq<TimeCapsule> {
        self.capsules@
    }

    /// The value of the id counter.
    pub closed spec fn counter(&self) -> u64 {
        self.next_id
    }

    pub open spec fn wf(&self) -> bool {
        &&& self.counter() == self.records().len()
        &&& forall|i: int| 0 <= i < self.records().len() ==> (#[trigger] self.records()[i]).id == i
    }

    /// An empty store whose counter starts at zero.
    pub fn new() -> (r: CapsuleStore)
        ensures
            r.wf(),
            r.records() == Seq::<TimeCapsule>::empty(),
    {
        CapsuleStore { capsules: Vec::new(), next_id: 0 }
    }

    /// Rebuilds a store from records read back from durable storage and the
    /// saved counter. Refused unless the records carry the ids `0, 1, ...` in
    /// order and the counter equals their number.
    pub fn from_records(records: Vec<TimeCapsule>, counter: u64) -> (r: Option<CapsuleStore>)
        ensures
            r is Some <==> (counter == records@.len() && forall|i: int|
                0 <= i < records@.len() ==> (#[trigger] records@[i]).id == i),
            r matches Some(s) ==> s.wf() && s.records() == records@,
    {
        if counter != records.len() as u64 {
            return None;
        }
        let mut i: usize = 0;
        while i < records.len()
            invariant
                0 <= i <= records.len(),
                forall|j: int| 0 <= j < i ==> (#[trigger] records@[j]).id == j,
            decreases records.len() - i,
        {
            if records[i].id != i as u64 {
                return None;
            }
            i = i + 1;
        }
        Some(CapsuleStore { capsules: records, next_id: counter })
    }

    /// The number of records, which is also the next id to be handed out.
    pub fn len(&self) -> (r: u64)
        requires
            self.wf(),
        ensures
            r == self.records().len(),
            r == self.counter(),
    {
        self.next_id
    }

    /// The record with id `id`, if there is one, whatever its unlock time and
    /// access policy.
    pub fn get(&self, id: u64) -> (r: Option<&TimeCapsule>)
        requires
            self.wf(),
        ensures
            r is Some <==> id < self.records().len(),
            r matches Some(c) ==> *c == self.records()[id as int],
    {
        if id < self.next_id {
            proof {
                broadcast use vstd::std_specs::vec::axiom_spec_len;
                assert(self.capsules.len() == self.capsules@.len());
            }
            Some(&self.capsules[id as usize])
        } else {
            None
        }
    }

    /// Validates a creation request and, if it passes, stores a sealed
    /// capsule under the next id and returns the stored record. A refused
    /// request leaves the store as it was.
    pub fn create_time_capsule(&mut self, payload: CreateCapsulePayload, caller: String, now: u64) -> (r:
        Result<&TimeCapsule, CapsuleError>)
        requires
            old(self).wf(),
            old(self).counter() < u64::MAX,
        ensures
            final(self).wf(),
            r is Ok <==> create_check(payload, now) is Ok,
            r matches Ok(c) ==> {
                &&& c.id == old(self).counter()
                &&& *c == sealed_record(payload, c.id, caller, now)
                &&& final(self).counter() == old(self).counter() + 1
                &&& final(self).records() == old(self).records().push(*c)
            },
            r matches Err(e) ==> {
                &&& create_check(payload, now) == Err::<(), CapsuleError>(e)
                &&& final(self).records() == old(self).records()
                &&& final(self).counter() == old(self).counter()
            },
    {
        if payload.unlock_date <= now {
            return Err(CapsuleError::UnlockDateNotInFuture);
        }
        if payload.content.check_empty_text() {
            return Err(CapsuleError::EmptyContent);
        }
        let id = self.next_id;
        let capsule = TimeCapsule {
            id,
            creator: caller,
            creation_date: now,
            unlock_date: payload.unlock_date,
            content: payload.content,
            access_control: payload.access_control,
            metadata: payload.metadata,
            status: CapsuleStatus::Sealed,
        };
        let at = self.capsules.len();
        self.capsules.push(capsule);
        self.next_id = id + 1;
        Ok(&self.capsules[at])
    }

    /// Reads capsule `id` as `caller` at time `now`. The unlock time is
    /// checked before the access policy is consulted.
    pub fn get_capsule(&self, id: u64, caller: &String, now: u64) -> (r: Result<&TimeCapsule, CapsuleError>)
        requires
            self.wf(),
        ensures
            r is Ok <==> get_check(self.records(), id, caller@, now) is Ok,
            r matches Ok(c) ==> *c == self.records()[id as int],
            r matches Err(e) ==> get_check(self.records(), id, caller@, now) == Err::<(), CapsuleError>(e),
    {
        if id >= self.next_id {
            return Err(CapsuleError::NotFound);
        }
        proof {
            broadcast use vstd::std_specs::vec::axiom_spec_len;
            assert(self.capsules.len() == self.capsules@.len());
        }
        let capsule = &self.capsules[id as usize];
        if now < capsule.unlock_date {
            return Err(CapsuleError::StillSealed);
        }
        match can_reveal(capsule, caller) {
            Ok(()) => Ok(capsule),
            Err(e) => Err(e),
        }
    }

    /// The public capsules that have unlocked at `now`, in ascending order of id.
    pub fn get_public_capsules(&self, now: u64) -> (r: Vec<&TimeCapsule>)
        requires
            self.wf(),
        ensures
            derefs(r@) == self.records().filter(readable_at(now)),
    {
        let ghost pred = readable_at(now);
        let mut out: Vec<&TimeCapsule> = Vec::new();
        let mut i: usize = 0;
        while i < self.capsules.len()
            invariant
                0 <= i <= self.capsules@.len(),
                pred == readable_at(now),
                derefs(out@) == self.capsules@.subrange(0, i as int).filter(pred),
            decreases self.capsules@.len() - i,
        {
            let c = &self.capsules[i];
            proof {
                let s = self.capsules@.subrange(0, i as int + 1);
                assert(s.drop_last() =~= self.capsules@.subrange(0, i as int));
                assert(s.last() == *c);
                reveal(Seq::filter);
                assert(s.filter(pred) == if pred(*c) {
                    self.capsules@.subrange(0, i as int).filter(pred).push(*c)
                } else {
                    self.capsules@.subrange(0, i as int).filter(pred)
                });
            }
            let keep = match &c.access_control {
                AccessControl::Public => now >= c.unlock_date,
                _ => false,
            };
            if keep {
                let ghost before = out@;
                out.push(c);
                assert(derefs(out@) =~= derefs(before).push(*c));
            }
            i = i + 1;
        }
        assert(self.capsules@.subrange(0, self.capsules@.len() as int) =~= self.capsules@);
        out
    }

    /// The capsules that have a location and whose flag in `near` is set,
    /// in ascending order of id; `near[i]` says whether the location of the
    /// capsule with id `i` lies within the radius asked for. Neither the
    /// unlock time nor the access policy is consulted.
    pub fn get_capsules_by_location(&self, near: &Vec<bool>) -> (r: Vec<&TimeCapsule>)
        requires
            self.wf(),
        ensures
            derefs(r@) == self.records().filter(near_flags(near@)),
    {
        let ghost pred = near_flags(near@);
        let mut out: Vec<&TimeCapsule> = Vec::new();
        let mut i: usize = 0;
        while i < self.capsules.len()
            invariant
                0 <= i <= self.capsules@.len(),
                pred == near_flags(near@),
                derefs(out@) == self.capsules@.subrange(0, i as int).filter(pred),
            decreases self.capsules@.len() - i,
        {
            let c = &self.capsules[i];
            proof {
                let s = self.capsules@.subrange(0, i as int + 1);
                assert(s.drop_last() =~= self.capsules@.subrange(0, i as int));
                assert(s.last() == *c);
                reveal(Seq::filter);
                assert(s.filter(pred) == if pred(*c) {
                    self.capsules@.subrange(0, i as int).filter(pred).push(*c)
                } else {
                    self.capsules@.subrange(0, i as int).filter(pred)
                });
            }
            let keep = match &c.metadata.location {
                Some(_) => c.id < near.len() as u64 && near[c.id as usize],
                None => false,
            };
            if keep {
                let ghost before = out@;
                out.push(c);
                assert(derefs(out@) =~= derefs(before).push(*c));
            }
            i = i + 1;
        }
        assert(self.capsules@.subrange(0, self.capsules@.len() as int) =~= self.capsules@);
        out
    }
}

} // verus!
