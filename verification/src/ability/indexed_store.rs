//! Id-indexed ordered record storage for granted abilities and active activations.
use vstd::prelude::*;
use std::collections::HashMap;

use super::events::ActiveAbility;
use super::ids::{
    lemma_ability_id_raw_injective, lemma_activation_id_raw_injective, AbilityActivationId,
    AbilityId,
};
use super::store::GrantedAbility;
use crate::identity::{lemma_object_id_raw_injective, ObjectId};

verus! {

broadcast use vstd::std_specs::hash::group_hash_axioms;

/// A record stored under a raw id key and owned by an object.
pub trait KeyedRecord: Sized {
    spec fn record_key(&self) -> u64;

    spec fn record_owner(&self) -> ObjectId;

    fn key(&self) -> (key: u64)
        ensures
            key == self.record_key(),
    ;

    fn owner(&self) -> (owner: ObjectId)
        ensures
            owner == self.record_owner(),
    ;
}

impl<Tags, Payload> KeyedRecord for GrantedAbility<Tags, Payload> {
    open spec fn record_key(&self) -> u64 {
        self.id.raw()
    }

    open spec fn record_owner(&self) -> ObjectId {
        self.owner_id
    }

    fn key(&self) -> (key: u64) {
        self.id.get()
    }

    fn owner(&self) -> (owner: ObjectId) {
        self.owner_id
    }
}

impl<Tags, Payload> KeyedRecord for ActiveAbility<Tags, Payload> {
    open spec fn record_key(&self) -> u64 {
        self.activation_id.raw()
    }

    open spec fn record_owner(&self) -> ObjectId {
        self.owner_id
    }

    fn key(&self) -> (key: u64) {
        self.activation_id.get()
    }

    fn owner(&self) -> (owner: ObjectId) {
        self.owner_id
    }
}

/// True when some record has key `key`.
pub open spec fn has_key<R: KeyedRecord>(records: Seq<R>, key: u64) -> bool {
    exists|i: int| 0 <= i < records.len() && (#[trigger] records[i]).record_key() == key
}

/// The position of the record with key `key` (meaningful when `has_key` holds).
pub open spec fn key_position<R: KeyedRecord>(records: Seq<R>, key: u64) -> int {
    choose|i: int| 0 <= i < records.len() && (#[trigger] records[i]).record_key() == key
}

/// Record keys are distinct.
pub open spec fn unique_keys<R: KeyedRecord>(records: Seq<R>) -> bool {
    forall|i: int, j: int|
        0 <= i < records.len() && 0 <= j < records.len() && i != j ==> (#[trigger] records[i]).record_key()
            != (#[trigger] records[j]).record_key()
}

/// The records owned by `owner`, in order.
pub open spec fn owned_records<R: KeyedRecord>(records: Seq<R>, owner: ObjectId) -> Seq<R>
    decreases records.len(),
{
    if records.len() == 0 {
        Seq::empty()
    } else {
        let rest = owned_records(records.drop_last(), owner);
        if records.last().record_owner() == owner {
            rest.push(records.last())
        } else {
            rest
        }
    }
}

/// The records not owned by `owner`, in order.
pub open spec fn unowned_records<R: KeyedRecord>(records: Seq<R>, owner: ObjectId) -> Seq<R>
    decreases records.len(),
{
    if records.len() == 0 {
        Seq::empty()
    } else {
        let rest = unowned_records(records.drop_last(), owner);
        if records.last().record_owner() == owner {
            rest
        } else {
            rest.push(records.last())
        }
    }
}

/// Dropping records never introduces keys.
pub proof fn lemma_unowned_keys_subset<R: KeyedRecord>(records: Seq<R>, owner: ObjectId, key: u64)
    requires
        has_key(unowned_records(records, owner), key),
    ensures
        has_key(records, key),
    decreases records.len(),
{
    if records.len() > 0 {
        let rest = unowned_records(records.drop_last(), owner);
        let kept = unowned_records(records, owner);
        let i = choose|i: int| 0 <= i < kept.len() && (#[trigger] kept[i]).record_key() == key;
        if i < rest.len() {
            assert(rest[i] == kept[i]);
            lemma_unowned_keys_subset(records.drop_last(), owner, key);
            let j = choose|j: int|
                0 <= j < records.drop_last().len() && (#[trigger] records.drop_last()[j]).record_key()
                    == key;
            assert(records[j] == records.drop_last()[j]);
        } else {
            assert(records[records.len() - 1].record_key() == key);
        }
    }
}

/// Ordered records with an index from key to position.
pub struct IdRecords<R> {
    records: Vec<R>,
    index_by_key: HashMap<u64, usize>,
}

impl<R: KeyedRecord> IdRecords<R> {
    pub closed spec fn view(&self) -> Seq<R> {
        self.records@
    }

    pub closed spec fn wf(&self) -> bool {
        &&& unique_keys(self.records@)
        &&& forall|i: int|
            0 <= i < self.records@.len() ==> {
                &&& #[trigger] self.index_by_key@.contains_key(self.records@[i].record_key())
                &&& self.index_by_key@[self.records@[i].record_key()] == i
            }
        &&& forall|k: u64| #[trigger]
            self.index_by_key@.contains_key(k) ==> {
                &&& self.index_by_key@[k] < self.records@.len()
                &&& self.records@[self.index_by_key@[k] as int].record_key() == k
            }
    }

    /// Records of a well-formed store have distinct keys.
    pub proof fn lemma_unique(&self)
        requires
            self.wf(),
        ensures
            unique_keys(self@),
    {
    }

    /// Mutable access to the record at `position`; the records stay well formed as long as
    /// the record keeps its key.
    pub fn at_mut(&mut self, position: usize) -> (record: &mut R)
        requires
            old(self).wf(),
            position < old(self)@.len(),
        ensures
            *record == old(self)@[position as int],
            final(self)@ == old(self)@.update(position as int, *final(record)),
            (*final(record)).record_key() == old(self)@[position as int].record_key()
                ==> final(self).wf(),
    {
        &mut self.records[position]
    }

    pub fn new() -> (records: Self)
        ensures
            records.wf(),
            records@ == Seq::<R>::empty(),
    {
        IdRecords { records: Vec::new(), index_by_key: HashMap::new() }
    }

    pub fn len(&self) -> (n: usize)
        ensures
            n == self@.len(),
    {
        self.records.len()
    }

    pub fn as_slice(&self) -> (records: &[R])
        ensures
            records@ == self@,
    {
        self.records.as_slice()
    }

    /// The position of the record with key `key`.
    pub fn find(&self, key: u64) -> (position: Option<usize>)
        requires
            self.wf(),
        ensures
            match position {
                Some(p) => has_key(self@, key) && p == key_position(self@, key) && p < self@.len()
                    && self@[p as int].record_key() == key,
                None => !has_key(self@, key),
            },
    {
        match self.index_by_key.get(&key) {
            Some(p) => {
                let p = *p;
                proof {
                    assert(has_key(self@, key));
                    let q = key_position(self@, key);
                    assert(self@[q].record_key() == key);
                }
                Some(p)
            },
            None => {
                proof {
                    if has_key(self@, key) {
                        let i = choose|i: int|
                            0 <= i < self@.len() && (#[trigger] self@[i]).record_key() == key;
                        assert(self.index_by_key@.contains_key(self.records@[i].record_key()));
                    }
                }
                None
            },
        }
    }

    pub fn get(&self, key: u64) -> (record: Option<&R>)
        requires
            self.wf(),
        ensures
            match record {
                Some(r) => has_key(self@, key) && *r == self@[key_position(self@, key)]
                    && r.record_key() == key,
                None => !has_key(self@, key),
            },
    {
        match self.find(key) {
            Some(p) => Some(&self.records[p]),
            None => None,
        }
    }

    /// Appends a record whose key is not yet present.
    pub fn push(&mut self, record: R)
        requires
            old(self).wf(),
            !has_key(old(self)@, record.record_key()),
        ensures
            final(self).wf(),
            final(self)@ == old(self)@.push(record),
    {
        let len = self.records.len();
        let key = record.key();
        self.index_by_key.insert(key, len);
        self.records.push(record);
        proof {
            assert forall|i: int| 0 <= i < self.records@.len() implies {
                &&& #[trigger] self.index_by_key@.contains_key(self.records@[i].record_key())
                &&& self.index_by_key@[self.records@[i].record_key()] == i
            } by {
                if i < len {
                    assert(self.records@[i] == old(self).records@[i]);
                    assert(old(self).records@[i].record_key() != key);
                }
            }
            assert forall|k: u64| #[trigger] self.index_by_key@.contains_key(k) implies {
                &&& self.index_by_key@[k] < self.records@.len()
                &&& self.records@[self.index_by_key@[k] as int].record_key() == k
            } by {
                if k != key {
                    assert(old(self).index_by_key@.contains_key(k));
                }
            }
            assert forall|i: int, j: int|
                0 <= i < self.records@.len() && 0 <= j < self.records@.len() && i != j
                implies (#[trigger] self.records@[i]).record_key() != (
            #[trigger] self.records@[j]).record_key() by {
                if i < len {
                    assert(self.records@[i] == old(self).records@[i]);
                }
                if j < len {
                    assert(self.records@[j] == old(self).records@[j]);
                }
            }
        }
    }

    /// Removes the record at `position`, keeping the order of the others.
    pub fn remove_at(&mut self, position: usize) -> (removed: R)
        requires
            old(self).wf(),
            position < old(self)@.len(),
        ensures
            final(self).wf(),
            removed == old(self)@[position as int],
            final(self)@ == old(self)@.remove(position as int),
    {
        let ghost old_records = self.records@;
        let removed = self.records.remove(position);
        let key = removed.key();
        let _ = self.index_by_key.remove(&key);
        proof {
            assert forall|i: int, j: int|
                0 <= i < self.records@.len() && 0 <= j < self.records@.len() && i != j
                implies (#[trigger] self.records@[i]).record_key() != (
            #[trigger] self.records@[j]).record_key() by {
                let oi = if i < position { i } else { i + 1 };
                let oj = if j < position { j } else { j + 1 };
                assert(self.records@[i] == old_records[oi]);
                assert(self.records@[j] == old_records[oj]);
            }
            assert forall|i: int| 0 <= i < self.records@.len() implies #[trigger] self.index_by_key@.contains_key(
                self.records@[i].record_key(),
            ) by {
                let oi = if i < position { i } else { i + 1 };
                assert(self.records@[i] == old_records[oi]);
                assert(old_records[oi].record_key() != key);
                assert(old(self).index_by_key@.contains_key(old_records[oi].record_key()));
            }
            assert forall|i: int| 0 <= i < position implies self.index_by_key@[(
            #[trigger] self.records@[i]).record_key()] == i by {
                assert(self.records@[i] == old_records[i]);
                assert(old_records[i].record_key() != key);
                assert(old(self).index_by_key@.contains_key(old_records[i].record_key()));
            }
            assert forall|k: u64| #[trigger] self.index_by_key@.contains_key(k) implies exists|i: int|
                0 <= i < self.records@.len() && (#[trigger] self.records@[i]).record_key() == k by {
                let op = old(self).index_by_key@[k] as int;
                assert(old_records[op].record_key() == k);
                assert(op != position);
                let ni = if op < position { op } else { op - 1 };
                assert(self.records@[ni] == old_records[op]);
            }
        }
        self.reindex_from(position);
        removed
    }

    /// Removes the record with key `key`.
    pub fn remove(&mut self, key: u64) -> (removed: Option<R>)
        requires
            old(self).wf(),
        ensures
            final(self).wf(),
            match removed {
                Some(r) => has_key(old(self)@, key) && r == old(self)@[key_position(old(self)@, key)]
                    && final(self)@ == old(self)@.remove(key_position(old(self)@, key)),
                None => !has_key(old(self)@, key) && final(self)@ == old(self)@,
            },
    {
        match self.find(key) {
            Some(p) => Some(self.remove_at(p)),
            None => None,
        }
    }

    /// Removes every record owned by `owner`, returning them in order.
    pub fn remove_owner(&mut self, owner: ObjectId) -> (removed: Vec<R>)
        requires
            old(self).wf(),
        ensures
            final(self).wf(),
            final(self)@ == unowned_records(old(self)@, owner),
            removed@ == owned_records(old(self)@, owner),
    {
        broadcast use lemma_object_id_raw_injective;
        let ghost original = self.records@;
        let mut removed: Vec<R> = Vec::new();
        let mut index: usize = 0;
        let ghost mut k: int = 0;
        while index < self.records.len()
            invariant
                self.wf(),
                0 <= k <= original.len(),
                self.records@ == unowned_records(original.take(k), owner) + original.skip(k),
                removed@ == owned_records(original.take(k), owner),
                index == unowned_records(original.take(k), owner).len(),
            decreases original.len() - k,
        {
            let ghost kept = unowned_records(original.take(k), owner);
            proof {
                assert(original.take(k + 1).drop_last() == original.take(k));
                assert(self.records@[index as int] == original[k]);
                assert(original.take(k + 1).last() == original[k]);
            }
            if self.records[index].owner() == owner {
                let record = self.remove_at(index);
                removed.push(record);
                proof {
                    assert(self.records@ == kept + original.skip(k + 1));
                }
            } else {
                index = index + 1;
                proof {
                    assert(self.records@ == kept.push(original[k]) + original.skip(k + 1));
                }
            }
            proof {
                k = k + 1;
            }
        }
        proof {
            assert(original.take(k) + original.skip(k) == original);
            if k < original.len() {
                assert(self.records@.len() == index + (original.len() - k));
            }
            assert(k == original.len());
            assert(original.take(k) == original);
            assert(self.records@ == unowned_records(original, owner));
        }
        removed
    }

    /// Rewrites the index for every record at or after `start`.
    fn reindex_from(&mut self, start: usize)
        requires
            unique_keys(old(self).records@),
            start <= old(self).records@.len(),
            forall|i: int|
                0 <= i < old(self).records@.len() ==> #[trigger] old(self).index_by_key@.contains_key(
                    old(self).records@[i].record_key(),
                ),
            forall|i: int|
                0 <= i < start ==> old(self).index_by_key@[(
                #[trigger] old(self).records@[i]).record_key()] == i,
            forall|k: u64| #[trigger]
                old(self).index_by_key@.contains_key(k) ==> exists|i: int|
                    0 <= i < old(self).records@.len() && (#[trigger] old(self).records@[i]).record_key()
                        == k,
        ensures
            final(self).wf(),
            final(self)@ == old(self)@,
    {
        let mut index = start;
        while index < self.records.len()
            invariant
                self.records@ == old(self).records@,
                unique_keys(self.records@),
                start <= index <= self.records@.len(),
                forall|i: int|
                    0 <= i < self.records@.len() ==> #[trigger] self.index_by_key@.contains_key(
                        self.records@[i].record_key(),
                    ),
                forall|i: int|
                    0 <= i < index ==> self.index_by_key@[(#[trigger] self.records@[i]).record_key()]
                        == i,
                forall|k: u64| #[trigger]
                    self.index_by_key@.contains_key(k) ==> exists|i: int|
                        0 <= i < self.records@.len() && (#[trigger] self.records@[i]).record_key()
                            == k,
            decreases self.records@.len() - index,
        {
            let key = self.records[index].key();
            let ghost before = self.index_by_key@;
            self.index_by_key.insert(key, index);
            proof {
                assert forall|i: int| 0 <= i < index + 1 implies self.index_by_key@[(
                #[trigger] self.records@[i]).record_key()] == i by {
                    if i < index {
                        assert(self.records@[i].record_key() != self.records@[index as int].record_key());
                        assert(before[self.records@[i].record_key()] == i);
                    }
                }
                assert forall|k: u64| #[trigger] self.index_by_key@.contains_key(k) implies exists|i: int|
                    0 <= i < self.records@.len() && (#[trigger] self.records@[i]).record_key() == k by {
                    if k == key {
                        assert(self.records@[index as int].record_key() == k);
                    } else {
                        assert(before.contains_key(k));
                    }
                }
            }
            index = index + 1;
        }
        proof {
            assert forall|k: u64| #[trigger] self.index_by_key@.contains_key(k) implies {
                &&& self.index_by_key@[k] < self.records@.len()
                &&& self.records@[self.index_by_key@[k] as int].record_key() == k
            } by {
                let i = choose|i: int|
                    0 <= i < self.records@.len() && (#[trigger] self.records@[i]).record_key() == k;
                assert(self.index_by_key@[self.records@[i].record_key()] == i);
            }
        }
    }
}

/// Granted abilities in grant order, indexed by ability id.
pub struct GrantedAbilityIndex<Tags, Payload> {
    records: IdRecords<GrantedAbility<Tags, Payload>>,
}

impl<Tags, Payload> GrantedAbilityIndex<Tags, Payload> {
    pub closed spec fn view(&self) -> Seq<GrantedAbility<Tags, Payload>> {
        self.records@
    }

    pub closed spec fn wf(&self) -> bool {
        self.records.wf()
    }

    /// Grants of a well-formed index have distinct ids.
    pub proof fn lemma_unique(&self)
        requires
            self.wf(),
        ensures
            unique_keys(self@),
    {
        self.records.lemma_unique();
    }

    pub fn new() -> (index: Self)
        ensures
            index.wf(),
            index@ == Seq::<GrantedAbility<Tags, Payload>>::empty(),
    {
        GrantedAbilityIndex { records: IdRecords::new() }
    }

    pub fn len(&self) -> (n: usize)
        ensures
            n == self@.len(),
    {
        self.records.len()
    }

    /// Granted abilities in grant order.
    pub fn iter(&self) -> (records: &[GrantedAbility<Tags, Payload>])
        ensures
            records@ == self@,
    {
        self.records.as_slice()
    }

    pub fn get(&self, ability_id: AbilityId) -> (record: Option<&GrantedAbility<Tags, Payload>>)
        requires
            self.wf(),
        ensures
            match record {
                Some(r) => has_key(self@, ability_id.raw()) && *r == self@[key_position(
                    self@,
                    ability_id.raw(),
                )] && r.id == ability_id,
                None => !has_key(self@, ability_id.raw()),
            },
    {
        broadcast use lemma_ability_id_raw_injective;
        self.records.get(ability_id.get())
    }

    pub fn push(&mut self, ability: GrantedAbility<Tags, Payload>)
        requires
            old(self).wf(),
            !has_key(old(self)@, ability.id.raw()),
        ensures
            final(self).wf(),
            final(self)@ == old(self)@.push(ability),
    {
        self.records.push(ability);
    }

    pub fn remove_at(&mut self, position: usize) -> (removed: GrantedAbility<Tags, Payload>)
        requires
            old(self).wf(),
            position < old(self)@.len(),
        ensures
            final(self).wf(),
            removed == old(self)@[position as int],
            final(self)@ == old(self)@.remove(position as int),
    {
        self.records.remove_at(position)
    }

    pub fn remove_owner(&mut self, owner_id: ObjectId) -> (removed: Vec<GrantedAbility<Tags, Payload>>)
        requires
            old(self).wf(),
        ensures
            final(self).wf(),
            final(self)@ == unowned_records(old(self)@, owner_id),
            removed@ == owned_records(old(self)@, owner_id),
    {
        self.records.remove_owner(owner_id)
    }
}

/// Active activations in start order, indexed by activation id.
pub struct ActiveAbilityIndex<Tags, Payload> {
    records: IdRecords<ActiveAbility<Tags, Payload>>,
}

impl<Tags, Payload> ActiveAbilityIndex<Tags, Payload> {
    pub closed spec fn view(&self) -> Seq<ActiveAbility<Tags, Payload>> {
        self.records@
    }

    pub closed spec fn wf(&self) -> bool {
        self.records.wf()
    }

    /// Activations of a well-formed index have distinct ids.
    pub proof fn lemma_unique(&self)
        requires
            self.wf(),
        ensures
            unique_keys(self@),
    {
        self.records.lemma_unique();
    }

    pub fn new() -> (index: Self)
        ensures
            index.wf(),
            index@ == Seq::<ActiveAbility<Tags, Payload>>::empty(),
    {
        ActiveAbilityIndex { records: IdRecords::new() }
    }

    pub fn len(&self) -> (n: usize)
        ensures
            n == self@.len(),
    {
        self.records.len()
    }

    pub fn as_slice(&self) -> (records: &[ActiveAbility<Tags, Payload>])
        ensures
            records@ == self@,
    {
        self.records.as_slice()
    }

    pub fn find(&self, activation_id: AbilityActivationId) -> (position: Option<usize>)
        requires
            self.wf(),
        ensures
            match position {
                Some(p) => has_key(self@, activation_id.raw()) && p == key_position(
                    self@,
                    activation_id.raw(),
                ) && p < self@.len() && self@[p as int].activation_id == activation_id,
                None => !has_key(self@, activation_id.raw()),
            },
    {
        broadcast use lemma_activation_id_raw_injective;
        self.records.find(activation_id.get())
    }

    pub fn get(&self, activation_id: AbilityActivationId) -> (record: Option<
        &ActiveAbility<Tags, Payload>,
    >)
        requires
            self.wf(),
        ensures
            match record {
                Some(r) => has_key(self@, activation_id.raw()) && *r == self@[key_position(
                    self@,
                    activation_id.raw(),
                )] && r.activation_id == activation_id,
                None => !has_key(self@, activation_id.raw()),
            },
    {
        broadcast use lemma_activation_id_raw_injective;
        self.records.get(activation_id.get())
    }

    /// Marks the activation at `position` as committed.
    pub fn mark_committed(&mut self, position: usize)
        requires
            old(self).wf(),
            position < old(self)@.len(),
        ensures
            final(self).wf(),
            final(self)@ == old(self)@.update(
                position as int,
                ActiveAbility { committed: true, ..old(self)@[position as int] },
            ),
    {
        self.records.records[position].committed = true;
        proof {
            let s = self.records.records@;
            assert forall|i: int| 0 <= i < s.len() implies s[i].record_key() == old(self).records.records@[i].record_key() by {
            }
            assert(unique_keys(s)) by {
                assert forall|i: int, j: int|
                    0 <= i < s.len() && 0 <= j < s.len() && i != j
                    implies (#[trigger] s[i]).record_key() != (#[trigger] s[j]).record_key() by {
                    assert(s[i].record_key() == old(self).records.records@[i].record_key());
                    assert(s[j].record_key() == old(self).records.records@[j].record_key());
                }
            }
            assert forall|i: int| 0 <= i < s.len() implies {
                &&& #[trigger] self.records.index_by_key@.contains_key(s[i].record_key())
                &&& self.records.index_by_key@[s[i].record_key()] == i
            } by {
                assert(s[i].record_key() == old(self).records.records@[i].record_key());
            }
            assert forall|k: u64| #[trigger] self.records.index_by_key@.contains_key(k) implies {
                &&& self.records.index_by_key@[k] < s.len()
                &&& s[self.records.index_by_key@[k] as int].record_key() == k
            } by {
                let p = self.records.index_by_key@[k] as int;
                assert(s[p].record_key() == old(self).records.records@[p].record_key());
            }
        }
    }

    pub fn push(&mut self, active: ActiveAbility<Tags, Payload>) -> (pushed: &ActiveAbility<Tags, Payload>)
        requires
            old(self).wf(),
            !has_key(old(self)@, active.activation_id.raw()),
        ensures
            final(self).wf(),
            final(self)@ == old(self)@.push(active),
            *pushed == active,
    {
        let position = self.records.len();
        self.records.push(active);
        &self.records.records[position]
    }

    pub fn remove(&mut self, activation_id: AbilityActivationId) -> (removed: Option<
        ActiveAbility<Tags, Payload>,
    >)
        requires
            old(self).wf(),
        ensures
            final(self).wf(),
            match removed {
                Some(r) => has_key(old(self)@, activation_id.raw()) && r == old(self)@[key_position(
                    old(self)@,
                    activation_id.raw(),
                )] && final(self)@ == old(self)@.remove(
                    key_position(old(self)@, activation_id.raw()),
                ),
                None => !has_key(old(self)@, activation_id.raw()) && final(self)@ == old(self)@,
            },
    {
        self.records.remove(activation_id.get())
    }

    pub fn remove_at(&mut self, position: usize) -> (removed: ActiveAbility<Tags, Payload>)
        requires
            old(self).wf(),
            position < old(self)@.len(),
        ensures
            final(self).wf(),
            removed == old(self)@[position as int],
            final(self)@ == old(self)@.remove(position as int),
    {
        self.records.remove_at(position)
    }

    pub fn remove_owner_with(&mut self, owner_id: ObjectId) -> (removed: Vec<
        ActiveAbility<Tags, Payload>,
    >)
        requires
            old(self).wf(),
        ensures
            final(self).wf(),
            final(self)@ == unowned_records(old(self)@, owner_id),
            removed@ == owned_records(old(self)@, owner_id),
    {
        self.records.remove_owner(owner_id)
    }
}

} // verus!
