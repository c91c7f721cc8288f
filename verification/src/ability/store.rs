//! Granted ability storage and active-activation lifecycle commands.
use vstd::prelude::*;

use super::activation_request::{seed_active, AbilityActivationSeed};
use super::definition::{AbilityDefinitionRegistryError, AbilityDefinitions};
use super::events::{
    active_record_fact, views_active, AbilityFact, AbilityFactKind, ActiveAbility, ActiveAbilityView,
};
use super::hooks::{AbilityCommitExecutor, AbilityLifecycleSink};
use super::ids::{AbilityActivationId, AbilityId};
use super::indexed_store::{
    has_key, key_position, owned_records, unowned_records, unique_keys, ActiveAbilityIndex,
    GrantedAbilityIndex, lemma_unowned_keys_subset,
};
use super::lifecycle_transaction::{emit_active_transition, ActiveAbilityTransition};
use super::results::{
    AbilityCancelOutcome, AbilityCommitError, AbilityCommitOutcome, AbilityEndError,
    AbilityEndOutcome, AbilityError, AbilityGrantError, AbilityRollbackError,
    AbilityRollbackOutcome,
};
use crate::identity::{ObjectId, ObjectStore};
use crate::tag::TagCollection;

verus! {

/// Grant input for `AbilityStore`.
#[derive(Clone, Debug, PartialEq, Eq)]
pub struct Grant<Tags, Payload> {
    pub owner_id: ObjectId,
    pub tags: Tags,
    pub payload: Payload,
}

impl<Tags, Payload> Grant<Tags, Payload> {
    pub fn new(owner_id: ObjectId, tags: Tags, payload: Payload) -> (grant: Self)
        ensures
            grant.owner_id == owner_id,
            grant.tags == tags,
            grant.payload == payload,
    {
        Grant { owner_id, tags, payload }
    }
}

/// Stored ability record.
#[derive(Clone, Debug, PartialEq, Eq)]
pub struct GrantedAbility<Tags, Payload> {
    pub id: AbilityId,
    pub definition_key: Option<String>,
    pub owner_id: ObjectId,
    pub tags: Tags,
    pub payload: Payload,
}

impl<Tags: TagCollection, Payload> GrantedAbility<Tags, Payload> {
    pub fn has_tag(&self, tag: &Tags::Tag) -> (present: bool)
        ensures
            Tags::obeys_tag_model() ==> present == self.tags.tag_model(*tag),
    {
        self.tags.has_tag(tag)
    }
}

/// Grants and active executions removed while cleaning up one owner object.
#[derive(Clone, Debug, PartialEq, Eq)]
pub struct RevokedOwnerAbilities<Tags, Payload> {
    pub grants: Vec<GrantedAbility<Tags, Payload>>,
    pub active_abilities: Vec<ActiveAbility<Tags, Payload>>,
}

/// Handed the activation `active`, a commit executor of this kind can answer `result`.
pub open spec fn commit_answered<Context, Tags, Payload, Executor: AbilityCommitExecutor<Context, Tags, Payload>>(
    active: ActiveAbility<Tags, Payload>,
    result: Result<(), Executor::Error>,
) -> bool {
    exists|executor: &mut Executor, context: &mut Context, view: ActiveAbilityView<'_, Tags, Payload>|
        #[trigger] call_ensures(Executor::apply_commit, (executor, context, view), result) && views_active(
            view,
            active,
        )
}

/// Handed the activation `active`, a commit executor of this kind can report success.
pub open spec fn commit_succeeded<Context, Tags, Payload, Executor: AbilityCommitExecutor<Context, Tags, Payload>>(
    active: ActiveAbility<Tags, Payload>,
) -> bool {
    exists|
        executor: &mut Executor,
        context: &mut Context,
        view: ActiveAbilityView<'_, Tags, Payload>,
        answer: Result<(), Executor::Error>,
    |
        #[trigger] call_ensures(Executor::apply_commit, (executor, context, view), answer) && answer is Ok
            && views_active(view, active)
}

/// The facts reporting the revocation of each of `actives`, in order.
pub open spec fn revoked_facts<Tags, Payload>(actives: Seq<ActiveAbility<Tags, Payload>>) -> Seq<
    AbilityFact,
> {
    actives.map_values(|a: ActiveAbility<Tags, Payload>| active_record_fact(AbilityFactKind::Revoked, a))
}

/// The ids of the grants of `owner` holding `tag`, in grant order.
pub open spec fn tagged_grant_ids<Tags: TagCollection, Payload>(
    grants: Seq<GrantedAbility<Tags, Payload>>,
    owner: ObjectId,
    tag: Tags::Tag,
) -> Seq<AbilityId>
    decreases grants.len(),
{
    if grants.len() == 0 {
        Seq::empty()
    } else {
        let rest = tagged_grant_ids(grants.drop_last(), owner, tag);
        let last = grants.last();
        if last.owner_id == owner && last.tags.tag_model(tag) {
            rest.push(last.id)
        } else {
            rest
        }
    }
}

/// The record of `active` after it is committed.
pub open spec fn committed_record<Tags, Payload>(active: ActiveAbility<Tags, Payload>) -> ActiveAbility<
    Tags,
    Payload,
> {
    ActiveAbility { committed: true, ..active }
}

/// Committing an uncommitted activation keeps it in place and committed, so committing it
/// again finds it already committed and ending it succeeds; ending it then removes it, so no
/// later command finds it.
pub proof fn lemma_commit_then_end<Tags, Payload>(actives: Seq<ActiveAbility<Tags, Payload>>, key: u64)
    requires
        unique_keys(actives),
        has_key(actives, key),
    ensures
        ({
            let p = key_position(actives, key);
            let committed = actives.update(p, committed_record(actives[p]));
            &&& unique_keys(committed)
            &&& has_key(committed, key)
            &&& key_position(committed, key) == p
            &&& committed[p].committed
            &&& !has_key(committed.remove(p), key)
        }),
{
    let p = key_position(actives, key);
    let committed = actives.update(p, committed_record(actives[p]));
    assert(committed[p].activation_id == actives[p].activation_id);
    assert(unique_keys(committed)) by {
        assert forall|i: int, j: int|
            0 <= i < committed.len() && 0 <= j < committed.len() && i != j
            implies (#[trigger] committed[i]).activation_id.raw() != (#[trigger] committed[j]).activation_id.raw() by {
            assert(committed[i].activation_id == actives[i].activation_id);
            assert(committed[j].activation_id == actives[j].activation_id);
        }
    }
    let c = key_position(committed, key);
    assert(committed[c].activation_id.raw() == key);
    if c != p {
        assert(committed[p].activation_id.raw() == key);
    }
    let removed = committed.remove(p);
    if has_key(removed, key) {
        let q = choose|q: int| 0 <= q < removed.len() && (#[trigger] removed[q]).activation_id.raw() == key;
        let oq = if q < p { q } else { q + 1 };
        assert(removed[q] == committed[oq]);
    }
}

/// Granted ability storage with lifecycle orchestration only.
pub struct AbilityStore<Tags, Payload> {
    next_id: AbilityId,
    next_activation_id: AbilityActivationId,
    abilities: GrantedAbilityIndex<Tags, Payload>,
    active_abilities: ActiveAbilityIndex<Tags, Payload>,
}

impl<Tags, Payload> AbilityStore<Tags, Payload> {
    /// Granted abilities in grant order.
    pub closed spec fn grants(&self) -> Seq<GrantedAbility<Tags, Payload>> {
        self.abilities@
    }

    /// Active activations in start order.
    pub closed spec fn actives(&self) -> Seq<ActiveAbility<Tags, Payload>> {
        self.active_abilities@
    }

    /// The raw id the next grant receives.
    pub closed spec fn next_grant_raw(&self) -> u64 {
        self.next_id.raw()
    }

    /// The raw id the next activation receives.
    pub closed spec fn next_activation_raw(&self) -> u64 {
        self.next_activation_id.raw()
    }

    /// Activations of a well-formed store have distinct ids.
    pub proof fn lemma_actives_unique(&self)
        requires
            self.wf(),
        ensures
            unique_keys(self.actives()),
    {
        self.active_abilities.lemma_unique();
    }

    /// Grants of a well-formed store have distinct ids.
    pub proof fn lemma_grants_unique(&self)
        requires
            self.wf(),
        ensures
            unique_keys(self.grants()),
    {
        self.abilities.lemma_unique();
    }

    /// Indexes agree with record order; every handed-out id is nonzero and below its cursor.
    pub closed spec fn wf(&self) -> bool {
        &&& self.abilities.wf()
        &&& self.active_abilities.wf()
        &&& self.next_id.raw() >= 1
        &&& self.next_activation_id.raw() >= 1
        &&& forall|i: int|
            0 <= i < self.abilities@.len() ==> {
                &&& (#[trigger] self.abilities@[i]).id.raw() != 0
                &&& self.abilities@[i].id.raw() < self.next_id.raw()
            }
        &&& forall|i: int|
            0 <= i < self.active_abilities@.len() ==> {
                &&& (#[trigger] self.active_abilities@[i]).activation_id.raw() != 0
                &&& self.active_abilities@[i].activation_id.raw() < self.next_activation_id.raw()
            }
    }

    pub fn new() -> (store: Self)
        ensures
            store.wf(),
            store.grants() == Seq::<GrantedAbility<Tags, Payload>>::empty(),
            store.actives() == Seq::<ActiveAbility<Tags, Payload>>::empty(),
            store.next_grant_raw() == 1,
            store.next_activation_raw() == 1,
    {
        AbilityStore {
            next_id: AbilityId::new(1),
            next_activation_id: AbilityActivationId::new(1),
            abilities: GrantedAbilityIndex::new(),
            active_abilities: ActiveAbilityIndex::new(),
        }
    }

    /// Stores a grant under the next ability id.
    pub fn insert_grant(&mut self, definition_key: Option<String>, input: Grant<Tags, Payload>) -> (id:
        AbilityId)
        requires
            old(self).wf(),
            old(self).next_grant_raw() < u64::MAX,
        ensures
            final(self).wf(),
            id.raw() == old(self).next_grant_raw(),
            final(self).grants() == old(self).grants().push(
                GrantedAbility {
                    id,
                    definition_key,
                    owner_id: input.owner_id,
                    tags: input.tags,
                    payload: input.payload,
                },
            ),
            final(self).actives() == old(self).actives(),
            final(self).next_grant_raw() == old(self).next_grant_raw() + 1,
            final(self).next_activation_raw() == old(self).next_activation_raw(),
    {
        let id = self.next_id;
        self.next_id = AbilityId::new(self.next_id.get() + 1);
        proof {
            if has_key(self.abilities@, id.raw()) {
                let i = choose|i: int|
                    0 <= i < self.abilities@.len() && (#[trigger] self.abilities@[i]).id.raw()
                        == id.raw();
                assert(self.abilities@[i].id.raw() < id.raw());
            }
        }
        self.abilities.push(
            GrantedAbility {
                id,
                definition_key,
                owner_id: input.owner_id,
                tags: input.tags,
                payload: input.payload,
            },
        );
        proof {
            assert forall|i: int| 0 <= i < self.abilities@.len() implies {
                &&& (#[trigger] self.abilities@[i]).id.raw() != 0
                &&& self.abilities@[i].id.raw() < self.next_id.raw()
            } by {
                if i < old(self).abilities@.len() {
                    assert(self.abilities@[i] == old(self).abilities@[i]);
                }
            }
        }
        id
    }

    /// Grants an ability without checking its owner.
    pub fn grant(&mut self, input: Grant<Tags, Payload>) -> (id: AbilityId)
        requires
            old(self).wf(),
            old(self).next_grant_raw() < u64::MAX,
        ensures
            final(self).wf(),
            id.raw() == old(self).next_grant_raw(),
            final(self).grants() == old(self).grants().push(
                GrantedAbility {
                    id,
                    definition_key: None,
                    owner_id: input.owner_id,
                    tags: input.tags,
                    payload: input.payload,
                },
            ),
            final(self).actives() == old(self).actives(),
            final(self).next_grant_raw() == old(self).next_grant_raw() + 1,
            final(self).next_activation_raw() == old(self).next_activation_raw(),
    {
        self.insert_grant(None, input)
    }

    /// Grants an ability after checking that its owner is live in `objects`.
    pub fn grant_checked(&mut self, objects: &ObjectStore, input: Grant<Tags, Payload>) -> (result:
        Result<AbilityId, AbilityGrantError>)
        requires
            old(self).wf(),
            old(self).next_grant_raw() < u64::MAX,
        ensures
            final(self).wf(),
            final(self).actives() == old(self).actives(),
            final(self).next_activation_raw() == old(self).next_activation_raw(),
            !(input.owner_id.raw() != 0 && objects@.contains(input.owner_id)) ==> result == Err::<
                AbilityId,
                AbilityGrantError,
            >(AbilityGrantError::InvalidOwner { owner_id: input.owner_id })
                && final(self).grants() == old(self).grants() && final(self).next_grant_raw()
                == old(self).next_grant_raw(),
            (input.owner_id.raw() != 0 && objects@.contains(input.owner_id)) ==> (result matches Ok(
                id,
            ) && id.raw() == old(self).next_grant_raw() && final(self).grants() == old(self).grants().push(
                GrantedAbility {
                    id,
                    definition_key: None,
                    owner_id: input.owner_id,
                    tags: input.tags,
                    payload: input.payload,
                },
            ) && final(self).next_grant_raw() == old(self).next_grant_raw() + 1),
    {
        if !objects.is_live(input.owner_id) {
            return Err(AbilityGrantError::InvalidOwner { owner_id: input.owner_id });
        }
        Ok(self.insert_grant(None, input))
    }

    /// Grants an ability recorded under the registered definition `key`.
    pub fn grant_registered<PayloadSchema>(
        &mut self,
        definitions: &AbilityDefinitions<PayloadSchema>,
        key: &str,
        input: Grant<Tags, Payload>,
    ) -> (result: Result<AbilityId, AbilityDefinitionRegistryError>)
        requires
            old(self).wf(),
            old(self).next_grant_raw() < u64::MAX,
        ensures
            final(self).wf(),
            final(self).actives() == old(self).actives(),
            final(self).next_activation_raw() == old(self).next_activation_raw(),
            !super::definition::defines_ability(definitions@, key@) ==> (result matches Err(
                AbilityDefinitionRegistryError::MissingDefinition { key: k },
            ) && k@ == key@ && final(self).grants() == old(self).grants()
                && final(self).next_grant_raw() == old(self).next_grant_raw()),
            super::definition::defines_ability(definitions@, key@) ==> (result matches Ok(id)
                && id.raw() == old(self).next_grant_raw() && final(self).grants().len() == old(self).grants().len() + 1 && final(self).grants().drop_last() == old(self).grants() && ({
                let g = final(self).grants().last();
                &&& g.id == id
                &&& g.definition_key matches Some(k) && k@ == key@
                &&& g.owner_id == input.owner_id
                &&& g.tags == input.tags
                &&& g.payload == input.payload
            }) && final(self).next_grant_raw() == old(self).next_grant_raw() + 1),
    {
        match definitions.require(key) {
            Err(error) => Err(error),
            Ok(_) => {
                let id = self.insert_grant(Some(key.to_owned()), input);
                proof {
                    assert(self.grants().drop_last() == old(self).grants());
                }
                Ok(id)
            },
        }
    }

    pub fn count(&self) -> (n: usize)
        ensures
            n == self.grants().len(),
    {
        self.abilities.len()
    }

    pub fn get(&self, ability_id: AbilityId) -> (ability: Option<&GrantedAbility<Tags, Payload>>)
        requires
            self.wf(),
        ensures
            match ability {
                Some(a) => has_key(self.grants(), ability_id.raw()) && *a == self.grants()[key_position(
                    self.grants(),
                    ability_id.raw(),
                )] && a.id == ability_id,
                None => !has_key(self.grants(), ability_id.raw()),
            },
    {
        self.find(ability_id)
    }

    pub fn active_activation_count(&self) -> (n: usize)
        ensures
            n == self.actives().len(),
    {
        self.active_abilities.len()
    }

    pub fn active_activations(&self) -> (actives: &[ActiveAbility<Tags, Payload>])
        ensures
            actives@ == self.actives(),
    {
        self.active_abilities.as_slice()
    }

    pub fn get_active_activation(&self, activation_id: AbilityActivationId) -> (active: Option<
        &ActiveAbility<Tags, Payload>,
    >)
        requires
            self.wf(),
        ensures
            match active {
                Some(a) => has_key(self.actives(), activation_id.raw()) && *a == self.actives()[key_position(
                    self.actives(),
                    activation_id.raw(),
                )] && a.activation_id == activation_id,
                None => !has_key(self.actives(), activation_id.raw()),
            },
    {
        self.find_active(activation_id)
    }

    fn find(&self, ability_id: AbilityId) -> (ability: Option<&GrantedAbility<Tags, Payload>>)
        requires
            self.wf(),
        ensures
            match ability {
                Some(a) => has_key(self.grants(), ability_id.raw()) && *a == self.grants()[key_position(
                    self.grants(),
                    ability_id.raw(),
                )] && a.id == ability_id,
                None => !has_key(self.grants(), ability_id.raw()),
            },
    {
        self.abilities.get(ability_id)
    }

    fn find_active(&self, activation_id: AbilityActivationId) -> (active: Option<
        &ActiveAbility<Tags, Payload>,
    >)
        requires
            self.wf(),
        ensures
            match active {
                Some(a) => has_key(self.actives(), activation_id.raw()) && *a == self.actives()[key_position(
                    self.actives(),
                    activation_id.raw(),
                )] && a.activation_id == activation_id,
                None => !has_key(self.actives(), activation_id.raw()),
            },
    {
        self.active_abilities.get(activation_id)
    }

    /// Starts an uncommitted activation from `seed` under the next activation id.
    pub fn start_activation_from_seed(&mut self, seed: AbilityActivationSeed<Tags, Payload>) -> (activation_id:
        AbilityActivationId)
        requires
            old(self).wf(),
            old(self).next_activation_raw() < u64::MAX,
        ensures
            final(self).wf(),
            activation_id.raw() == old(self).next_activation_raw(),
            final(self).actives() == old(self).actives().push(seed_active(seed, activation_id)),
            final(self).grants() == old(self).grants(),
            final(self).next_grant_raw() == old(self).next_grant_raw(),
            final(self).next_activation_raw() == old(self).next_activation_raw() + 1,
    {
        let activation_id = self.next_activation_id;
        self.next_activation_id = AbilityActivationId::new(self.next_activation_id.get() + 1);
        let active = seed.into_active(activation_id);
        proof {
            if has_key(self.active_abilities@, activation_id.raw()) {
                let i = choose|i: int|
                    0 <= i < self.active_abilities@.len() && (
                    #[trigger] self.active_abilities@[i]).activation_id.raw() == activation_id.raw();
                assert(self.active_abilities@[i].activation_id.raw() < activation_id.raw());
            }
        }
        let _ = self.active_abilities.push(active);
        proof {
            assert forall|i: int| 0 <= i < self.active_abilities@.len() implies {
                &&& (#[trigger] self.active_abilities@[i]).activation_id.raw() != 0
                &&& self.active_abilities@[i].activation_id.raw() < self.next_activation_id.raw()
            } by {
                if i < old(self).active_abilities@.len() {
                    assert(self.active_abilities@[i] == old(self).active_abilities@[i]);
                }
            }
        }
        activation_id
    }

    /// Removes an active activation and reports `transition` of it into `sink`.
    fn remove_active_for_transition<Sink: AbilityLifecycleSink<Tags, Payload>>(
        &mut self,
        activation_id: AbilityActivationId,
        transition: ActiveAbilityTransition,
        sink: &mut Sink,
    ) -> (removed: Option<ActiveAbility<Tags, Payload>>)
        requires
            old(self).wf(),
        ensures
            final(self).wf(),
            final(self).grants() == old(self).grants(),
            final(self).next_grant_raw() == old(self).next_grant_raw(),
            final(self).next_activation_raw() == old(self).next_activation_raw(),
            match removed {
                Some(a) => has_key(old(self).actives(), activation_id.raw()) && a == old(self).actives()[key_position(old(self).actives(), activation_id.raw())]
                    && final(self).actives() == old(self).actives().remove(
                    key_position(old(self).actives(), activation_id.raw()),
                ) && final(sink).emitted() == old(sink).emitted().push(
                    active_record_fact(super::lifecycle_transaction::transition_fact_kind(transition), a),
                ),
                None => !has_key(old(self).actives(), activation_id.raw()) && final(self).actives()
                    == old(self).actives() && final(sink).emitted() == old(sink).emitted(),
            },
    {
        let removed = self.active_abilities.remove(activation_id);
        proof {
            self.lemma_actives_bounded_after_removal(*old(self));
        }
        match removed {
            Some(active) => {
                emit_active_transition(transition, &active, sink);
                Some(active)
            },
            None => None,
        }
    }

    /// After removing records, every remaining activation id still lies in range.
    proof fn lemma_actives_bounded_after_removal(&self, before: Self)
        requires
            before.wf(),
            self.active_abilities.wf(),
            self.abilities == before.abilities,
            self.next_id == before.next_id,
            self.next_activation_id == before.next_activation_id,
            forall|i: int|
                0 <= i < self.active_abilities@.len() ==> before.active_abilities@.contains(
                    #[trigger] self.active_abilities@[i],
                ),
        ensures
            self.wf(),
    {
        assert forall|i: int| 0 <= i < self.active_abilities@.len() implies {
            &&& (#[trigger] self.active_abilities@[i]).activation_id.raw() != 0
            &&& self.active_abilities@[i].activation_id.raw() < self.next_activation_id.raw()
        } by {
            let a = self.active_abilities@[i];
            assert(before.active_abilities@.contains(a));
            let j = choose|j: int| 0 <= j < before.active_abilities@.len() && before.active_abilities@[j] == a;
            assert(before.active_abilities@[j].activation_id.raw() != 0);
        }
    }
}

impl<Tags: TagCollection, Payload> AbilityStore<Tags, Payload> {
    /// Whether `owner_id` holds a granted ability tagged `tag`.
    pub fn has_tag(&self, owner_id: ObjectId, tag: &Tags::Tag) -> (present: bool)
        ensures
            Tags::obeys_tag_model() ==> present == exists|i: int|
                0 <= i < self.grants().len() && (#[trigger] self.grants()[i]).owner_id == owner_id
                    && self.grants()[i].tags.tag_model(*tag),
    {
        let records = self.abilities.iter();
        let mut index: usize = 0;
        while index < records.len()
            invariant
                records@ == self.grants(),
                0 <= index <= records@.len(),
                Tags::obeys_tag_model() ==> forall|k: int|
                    0 <= k < index ==> !((#[trigger] records@[k]).owner_id == owner_id
                        && records@[k].tags.tag_model(*tag)),
            decreases records@.len() - index,
        {
            if records[index].owner_id == owner_id && records[index].has_tag(tag) {
                return true;
            }
            index = index + 1;
        }
        false
    }

    /// Granted ability ids for `owner_id` with `tag`, in deterministic grant order.
    pub fn ids_with_tag(&self, owner_id: ObjectId, tag: &Tags::Tag) -> (ids: Vec<AbilityId>)
        ensures
            Tags::obeys_tag_model() ==> ids@ == tagged_grant_ids(self.grants(), owner_id, *tag),
    {
        let records = self.abilities.iter();
        let mut ids: Vec<AbilityId> = Vec::new();
        let mut index: usize = 0;
        while index < records.len()
            invariant
                records@ == self.grants(),
                0 <= index <= records@.len(),
                Tags::obeys_tag_model() ==> ids@ == tagged_grant_ids(
                    records@.take(index as int),
                    owner_id,
                    *tag,
                ),
            decreases records@.len() - index,
        {
            proof {
                assert(records@.take(index + 1).drop_last() == records@.take(index as int));
            }
            if records[index].owner_id == owner_id && records[index].has_tag(tag) {
                ids.push(records[index].id);
            }
            index = index + 1;
        }
        proof {
            assert(records@.take(records@.len() as int) == records@);
        }
        ids
    }
}

impl<Tags, Payload> AbilityStore<Tags, Payload> {
    /// Commits an active activation through the executor's caller-owned action.
    ///
    /// A failed action rolls the activation back.
    pub fn commit_with_executor<Context, Executor: AbilityCommitExecutor<Context, Tags, Payload>>(
        &mut self,
        activation_id: AbilityActivationId,
        context: &mut Context,
        executor: &mut Executor,
    ) -> (result: Result<AbilityCommitOutcome, AbilityCommitError<Executor::Error>>)
        requires
            old(self).wf(),
        ensures
            final(self).wf(),
            final(self).grants() == old(self).grants(),
            final(self).next_grant_raw() == old(self).next_grant_raw(),
            final(self).next_activation_raw() == old(self).next_activation_raw(),
            ({
                let actives = old(self).actives();
                let present = has_key(actives, activation_id.raw());
                let p = key_position(actives, activation_id.raw());
                &&& !present ==> result == Err::<
                    AbilityCommitOutcome,
                    AbilityCommitError<Executor::Error>,
                >(AbilityCommitError::Ability(AbilityError::MissingActivation))
                    && final(self).actives() == actives && final(executor).emitted() == old(executor).emitted()
                &&& present && actives[p].committed ==> result == Ok::<
                    AbilityCommitOutcome,
                    AbilityCommitError<Executor::Error>,
                >(AbilityCommitOutcome::AlreadyCommitted) && final(self).actives() == actives
                    && final(executor).emitted() == old(executor).emitted()
                &&& present && !actives[p].committed ==> {
                    ||| (result == Ok::<AbilityCommitOutcome, AbilityCommitError<Executor::Error>>(
                        AbilityCommitOutcome::Committed,
                    ) && final(self).actives() == actives.update(p, committed_record(actives[p]))
                        && final(executor).emitted() == old(executor).emitted().push(
                        active_record_fact(AbilityFactKind::Committed, committed_record(actives[p])),
                    ))
                    ||| (result matches Err(AbilityCommitError::Action(_)) && final(self).actives()
                        == actives.remove(p) && final(executor).emitted() == old(executor).emitted().push(active_record_fact(AbilityFactKind::RolledBack, actives[p])))
                }
                &&& present && !actives[p].committed && old(executor).applies_every_commit() ==> result
                    == Ok::<AbilityCommitOutcome, AbilityCommitError<Executor::Error>>(
                    AbilityCommitOutcome::Committed,
                )
                &&& !(present && !actives[p].committed) ==> final(executor).applied() == old(executor).applied()
                &&& present && !actives[p].committed ==> final(executor).applied() == old(
                    executor,
                ).applied().push(active_record_fact(AbilityFactKind::Committed, actives[p]))
                &&& result matches Err(AbilityCommitError::Action(error)) ==> commit_answered::<
                    Context,
                    Tags,
                    Payload,
                    Executor,
                >(actives[p], Err(error))
                &&& present && !actives[p].committed && result is Ok ==> commit_succeeded::<
                    Context,
                    Tags,
                    Payload,
                    Executor,
                >(actives[p])
            }),
    {
        let position = match self.active_abilities.find(activation_id) {
            Some(position) => position,
            None => {
                return Err(AbilityCommitError::Ability(AbilityError::MissingActivation));
            },
        };
        if self.active_abilities.as_slice()[position].committed {
            return Ok(AbilityCommitOutcome::AlreadyCommitted);
        }
        let ghost record = self.active_abilities@[position as int];
        let action = {
            let active = &self.active_abilities.as_slice()[position];
            let view = ActiveAbilityView::from_active(active);
            let answer = executor.apply_commit(context, view);
            proof {
                assert(commit_answered::<Context, Tags, Payload, Executor>(
                    self.active_abilities@[position as int],
                    answer,
                ));
            }
            answer
        };
        match action {
            Err(error) => {
                let removed = self.active_abilities.remove_at(position);
                proof {
                    self.lemma_actives_bounded_after_removal(*old(self));
                }
                executor.emit_ability_lifecycle(ActiveAbilityTransition::RolledBack.event(&removed));
                Err(AbilityCommitError::Action(error))
            },
            Ok(()) => {
                assert(commit_succeeded::<Context, Tags, Payload, Executor>(record));
                self.active_abilities.mark_committed(position);
                proof {
                    assert forall|i: int| 0 <= i < self.active_abilities@.len() implies {
                        &&& (#[trigger] self.active_abilities@[i]).activation_id.raw() != 0
                        &&& self.active_abilities@[i].activation_id.raw() < self.next_activation_id.raw()
                    } by {
                        assert(self.active_abilities@[i].activation_id == old(self).active_abilities@[i].activation_id);
                    }
                }
                let active = &self.active_abilities.as_slice()[position];
                executor.emit_ability_lifecycle(ActiveAbilityTransition::Committed.event(active));
                Ok(AbilityCommitOutcome::Committed)
            },
        }
    }

    /// Ends a committed activation.
    pub fn end_with_sink<Sink: AbilityLifecycleSink<Tags, Payload>>(
        &mut self,
        activation_id: AbilityActivationId,
        sink: &mut Sink,
    ) -> (result: Result<AbilityEndOutcome<Tags, Payload>, AbilityEndError>)
        requires
            old(self).wf(),
        ensures
            final(self).wf(),
            final(self).grants() == old(self).grants(),
            final(self).next_grant_raw() == old(self).next_grant_raw(),
            final(self).next_activation_raw() == old(self).next_activation_raw(),
            ({
                let actives = old(self).actives();
                let present = has_key(actives, activation_id.raw());
                let p = key_position(actives, activation_id.raw());
                &&& !present ==> result == Err::<AbilityEndOutcome<Tags, Payload>, AbilityEndError>(
                    AbilityEndError::MissingActivation,
                ) && final(self).actives() == actives && final(sink).emitted() == old(sink).emitted()
                &&& present && !actives[p].committed ==> result == Err::<
                    AbilityEndOutcome<Tags, Payload>,
                    AbilityEndError,
                >(AbilityEndError::UncommittedActivation) && final(self).actives() == actives
                    && final(sink).emitted() == old(sink).emitted()
                &&& present && actives[p].committed ==> result == Ok::<
                    AbilityEndOutcome<Tags, Payload>,
                    AbilityEndError,
                >(AbilityEndOutcome::Ended(actives[p])) && final(self).actives() == actives.remove(p)
                    && final(sink).emitted() == old(sink).emitted().push(
                    active_record_fact(AbilityFactKind::Ended, actives[p]),
                )
            }),
    {
        let committed = match self.find_active(activation_id) {
            None => {
                return Err(AbilityEndError::MissingActivation);
            },
            Some(active) => active.committed,
        };
        if !committed {
            return Err(AbilityEndError::UncommittedActivation);
        }
        match self.remove_active_for_transition(activation_id, ActiveAbilityTransition::Ended, sink) {
            Some(active) => Ok(AbilityEndOutcome::Ended(active)),
            None => Err(AbilityEndError::MissingActivation),
        }
    }

    /// Cancels an activation in any state.
    pub fn cancel_with_sink<Sink: AbilityLifecycleSink<Tags, Payload>>(
        &mut self,
        activation_id: AbilityActivationId,
        sink: &mut Sink,
    ) -> (outcome: AbilityCancelOutcome<Tags, Payload>)
        requires
            old(self).wf(),
        ensures
            final(self).wf(),
            final(self).grants() == old(self).grants(),
            final(self).next_grant_raw() == old(self).next_grant_raw(),
            final(self).next_activation_raw() == old(self).next_activation_raw(),
            ({
                let actives = old(self).actives();
                let present = has_key(actives, activation_id.raw());
                let p = key_position(actives, activation_id.raw());
                &&& !present ==> outcome == AbilityCancelOutcome::<Tags, Payload>::MissingActivation
                    && final(self).actives() == actives && final(sink).emitted() == old(sink).emitted()
                &&& present ==> outcome == AbilityCancelOutcome::Canceled(actives[p])
                    && final(self).actives() == actives.remove(p) && final(sink).emitted() == old(sink).emitted().push(active_record_fact(AbilityFactKind::Canceled, actives[p]))
            }),
    {
        match self.remove_active_for_transition(activation_id, ActiveAbilityTransition::Canceled, sink) {
            Some(active) => AbilityCancelOutcome::Canceled(active),
            None => AbilityCancelOutcome::MissingActivation,
        }
    }

    /// Rolls back an uncommitted activation.
    pub fn rollback_with_sink<Sink: AbilityLifecycleSink<Tags, Payload>>(
        &mut self,
        activation_id: AbilityActivationId,
        sink: &mut Sink,
    ) -> (result: Result<AbilityRollbackOutcome<Tags, Payload>, AbilityRollbackError>)
        requires
            old(self).wf(),
        ensures
            final(self).wf(),
            final(self).grants() == old(self).grants(),
            final(self).next_grant_raw() == old(self).next_grant_raw(),
            final(self).next_activation_raw() == old(self).next_activation_raw(),
            ({
                let actives = old(self).actives();
                let present = has_key(actives, activation_id.raw());
                let p = key_position(actives, activation_id.raw());
                &&& !present ==> result == Err::<
                    AbilityRollbackOutcome<Tags, Payload>,
                    AbilityRollbackError,
                >(AbilityRollbackError::MissingActivation) && final(self).actives() == actives
                    && final(sink).emitted() == old(sink).emitted()
                &&& present && actives[p].committed ==> result == Err::<
                    AbilityRollbackOutcome<Tags, Payload>,
                    AbilityRollbackError,
                >(AbilityRollbackError::AlreadyCommitted) && final(self).actives() == actives
                    && final(sink).emitted() == old(sink).emitted()
                &&& present && !actives[p].committed ==> result == Ok::<
                    AbilityRollbackOutcome<Tags, Payload>,
                    AbilityRollbackError,
                >(AbilityRollbackOutcome::RolledBack(actives[p])) && final(self).actives()
                    == actives.remove(p) && final(sink).emitted() == old(sink).emitted().push(
                    active_record_fact(AbilityFactKind::RolledBack, actives[p]),
                )
            }),
    {
        let committed = match self.find_active(activation_id) {
            None => {
                return Err(AbilityRollbackError::MissingActivation);
            },
            Some(active) => active.committed,
        };
        if committed {
            return Err(AbilityRollbackError::AlreadyCommitted);
        }
        match self.remove_active_for_transition(activation_id, ActiveAbilityTransition::RolledBack, sink) {
            Some(active) => Ok(AbilityRollbackOutcome::RolledBack(active)),
            None => Err(AbilityRollbackError::MissingActivation),
        }
    }

    /// Removes every grant and active activation owned by `owner_id`, reporting each
    /// removed activation as revoked.
    pub fn remove_owner_with_sink<Sink: AbilityLifecycleSink<Tags, Payload>>(
        &mut self,
        owner_id: ObjectId,
        sink: &mut Sink,
    ) -> (revoked: RevokedOwnerAbilities<Tags, Payload>)
        requires
            old(self).wf(),
        ensures
            final(self).wf(),
            final(self).grants() == unowned_records(old(self).grants(), owner_id),
            final(self).actives() == unowned_records(old(self).actives(), owner_id),
            revoked.grants@ == owned_records(old(self).grants(), owner_id),
            revoked.active_abilities@ == owned_records(old(self).actives(), owner_id),
            final(sink).emitted() == old(sink).emitted() + revoked_facts(
                owned_records(old(self).actives(), owner_id),
            ),
            final(self).next_grant_raw() == old(self).next_grant_raw(),
            final(self).next_activation_raw() == old(self).next_activation_raw(),
    {
        let active_abilities = self.active_abilities.remove_owner_with(owner_id);
        proof {
            assert(revoked_facts(active_abilities@.take(0)) == Seq::<AbilityFact>::empty());
            assert(sink.emitted() == old(sink).emitted() + Seq::<AbilityFact>::empty());
        }
        let mut index: usize = 0;
        while index < active_abilities.len()
            invariant
                0 <= index <= active_abilities@.len(),
                sink.emitted() == old(sink).emitted() + revoked_facts(
                    active_abilities@.take(index as int),
                ),
            decreases active_abilities@.len() - index,
        {
            emit_active_transition(ActiveAbilityTransition::Revoked, &active_abilities[index], sink);
            proof {
                assert(active_abilities@.take(index + 1) == active_abilities@.take(index as int).push(
                    active_abilities@[index as int],
                ));
                assert(revoked_facts(active_abilities@.take(index + 1)) == revoked_facts(
                    active_abilities@.take(index as int),
                ).push(active_record_fact(AbilityFactKind::Revoked, active_abilities@[index as int])));
            }
            index = index + 1;
        }
        proof {
            assert(active_abilities@.take(active_abilities@.len() as int) == active_abilities@);
        }
        let grants = self.abilities.remove_owner(owner_id);
        proof {
            assert forall|i: int| 0 <= i < self.abilities@.len() implies {
                &&& (#[trigger] self.abilities@[i]).id.raw() != 0
                &&& self.abilities@[i].id.raw() < self.next_id.raw()
            } by {
                let g = self.abilities@[i];
                assert(has_key(self.abilities@, g.id.raw()));
                lemma_unowned_keys_subset(old(self).abilities@, owner_id, g.id.raw());
                let j = choose|j: int| 0 <= j < old(self).abilities@.len() && (#[trigger] old(self).abilities@[j]).id.raw() == g.id.raw();
                assert(old(self).abilities@[j].id.raw() != 0);
            }
            assert forall|i: int| 0 <= i < self.active_abilities@.len() implies {
                &&& (#[trigger] self.active_abilities@[i]).activation_id.raw() != 0
                &&& self.active_abilities@[i].activation_id.raw() < self.next_activation_id.raw()
            } by {
                let a = self.active_abilities@[i];
                assert(has_key(self.active_abilities@, a.activation_id.raw()));
                lemma_unowned_keys_subset(old(self).active_abilities@, owner_id, a.activation_id.raw());
                let j = choose|j: int| 0 <= j < old(self).active_abilities@.len() && (#[trigger] old(self).active_abilities@[j]).activation_id.raw() == a.activation_id.raw();
                assert(old(self).active_abilities@[j].activation_id.raw() != 0);
            }
        }
        RevokedOwnerAbilities { grants, active_abilities }
    }
}

} // verus!
