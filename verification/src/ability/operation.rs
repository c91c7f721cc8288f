//! Ability activation and commit command builders.
use vstd::prelude::*;
use std::convert::Infallible;

use super::activation_request::{
    attempt_of, resolve_activation_request, resolve_owner_activation_request,
    AbilityActivationRequest, AbilityActivationRequestError,
};
use super::definition::{defines_ability, AbilityDefinitionRegistryError, AbilityDefinitions};
use super::events::{
    ability_fact, active_record_fact, attempt_fact, AbilityActivationAttemptView,
    AbilityActivationRejectionReason, AbilityActivationRejectionView, AbilityFact, AbilityFactKind,
    AbilityLifecycleEventView, ActiveAbility,
};
use super::hooks::{
    AbilityActivationDecision, AbilityActivationExecutor, AbilityCommitExecutor,
    NoAbilityActivationExecutor, NoAbilityCommitExecutor,
};
use super::ids::{AbilityActivationId, AbilityId};
use super::indexed_store::{has_key, key_position};
use super::lifecycle_transaction::ActiveAbilityTransition;
use super::results::{AbilityBeginError, AbilityCommitError, AbilityCommitOutcome, AbilityError};
use super::store::{commit_answered, commit_succeeded, committed_record, AbilityStore, GrantedAbility};
use crate::identity::ObjectId;
use crate::text::{as_key_ref, decimal_text, opt_string_view, text2, text3, text_extends};

verus! {

/// Ability activation command builder.
#[derive(Clone, Copy, Debug, PartialEq, Eq)]
pub struct AbilityActivation<'definition, PayloadSchema = ()> {
    ability_id: AbilityId,
    owner_id: Option<ObjectId>,
    definitions: Option<&'definition AbilityDefinitions<PayloadSchema>>,
}

/// Ability activation command failures.
#[derive(Clone, Debug, PartialEq, Eq)]
pub enum AbilityActivationError<GateError, BlockReason = Infallible> {
    Activation(AbilityBeginError<GateError, BlockReason>),
    MissingGrantedDefinitionKey { ability_id: AbilityId },
    Definition(AbilityDefinitionRegistryError),
}

/// How an activation request resolves against a store, before any gate runs.
#[derive(Clone, Copy, Debug, PartialEq, Eq, Structural)]
pub enum ActivationResolution {
    InvalidOwner,
    MissingAbility,
    OwnerMismatch,
    MissingGrantedDefinitionKey,
    MissingDefinition,
    Ready,
}

/// Resolution order: an invalid expected owner, then a missing grant, then an owner
/// mismatch, then (for registry-aware requests) a grant without a definition key, then an
/// unregistered key.
pub open spec fn activation_resolution<Tags, Payload, PayloadSchema>(
    grants: Seq<GrantedAbility<Tags, Payload>>,
    ability_id: AbilityId,
    owner_id: Option<ObjectId>,
    definitions: Option<Seq<super::definition::AbilityDefinition<PayloadSchema>>>,
) -> ActivationResolution {
    let present = has_key(grants, ability_id.raw());
    let granted = grants[key_position(grants, ability_id.raw())];
    if owner_id is Some && owner_id->0.raw() == 0 {
        ActivationResolution::InvalidOwner
    } else if !present {
        ActivationResolution::MissingAbility
    } else if owner_id is Some && granted.owner_id != owner_id->0 {
        ActivationResolution::OwnerMismatch
    } else if definitions is Some && granted.definition_key is None {
        ActivationResolution::MissingGrantedDefinitionKey
    } else if definitions is Some && !defines_ability(
        definitions->0,
        granted.definition_key->0@,
    ) {
        ActivationResolution::MissingDefinition
    } else {
        ActivationResolution::Ready
    }
}

/// Asked about an attempt at `granted` in `context`, an executor of this kind can answer
/// `decision`.
pub open spec fn gate_answered<Context, Tags, Payload, Executor: AbilityActivationExecutor<Context, Tags, Payload>>(
    granted: GrantedAbility<Tags, Payload>,
    context: &Context,
    decision: Result<AbilityActivationDecision<Executor::BlockReason>, Executor::Error>,
) -> bool {
    exists|executor: &mut Executor, attempt: AbilityActivationAttemptView<'_, Tags, Payload>|
        {
            &&& #[trigger] call_ensures(Executor::can_activate, (executor, context, attempt), decision)
            &&& attempt_fact(AbilityFactKind::Attempted, attempt) == attempted_fact(granted)
            &&& *attempt.tags == granted.tags
            &&& *attempt.payload == granted.payload
        }
}

/// The attempt fact for the grant `granted`.
pub open spec fn attempted_fact<Tags, Payload>(granted: GrantedAbility<Tags, Payload>) -> AbilityFact {
    granted_fact(AbilityFactKind::Attempted, granted)
}

/// The rejection fact, for `reason`, of an attempt at the grant `granted`.
pub open spec fn rejected_fact<Tags, Payload>(
    granted: GrantedAbility<Tags, Payload>,
    reason: AbilityActivationRejectionReason,
) -> AbilityFact {
    granted_fact(AbilityFactKind::Rejected(reason), granted)
}

/// The rejection fact, for `reason`, of a request that found no grant to attempt.
pub open spec fn unattempted_fact(reason: AbilityActivationRejectionReason) -> AbilityFact {
    AbilityFact {
        kind: AbilityFactKind::Rejected(reason),
        ability_id: None,
        activation_id: None,
        key: None,
        owner_id: None,
        committed: false,
    }
}

/// What a fact of `kind` about an attempt reports of the grant `granted`.
pub open spec fn granted_fact<Tags, Payload>(kind: AbilityFactKind, granted: GrantedAbility<Tags, Payload>) -> AbilityFact {
    AbilityFact {
        kind,
        ability_id: Some(granted.id),
        activation_id: None,
        key: opt_string_view(granted.definition_key),
        owner_id: Some(granted.owner_id),
        committed: false,
    }
}

/// `active` is the fresh, uncommitted activation `activation_id` of `granted`.
pub open spec fn started_from<Tags: Clone, Payload: Clone>(
    active: ActiveAbility<Tags, Payload>,
    granted: GrantedAbility<Tags, Payload>,
    activation_id: AbilityActivationId,
) -> bool {
    &&& active.activation_id == activation_id
    &&& active.ability_id == granted.id
    &&& active.definition_key == granted.definition_key
    &&& active.owner_id == granted.owner_id
    &&& cloned(granted.tags, active.tags)
    &&& cloned(granted.payload, active.payload)
    &&& !active.committed
}

/// What an activation attempt did to the store's activations and activation cursor: one that
/// started takes the cursor's id, is appended last, and moves the cursor one on; one that did
/// not start leaves both as they were.
pub open spec fn activation_step<Tags, Payload>(
    before: AbilityStore<Tags, Payload>,
    after: AbilityStore<Tags, Payload>,
    started: Option<AbilityActivationId>,
) -> bool {
    match started {
        Some(id) => {
            &&& id.raw() == before.next_activation_raw()
            &&& after.next_activation_raw() == before.next_activation_raw() + 1
            &&& after.actives().drop_last() == before.actives()
            &&& after.actives().len() == before.actives().len() + 1
            &&& after.actives().last().activation_id == id
        },
        None => after.next_activation_raw() == before.next_activation_raw() && after.actives()
            == before.actives(),
    }
}

/// The activation an attempt started, if it started one.
pub open spec fn started_activation<E>(result: Result<AbilityActivationId, E>) -> Option<AbilityActivationId> {
    match result {
        Ok(id) => Some(id),
        Err(_) => None,
    }
}

/// The store's grants, activations and id cursors are as before.
pub open spec fn store_unchanged<Tags, Payload>(
    after: AbilityStore<Tags, Payload>,
    before: AbilityStore<Tags, Payload>,
) -> bool {
    &&& after.grants() == before.grants()
    &&& after.actives() == before.actives()
    &&& after.next_grant_raw() == before.next_grant_raw()
    &&& after.next_activation_raw() == before.next_activation_raw()
}

/// Ability commit command builder.
#[derive(Clone, Copy, Debug, PartialEq, Eq)]
pub struct AbilityCommit {
    activation_id: AbilityActivationId,
}

impl AbilityActivation<'static, ()> {
    pub fn new(ability_id: AbilityId) -> (activation: AbilityActivation<'static, ()>)
        ensures
            activation.target() == ability_id,
            activation.expected_owner() is None,
            activation.registry() is None,
    {
        AbilityActivation { ability_id, owner_id: None, definitions: None }
    }
}

impl<'definition, PayloadSchema> AbilityActivation<'definition, PayloadSchema> {
    /// The granted ability to activate.
    pub closed spec fn target(&self) -> AbilityId {
        self.ability_id
    }

    /// The owner the grant must belong to, if checked.
    pub closed spec fn expected_owner(&self) -> Option<ObjectId> {
        self.owner_id
    }

    /// The registry the grant's definition key must be found in, if checked.
    pub closed spec fn registry(&self) -> Option<Seq<super::definition::AbilityDefinition<PayloadSchema>>> {
        match self.definitions {
            Some(d) => Some(d@),
            None => None,
        }
    }

    pub fn registered(
        definitions: &'definition AbilityDefinitions<PayloadSchema>,
        ability_id: AbilityId,
    ) -> (activation: Self)
        ensures
            activation.target() == ability_id,
            activation.expected_owner() is None,
            activation.registry() == Some(definitions@),
    {
        AbilityActivation { ability_id, owner_id: None, definitions: Some(definitions) }
    }

    pub fn for_owner(self, owner_id: ObjectId) -> (activation: Self)
        ensures
            activation.target() == self.target(),
            activation.expected_owner() == Some(owner_id),
            activation.registry() == self.registry(),
    {
        AbilityActivation { owner_id: Some(owner_id), ..self }
    }

    /// Activates with no gate: resolvable requests always start.
    pub fn run<Tags: Clone, Payload: Clone>(self, store: &mut AbilityStore<Tags, Payload>) -> (result:
        Result<AbilityActivationId, AbilityActivationError<Infallible, Infallible>>)
        requires
            old(store).wf(),
            old(store).next_activation_raw() < u64::MAX,
        ensures
            final(store).wf(),
            activation_step(*old(store), *final(store), started_activation(result)),
            ({
                let grants = old(store).grants();
                let granted = grants[key_position(grants, self.target().raw())];
                let resolution = activation_resolution(
                    grants,
                    self.target(),
                    self.expected_owner(),
                    self.registry(),
                );
                &&& resolution == ActivationResolution::InvalidOwner ==> result == Err::<
                    AbilityActivationId,
                    AbilityActivationError<Infallible, Infallible>,
                >(
                    AbilityActivationError::Activation(
                        AbilityBeginError::Ability(
                            AbilityError::InvalidOwner { owner_id: self.expected_owner()->0 },
                        ),
                    ),
                ) && store_unchanged(*final(store), *old(store))
                &&& resolution == ActivationResolution::MissingAbility ==> result == Err::<
                    AbilityActivationId,
                    AbilityActivationError<Infallible, Infallible>,
                >(
                    AbilityActivationError::Activation(
                        AbilityBeginError::Ability(AbilityError::MissingAbility),
                    ),
                ) && store_unchanged(*final(store), *old(store))
                &&& resolution == ActivationResolution::OwnerMismatch ==> result == Err::<
                    AbilityActivationId,
                    AbilityActivationError<Infallible, Infallible>,
                >(
                    AbilityActivationError::Activation(
                        AbilityBeginError::Ability(
                            AbilityError::OwnerMismatch {
                                expected_owner_id: self.expected_owner()->0,
                                actual_owner_id: granted.owner_id,
                            },
                        ),
                    ),
                ) && store_unchanged(*final(store), *old(store))
                &&& resolution == ActivationResolution::MissingGrantedDefinitionKey ==> result
                    == Err::<AbilityActivationId, AbilityActivationError<Infallible, Infallible>>(
                    AbilityActivationError::MissingGrantedDefinitionKey {
                        ability_id: self.target(),
                    },
                ) && store_unchanged(*final(store), *old(store))
                &&& resolution == ActivationResolution::MissingDefinition ==> (result matches Err(
                    AbilityActivationError::Definition(
                        AbilityDefinitionRegistryError::MissingDefinition { key },
                    ),
                ) && key@ == granted.definition_key->0@) && store_unchanged(
                    *final(store),
                    *old(store),
                )
                &&& resolution == ActivationResolution::Ready ==> (result matches Ok(activation_id)
                    && activation_id.raw() == old(store).next_activation_raw() && final(store).grants() == grants && final(store).actives().drop_last() == old(store).actives()
                    && final(store).actives().len() == old(store).actives().len() + 1
                    && started_from(final(store).actives().last(), granted, activation_id) && final(store).next_activation_raw() == old(store).next_activation_raw() + 1 && final(store).next_grant_raw() == old(store).next_grant_raw())
            }),
    {
        let context = ();
        let mut executor = NoAbilityActivationExecutor::new();
        self.run_with_executor(store, &context, &mut executor)
    }

    /// Activates through a caller-owned executor that gates the attempt and receives facts.
    pub fn run_with_executor<
        Context,
        Tags: Clone,
        Payload: Clone,
        Executor: AbilityActivationExecutor<Context, Tags, Payload>,
    >(
        self,
        store: &mut AbilityStore<Tags, Payload>,
        context: &Context,
        executor: &mut Executor,
    ) -> (result: Result<
        AbilityActivationId,
        AbilityActivationError<Executor::Error, Executor::BlockReason>,
    >)
        requires
            old(store).wf(),
            old(store).next_activation_raw() < u64::MAX,
        ensures
            final(store).wf(),
            activation_step(*old(store), *final(store), started_activation(result)),
            ({
                let grants = old(store).grants();
                let granted = grants[key_position(grants, self.target().raw())];
                let before = old(executor).emitted();
                let after = final(executor).emitted();
                let resolution = activation_resolution(
                    grants,
                    self.target(),
                    self.expected_owner(),
                    self.registry(),
                );
                &&& resolution == ActivationResolution::InvalidOwner ==> result == Err::<
                    AbilityActivationId,
                    AbilityActivationError<Executor::Error, Executor::BlockReason>,
                >(
                    AbilityActivationError::Activation(
                        AbilityBeginError::Ability(
                            AbilityError::InvalidOwner { owner_id: self.expected_owner()->0 },
                        ),
                    ),
                ) && store_unchanged(*final(store), *old(store)) && after == before.push(
                    unattempted_fact(AbilityActivationRejectionReason::InvalidOwner),
                )
                &&& resolution == ActivationResolution::MissingAbility ==> result == Err::<
                    AbilityActivationId,
                    AbilityActivationError<Executor::Error, Executor::BlockReason>,
                >(
                    AbilityActivationError::Activation(
                        AbilityBeginError::Ability(AbilityError::MissingAbility),
                    ),
                ) && store_unchanged(*final(store), *old(store)) && after == before.push(
                    unattempted_fact(AbilityActivationRejectionReason::MissingAbility),
                )
                &&& resolution == ActivationResolution::OwnerMismatch ==> result == Err::<
                    AbilityActivationId,
                    AbilityActivationError<Executor::Error, Executor::BlockReason>,
                >(
                    AbilityActivationError::Activation(
                        AbilityBeginError::Ability(
                            AbilityError::OwnerMismatch {
                                expected_owner_id: self.expected_owner()->0,
                                actual_owner_id: granted.owner_id,
                            },
                        ),
                    ),
                ) && store_unchanged(*final(store), *old(store)) && after == before.push(
                    attempted_fact(granted),
                ).push(
                    rejected_fact(granted, AbilityActivationRejectionReason::OwnerMismatch),
                )
                &&& resolution == ActivationResolution::MissingGrantedDefinitionKey ==> result
                    == Err::<
                    AbilityActivationId,
                    AbilityActivationError<Executor::Error, Executor::BlockReason>,
                >(
                    AbilityActivationError::MissingGrantedDefinitionKey {
                        ability_id: self.target(),
                    },
                ) && store_unchanged(*final(store), *old(store)) && after == before
                &&& resolution == ActivationResolution::MissingDefinition ==> (result matches Err(
                    AbilityActivationError::Definition(
                        AbilityDefinitionRegistryError::MissingDefinition { key },
                    ),
                ) && key@ == granted.definition_key->0@) && store_unchanged(
                    *final(store),
                    *old(store),
                ) && after == before
                &&& resolution == ActivationResolution::Ready ==> {
                    ||| (result matches Ok(activation_id) && activation_id.raw() == old(store).next_activation_raw() && final(store).grants() == grants && final(store).actives().drop_last() == old(store).actives() && final(store).actives().len()
                        == old(store).actives().len() + 1 && started_from(
                        final(store).actives().last(),
                        granted,
                        activation_id,
                    ) && final(store).next_activation_raw() == old(store).next_activation_raw() + 1
                        && final(store).next_grant_raw() == old(store).next_grant_raw() && after
                        == before.push(attempted_fact(granted)).push(
                        active_record_fact(AbilityFactKind::Started, final(store).actives().last()),
                    ))
                    ||| (result matches Err(
                        AbilityActivationError::Activation(AbilityBeginError::Blocked(_)),
                    ) && store_unchanged(*final(store), *old(store)) && after == before.push(
                        attempted_fact(granted),
                    ).push(rejected_fact(granted, AbilityActivationRejectionReason::Blocked)))
                    ||| (result matches Err(
                        AbilityActivationError::Activation(AbilityBeginError::Gate(_)),
                    ) && store_unchanged(*final(store), *old(store)) && after == before.push(
                        attempted_fact(granted),
                    ).push(rejected_fact(granted, AbilityActivationRejectionReason::Gate)))
                }
                &&& resolution == ActivationResolution::Ready && old(executor).allows_every_attempt()
                    ==> result is Ok
                &&& resolution != ActivationResolution::Ready ==> final(executor).consulted() == old(
                    executor,
                ).consulted()
                &&& resolution == ActivationResolution::Ready ==> final(executor).consulted() == old(
                    executor,
                ).consulted().push(attempted_fact(granted))
                &&& result matches Err(AbilityActivationError::Activation(AbilityBeginError::Blocked(reason)))
                    ==> gate_answered::<Context, Tags, Payload, Executor>(granted, context, Ok(AbilityActivationDecision::Block(reason)))
                &&& result matches Err(AbilityActivationError::Activation(AbilityBeginError::Gate(error)))
                    ==> gate_answered::<Context, Tags, Payload, Executor>(granted, context, Err(error))
                &&& result is Ok ==> gate_answered::<Context, Tags, Payload, Executor>(
                    granted,
                    context,
                    Ok(AbilityActivationDecision::Allow),
                )
            }),
    {
        let request = match self.resolve_request(store) {
            Ok(request) => request,
            Err(ActivationResolveError::Activation(error)) => {
                emit_activation_request_rejection(&error, executor);
                return Err(
                    AbilityActivationError::Activation(
                        AbilityBeginError::Ability(error.ability_error()),
                    ),
                );
            },
            Err(ActivationResolveError::MissingGrantedDefinitionKey { ability_id }) => {
                return Err(AbilityActivationError::MissingGrantedDefinitionKey { ability_id });
            },
            Err(ActivationResolveError::Definition(error)) => {
                return Err(AbilityActivationError::Definition(error));
            },
        };
        executor.emit_ability_lifecycle(
            AbilityLifecycleEventView::Attempted(request.attempt_view()),
        );
        match executor.can_activate(context, request.attempt_view()) {
            Ok(AbilityActivationDecision::Allow) => {},
            Ok(AbilityActivationDecision::Block(block_reason)) => {
                executor.emit_ability_lifecycle(
                    AbilityLifecycleEventView::Rejected(
                        AbilityActivationRejectionView {
                            attempt: Some(request.attempt_view()),
                            reason: AbilityActivationRejectionReason::Blocked,
                        },
                    ),
                );
                return Err(
                    AbilityActivationError::Activation(AbilityBeginError::Blocked(block_reason)),
                );
            },
            Err(error) => {
                executor.emit_ability_lifecycle(
                    AbilityLifecycleEventView::Rejected(
                        AbilityActivationRejectionView {
                            attempt: Some(request.attempt_view()),
                            reason: AbilityActivationRejectionReason::Gate,
                        },
                    ),
                );
                return Err(AbilityActivationError::Activation(AbilityBeginError::Gate(error)));
            },
        }
        let seed = request.to_seed();
        let activation_id = store.start_activation_from_seed(seed);
        assert(store.actives().drop_last() =~= old(store).actives());
        let actives = store.active_activations();
        let started = &actives[actives.len() - 1];
        executor.emit_ability_lifecycle(ActiveAbilityTransition::Started.event(started));
        Ok(activation_id)
    }

    /// Resolves the grant this command refers to, checking owner and registry as configured.
    fn resolve_request<'store, Tags, Payload>(&self, store: &'store AbilityStore<Tags, Payload>) -> (result:
        Result<
        AbilityActivationRequest<'store, Tags, Payload>,
        ActivationResolveError<'store, Tags, Payload>,
    >)
        requires
            store.wf(),
        ensures
            ({
                let grants = store.grants();
                let granted = grants[key_position(grants, self.target().raw())];
                let resolution = activation_resolution(
                    grants,
                    self.target(),
                    self.expected_owner(),
                    self.registry(),
                );
                &&& resolution == ActivationResolution::InvalidOwner ==> (result matches Err(
                    ActivationResolveError::Activation(
                        AbilityActivationRequestError::InvalidOwner { owner_id },
                    ),
                ) && owner_id == self.expected_owner()->0)
                &&& resolution == ActivationResolution::MissingAbility ==> (result matches Err(
                    ActivationResolveError::Activation(AbilityActivationRequestError::MissingAbility),
                ))
                &&& resolution == ActivationResolution::OwnerMismatch ==> (result matches Err(
                    ActivationResolveError::Activation(
                        AbilityActivationRequestError::OwnerMismatch {
                            expected_owner_id,
                            actual_owner_id,
                            ability,
                        },
                    ),
                ) && expected_owner_id == self.expected_owner()->0 && actual_owner_id
                    == granted.owner_id && *ability == granted)
                &&& resolution == ActivationResolution::MissingGrantedDefinitionKey ==> (result matches Err(
                    ActivationResolveError::MissingGrantedDefinitionKey { ability_id },
                ) && ability_id == self.target())
                &&& resolution == ActivationResolution::MissingDefinition ==> (result matches Err(
                    ActivationResolveError::Definition(
                        AbilityDefinitionRegistryError::MissingDefinition { key },
                    ),
                ) && key@ == granted.definition_key->0@)
                &&& resolution == ActivationResolution::Ready ==> (result matches Ok(request)
                    && *request.ability == granted)
            }),
    {
        let ability = store.get(self.ability_id);
        let request = match self.owner_id {
            Some(owner_id) => match resolve_owner_activation_request(owner_id, ability) {
                Ok(request) => request,
                Err(error) => return Err(ActivationResolveError::Activation(error)),
            },
            None => match resolve_activation_request(ability) {
                Ok(request) => request,
                Err(error) => return Err(ActivationResolveError::Activation(error)),
            },
        };
        match self.definitions {
            Some(definitions) => {
                let definition_key = match as_key_ref(&request.ability.definition_key) {
                    Some(key) => key,
                    None => {
                        return Err(
                            ActivationResolveError::MissingGrantedDefinitionKey {
                                ability_id: self.ability_id,
                            },
                        );
                    },
                };
                match definitions.require(definition_key) {
                    Ok(_) => {},
                    Err(error) => return Err(ActivationResolveError::Definition(error)),
                }
            },
            None => {},
        }
        Ok(request)
    }
}

/// Why an activation command's request did not resolve.
pub enum ActivationResolveError<'ability, Tags, Payload> {
    Activation(AbilityActivationRequestError<'ability, Tags, Payload>),
    MissingGrantedDefinitionKey { ability_id: AbilityId },
    Definition(AbilityDefinitionRegistryError),
}

impl AbilityCommit {
    /// The activation to commit.
    pub closed spec fn target(&self) -> AbilityActivationId {
        self.activation_id
    }

    pub fn new(activation_id: AbilityActivationId) -> (commit: AbilityCommit)
        ensures
            commit.target() == activation_id,
    {
        AbilityCommit { activation_id }
    }

    /// Commits with no caller-owned action.
    pub fn run<Tags, Payload>(self, store: &mut AbilityStore<Tags, Payload>) -> (result: Result<
        AbilityCommitOutcome,
        AbilityCommitError<Infallible>,
    >)
        requires
            old(store).wf(),
        ensures
            final(store).wf(),
            final(store).grants() == old(store).grants(),
            final(store).next_grant_raw() == old(store).next_grant_raw(),
            final(store).next_activation_raw() == old(store).next_activation_raw(),
            ({
                let actives = old(store).actives();
                let present = has_key(actives, self.target().raw());
                let p = key_position(actives, self.target().raw());
                &&& !present ==> result == Err::<AbilityCommitOutcome, AbilityCommitError<Infallible>>(
                    AbilityCommitError::Ability(AbilityError::MissingActivation),
                ) && final(store).actives() == actives
                &&& present && actives[p].committed ==> result == Ok::<
                    AbilityCommitOutcome,
                    AbilityCommitError<Infallible>,
                >(AbilityCommitOutcome::AlreadyCommitted) && final(store).actives() == actives
                &&& present && !actives[p].committed ==> result == Ok::<
                    AbilityCommitOutcome,
                    AbilityCommitError<Infallible>,
                >(AbilityCommitOutcome::Committed) && final(store).actives() == actives.update(
                    p,
                    committed_record(actives[p]),
                )
            }),
    {
        let mut context = ();
        let mut executor = NoAbilityCommitExecutor::new();
        self.run_with_executor(store, &mut context, &mut executor)
    }

    /// Commits through a caller-owned executor.
    pub fn run_with_executor<Context, Tags, Payload, Executor: AbilityCommitExecutor<Context, Tags, Payload>>(
        self,
        store: &mut AbilityStore<Tags, Payload>,
        context: &mut Context,
        executor: &mut Executor,
    ) -> (result: Result<AbilityCommitOutcome, AbilityCommitError<Executor::Error>>)
        requires
            old(store).wf(),
        ensures
            final(store).wf(),
            final(store).grants() == old(store).grants(),
            final(store).next_grant_raw() == old(store).next_grant_raw(),
            final(store).next_activation_raw() == old(store).next_activation_raw(),
            ({
                let actives = old(store).actives();
                let present = has_key(actives, self.target().raw());
                let p = key_position(actives, self.target().raw());
                &&& !present ==> result == Err::<
                    AbilityCommitOutcome,
                    AbilityCommitError<Executor::Error>,
                >(AbilityCommitError::Ability(AbilityError::MissingActivation))
                    && final(store).actives() == actives && final(executor).emitted() == old(executor).emitted()
                &&& present && actives[p].committed ==> result == Ok::<
                    AbilityCommitOutcome,
                    AbilityCommitError<Executor::Error>,
                >(AbilityCommitOutcome::AlreadyCommitted) && final(store).actives() == actives
                    && final(executor).emitted() == old(executor).emitted()
                &&& present && !actives[p].committed ==> {
                    ||| (result == Ok::<AbilityCommitOutcome, AbilityCommitError<Executor::Error>>(
                        AbilityCommitOutcome::Committed,
                    ) && final(store).actives() == actives.update(p, committed_record(actives[p]))
                        && final(executor).emitted() == old(executor).emitted().push(
                        super::events::active_record_fact(
                            AbilityFactKind::Committed,
                            committed_record(actives[p]),
                        ),
                    ))
                    ||| (result matches Err(AbilityCommitError::Action(_)) && final(store).actives()
                        == actives.remove(p) && final(executor).emitted() == old(executor).emitted().push(
                        super::events::active_record_fact(AbilityFactKind::RolledBack, actives[p]),
                    ))
                }
                &&& present && !actives[p].committed && old(executor).applies_every_commit() ==> result
                    == Ok::<AbilityCommitOutcome, AbilityCommitError<Executor::Error>>(
                    AbilityCommitOutcome::Committed,
                )
                &&& !(present && !actives[p].committed) ==> final(executor).applied() == old(executor).applied()
                &&& present && !actives[p].committed ==> final(executor).applied() == old(
                    executor,
                ).applied().push(active_record_fact(AbilityFactKind::Committed, actives[p]))
                &&& result matches Err(AbilityCommitError::Action(error)) ==> commit_answered::<
                    Context,
                    Tags,
                    Payload,
                    Executor,
                >(actives[p], Err(error))
                &&& present && !actives[p].committed && result is Ok ==> commit_succeeded::<
                    Context,
                    Tags,
                    Payload,
                    Executor,
                >(actives[p])
            }),
    {
        store.commit_with_executor(self.activation_id, context, executor)
    }
}

/// Emits the attempt (when the grant was found) and rejection facts for an unresolved request.
fn emit_activation_request_rejection<Context, Tags, Payload, Executor: AbilityActivationExecutor<Context, Tags, Payload>>(
    error: &AbilityActivationRequestError<'_, Tags, Payload>,
    executor: &mut Executor,
)
    ensures
        final(executor).consulted() == old(executor).consulted(),
        match *error {
            AbilityActivationRequestError::OwnerMismatch { ability, .. } => final(executor).emitted()
                == old(executor).emitted().push(attempted_fact(*ability)).push(
                rejected_fact(*ability, AbilityActivationRejectionReason::OwnerMismatch),
            ),
            AbilityActivationRequestError::MissingAbility => final(executor).emitted() == old(executor).emitted().push(unattempted_fact(AbilityActivationRejectionReason::MissingAbility)),
            AbilityActivationRequestError::InvalidOwner { .. } => final(executor).emitted() == old(executor).emitted().push(unattempted_fact(AbilityActivationRejectionReason::InvalidOwner)),
        },
{
    match error.attempt_view() {
        Some(attempt) => {
            executor.emit_ability_lifecycle(AbilityLifecycleEventView::Attempted(attempt));
        },
        None => {},
    }
    executor.emit_ability_lifecycle(
        AbilityLifecycleEventView::Rejected(
            AbilityActivationRejectionView { attempt: error.attempt_view(), reason: error.reason() },
        ),
    );
}

impl<GateError: std::fmt::Display, BlockReason: std::fmt::Debug> AbilityActivationError<
    GateError,
    BlockReason,
> {
    /// Describes this error for people.
    pub fn message(&self) -> (text: String)
        ensures
            match *self {
                AbilityActivationError::Activation(AbilityBeginError::Ability(error)) => text@
                    == "ability activation failed: "@ + error.message_view(),
                AbilityActivationError::Activation(AbilityBeginError::Blocked(_)) => text_extends(
                    text@,
                    "ability activation blocked: "@,
                ),
                AbilityActivationError::Activation(AbilityBeginError::Gate(_)) => text_extends(
                    text@,
                    "ability activation gate failed: "@,
                ),
                AbilityActivationError::MissingGrantedDefinitionKey { ability_id } => text@
                    == "ability `"@ + decimal_text(ability_id.raw() as nat)
                    + "` was not granted from a registered definition"@,
                AbilityActivationError::Definition(error) => text@
                    == "registered ability activation failed: "@ + error.message_view(),
            },
    {
        match self {
            AbilityActivationError::Activation(error) => error.message(),
            AbilityActivationError::MissingGrantedDefinitionKey { ability_id } => {
                let id = ability_id.to_text();
                text3("ability `", id.as_str(), "` was not granted from a registered definition")
            },
            AbilityActivationError::Definition(error) => {
                let inner = error.message();
                text2("registered ability activation failed: ", inner.as_str())
            },
        }
    }
}

} // verus!
