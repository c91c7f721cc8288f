//! Resolving which granted ability an activation request refers to.
use vstd::prelude::*;

use super::definition::{AbilityDefinitionRegistryError, AbilityDefinitions, defines_ability};
use super::events::{AbilityActivationAttemptView, AbilityActivationRejectionReason, ActiveAbility};
use super::ids::{AbilityActivationId, AbilityId};
use super::results::AbilityError;
use super::store::GrantedAbility;
use crate::identity::{lemma_object_id_raw_injective, ObjectId};
use crate::text::{as_key_ref, opt_str_view, opt_string_view};

verus! {

/// A resolved request to activate one granted ability.
pub struct AbilityActivationRequest<'ability, Tags, Payload> {
    pub ability: &'ability GrantedAbility<Tags, Payload>,
}

/// The attempt view mirrors the granted ability.
pub open spec fn attempt_of<Tags, Payload>(
    attempt: AbilityActivationAttemptView<'_, Tags, Payload>,
    ability: GrantedAbility<Tags, Payload>,
) -> bool {
    &&& attempt.ability_id == ability.id
    &&& opt_str_view(attempt.definition_key) == opt_string_view(ability.definition_key)
    &&& attempt.owner_id == ability.owner_id
    &&& *attempt.tags == ability.tags
    &&& *attempt.payload == ability.payload
}

impl<'ability, Tags, Payload> AbilityActivationRequest<'ability, Tags, Payload> {
    pub fn attempt_view(&self) -> (attempt: AbilityActivationAttemptView<'ability, Tags, Payload>)
        ensures
            attempt_of(attempt, *self.ability),
    {
        attempt_view_from_ability(self.ability)
    }

    pub fn to_seed(&self) -> (seed: AbilityActivationSeed<Tags, Payload>)
        where
            Tags: Clone,
            Payload: Clone,
        ensures
            seed_of(seed, *self.ability),
    {
        AbilityActivationSeed {
            ability_id: self.ability.id,
            definition_key: self.ability.definition_key.clone(),
            owner_id: self.ability.owner_id,
            tags: self.ability.tags.clone(),
            payload: self.ability.payload.clone(),
        }
    }
}

/// The owned data an activation copies from its granted ability.
pub struct AbilityActivationSeed<Tags, Payload> {
    pub ability_id: AbilityId,
    pub definition_key: Option<String>,
    pub owner_id: ObjectId,
    pub tags: Tags,
    pub payload: Payload,
}

/// The seed copies the granted ability; tags and payload are clones.
pub open spec fn seed_of<Tags: Clone, Payload: Clone>(
    seed: AbilityActivationSeed<Tags, Payload>,
    ability: GrantedAbility<Tags, Payload>,
) -> bool {
    &&& seed.ability_id == ability.id
    &&& seed.definition_key == ability.definition_key
    &&& seed.owner_id == ability.owner_id
    &&& cloned(ability.tags, seed.tags)
    &&& cloned(ability.payload, seed.payload)
}

/// The uncommitted active record a seed starts under `activation_id`.
pub open spec fn seed_active<Tags, Payload>(
    seed: AbilityActivationSeed<Tags, Payload>,
    activation_id: AbilityActivationId,
) -> ActiveAbility<Tags, Payload> {
    ActiveAbility {
        activation_id,
        ability_id: seed.ability_id,
        definition_key: seed.definition_key,
        owner_id: seed.owner_id,
        tags: seed.tags,
        payload: seed.payload,
        committed: false,
    }
}

impl<Tags, Payload> AbilityActivationSeed<Tags, Payload> {
    pub fn into_active(self, activation_id: AbilityActivationId) -> (active: ActiveAbility<
        Tags,
        Payload,
    >)
        ensures
            active == seed_active(self, activation_id),
    {
        ActiveAbility {
            activation_id,
            ability_id: self.ability_id,
            definition_key: self.definition_key,
            owner_id: self.owner_id,
            tags: self.tags,
            payload: self.payload,
            committed: false,
        }
    }
}

/// Why an activation request did not resolve.
pub enum AbilityActivationRequestError<'ability, Tags, Payload> {
    MissingAbility,
    InvalidOwner { owner_id: ObjectId },
    OwnerMismatch {
        expected_owner_id: ObjectId,
        actual_owner_id: ObjectId,
        ability: &'ability GrantedAbility<Tags, Payload>,
    },
}

impl<'ability, Tags, Payload> AbilityActivationRequestError<'ability, Tags, Payload> {
    pub fn ability_error(&self) -> (error: AbilityError)
        ensures
            error == match *self {
                AbilityActivationRequestError::MissingAbility => AbilityError::MissingAbility,
                AbilityActivationRequestError::InvalidOwner { owner_id } => AbilityError::InvalidOwner {
                    owner_id,
                },
                AbilityActivationRequestError::OwnerMismatch {
                    expected_owner_id,
                    actual_owner_id,
                    ..
                } => AbilityError::OwnerMismatch { expected_owner_id, actual_owner_id },
            },
    {
        match self {
            AbilityActivationRequestError::MissingAbility => AbilityError::MissingAbility,
            AbilityActivationRequestError::InvalidOwner { owner_id } => AbilityError::InvalidOwner {
                owner_id: *owner_id,
            },
            AbilityActivationRequestError::OwnerMismatch {
                expected_owner_id,
                actual_owner_id,
                ..
            } => AbilityError::OwnerMismatch {
                expected_owner_id: *expected_owner_id,
                actual_owner_id: *actual_owner_id,
            },
        }
    }

    pub fn reason(&self) -> (reason: AbilityActivationRejectionReason)
        ensures
            reason == match *self {
                AbilityActivationRequestError::MissingAbility => AbilityActivationRejectionReason::MissingAbility,
                AbilityActivationRequestError::InvalidOwner { .. } => AbilityActivationRejectionReason::InvalidOwner,
                AbilityActivationRequestError::OwnerMismatch { .. } => AbilityActivationRejectionReason::OwnerMismatch,
            },
    {
        match self {
            AbilityActivationRequestError::MissingAbility => AbilityActivationRejectionReason::MissingAbility,
            AbilityActivationRequestError::InvalidOwner { .. } => AbilityActivationRejectionReason::InvalidOwner,
            AbilityActivationRequestError::OwnerMismatch { .. } => AbilityActivationRejectionReason::OwnerMismatch,
        }
    }

    pub fn attempt_view(&self) -> (attempt: Option<AbilityActivationAttemptView<'ability, Tags, Payload>>)
        ensures
            match *self {
                AbilityActivationRequestError::OwnerMismatch { ability, .. } => attempt matches Some(
                    a,
                ) && attempt_of(a, *ability),
                _ => attempt is None,
            },
    {
        match self {
            AbilityActivationRequestError::OwnerMismatch { ability, .. } => Some(
                attempt_view_from_ability(ability),
            ),
            _ => None,
        }
    }
}

/// Why a registry-aware activation request did not resolve.
pub enum RegisteredActivationRequestError<'ability, Tags, Payload> {
    Activation(AbilityActivationRequestError<'ability, Tags, Payload>),
    MissingGrantedDefinitionKey { ability_id: AbilityId },
    Definition(AbilityDefinitionRegistryError),
}

/// Resolves a request for the granted ability `ability`, if any.
pub fn resolve_activation_request<'ability, Tags, Payload>(
    ability: Option<&'ability GrantedAbility<Tags, Payload>>,
) -> (result: Result<
    AbilityActivationRequest<'ability, Tags, Payload>,
    AbilityActivationRequestError<'ability, Tags, Payload>,
>)
    ensures
        match ability {
            Some(a) => result matches Ok(request) && request.ability == a,
            None => result matches Err(AbilityActivationRequestError::MissingAbility),
        },
{
    match ability {
        Some(ability) => Ok(AbilityActivationRequest { ability }),
        None => Err(AbilityActivationRequestError::MissingAbility),
    }
}

/// Resolves a request that must come from `owner_id`.
pub fn resolve_owner_activation_request<'ability, Tags, Payload>(
    owner_id: ObjectId,
    ability: Option<&'ability GrantedAbility<Tags, Payload>>,
) -> (result: Result<
    AbilityActivationRequest<'ability, Tags, Payload>,
    AbilityActivationRequestError<'ability, Tags, Payload>,
>)
    ensures
        owner_id.raw() == 0 ==> (result matches Err(
            AbilityActivationRequestError::InvalidOwner { owner_id: o },
        ) && o == owner_id),
        owner_id.raw() != 0 && ability is None ==> result matches Err(
            AbilityActivationRequestError::MissingAbility,
        ),
        owner_id.raw() != 0 && ability is Some && ability->0.owner_id != owner_id ==> (result matches Err(
            AbilityActivationRequestError::OwnerMismatch { expected_owner_id, actual_owner_id, ability: b },
        ) && expected_owner_id == owner_id && actual_owner_id == ability->0.owner_id && b == ability->0),
        owner_id.raw() != 0 && ability is Some && ability->0.owner_id == owner_id ==> (result matches Ok(
            request,
        ) && request.ability == ability->0),
{
    broadcast use lemma_object_id_raw_injective;
    if owner_id.is_invalid() {
        return Err(AbilityActivationRequestError::InvalidOwner { owner_id });
    }
    let request = match resolve_activation_request(ability) {
        Ok(request) => request,
        Err(error) => return Err(error),
    };
    let actual_owner_id = request.ability.owner_id;
    if actual_owner_id.get() != owner_id.get() {
        return Err(
            AbilityActivationRequestError::OwnerMismatch {
                expected_owner_id: owner_id,
                actual_owner_id,
                ability: request.ability,
            },
        );
    }
    Ok(request)
}

/// Resolves a request whose grant must name a registered definition.
pub fn resolve_registered_activation_request<'ability, PayloadSchema, Tags, Payload>(
    definitions: &AbilityDefinitions<PayloadSchema>,
    ability_id: AbilityId,
    ability: Option<&'ability GrantedAbility<Tags, Payload>>,
) -> (result: Result<
    AbilityActivationRequest<'ability, Tags, Payload>,
    RegisteredActivationRequestError<'ability, Tags, Payload>,
>)
    ensures
        ability is None ==> result matches Err(
            RegisteredActivationRequestError::Activation(AbilityActivationRequestError::MissingAbility),
        ),
        ability is Some && ability->0.definition_key is None ==> (result matches Err(
            RegisteredActivationRequestError::MissingGrantedDefinitionKey { ability_id: i },
        ) && i == ability_id),
        ability is Some && ability->0.definition_key is Some && !defines_ability(
            definitions@,
            ability->0.definition_key->0@,
        ) ==> (result matches Err(
            RegisteredActivationRequestError::Definition(
                AbilityDefinitionRegistryError::MissingDefinition { key },
            ),
        ) && key@ == ability->0.definition_key->0@),
        ability is Some && ability->0.definition_key is Some && defines_ability(
            definitions@,
            ability->0.definition_key->0@,
        ) ==> (result matches Ok(request) && request.ability == ability->0),
{
    let request = match resolve_activation_request(ability) {
        Ok(request) => request,
        Err(error) => return Err(RegisteredActivationRequestError::Activation(error)),
    };
    let definition_key = match as_key_ref(&request.ability.definition_key) {
        Some(key) => key,
        None => return Err(RegisteredActivationRequestError::MissingGrantedDefinitionKey { ability_id }),
    };
    match definitions.require(definition_key) {
        Ok(_) => Ok(request),
        Err(error) => Err(RegisteredActivationRequestError::Definition(error)),
    }
}

/// Borrows a granted ability as an activation attempt.
pub fn attempt_view_from_ability<Tags, Payload>(ability: &GrantedAbility<Tags, Payload>) -> (attempt:
    AbilityActivationAttemptView<'_, Tags, Payload>)
    ensures
        attempt_of(attempt, *ability),
{
    AbilityActivationAttemptView {
        ability_id: ability.id,
        definition_key: as_key_ref(&ability.definition_key),
        owner_id: ability.owner_id,
        tags: &ability.tags,
        payload: &ability.payload,
    }
}

} // verus!
