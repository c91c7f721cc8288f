//! Ability command outcomes and errors.
use vstd::prelude::*;

use super::definition::AbilityDefinitionRegistryError;
use super::events::ActiveAbility;
use super::ids::AbilityId;
use crate::identity::ObjectId;
use crate::text::{debug_text, decimal_text, display_text, text1, text2, text3, text_extends};

verus! {

/// Ability begin errors, including caller-owned blocking and gate failures.
#[derive(Clone, Debug, PartialEq, Eq)]
pub enum AbilityBeginError<GateError, BlockReason = ()> {
    Ability(AbilityError),
    Blocked(BlockReason),
    Gate(GateError),
}

/// Ability commit errors, including caller-owned action failures.
#[derive(Clone, Debug, PartialEq, Eq)]
pub enum AbilityCommitError<CommitError> {
    Ability(AbilityError),
    Action(CommitError),
}

/// Ability end command errors.
#[derive(Clone, Copy, Debug, PartialEq, Eq, Structural)]
pub enum AbilityEndError {
    MissingActivation,
    UncommittedActivation,
}

/// Ability rollback command errors.
#[derive(Clone, Copy, Debug, PartialEq, Eq, Structural)]
pub enum AbilityRollbackError {
    MissingActivation,
    AlreadyCommitted,
}

/// Outcome of a commit command for an active ability activation.
#[derive(Clone, Copy, Debug, PartialEq, Eq, Structural)]
pub enum AbilityCommitOutcome {
    Committed,
    AlreadyCommitted,
}

/// Outcome of an end command for an active ability activation.
#[derive(Clone, Debug, PartialEq, Eq)]
pub enum AbilityEndOutcome<Tags, Payload> {
    Ended(ActiveAbility<Tags, Payload>),
}

/// Outcome of a cancel command for an active ability activation.
#[derive(Clone, Debug, PartialEq, Eq)]
pub enum AbilityCancelOutcome<Tags, Payload> {
    Canceled(ActiveAbility<Tags, Payload>),
    MissingActivation,
}

/// Outcome of a rollback command for an active ability activation.
#[derive(Clone, Debug, PartialEq, Eq)]
pub enum AbilityRollbackOutcome<Tags, Payload> {
    RolledBack(ActiveAbility<Tags, Payload>),
}

/// Store-level ability errors.
#[derive(Clone, Copy, Debug, PartialEq, Eq, Structural)]
pub enum AbilityError {
    MissingAbility,
    MissingActivation,
    InvalidOwner { owner_id: ObjectId },
    OwnerMismatch { expected_owner_id: ObjectId, actual_owner_id: ObjectId },
}

/// Registered activation errors for key-aware ability workflows.
#[derive(Clone, Debug, PartialEq, Eq)]
pub enum RegisteredAbilityActivationError<GateError, BlockReason = ()> {
    MissingGrantedDefinitionKey { ability_id: AbilityId },
    Definition(AbilityDefinitionRegistryError),
    Activation(AbilityBeginError<GateError, BlockReason>),
}

/// Ability grant validation failures.
#[derive(Clone, Copy, Debug, PartialEq, Eq, Structural)]
pub enum AbilityGrantError {
    InvalidOwner { owner_id: ObjectId },
}

impl AbilityError {
    /// The human-readable description of this error.
    pub open spec fn message_view(&self) -> Seq<char> {
        match *self {
            AbilityError::MissingAbility => "missing ability"@,
            AbilityError::MissingActivation => "missing ability activation"@,
            AbilityError::InvalidOwner { .. } => "invalid ability owner"@,
            AbilityError::OwnerMismatch { .. } => "ability owner mismatch"@,
        }
    }

    /// Describes this error for people.
    pub fn message(&self) -> (text: String)
        ensures
            text@ == self.message_view(),
    {
        match self {
            AbilityError::MissingAbility => text1("missing ability"),
            AbilityError::MissingActivation => text1("missing ability activation"),
            AbilityError::InvalidOwner { .. } => text1("invalid ability owner"),
            AbilityError::OwnerMismatch { .. } => text1("ability owner mismatch"),
        }
    }
}

impl AbilityEndError {
    /// The human-readable description of this error.
    pub open spec fn message_view(&self) -> Seq<char> {
        match *self {
            AbilityEndError::MissingActivation => "missing ability activation"@,
            AbilityEndError::UncommittedActivation => "uncommitted ability activation"@,
        }
    }

    /// Describes this error for people.
    pub fn message(&self) -> (text: String)
        ensures
            text@ == self.message_view(),
    {
        match self {
            AbilityEndError::MissingActivation => text1("missing ability activation"),
            AbilityEndError::UncommittedActivation => text1("uncommitted ability activation"),
        }
    }
}

impl AbilityRollbackError {
    /// The human-readable description of this error.
    pub open spec fn message_view(&self) -> Seq<char> {
        match *self {
            AbilityRollbackError::MissingActivation => "missing ability activation"@,
            AbilityRollbackError::AlreadyCommitted => "ability activation is already committed"@,
        }
    }

    /// Describes this error for people.
    pub fn message(&self) -> (text: String)
        ensures
            text@ == self.message_view(),
    {
        match self {
            AbilityRollbackError::MissingActivation => text1("missing ability activation"),
            AbilityRollbackError::AlreadyCommitted => text1("ability activation is already committed"),
        }
    }
}

impl AbilityGrantError {
    /// The human-readable description of this error.
    pub open spec fn message_view(&self) -> Seq<char> {
        match *self {
            AbilityGrantError::InvalidOwner { .. } => "invalid ability grant owner"@,
        }
    }

    /// Describes this error for people.
    pub fn message(&self) -> (text: String)
        ensures
            text@ == self.message_view(),
    {
        match self {
            AbilityGrantError::InvalidOwner { .. } => text1("invalid ability grant owner"),
        }
    }
}

impl<GateError: std::fmt::Display, BlockReason: std::fmt::Debug> AbilityBeginError<
    GateError,
    BlockReason,
> {
    /// Describes this error for people; a gate failure and a block reason are described by
    /// the caller's own `Display` and `Debug` text.
    pub fn message(&self) -> (text: String)
        ensures
            match *self {
                AbilityBeginError::Ability(error) => text@ == "ability activation failed: "@
                    + error.message_view(),
                AbilityBeginError::Blocked(_) => text_extends(text@, "ability activation blocked: "@),
                AbilityBeginError::Gate(_) => text_extends(text@, "ability activation gate failed: "@),
            },
    {
        match self {
            AbilityBeginError::Ability(error) => {
                let inner = error.message();
                text2("ability activation failed: ", inner.as_str())
            },
            AbilityBeginError::Blocked(reason) => {
                let inner = debug_text(reason);
                let text = text2("ability activation blocked: ", inner.as_str());
                assert(("ability activation blocked: "@ + inner@) == text@);
                text
            },
            AbilityBeginError::Gate(error) => {
                let inner = display_text(error);
                let text = text2("ability activation gate failed: ", inner.as_str());
                assert(("ability activation gate failed: "@ + inner@) == text@);
                text
            },
        }
    }
}

impl<CommitError: std::fmt::Display> AbilityCommitError<CommitError> {
    /// Describes this error for people; an action failure is described by the caller's own
    /// `Display` text.
    pub fn message(&self) -> (text: String)
        ensures
            match *self {
                AbilityCommitError::Ability(error) => text@ == "ability commit failed: "@
                    + error.message_view(),
                AbilityCommitError::Action(_) => text_extends(text@, "ability commit action failed: "@),
            },
    {
        match self {
            AbilityCommitError::Ability(error) => {
                let inner = error.message();
                text2("ability commit failed: ", inner.as_str())
            },
            AbilityCommitError::Action(error) => {
                let inner = display_text(error);
                let text = text2("ability commit action failed: ", inner.as_str());
                assert(("ability commit action failed: "@ + inner@) == text@);
                text
            },
        }
    }
}

impl<GateError: std::fmt::Display, BlockReason: std::fmt::Debug> RegisteredAbilityActivationError<
    GateError,
    BlockReason,
> {
    /// Describes this error for people.
    pub fn message(&self) -> (text: String)
        ensures
            match *self {
                RegisteredAbilityActivationError::MissingGrantedDefinitionKey { ability_id } => text@
                    == "ability `"@ + decimal_text(ability_id.raw() as nat)
                    + "` was not granted from a registered definition"@,
                RegisteredAbilityActivationError::Definition(error) => text@
                    == "registered ability activation failed: "@ + error.message_view(),
                RegisteredAbilityActivationError::Activation(_) => text_extends(
                    text@,
                    "registered ability activation failed: "@,
                ),
            },
    {
        match self {
            RegisteredAbilityActivationError::MissingGrantedDefinitionKey { ability_id } => {
                let id = ability_id.to_text();
                text3("ability `", id.as_str(), "` was not granted from a registered definition")
            },
            RegisteredAbilityActivationError::Definition(error) => {
                let inner = error.message();
                text2("registered ability activation failed: ", inner.as_str())
            },
            RegisteredAbilityActivationError::Activation(error) => {
                let inner = error.message();
                let text = text2("registered ability activation failed: ", inner.as_str());
                assert(("registered ability activation failed: "@ + inner@) == text@);
                text
            },
        }
    }
}

} // verus!
