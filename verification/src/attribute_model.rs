//! Caller-owned model of stored and derived attributes.
use vstd::prelude::*;

use crate::identity::ObjectId;

verus! {

/// Caller-owned model of stored and derived attributes.
///
/// Flexweave keeps this generic so callers can expose domain methods such as
/// `apply_damage` without making effects couple directly to raw attributes.
#[derive(Clone, Debug, PartialEq, Eq)]
pub struct AttributeModel<Attributes, Derived = ()> {
    attributes: Attributes,
    derived: Derived,
}

impl<Attributes> AttributeModel<Attributes, ()> {
    pub fn from_attributes(attributes: Attributes) -> (model: Self)
        ensures
            model.stored() == attributes,
    {
        AttributeModel { attributes, derived: () }
    }
}

impl<Attributes, Derived> AttributeModel<Attributes, Derived> {
    /// The stored attributes.
    pub closed spec fn stored(&self) -> Attributes {
        self.attributes
    }

    /// The derived attributes.
    pub closed spec fn computed(&self) -> Derived {
        self.derived
    }

    pub fn new(attributes: Attributes, derived: Derived) -> (model: Self)
        ensures
            model.stored() == attributes,
            model.computed() == derived,
    {
        AttributeModel { attributes, derived }
    }

    pub fn attributes(&self) -> (attributes: &Attributes)
        ensures
            *attributes == self.stored(),
    {
        &self.attributes
    }

    pub fn attributes_mut(&mut self) -> (attributes: &mut Attributes)
        ensures
            *attributes == old(self).stored(),
            final(self).stored() == *final(attributes),
            final(self).computed() == old(self).computed(),
    {
        &mut self.attributes
    }

    pub fn derived(&self) -> (derived: &Derived)
        ensures
            *derived == self.computed(),
    {
        &self.derived
    }

    pub fn derived_mut(&mut self) -> (derived: &mut Derived)
        ensures
            *derived == old(self).computed(),
            final(self).computed() == *final(derived),
            final(self).stored() == old(self).stored(),
    {
        &mut self.derived
    }

    pub fn into_parts(self) -> (parts: (Attributes, Derived))
        ensures
            parts == (self.stored(), self.computed()),
    {
        (self.attributes, self.derived)
    }

    /// Runs a caller-owned operation over both attribute sets of `object_id`.
    ///
    /// The operation receives `object_id`, the caller's context, and both attribute sets; the
    /// model keeps what the operation leaves in them and returns what it returns.
    pub fn apply_operation<Context, Operation: AttributeOperation<Context, Attributes, Derived>>(
        &mut self,
        object_id: ObjectId,
        context: &mut Context,
        operation: Operation,
    ) -> (result: Result<Operation::Output, Operation::Error>)
        ensures
            exists|op: &mut Operation, handed: AttributeOperationContext<'_, Context, Attributes, Derived>|
                {
                    &&& #[trigger] call_ensures(Operation::apply, (op, handed), result)
                    &&& mut_ref_current(op) == operation
                    &&& handed.object_id == object_id
                    &&& mut_ref_current(handed.context) == *old(context)
                    &&& mut_ref_future(handed.context) == *final(context)
                    &&& mut_ref_current(handed.attributes) == old(self).stored()
                    &&& mut_ref_future(handed.attributes) == final(self).stored()
                    &&& mut_ref_current(handed.derived) == old(self).computed()
                    &&& mut_ref_future(handed.derived) == final(self).computed()
                },
    {
        let mut operation = operation;
        operation.apply(
            AttributeOperationContext {
                object_id,
                context,
                attributes: &mut self.attributes,
                derived: &mut self.derived,
            },
        )
    }
}

/// Mutable operation context handed to caller-owned attribute operations.
pub struct AttributeOperationContext<'operation, Context, Attributes, Derived = ()> {
    pub object_id: ObjectId,
    pub context: &'operation mut Context,
    pub attributes: &'operation mut Attributes,
    pub derived: &'operation mut Derived,
}

/// Caller-owned operation over an `AttributeModel`.
pub trait AttributeOperation<Context, Attributes, Derived = ()> {
    type Output;
    type Error;

    fn apply(&mut self, context: AttributeOperationContext<'_, Context, Attributes, Derived>) -> Result<
        Self::Output,
        Self::Error,
    >;
}

} // verus!
