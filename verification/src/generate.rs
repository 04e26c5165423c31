//! The decision core of the field-sum generator.
//!
//! The generator implements the size contract for a user-defined aggregate by
//! summing the contract over each field. Its decision — which fields to sum,
//! or that the definition is not supported — is a function from the shape of
//! a type definition to a plan, and is verified here. Turning source text
//! into a [`DataShape`] and a plan back into source text is unverified
//! plumbing that lives outside the library and consumes only this function.

use vstd::prelude::*;

verus! {

/// The fields of a product-type definition: named fields, a count of
/// positional fields, or no fields at all.
#[derive(Debug)]
pub enum FieldsShape {
    /// A record with named fields, in declaration order.
    Named(Vec<String>),
    /// A record with this many positional fields.
    Unnamed(usize),
    /// A record with no fields.
    Unit,
}

/// The shape of a type definition handed to the generator.
#[derive(Debug)]
pub enum DataShape {
    /// A product type: one record of fields.
    Struct(FieldsShape),
    /// A tagged union of variants.
    Enum,
    /// An untagged union.
    Union,
}

/// One field whose owned-children size the generated implementation adds.
#[derive(Debug)]
pub enum FieldRef {
    /// A named field.
    Named(String),
    /// A positional field, by index.
    Positional(usize),
}

/// The failure of the generator on a definition it does not support. The
/// generator only sums the fields of a flat record; it cannot know which
/// variant of a sum type is live, so it refuses rather than guess a size.
#[derive(Debug)]
pub enum GenerateError {
    /// The definition is a tagged union of variants.
    EnumNotSupported,
    /// The definition is an untagged union.
    UnionNotSupported,
}

impl GenerateError {
    /// The diagnostic text of this failure.
    pub open spec fn message_spec(self) -> Seq<char> {
        match self {
            GenerateError::EnumNotSupported => "size contract generation is not supported for enums: the live variant is unknown, so implement the contract by hand"@,
            GenerateError::UnionNotSupported => "size contract generation is not supported for unions: the live field is unknown, so implement the contract by hand"@,
        }
    }

    /// The diagnostic text of this failure, for reporting the refusal.
    pub fn message(&self) -> (text: &'static str)
        ensures
            text@ == self.message_spec(),
    {
        match self {
            GenerateError::EnumNotSupported => "size contract generation is not supported for enums: the live variant is unknown, so implement the contract by hand",
            GenerateError::UnionNotSupported => "size contract generation is not supported for unions: the live field is unknown, so implement the contract by hand",
        }
    }
}

/// The plan `field_sum_plan` owes for a supported definition: one reference
/// per field of the record, in declaration order — named fields by name,
/// positional fields by index, and no references for a fieldless record.
pub open spec fn plan_matches_shape(shape: DataShape, plan: Seq<FieldRef>) -> bool {
    match shape {
        DataShape::Struct(FieldsShape::Named(names)) => {
            &&& plan.len() == names@.len()
            &&& forall|i: int|
                0 <= i < plan.len() ==> (#[trigger] plan[i] matches FieldRef::Named(name)
                    && name@ == names@[i]@)
        },
        DataShape::Struct(FieldsShape::Unnamed(count)) => {
            &&& plan.len() == count
            &&& forall|i: int|
                0 <= i < plan.len() ==> (#[trigger] plan[i] matches FieldRef::Positional(index)
                    && index == i)
        },
        DataShape::Struct(FieldsShape::Unit) => plan.len() == 0,
        DataShape::Enum => false,
        DataShape::Union => false,
    }
}

/// Decides what the generator emits for a type definition: for a product
/// type, the plan that sums the owned-children size of each field, exactly
/// one reference per field in declaration order (a fieldless record sums
/// nothing and so contributes 0); for a tagged or untagged union, the
/// generation-time refusal, never a guessed implementation.
pub fn field_sum_plan(shape: &DataShape) -> (plan: Result<Vec<FieldRef>, GenerateError>)
    ensures
        match shape {
            DataShape::Struct(..) => plan matches Ok(fields) && plan_matches_shape(
                *shape,
                fields@,
            ),
            DataShape::Enum => plan == Result::<Vec<FieldRef>, GenerateError>::Err(
                GenerateError::EnumNotSupported,
            ),
            DataShape::Union => plan == Result::<Vec<FieldRef>, GenerateError>::Err(
                GenerateError::UnionNotSupported,
            ),
        },
{
    match shape {
        DataShape::Struct(FieldsShape::Named(names)) => {
            let mut fields: Vec<FieldRef> = Vec::new();
            let mut i: usize = 0;
            while i < names.len()
                invariant
                    0 <= i <= names@.len(),
                    fields@.len() == i,
                    forall|k: int|
                        0 <= k < i ==> (#[trigger] fields@[k] matches FieldRef::Named(name)
                            && name@ == names@[k]@),
                decreases names@.len() - i,
            {
                fields.push(FieldRef::Named(names[i].clone()));
                i = i + 1;
            }
            Ok(fields)
        },
        DataShape::Struct(FieldsShape::Unnamed(count)) => {
            let mut fields: Vec<FieldRef> = Vec::new();
            let mut i: usize = 0;
            while i < *count
                invariant
                    0 <= i <= *count,
                    fields@.len() == i,
                    forall|k: int|
                        0 <= k < i ==> (#[trigger] fields@[k] matches FieldRef::Positional(index)
                            && index == k),
                decreases *count - i,
            {
                fields.push(FieldRef::Positional(i));
                i = i + 1;
            }
            Ok(fields)
        },
        DataShape::Struct(FieldsShape::Unit) => Ok(Vec::new()),
        DataShape::Enum => Err(GenerateError::EnumNotSupported),
        DataShape::Union => Err(GenerateError::UnionNotSupported),
    }
}

} // verus!
