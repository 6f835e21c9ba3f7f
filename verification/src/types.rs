//! Logical field types and the coarse families used for value binding.

use vstd::prelude::*;
use crate::error::{Error, Violation};

verus! {

/// The logical, backend-independent type of a scalar field.
#[derive(Clone, Copy, Debug, PartialEq, Eq, Structural)]
pub enum TypeIdentifier {
    String,
    Int,
    BigInt,
    Float,
    Decimal,
    Boolean,
    /// An enum, identified by the position of its declaration in the data model.
    Enum(u64),
    UUID,
    Json,
    Xml,
    DateTime,
    Bytes,
    Unsupported,
}

/// The coarse physical grouping of logical types that drives value encoding.
#[derive(Clone, Copy, Debug, PartialEq, Eq, Structural)]
pub enum TypeFamily {
    Text,
    Int,
    Double,
    Decimal,
    Boolean,
    Uuid,
    DateTime,
    Bytes,
}

impl TypeIdentifier {
    /// The family of a logical type; `None` exactly for `Unsupported`.
    pub open spec fn family(self) -> Option<TypeFamily> {
        match self {
            TypeIdentifier::String => Some(TypeFamily::Text),
            TypeIdentifier::Int => Some(TypeFamily::Int),
            TypeIdentifier::BigInt => Some(TypeFamily::Int),
            TypeIdentifier::Float => Some(TypeFamily::Double),
            TypeIdentifier::Decimal => Some(TypeFamily::Decimal),
            TypeIdentifier::Boolean => Some(TypeFamily::Boolean),
            TypeIdentifier::Enum(_) => Some(TypeFamily::Text),
            TypeIdentifier::UUID => Some(TypeFamily::Uuid),
            TypeIdentifier::Json => Some(TypeFamily::Text),
            TypeIdentifier::Xml => Some(TypeFamily::Text),
            TypeIdentifier::DateTime => Some(TypeFamily::DateTime),
            TypeIdentifier::Bytes => Some(TypeFamily::Bytes),
            TypeIdentifier::Unsupported => None,
        }
    }

    /// Whether the type may reach physical binding.
    pub open spec fn is_supported(self) -> bool {
        self != TypeIdentifier::Unsupported
    }

    /// The family that values of this type are bound as. Every supported type
    /// has one; `Unsupported` must never get here and is reported as a breach
    /// of contract.
    pub fn type_family(&self) -> (r: Result<TypeFamily, Error>)
        ensures
            r is Ok <==> self.is_supported(),
            r matches Ok(family) ==> self.family() == Some(family),
            r matches Err(e) ==> e == (Error::LogicFatal { violation: Violation::UnsupportedType }),
    {
        match self {
            TypeIdentifier::String => Ok(TypeFamily::Text),
            TypeIdentifier::Int => Ok(TypeFamily::Int),
            TypeIdentifier::BigInt => Ok(TypeFamily::Int),
            TypeIdentifier::Float => Ok(TypeFamily::Double),
            TypeIdentifier::Decimal => Ok(TypeFamily::Decimal),
            TypeIdentifier::Boolean => Ok(TypeFamily::Boolean),
            TypeIdentifier::Enum(_) => Ok(TypeFamily::Text),
            TypeIdentifier::UUID => Ok(TypeFamily::Uuid),
            TypeIdentifier::Json => Ok(TypeFamily::Text),
            TypeIdentifier::Xml => Ok(TypeFamily::Text),
            TypeIdentifier::DateTime => Ok(TypeFamily::DateTime),
            TypeIdentifier::Bytes => Ok(TypeFamily::Bytes),
            TypeIdentifier::Unsupported => Err(
                Error::LogicFatal { violation: Violation::UnsupportedType },
            ),
        }
    }
}

/// Every logical type but `Unsupported` has exactly one family, and
/// `Unsupported` has none.
pub proof fn lemma_family_total(t: TypeIdentifier)
    ensures
        t.is_supported() <==> t.family() is Some,
{
}

} // verus!
