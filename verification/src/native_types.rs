//! The native types of SQL Server and how they stand for logical types.

use vstd::prelude::*;
use crate::catalog::NativeTypeCatalog;
use crate::types::TypeIdentifier;

verus! {

/// The length of a type of variable size.
#[derive(Clone, Copy, Debug, PartialEq, Eq, Structural)]
pub enum Length {
    Number(u32),
    /// As long as the backend allows.
    Max,
}

/// The number of digits of a decimal and how many of them follow the point.
#[derive(Clone, Copy, Debug, PartialEq, Eq, Structural)]
pub struct DecimalParams {
    pub precision: u32,
    pub scale: u32,
}

/// A native type of SQL Server with its parameters.
#[derive(Clone, Copy, Debug, PartialEq, Eq, Structural)]
pub enum MsSqlType {
    TinyInt,
    SmallInt,
    Int,
    BigInt,
    /// Precision and scale; the backend fills them in where they are left out.
    Decimal(Option<DecimalParams>),
    /// Another name of `Decimal`.
    Numeric(Option<DecimalParams>),
    Money,
    SmallMoney,
    Bit,
    /// The number of bits of the mantissa.
    Float(u32),
    Real,
    Date,
    Time,
    DateTime,
    DateTime2,
    Char(u32),
    NChar(u32),
    VarChar(Length),
    Text,
    NVarChar(Length),
    NText,
    Binary(u32),
    VarBinary(Length),
    Image,
    Xml,
}

/// The type of a field of a schema for SQL Server.
pub type FieldType = crate::catalog::FieldType<MsSqlType>;

/// The catalog of SQL Server.
#[derive(Clone, Copy, Debug, PartialEq, Eq, Structural)]
pub struct SqlServer;

/// The precision and scale of a decimal that declares none.
pub open spec fn default_decimal() -> DecimalParams {
    DecimalParams { precision: 18, scale: 0 }
}

impl MsSqlType {
    /// The logical type that the native type stands for.
    pub open spec fn canonical_type(self) -> TypeIdentifier {
        match self {
            MsSqlType::TinyInt | MsSqlType::SmallInt | MsSqlType::Int => TypeIdentifier::Int,
            MsSqlType::BigInt => TypeIdentifier::BigInt,
            MsSqlType::Decimal(_) | MsSqlType::Numeric(_) => TypeIdentifier::Decimal,
            MsSqlType::Money | MsSqlType::SmallMoney | MsSqlType::Float(_) | MsSqlType::Real =>
                TypeIdentifier::Float,
            MsSqlType::Bit => TypeIdentifier::Boolean,
            MsSqlType::Date | MsSqlType::Time | MsSqlType::DateTime | MsSqlType::DateTime2 =>
                TypeIdentifier::DateTime,
            MsSqlType::Char(_) | MsSqlType::NChar(_) | MsSqlType::VarChar(_) | MsSqlType::Text
            | MsSqlType::NVarChar(_) | MsSqlType::NText | MsSqlType::Xml => TypeIdentifier::String,
            MsSqlType::Binary(_) | MsSqlType::VarBinary(_) | MsSqlType::Image =>
                TypeIdentifier::Bytes,
        }
    }

    /// The type as the database reports it: a decimal under its first name,
    /// with precision and scale filled in. Every other type is reported as
    /// it is declared.
    pub open spec fn reported(self) -> MsSqlType {
        match self {
            MsSqlType::Decimal(None) | MsSqlType::Numeric(None) => MsSqlType::Decimal(
                Some(default_decimal()),
            ),
            MsSqlType::Numeric(Some(p)) => MsSqlType::Decimal(Some(p)),
            other => other,
        }
    }

    /// Computes the logical type that the native type stands for.
    pub fn type_identifier(&self) -> (r: TypeIdentifier)
        ensures
            r == self.canonical_type(),
    {
        match self {
            MsSqlType::TinyInt | MsSqlType::SmallInt | MsSqlType::Int => TypeIdentifier::Int,
            MsSqlType::BigInt => TypeIdentifier::BigInt,
            MsSqlType::Decimal(_) | MsSqlType::Numeric(_) => TypeIdentifier::Decimal,
            MsSqlType::Money | MsSqlType::SmallMoney | MsSqlType::Float(_) | MsSqlType::Real =>
                TypeIdentifier::Float,
            MsSqlType::Bit => TypeIdentifier::Boolean,
            MsSqlType::Date | MsSqlType::Time | MsSqlType::DateTime | MsSqlType::DateTime2 =>
                TypeIdentifier::DateTime,
            MsSqlType::Char(_) | MsSqlType::NChar(_) | MsSqlType::VarChar(_) | MsSqlType::Text
            | MsSqlType::NVarChar(_) | MsSqlType::NText | MsSqlType::Xml => TypeIdentifier::String,
            MsSqlType::Binary(_) | MsSqlType::VarBinary(_) | MsSqlType::Image =>
                TypeIdentifier::Bytes,
        }
    }

    /// Computes the type as the database reports it.
    pub fn normalize(&self) -> (r: MsSqlType)
        ensures
            r == self.reported(),
    {
        match self {
            MsSqlType::Decimal(None) | MsSqlType::Numeric(None) => MsSqlType::Decimal(
                Some(DecimalParams { precision: 18, scale: 0 }),
            ),
            MsSqlType::Numeric(Some(p)) => MsSqlType::Decimal(Some(*p)),
            other => *other,
        }
    }
}

/// The native type that holds a logical type where the schema names none.
/// A logical type without such a type needs an annotation.
pub open spec fn default_native_type(t: TypeIdentifier) -> Option<MsSqlType> {
    match t {
        TypeIdentifier::Int => Some(MsSqlType::Int),
        TypeIdentifier::BigInt => Some(MsSqlType::BigInt),
        TypeIdentifier::Float => Some(MsSqlType::Float(53)),
        TypeIdentifier::Boolean => Some(MsSqlType::Bit),
        TypeIdentifier::Bytes => Some(MsSqlType::VarBinary(Length::Max)),
        TypeIdentifier::DateTime => Some(MsSqlType::DateTime2),
        _ => None,
    }
}

/// Computes the native type that holds a logical type by default.
pub fn default_native(t: TypeIdentifier) -> (r: Option<MsSqlType>)
    ensures
        r == default_native_type(t),
{
    match t {
        TypeIdentifier::Int => Some(MsSqlType::Int),
        TypeIdentifier::BigInt => Some(MsSqlType::BigInt),
        TypeIdentifier::Float => Some(MsSqlType::Float(53)),
        TypeIdentifier::Boolean => Some(MsSqlType::Bit),
        TypeIdentifier::Bytes => Some(MsSqlType::VarBinary(Length::Max)),
        TypeIdentifier::DateTime => Some(MsSqlType::DateTime2),
        _ => None,
    }
}

impl NativeTypeCatalog for SqlServer {
    type Native = MsSqlType;

    open spec fn canonical_type(native: MsSqlType) -> TypeIdentifier {
        native.canonical_type()
    }

    open spec fn reported(native: MsSqlType) -> MsSqlType {
        native.reported()
    }

    open spec fn default_native_type(t: TypeIdentifier) -> Option<MsSqlType> {
        default_native_type(t)
    }

    proof fn reporting_is_stable(native: MsSqlType) {
    }

    proof fn defaults_are_plain(t: TypeIdentifier) {
    }
}

impl FieldType {
    /// The native type that the field declares: its annotation where that
    /// stands for the field's logical type, the default of the logical type
    /// where there is no annotation.
    pub open spec fn declared(self) -> Option<MsSqlType> {
        crate::catalog::declared::<SqlServer>(self)
    }

    /// Whether the catalog can hold the field.
    pub open spec fn is_supported(self) -> bool {
        self.declared() is Some
    }

    /// The type of the column that the database holds once the field is
    /// applied to it.
    pub open spec fn applied(self) -> Option<MsSqlType> {
        crate::catalog::applied::<SqlServer>(self)
    }

    /// Whether the field is written the way introspection writes it: without
    /// an annotation that only repeats the default, and with an annotation
    /// that is spelled as the database reports it.
    pub open spec fn is_canonical(self) -> bool {
        crate::catalog::is_canonical::<SqlServer>(self)
    }

    /// Computes the type of the column that the field makes.
    pub fn apply(&self) -> (r: Option<MsSqlType>)
        ensures
            r == self.applied(),
    {
        match self.native_type {
            Some(native) => {
                if native.type_identifier() == self.type_identifier {
                    Some(native.normalize())
                } else {
                    None
                }
            },
            None => match default_native(self.type_identifier) {
                Some(native) => Some(native.normalize()),
                None => None,
            },
        }
    }
}

/// The field that introspection writes for a column of type `live`: the
/// logical type that `live` stands for, annotated with the reported type
/// unless that is the default of the logical type.
pub open spec fn introspected(live: MsSqlType) -> FieldType {
    crate::catalog::introspected::<SqlServer>(live)
}

/// Recovers the field behind a column of type `live`.
pub fn introspect_type(live: MsSqlType) -> (r: FieldType)
    ensures
        r == introspected(live),
{
    let reported = live.normalize();
    let type_identifier = reported.type_identifier();
    let native_type = if default_native(type_identifier) == Some(reported) {
        None
    } else {
        Some(reported)
    };
    FieldType { type_identifier, native_type }
}

/// On SQL Server, a supported field that is written canonically comes back
/// from the database as it went in.
pub proof fn lemma_round_trip(field: FieldType)
    requires
        field.is_supported(),
        field.is_canonical(),
    ensures
        introspected(field.applied()->Some_0) == field,
{
    crate::catalog::lemma_round_trip::<SqlServer>(field);
}

/// On SQL Server, a supported field comes back from the database with its
/// logical type, written canonically, and stands for the same column as
/// before: only the spelling of the annotation may have changed. A decimal
/// that leaves out precision and scale comes back with the backend's own,
/// `Numeric` comes back as `Decimal`, and an annotation that only repeats
/// the default comes back left out.
pub proof fn lemma_round_trip_canonicalizes(field: FieldType)
    requires
        field.is_supported(),
    ensures
        introspected(field.applied()->Some_0).type_identifier == field.type_identifier,
        introspected(field.applied()->Some_0).is_canonical(),
        introspected(field.applied()->Some_0).is_supported(),
        introspected(field.applied()->Some_0).applied() == field.applied(),
        field.native_type == Some(MsSqlType::Decimal(None)) || field.native_type == Some(
            MsSqlType::Numeric(None),
        ) ==> introspected(field.applied()->Some_0).native_type == Some(
            MsSqlType::Decimal(Some(default_decimal())),
        ),
        field.native_type matches Some(MsSqlType::Numeric(Some(p))) ==> introspected(
            field.applied()->Some_0,
        ).native_type == Some(MsSqlType::Decimal(Some(p))),
        field.native_type == default_native_type(field.type_identifier) ==> introspected(
            field.applied()->Some_0,
        ).native_type is None,
{
    crate::catalog::lemma_round_trip_canonicalizes::<SqlServer>(field);
}

/// On SQL Server, every column type is introspected into a supported,
/// canonical field that stands for the column as the database reports it.
pub proof fn lemma_introspected(live: MsSqlType)
    ensures
        introspected(live).is_supported(),
        introspected(live).is_canonical(),
        introspected(live).applied() == Some(live.reported()),
        introspected(live).type_identifier == live.canonical_type(),
        introspected(live).type_identifier.is_supported(),
{
    crate::catalog::lemma_introspected::<SqlServer>(live);
}

} // verus!
