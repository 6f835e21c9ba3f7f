//! What every backend's catalog of native types has in common, and the round
//! trip of a field through a database that follows from it.

use vstd::prelude::*;
use crate::types::TypeIdentifier;

verus! {

/// The type of a field as a schema declares it: the logical type and,
/// optionally, the native type that holds it.
#[derive(Clone, Copy, Debug, PartialEq, Eq)]
pub struct FieldType<N> {
    pub type_identifier: TypeIdentifier,
    pub native_type: Option<N>,
}

/// The native types of one backend.
pub trait NativeTypeCatalog {
    /// A native type with its parameters.
    type Native;

    /// The logical type that a native type stands for.
    spec fn canonical_type(native: Self::Native) -> TypeIdentifier;

    /// A native type as the database reports it, with the parameters that
    /// the schema left out filled in.
    spec fn reported(native: Self::Native) -> Self::Native;

    /// The native type that holds a logical type where the schema names
    /// none; a logical type without such a type needs an annotation.
    spec fn default_native_type(t: TypeIdentifier) -> Option<Self::Native>;

    /// Reporting changes neither the logical type nor an already reported
    /// type.
    proof fn reporting_is_stable(native: Self::Native)
        ensures
            Self::canonical_type(Self::reported(native)) == Self::canonical_type(native),
            Self::reported(Self::reported(native)) == Self::reported(native),
    ;

    /// The default of a logical type stands for that type and is reported as
    /// it is declared.
    proof fn defaults_are_plain(t: TypeIdentifier)
        ensures
            Self::default_native_type(t) matches Some(native) ==> Self::canonical_type(native)
                == t && Self::reported(native) == native,
    ;
}

/// The native type that the field declares: its annotation where that stands
/// for the field's logical type, the default of the logical type where there
/// is no annotation.
pub open spec fn declared<C: NativeTypeCatalog>(field: FieldType<C::Native>) -> Option<C::Native> {
    match field.native_type {
        Some(native) => if C::canonical_type(native) == field.type_identifier {
            Some(native)
        } else {
            None
        },
        None => C::default_native_type(field.type_identifier),
    }
}

/// The type of the column that the database holds once the field is applied
/// to it; `None` where the catalog cannot hold the field.
pub open spec fn applied<C: NativeTypeCatalog>(field: FieldType<C::Native>) -> Option<C::Native> {
    match declared::<C>(field) {
        Some(native) => Some(C::reported(native)),
        None => None,
    }
}

/// Whether the field is written the way introspection writes it: without an
/// annotation that only repeats the default, and with an annotation that is
/// spelled as the database reports it.
pub open spec fn is_canonical<C: NativeTypeCatalog>(field: FieldType<C::Native>) -> bool {
    match field.native_type {
        Some(native) => C::reported(native) == native && C::default_native_type(
            field.type_identifier,
        ) != Some(native),
        None => true,
    }
}

/// The field that introspection writes for a column of type `live`: the
/// logical type that `live` stands for, annotated with the reported type
/// unless that is the default of the logical type.
pub open spec fn introspected<C: NativeTypeCatalog>(live: C::Native) -> FieldType<C::Native> {
    let reported = C::reported(live);
    let type_identifier = C::canonical_type(reported);
    FieldType {
        type_identifier,
        native_type: if C::default_native_type(type_identifier) == Some(reported) {
            None
        } else {
            Some(reported)
        },
    }
}

/// On every backend, a field that the catalog can hold and that is written
/// canonically comes back from the database as it went in.
pub proof fn lemma_round_trip<C: NativeTypeCatalog>(field: FieldType<C::Native>)
    requires
        applied::<C>(field) is Some,
        is_canonical::<C>(field),
    ensures
        introspected::<C>(applied::<C>(field)->Some_0) == field,
{
    C::defaults_are_plain(field.type_identifier);
    C::reporting_is_stable(declared::<C>(field)->Some_0);
}

/// On every backend, a field that the catalog can hold comes back from the
/// database with its logical type, written canonically, and stands for the
/// same column as before: only the spelling of the annotation may have
/// changed. An annotation comes back as the database reports it, unless that
/// is the default of the logical type, which comes back left out.
pub proof fn lemma_round_trip_canonicalizes<C: NativeTypeCatalog>(field: FieldType<C::Native>)
    requires
        applied::<C>(field) is Some,
    ensures
        ({
            let back = introspected::<C>(applied::<C>(field)->Some_0);
            &&& back.type_identifier == field.type_identifier
            &&& is_canonical::<C>(back)
            &&& applied::<C>(back) == applied::<C>(field)
            &&& back.native_type matches Some(native) ==> Some(native) == applied::<C>(field)
            &&& back.native_type is None <==> C::default_native_type(field.type_identifier)
                == applied::<C>(field)
        }),
{
    let native = declared::<C>(field)->Some_0;
    C::defaults_are_plain(field.type_identifier);
    C::reporting_is_stable(native);
    C::reporting_is_stable(C::reported(native));
    let back = introspected::<C>(applied::<C>(field)->Some_0);
    C::defaults_are_plain(back.type_identifier);
}

/// On every backend, every column type is introspected into a canonical
/// field that the catalog can hold and that stands for the column as the
/// database reports it.
pub proof fn lemma_introspected<C: NativeTypeCatalog>(live: C::Native)
    ensures
        is_canonical::<C>(introspected::<C>(live)),
        applied::<C>(introspected::<C>(live)) == Some(C::reported(live)),
        introspected::<C>(live).type_identifier == C::canonical_type(live),
{
    C::reporting_is_stable(live);
    C::reporting_is_stable(C::reported(live));
    C::defaults_are_plain(C::canonical_type(live));
}

} // verus!
