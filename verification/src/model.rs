//! The logical data model: models, their fields and the relations between them.
//!
//! The graph is built and validated elsewhere; this crate only reads it.

use vstd::prelude::*;
use crate::types::TypeIdentifier;

verus! {

/// What a column holds when a row is written without a value for it.
#[derive(Debug, PartialEq, Eq)]
pub enum DefaultValue {
    /// A literal, as written in the schema.
    Literal(String),
    /// An expression that is evaluated for every new row.
    Expression(String),
    /// The backend produces the value; the column may be left out on insert.
    Generated,
}

/// The mathematical content of a [`DefaultValue`].
pub enum DefaultValueView {
    Literal(Seq<char>),
    Expression(Seq<char>),
    Generated,
}

impl View for DefaultValue {
    type V = DefaultValueView;

    open spec fn view(&self) -> DefaultValueView {
        match self {
            DefaultValue::Literal(text) => DefaultValueView::Literal(text@),
            DefaultValue::Expression(text) => DefaultValueView::Expression(text@),
            DefaultValue::Generated => DefaultValueView::Generated,
        }
    }
}

impl Clone for DefaultValue {
    fn clone(&self) -> (r: Self)
        ensures
            r@ == self@,
    {
        match self {
            DefaultValue::Literal(text) => DefaultValue::Literal(text.clone()),
            DefaultValue::Expression(text) => DefaultValue::Expression(text.clone()),
            DefaultValue::Generated => DefaultValue::Generated,
        }
    }
}

/// The owner of a field: a model, the table that holds its rows and the
/// database that holds the table.
#[derive(Debug, PartialEq, Eq)]
pub struct Model {
    /// The logical name of the database, as the loader derived it.
    pub database: String,
    pub name: String,
    /// The name of the model's table.
    pub db_name: String,
}

/// A field that holds one value of a logical type.
#[derive(Debug, PartialEq, Eq)]
pub struct ScalarField {
    pub name: String,
    /// The name of the field's column.
    pub db_name: String,
    pub type_identifier: TypeIdentifier,
    pub default_value: Option<DefaultValue>,
    pub model: Model,
}

/// The join table behind a many-to-many relation.
#[derive(Debug, PartialEq, Eq)]
pub struct RelationTable {
    pub table: String,
    pub model_a_column: String,
    pub model_b_column: String,
}

/// Foreign-key columns in the table of one of the two models.
#[derive(Debug, PartialEq, Eq)]
pub struct InlineRelation {
    pub in_table_of_model_name: String,
}

/// How a relation shows in the database.
#[derive(Debug, PartialEq, Eq)]
pub enum RelationLinkManifestation {
    Inline(InlineRelation),
    RelationTable(RelationTable),
}

/// A connection between two models.
#[derive(Debug, PartialEq, Eq)]
pub struct Relation {
    pub name: String,
    /// Whether the field on the first model holds many records.
    pub field_a_is_list: bool,
    /// Whether the field on the second model holds many records.
    pub field_b_is_list: bool,
    pub manifestation: RelationLinkManifestation,
}

impl Relation {
    /// A relation is many-to-many when both of its sides hold many records.
    pub open spec fn many_to_many(&self) -> bool {
        self.field_a_is_list && self.field_b_is_list
    }

    #[verifier::when_used_as_spec(many_to_many)]
    pub fn is_many_to_many(&self) -> (r: bool)
        ensures
            r == self.many_to_many(),
    {
        self.field_a_is_list && self.field_b_is_list
    }

    /// Neither side holds many records.
    pub open spec fn one_to_one(&self) -> bool {
        !self.field_a_is_list && !self.field_b_is_list
    }

    #[verifier::when_used_as_spec(one_to_one)]
    pub fn is_one_to_one(&self) -> (r: bool)
        ensures
            r == self.one_to_one(),
    {
        !self.field_a_is_list && !self.field_b_is_list
    }

    /// Exactly one side holds many records.
    pub open spec fn one_to_many(&self) -> bool {
        self.field_a_is_list != self.field_b_is_list
    }

    #[verifier::when_used_as_spec(one_to_many)]
    pub fn is_one_to_many(&self) -> (r: bool)
        ensures
            r == self.one_to_many(),
    {
        self.field_a_is_list != self.field_b_is_list
    }
}

/// A field that refers to records of another model.
#[derive(Debug, PartialEq, Eq)]
pub struct RelationField {
    pub name: String,
    pub model: Model,
    pub relation: Relation,
    /// The scalar fields that back the foreign key; none for a many-to-many
    /// relation.
    pub fields: Vec<ScalarField>,
}

/// A field of a model.
#[derive(Debug, PartialEq, Eq)]
pub enum Field {
    Scalar(ScalarField),
    Relation(RelationField),
}

/// An ordered selection of fields, such as a primary key.
#[derive(Debug, PartialEq, Eq)]
pub struct ModelProjection {
    pub fields: Vec<Field>,
}

impl ModelProjection {
    pub fn new(fields: Vec<Field>) -> (r: Self)
        ensures
            r.fields == fields,
    {
        ModelProjection { fields }
    }

    /// The selected fields, in order.
    pub fn fields(&self) -> (r: &Vec<Field>)
        ensures
            *r == self.fields,
    {
        &self.fields
    }
}

} // verus!
