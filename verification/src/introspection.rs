//! From the tables of a live database back to the schema that made them.

use vstd::prelude::*;
use crate::native_types::{introspect_type, introspected, FieldType, MsSqlType};
use crate::types::TypeIdentifier;

verus! {

/// A column as the database describes it.
#[derive(Debug, PartialEq, Eq)]
pub struct LiveColumn {
    pub name: String,
    pub native_type: MsSqlType,
    /// Whether the column is the primary key of its table.
    pub primary_key: bool,
    /// Whether the database numbers the rows in this column.
    pub identity: bool,
}

/// A table as the database describes it.
#[derive(Debug, PartialEq, Eq)]
pub struct LiveTable {
    pub name: String,
    pub columns: Vec<LiveColumn>,
}

/// A field of a schema, with its type and attributes.
#[derive(Debug, PartialEq, Eq)]
pub struct SchemaField {
    pub name: String,
    pub field_type: FieldType,
    pub is_id: bool,
    pub autoincrement: bool,
}

/// A model of a schema.
#[derive(Debug, PartialEq, Eq)]
pub struct SchemaModel {
    pub name: String,
    pub fields: Vec<SchemaField>,
}

/// The field that introspection writes for `column`: the column's name, the
/// field type that its native type stands for, and the column's marks.
pub open spec fn introspected_field(column: LiveColumn) -> SchemaField {
    SchemaField {
        name: column.name,
        field_type: introspected(column.native_type),
        is_id: column.primary_key,
        autoincrement: column.identity,
    }
}

/// The fields that introspection writes for `table`: one for each column, in
/// the order of the columns.
pub open spec fn introspected_fields(table: LiveTable) -> Seq<SchemaField> {
    table.columns@.map_values(|c: LiveColumn| introspected_field(c))
}

/// Recovers the field behind a column.
pub fn introspect_column(column: &LiveColumn) -> (r: SchemaField)
    ensures
        r == introspected_field(*column),
{
    SchemaField {
        name: column.name.clone(),
        field_type: introspect_type(column.native_type),
        is_id: column.primary_key,
        autoincrement: column.identity,
    }
}

/// Recovers the model behind a table.
pub fn introspect(table: &LiveTable) -> (r: SchemaModel)
    ensures
        r.name == table.name,
        r.fields@ == introspected_fields(*table),
{
    let mut fields: Vec<SchemaField> = Vec::new();
    let mut i: usize = 0;
    while i < table.columns.len()
        invariant
            i <= table.columns.len(),
            fields@ == introspected_fields(*table).take(i as int),
        decreases table.columns.len() - i,
    {
        fields.push(introspect_column(&table.columns[i]));
        i += 1;
    }
    SchemaModel { name: table.name.clone(), fields }
}

/// The name under which a schema writes a logical type. The types that a
/// schema writes under the name of another type have none of their own.
pub open spec fn scalar_name(t: TypeIdentifier) -> Option<Seq<char>> {
    match t {
        TypeIdentifier::String => Some("String"@),
        TypeIdentifier::Int => Some("Int"@),
        TypeIdentifier::BigInt => Some("BigInt"@),
        TypeIdentifier::Float => Some("Float"@),
        TypeIdentifier::Decimal => Some("Decimal"@),
        TypeIdentifier::Boolean => Some("Boolean"@),
        TypeIdentifier::DateTime => Some("DateTime"@),
        TypeIdentifier::Bytes => Some("Bytes"@),
        _ => None,
    }
}

/// The name of a logical type in a schema, empty where it has none.
pub open spec fn type_label(t: TypeIdentifier) -> Seq<char> {
    match scalar_name(t) {
        Some(name) => name,
        None => Seq::empty(),
    }
}

/// Finds the name under which a schema writes a logical type.
pub fn scalar_name_of(t: TypeIdentifier) -> (r: Option<&'static str>)
    ensures
        match r {
            Some(name) => scalar_name(t) == Some(name@),
            None => scalar_name(t) is None,
        },
{
    match t {
        TypeIdentifier::String => Some("String"),
        TypeIdentifier::Int => Some("Int"),
        TypeIdentifier::BigInt => Some("BigInt"),
        TypeIdentifier::Float => Some("Float"),
        TypeIdentifier::Decimal => Some("Decimal"),
        TypeIdentifier::Boolean => Some("Boolean"),
        TypeIdentifier::DateTime => Some("DateTime"),
        TypeIdentifier::Bytes => Some("Bytes"),
        _ => None,
    }
}

/// `n` spaces; none where `n` is not positive.
pub open spec fn spaces(n: int) -> Seq<char> {
    Seq::new(
        if n > 0 {
            n as nat
        } else {
            0
        },
        |i: int| ' ',
    )
}

/// `s` followed by as many spaces as it takes to fill `width` characters.
pub open spec fn padded(s: Seq<char>, width: int) -> Seq<char> {
    s + spaces(width - s.len())
}

/// Fills `s` with spaces up to `width` characters.
pub fn pad(s: &str, width: usize) -> (r: String)
    ensures
        r@ == padded(s@, width as int),
{
    proof {
        reveal_strlit(" ");
    }
    let len = s.unicode_len();
    let mut r = s.to_owned();
    let mut n = len;
    while n < width
        invariant
            len == s@.len(),
            len <= n,
            n <= width || n == len,
            r@ == s@ + spaces(n - len),
            " "@ == seq![' '],
        decreases width - n,
    {
        r = r.concat(" ");
        n += 1;
    }
    r
}

impl SchemaField {
    /// The attributes of the field, each with a space before it: whether it
    /// is the id, whether the database numbers it, and its native type.
    pub open spec fn attributes(&self) -> Seq<char> {
        (if self.is_id {
            " @id"@
        } else {
            Seq::empty()
        }) + (if self.autoincrement {
            " @default(autoincrement())"@
        } else {
            Seq::empty()
        }) + (match self.field_type.native_type {
            Some(native) => " @sqlserver."@ + native.text(),
            None => Seq::empty(),
        })
    }

    /// Whether the field carries an attribute.
    pub open spec fn has_attributes(&self) -> bool {
        self.is_id || self.autoincrement || self.field_type.native_type is Some
    }

    /// The line of the field in a model whose names fill `name_width` and
    /// whose types fill `type_width` characters: two spaces, the name, the
    /// type and the attributes in columns. A line without attributes ends
    /// behind the type.
    pub open spec fn line(&self, name_width: int, type_width: int) -> Seq<char> {
        let label = type_label(self.field_type.type_identifier);
        "  "@ + padded(self.name@, name_width) + " "@ + (if self.has_attributes() {
            padded(label, type_width) + self.attributes()
        } else {
            label
        }) + "\n"@
    }

    /// Writes the attributes of the field.
    pub fn attributes_string(&self) -> (r: String)
        ensures
            r@ == self.attributes(),
    {
        let mut r = String::new();
        if self.is_id {
            r = r.concat(" @id");
        }
        if self.autoincrement {
            r = r.concat(" @default(autoincrement())");
        }
        match self.field_type.native_type {
            Some(native) => {
                r = r.concat(" @sqlserver.").concat(native.to_text().as_str());
            },
            None => {},
        }
        r
    }

    /// Writes the line of the field; `None` where its type has no name.
    pub fn line_string(&self, name_width: usize, type_width: usize) -> (r: Option<String>)
        ensures
            r is Some <==> scalar_name(self.field_type.type_identifier) is Some,
            r matches Some(line) ==> line@ == self.line(name_width as int, type_width as int),
    {
        let label = match scalar_name_of(self.field_type.type_identifier) {
            Some(label) => label,
            None => { return None; },
        };
        let start = "  ".to_owned().concat(pad(self.name.as_str(), name_width).as_str()).concat(
            " ",
        );
        let has = self.is_id || self.autoincrement || self.field_type.native_type.is_some();
        let line = if has {
            start.concat(pad(label, type_width).as_str()).concat(
                self.attributes_string().as_str(),
            ).concat("\n")
        } else {
            start.concat(label).concat("\n")
        };
        Some(line)
    }
}

/// The greater of two numbers.
pub open spec fn larger(a: int, b: int) -> int {
    if a >= b {
        a
    } else {
        b
    }
}

/// The length of the longest name among `fields`.
pub open spec fn name_width(fields: Seq<SchemaField>) -> int
    decreases fields.len(),
{
    if fields.len() == 0 {
        0
    } else {
        larger(name_width(fields.drop_last()), fields.last().name@.len() as int)
    }
}

/// The length of the longest type name among `fields`.
pub open spec fn type_width(fields: Seq<SchemaField>) -> int
    decreases fields.len(),
{
    if fields.len() == 0 {
        0
    } else {
        larger(
            type_width(fields.drop_last()),
            type_label(fields.last().field_type.type_identifier).len() as int,
        )
    }
}

/// The lines of `fields`, one after the other.
pub open spec fn lines(fields: Seq<SchemaField>, name_width: int, type_width: int) -> Seq<char>
    decreases fields.len(),
{
    if fields.len() == 0 {
        Seq::empty()
    } else {
        lines(fields.drop_last(), name_width, type_width) + fields.last().line(
            name_width,
            type_width,
        )
    }
}

/// Whether every field has a type that a schema can name.
pub open spec fn all_named(fields: Seq<SchemaField>) -> bool {
    forall|i: int|
        0 <= i < fields.len() ==> scalar_name((#[trigger] fields[i]).field_type.type_identifier)
            is Some
}

/// A model as a schema writes it: its fields in a block, with names, types
/// and attributes lined up in columns that fit the longest name and the
/// longest type.
pub open spec fn model_text(name: Seq<char>, fields: Seq<SchemaField>) -> Seq<char> {
    "model "@ + name + " {\n"@ + lines(fields, name_width(fields), type_width(fields)) + "}\n"@
}

impl SchemaModel {
    /// The model as a schema writes it.
    pub open spec fn text(&self) -> Seq<char> {
        model_text(self.name@, self.fields@)
    }

    /// Finds the widths of the name and type columns.
    pub fn widths(&self) -> (r: (usize, usize))
        ensures
            r.0 == name_width(self.fields@),
            r.1 == type_width(self.fields@),
    {
        let mut names: usize = 0;
        let mut types: usize = 0;
        let mut i: usize = 0;
        while i < self.fields.len()
            invariant
                i <= self.fields.len(),
                names == name_width(self.fields@.take(i as int)),
                types == type_width(self.fields@.take(i as int)),
            decreases self.fields.len() - i,
        {
            assert(self.fields@.take(i + 1).drop_last() =~= self.fields@.take(i as int));
            let n = self.fields[i].name.as_str().unicode_len();
            if n > names {
                names = n;
            }
            let t = match scalar_name_of(self.fields[i].field_type.type_identifier) {
                Some(label) => label.unicode_len(),
                None => 0,
            };
            if t > types {
                types = t;
            }
            i += 1;
        }
        assert(self.fields@.take(self.fields.len() as int) =~= self.fields@);
        (names, types)
    }

    /// Writes the model; `None` where the type of a field has no name.
    pub fn render(&self) -> (r: Option<String>)
        ensures
            r is Some <==> all_named(self.fields@),
            r matches Some(text) ==> text@ == self.text(),
    {
        let (names, types) = self.widths();
        let mut body = String::new();
        let mut i: usize = 0;
        while i < self.fields.len()
            invariant
                i <= self.fields.len(),
                all_named(self.fields@.take(i as int)),
                body@ == lines(self.fields@.take(i as int), names as int, types as int),
            decreases self.fields.len() - i,
        {
            assert(self.fields@.take(i + 1).drop_last() =~= self.fields@.take(i as int));
            match self.fields[i].line_string(names, types) {
                Some(line) => {
                    body = body.concat(line.as_str());
                },
                None => {
                    return None;
                },
            }
            i += 1;
        }
        assert(self.fields@.take(self.fields.len() as int) =~= self.fields@);
        Some("model ".to_owned().concat(self.name.as_str()).concat(" {\n").concat(body.as_str()).concat("}\n"))
    }
}

/// The model that introspection writes for `table`, as text.
pub open spec fn table_text(table: LiveTable) -> Seq<char> {
    model_text(table.name@, introspected_fields(table))
}

/// The models that introspection writes for `tables`, with an empty line
/// between one model and the next.
pub open spec fn tables_text(tables: Seq<LiveTable>) -> Seq<char>
    decreases tables.len(),
{
    if tables.len() == 0 {
        Seq::empty()
    } else if tables.len() == 1 {
        table_text(tables.last())
    } else {
        tables_text(tables.drop_last()) + "\n"@ + table_text(tables.last())
    }
}

/// Every column is introspected into a field whose type a schema can name.
pub proof fn lemma_introspected_fields_named(table: LiveTable)
    ensures
        all_named(introspected_fields(table)),
{
    assert forall|i: int| 0 <= i < introspected_fields(table).len() implies scalar_name(
        (#[trigger] introspected_fields(table)[i]).field_type.type_identifier,
    ) is Some by {}
}

/// Writes the schema of a live database: the declarations in `config` as
/// they stand, followed by one model for each table.
pub fn introspect_schema(config: &str, tables: &Vec<LiveTable>) -> (r: String)
    ensures
        r@ == config@ + tables_text(tables@),
{
    let mut models = String::new();
    let mut i: usize = 0;
    while i < tables.len()
        invariant
            i <= tables.len(),
            models@ == tables_text(tables@.take(i as int)),
        decreases tables.len() - i,
    {
        assert(tables@.take(i + 1).drop_last() =~= tables@.take(i as int));
        let model = introspect(&tables[i]);
        proof {
            lemma_introspected_fields_named(tables@[i as int]);
        }
        let text = match model.render() {
            Some(text) => text,
            None => String::new(),
        };
        if i > 0 {
            models = models.concat("\n");
        }
        models = models.concat(text.as_str());
        i += 1;
    }
    assert(tables@.take(tables.len() as int) =~= tables@);
    config.to_owned().concat(models.as_str())
}

} // verus!
