use connector_core::column::{Column, ColumnIterator, Row};
use connector_core::error::{Error, Violation};
use connector_core::model::{
    DefaultValue, Field, InlineRelation, Model, ModelProjection, Relation, RelationField,
    RelationLinkManifestation, RelationTable, ScalarField,
};
use connector_core::projection::{collect_columns, collect_each, AsColumn, AsColumns, AsRow};
use connector_core::types::{TypeFamily, TypeIdentifier};
use connector_core::unique::{has_name, unique_columns};

fn model(name: &str) -> Model {
    Model { database: "public".to_string(), name: name.to_string(), db_name: format!("{}_table", name) }
}

fn scalar(name: &str, ty: TypeIdentifier) -> ScalarField {
    ScalarField {
        name: name.to_string(),
        db_name: format!("{}_col", name),
        type_identifier: ty,
        default_value: None,
        model: model("User"),
    }
}

fn relation(a: bool, b: bool, table: Option<&str>) -> Relation {
    Relation {
        name: "UserToPost".to_string(),
        field_a_is_list: a,
        field_b_is_list: b,
        manifestation: match table {
            Some(t) => RelationLinkManifestation::RelationTable(RelationTable {
                table: t.to_string(),
                model_a_column: "A".to_string(),
                model_b_column: "B".to_string(),
            }),
            None => RelationLinkManifestation::Inline(InlineRelation {
                in_table_of_model_name: "User".to_string(),
            }),
        },
    }
}

fn relation_field(rel: Relation, fields: Vec<ScalarField>) -> RelationField {
    RelationField { name: "posts".to_string(), model: model("User"), relation: rel, fields }
}

fn column(table: &str, name: &str) -> Column {
    Column {
        database: "public".to_string(),
        table: table.to_string(),
        name: name.to_string(),
        type_family: None,
        default: None,
    }
}

fn typed(name: &str, family: TypeFamily) -> Column {
    typed_in("User_table", name, family)
}

fn typed_in(table: &str, name: &str, family: TypeFamily) -> Column {
    Column {
        database: "public".to_string(),
        table: table.to_string(),
        name: format!("{}_col", name),
        type_family: Some(family),
        default: Some(DefaultValue::Generated),
    }
}

#[test]
fn type_family_of_every_type() {
    let cases = [
        (TypeIdentifier::String, TypeFamily::Text),
        (TypeIdentifier::Int, TypeFamily::Int),
        (TypeIdentifier::BigInt, TypeFamily::Int),
        (TypeIdentifier::Float, TypeFamily::Double),
        (TypeIdentifier::Decimal, TypeFamily::Decimal),
        (TypeIdentifier::Boolean, TypeFamily::Boolean),
        (TypeIdentifier::Enum(0), TypeFamily::Text),
        (TypeIdentifier::Enum(7), TypeFamily::Text),
        (TypeIdentifier::UUID, TypeFamily::Uuid),
        (TypeIdentifier::Json, TypeFamily::Text),
        (TypeIdentifier::Xml, TypeFamily::Text),
        (TypeIdentifier::DateTime, TypeFamily::DateTime),
        (TypeIdentifier::Bytes, TypeFamily::Bytes),
    ];
    for (ty, family) in cases {
        assert_eq!(ty.type_family(), Ok(family));
        assert_eq!(ty.type_family(), ty.type_family());
    }
    assert_eq!(
        TypeIdentifier::Unsupported.type_family(),
        Err(Error::LogicFatal { violation: Violation::UnsupportedType })
    );
}

#[test]
fn scalar_field_as_column() {
    let mut f = scalar("age", TypeIdentifier::Int);
    assert_eq!(f.as_column(), Ok(typed("age", TypeFamily::Int)));
    f.default_value = Some(DefaultValue::Literal("18".to_string()));
    let c = f.as_column().unwrap();
    assert_eq!(c.default, Some(DefaultValue::Literal("18".to_string())));
    assert_eq!(c.database, "public");
    assert_eq!(c.table, "User_table");
    assert_eq!(c.name, "age_col");
    f.default_value = Some(DefaultValue::Expression("now()".to_string()));
    assert_eq!(
        f.as_column().unwrap().default,
        Some(DefaultValue::Expression("now()".to_string()))
    );
    f.default_value = Some(DefaultValue::Generated);
    assert_eq!(f.as_column().unwrap().default, Some(DefaultValue::Generated));
}

#[test]
fn unsupported_scalar_field_is_logic_fatal() {
    let f = scalar("geo", TypeIdentifier::Unsupported);
    assert_eq!(f.as_column(), Err(Error::LogicFatal { violation: Violation::UnsupportedType }));
    let r = Field::Scalar(f).as_columns();
    assert!(matches!(r, Err(Error::LogicFatal { violation: Violation::UnsupportedType })));
}

#[test]
fn many_to_many_resolves_to_relation_table() {
    let rf = relation_field(
        relation(true, true, Some("_UserToPost")),
        vec![scalar("a", TypeIdentifier::Int), scalar("b", TypeIdentifier::String)],
    );
    assert_eq!(rf.table_name(), Ok("_UserToPost".to_string()));
    let cols = rf.as_columns().unwrap();
    assert_eq!(cols.len(), 2);
    assert_eq!(
        cols.collect(),
        vec![
            typed_in("_UserToPost", "a", TypeFamily::Int),
            typed_in("_UserToPost", "b", TypeFamily::Text),
        ]
    );
}

#[test]
fn many_to_many_without_relation_table_is_logic_fatal() {
    let rf = relation_field(relation(true, true, None), vec![]);
    let fatal = Error::LogicFatal { violation: Violation::MissingRelationTable };
    assert_eq!(rf.table_name(), Err(fatal.clone()));
    assert!(matches!(rf.as_columns(), Err(e) if e == fatal));
}

#[test]
fn other_relations_resolve_to_the_model_table() {
    for (a, b) in [(false, false), (true, false), (false, true)] {
        for table in [None, Some("_UserToPost")] {
            let rf = relation_field(relation(a, b, table), vec![scalar("fk", TypeIdentifier::Int)]);
            assert_eq!(rf.table_name(), Ok("User_table".to_string()));
            assert_eq!(rf.as_columns().unwrap().collect(), vec![typed("fk", TypeFamily::Int)]);
        }
    }
}

#[test]
fn relation_kinds() {
    assert!(relation(true, true, None).is_many_to_many());
    assert!(!relation(true, false, None).is_many_to_many());
    assert!(relation(false, false, None).is_one_to_one());
    assert!(relation(true, false, None).is_one_to_many());
    assert!(relation(false, true, None).is_one_to_many());
    assert!(!relation(true, true, None).is_one_to_many());
}

#[test]
fn relation_columns_carry_family_and_default_of_their_fields() {
    let mut fk = scalar("fk", TypeIdentifier::DateTime);
    fk.default_value = Some(DefaultValue::Expression("now()".to_string()));
    let plain = scalar("other", TypeIdentifier::Bytes);
    let rf = relation_field(relation(false, true, None), vec![fk, plain]);
    let cols = rf.as_columns().unwrap().collect();
    assert_eq!(cols.len(), 2);
    assert_eq!(cols[0].type_family, Some(TypeFamily::DateTime));
    assert_eq!(cols[0].default, Some(DefaultValue::Expression("now()".to_string())));
    assert_eq!(cols[1], typed("other", TypeFamily::Bytes));
    // Each is the column that the field itself projects onto.
    assert_eq!(cols[0], rf.fields[0].as_column().unwrap());
    assert_eq!(cols[1], rf.fields[1].as_column().unwrap());
}

#[test]
fn relation_with_unsupported_backing_field_is_logic_fatal() {
    let rf = relation_field(
        relation(false, true, None),
        vec![scalar("a", TypeIdentifier::Int), scalar("x", TypeIdentifier::Unsupported)],
    );
    assert!(matches!(
        rf.as_columns(),
        Err(Error::LogicFatal { violation: Violation::UnsupportedType })
    ));
    // A missing relation table is found before the backing fields are looked at.
    let rf = relation_field(
        relation(true, true, None),
        vec![scalar("x", TypeIdentifier::Unsupported)],
    );
    assert!(matches!(
        rf.as_columns(),
        Err(Error::LogicFatal { violation: Violation::MissingRelationTable })
    ));
}

#[test]
fn scalar_field_in_another_table() {
    let f = scalar("id", TypeIdentifier::UUID);
    assert_eq!(
        f.as_column_in("db", "_Join"),
        Ok(Column {
            database: "db".to_string(),
            table: "_Join".to_string(),
            name: "id_col".to_string(),
            type_family: Some(TypeFamily::Uuid),
            default: Some(DefaultValue::Generated),
        })
    );
    assert_eq!(
        scalar("u", TypeIdentifier::Unsupported).as_column_in("db", "t"),
        Err(Error::LogicFatal { violation: Violation::UnsupportedType })
    );
}

fn overlapping() -> ModelProjection {
    // The relation field is backed by `id`, which is also selected directly.
    ModelProjection::new(vec![
        Field::Scalar(scalar("id", TypeIdentifier::Int)),
        Field::Relation(relation_field(
            relation(false, true, None),
            vec![scalar("id", TypeIdentifier::Int), scalar("tenant", TypeIdentifier::String)],
        )),
        Field::Scalar(scalar("tenant", TypeIdentifier::String)),
        Field::Scalar(scalar("name", TypeIdentifier::String)),
    ])
}

#[test]
fn projection_columns_are_unique_in_first_occurrence_order() {
    let cols = overlapping().as_columns().unwrap();
    assert_eq!(cols.len(), 3);
    assert!(!cols.is_empty());
    assert_eq!(
        cols.collect(),
        vec![
            typed("id", TypeFamily::Int),
            typed("tenant", TypeFamily::Text),
            typed("name", TypeFamily::Text),
        ]
    );
}

#[test]
fn relation_field_before_its_scalar_keeps_a_typed_column() {
    let p = ModelProjection::new(vec![
        Field::Relation(relation_field(
            relation(false, true, None),
            vec![scalar("id", TypeIdentifier::Int)],
        )),
        Field::Scalar(scalar("id", TypeIdentifier::Int)),
    ]);
    assert_eq!(p.as_columns().unwrap().collect(), vec![typed("id", TypeFamily::Int)]);
    for c in p.as_row().unwrap().values {
        assert!(c.type_family.is_some());
        assert!(c.default.is_some());
    }
}

#[test]
fn projection_row_keeps_every_column() {
    let row = overlapping().as_row().unwrap();
    assert_eq!(
        row,
        Row {
            values: vec![
                typed("id", TypeFamily::Int),
                typed("id", TypeFamily::Int),
                typed("tenant", TypeFamily::Text),
                typed("tenant", TypeFamily::Text),
                typed("name", TypeFamily::Text),
            ]
        }
    );
}

#[test]
fn slice_of_fields_projects_like_a_projection() {
    let p = overlapping();
    let fields: &[Field] = p.fields().as_slice();
    assert_eq!(fields.as_columns().unwrap().collect(), p.as_columns().unwrap().collect());
    assert_eq!(collect_columns(fields).unwrap(), p.as_row().unwrap().values);
}

#[test]
fn same_column_name_in_other_table_is_kept() {
    let p = ModelProjection::new(vec![
        Field::Relation(relation_field(
            relation(true, true, Some("_Join")),
            vec![scalar("id", TypeIdentifier::Int)],
        )),
        Field::Scalar(scalar("id", TypeIdentifier::Int)),
    ]);
    assert_eq!(
        p.as_columns().unwrap().collect(),
        vec![typed_in("_Join", "id", TypeFamily::Int), typed("id", TypeFamily::Int)]
    );
}

#[test]
fn first_breach_stops_the_projection() {
    let p = ModelProjection::new(vec![
        Field::Scalar(scalar("id", TypeIdentifier::Int)),
        Field::Relation(relation_field(relation(true, true, None), vec![])),
        Field::Scalar(scalar("geo", TypeIdentifier::Unsupported)),
    ]);
    let fatal = Error::LogicFatal { violation: Violation::MissingRelationTable };
    assert!(matches!(p.as_columns(), Err(e) if e == fatal));
    assert_eq!(p.as_row(), Err(fatal));
}

#[test]
fn empty_projection() {
    let p = ModelProjection::new(vec![]);
    let cols = p.as_columns().unwrap();
    assert!(cols.is_empty());
    assert_eq!(cols.len(), 0);
    assert_eq!(p.as_row().unwrap().values, vec![]);
}

#[test]
fn scalar_fields_project_one_to_one() {
    let fields = vec![
        scalar("a", TypeIdentifier::Boolean),
        scalar("a", TypeIdentifier::Boolean),
        scalar("b", TypeIdentifier::Bytes),
    ];
    let expected =
        vec![typed("a", TypeFamily::Boolean), typed("a", TypeFamily::Boolean), typed("b", TypeFamily::Bytes)];
    assert_eq!(fields.as_columns().unwrap().collect(), expected);
    let slice: &[ScalarField] = fields.as_slice();
    assert_eq!(slice.as_columns().unwrap().collect(), expected);
    assert_eq!(collect_each(slice).unwrap(), expected);
    let bad = vec![scalar("a", TypeIdentifier::Int), scalar("u", TypeIdentifier::Unsupported)];
    assert!(matches!(
        bad.as_columns(),
        Err(Error::LogicFatal { violation: Violation::UnsupportedType })
    ));
}

#[test]
fn unique_columns_keeps_first_of_each_name() {
    let a1 = typed("a", TypeFamily::Int);
    let a2 = column("User_table", "a_col");
    let b = column("User_table", "b_col");
    let other_db = Column { database: "other".to_string(), ..column("User_table", "a_col") };
    let out = unique_columns(vec![a1.clone(), b.clone(), a2.clone(), other_db.clone(), b.clone()]);
    assert_eq!(out, vec![a1.clone(), b.clone(), other_db.clone()]);
    assert!(has_name(&out, &a2));
    assert!(!has_name(&out, &column("User_table", "c_col")));
    assert!(a1.same_name(&a2));
    assert!(!a1.same_name(&other_db));
    assert_eq!(unique_columns(vec![]), vec![]);
}

#[test]
fn column_iterator_hands_out_in_order() {
    let a = column("t", "a");
    let b = column("t", "b");
    let mut it = ColumnIterator::from(vec![a.clone(), b.clone()]);
    assert_eq!(it.len(), 2);
    assert_eq!(it.next(), Some(a));
    assert_eq!(it.len(), 2);
    assert_eq!(it.next(), Some(b));
    assert_eq!(it.next(), None);
    assert_eq!(it.next(), None);
    let announced = ColumnIterator::new(vec![column("t", "a")], 5);
    assert_eq!(announced.len(), 5);
    assert!(!announced.is_empty());
    assert_eq!(announced.collect(), vec![column("t", "a")]);
    assert!(ColumnIterator::new(vec![column("t", "a")], 0).is_empty());
}

#[test]
fn row_from_columns() {
    let row = Row::from(vec![column("t", "a")]);
    assert_eq!(row.values, vec![column("t", "a")]);
}
