//! From fields to the columns that hold them.

use vstd::prelude::*;
use crate::column::{columns_view, Column, ColumnIterator, ColumnView, Row};
use crate::error::{Error, ErrorView, Violation};
use crate::model::{
    DefaultValue, DefaultValueView, Field, ModelProjection, RelationField,
    RelationLinkManifestation, ScalarField,
};
use crate::unique::{
    contains_name, first_positions, is_first_occurrence, lemma_first_positions,
    lemma_unique_by_name, lemma_unique_is_first_occurrences, unique_by_name, unique_columns,
};

verus! {

/// The contents of a column or of the failure to produce one.
pub open spec fn column_outcome(r: Result<Column, Error>) -> Result<ColumnView, ErrorView> {
    match r {
        Ok(c) => Ok(c@),
        Err(e) => Err(e@),
    }
}

/// The contents of what an iterator still holds, or of a failure.
pub open spec fn columns_outcome(r: Result<ColumnIterator, Error>) -> Result<
    Seq<ColumnView>,
    ErrorView,
> {
    match r {
        Ok(it) => Ok(columns_view(it.remaining())),
        Err(e) => Err(e@),
    }
}

/// The contents of a row or of a failure.
pub open spec fn row_outcome(r: Result<Row, Error>) -> Result<Seq<ColumnView>, ErrorView> {
    match r {
        Ok(row) => Ok(row@),
        Err(e) => Err(e@),
    }
}

/// Something that is held by exactly one column.
pub trait AsColumn {
    /// The column, or the breach of contract that stands in its way.
    spec fn column(&self) -> Result<ColumnView, ErrorView>;

    fn as_column(&self) -> (r: Result<Column, Error>)
        ensures
            column_outcome(r) == self.column(),
    ;
}

/// Something that is held by a list of columns.
pub trait AsColumns {
    /// The columns in order, or the first breach of contract met on the way.
    spec fn columns(&self) -> Result<Seq<ColumnView>, ErrorView>;

    fn as_columns(&self) -> (r: Result<ColumnIterator, Error>)
        ensures
            columns_outcome(r) == self.columns(),
            r matches Ok(it) ==> it.count() == it.remaining().len(),
    ;
}

/// Something that binds positionally as one row.
pub trait AsRow {
    /// The columns of the row in order, or the first breach of contract.
    spec fn row(&self) -> Result<Seq<ColumnView>, ErrorView>;

    fn as_row(&self) -> (r: Result<Row, Error>)
        ensures
            row_outcome(r) == self.row(),
    ;
}

/// The default that a column announces for a field's default: the field's
/// own where it has one, and generation by the backend where it has none.
pub open spec fn column_default(d: Option<DefaultValue>) -> DefaultValueView {
    match d {
        Some(d) => d@,
        None => DefaultValueView::Generated,
    }
}

impl ScalarField {
    /// The column that holds the field in `table` of `database`: it carries
    /// the family of the field's type and the field's default. A field of
    /// an unsupported type has no column.
    pub open spec fn column_in(&self, database: Seq<char>, table: Seq<char>) -> Result<
        ColumnView,
        ErrorView,
    > {
        match self.type_identifier.family() {
            Some(family) => Ok(
                ColumnView {
                    database,
                    table,
                    name: self.db_name@,
                    type_family: Some(family),
                    default: Some(column_default(self.default_value)),
                },
            ),
            None => Err(ErrorView::LogicFatal { violation: Violation::UnsupportedType }),
        }
    }

    /// Makes the column that holds the field in `table` of `database`.
    pub fn as_column_in(&self, database: &str, table: &str) -> (r: Result<Column, Error>)
        ensures
            column_outcome(r) == self.column_in(database@, table@),
    {
        let family = match self.type_identifier.type_family() {
            Ok(family) => family,
            Err(e) => { return Err(e); },
        };
        let default = match &self.default_value {
            Some(d) => d.clone(),
            None => DefaultValue::Generated,
        };
        Ok(
            Column {
                database: database.to_owned(),
                table: table.to_owned(),
                name: self.db_name.clone(),
                type_family: Some(family),
                default: Some(default),
            },
        )
    }
}

impl AsColumn for ScalarField {
    open spec fn column(&self) -> Result<ColumnView, ErrorView> {
        self.column_in(self.model.database@, self.model.db_name@)
    }

    fn as_column(&self) -> (r: Result<Column, Error>) {
        self.as_column_in(self.model.database.as_str(), self.model.db_name.as_str())
    }
}

/// The columns that hold `fields` in `table` of `database`, one for each
/// field, in order; the breach of the first field that has one, if any has.
pub open spec fn backing_columns(
    fields: Seq<ScalarField>,
    database: Seq<char>,
    table: Seq<char>,
) -> Result<Seq<ColumnView>, ErrorView>
    decreases fields.len(),
{
    if fields.len() == 0 {
        Ok(Seq::empty())
    } else {
        match backing_columns(fields.drop_last(), database, table) {
            Ok(before) => match fields.last().column_in(database, table) {
                Ok(own) => Ok(before.push(own)),
                Err(e) => Err(e),
            },
            Err(e) => Err(e),
        }
    }
}

/// A breach among the first `k` fields is the breach of the whole list.
pub proof fn lemma_backing_columns_breach(
    fields: Seq<ScalarField>,
    database: Seq<char>,
    table: Seq<char>,
    k: int,
)
    requires
        0 <= k <= fields.len(),
        backing_columns(fields.take(k), database, table) is Err,
    ensures
        backing_columns(fields, database, table) == backing_columns(
            fields.take(k),
            database,
            table,
        ),
    decreases fields.len(),
{
    if k == fields.len() {
        assert(fields.take(k) =~= fields);
    } else {
        assert(fields.drop_last().take(k) =~= fields.take(k));
        lemma_backing_columns_breach(fields.drop_last(), database, table, k);
    }
}

/// The backing fields have columns exactly when each of them is of a
/// supported type, and then each column is the column of its field.
pub proof fn lemma_backing_columns(
    fields: Seq<ScalarField>,
    database: Seq<char>,
    table: Seq<char>,
)
    ensures
        backing_columns(fields, database, table) is Ok <==> forall|i: int|
            0 <= i < fields.len() ==> (#[trigger] fields[i]).type_identifier.is_supported(),
        backing_columns(fields, database, table) matches Err(e) ==> e == (ErrorView::LogicFatal {
            violation: Violation::UnsupportedType,
        }),
        backing_columns(fields, database, table) matches Ok(cols) ==> cols.len() == fields.len()
            && forall|i: int|
            0 <= i < cols.len() ==> fields[i].column_in(database, table) == Ok::<
                ColumnView,
                ErrorView,
            >(#[trigger] cols[i]),
    decreases fields.len(),
{
    if fields.len() > 0 {
        let t = fields.drop_last();
        lemma_backing_columns(t, database, table);
        assert forall|i: int| 0 <= i < t.len() implies t[i] == fields[i] by {}
        if backing_columns(t, database, table) is Err {
            let i = choose|i: int|
                0 <= i < t.len() && !(#[trigger] t[i]).type_identifier.is_supported();
            assert(!fields[i].type_identifier.is_supported());
        } else if fields.last().column_in(database, table) is Err {
            assert(!fields[fields.len() - 1].type_identifier.is_supported());
        }
    }
}

impl RelationField {
    /// The table that holds the columns behind the relation: the relation
    /// table of a many-to-many relation, the model's own table otherwise.
    pub open spec fn table(&self) -> Result<Seq<char>, ErrorView> {
        if self.relation.many_to_many() {
            match self.relation.manifestation {
                RelationLinkManifestation::RelationTable(rt) => Ok(rt.table@),
                RelationLinkManifestation::Inline(_) => Err(
                    ErrorView::LogicFatal { violation: Violation::MissingRelationTable },
                ),
            }
        } else {
            Ok(self.model.db_name@)
        }
    }

    /// Resolves the table that holds the columns behind the relation.
    pub fn table_name(&self) -> (r: Result<String, Error>)
        ensures
            match r {
                Ok(t) => self.table() == Ok::<Seq<char>, ErrorView>(t@),
                Err(e) => self.table() == Err::<Seq<char>, ErrorView>(e@),
            },
    {
        if self.relation.is_many_to_many() {
            match &self.relation.manifestation {
                RelationLinkManifestation::RelationTable(rt) => Ok(rt.table.clone()),
                RelationLinkManifestation::Inline(_) => Err(
                    Error::LogicFatal { violation: Violation::MissingRelationTable },
                ),
            }
        } else {
            Ok(self.model.db_name.clone())
        }
    }
}

impl AsColumns for RelationField {
    /// The columns of the backing fields in the table that the relation
    /// resolves to, each with the family and the default of its field. A
    /// missing relation table comes before any breach of a backing field.
    open spec fn columns(&self) -> Result<Seq<ColumnView>, ErrorView> {
        match self.table() {
            Ok(table) => backing_columns(self.fields@, self.model.database@, table),
            Err(e) => Err(e),
        }
    }

    fn as_columns(&self) -> (r: Result<ColumnIterator, Error>) {
        let table_name = match self.table_name() {
            Ok(t) => t,
            Err(e) => { return Err(e); },
        };
        let ghost database = self.model.database@;
        let mut inner: Vec<Column> = Vec::new();
        let mut i: usize = 0;
        assert(self.fields@.take(0) =~= Seq::<ScalarField>::empty());
        assert(columns_view(inner@) =~= Seq::<ColumnView>::empty());
        while i < self.fields.len()
            invariant
                i <= self.fields.len(),
                database == self.model.database@,
                self.table() == Ok::<Seq<char>, ErrorView>(table_name@),
                backing_columns(self.fields@.take(i as int), database, table_name@) == Ok::<
                    Seq<ColumnView>,
                    ErrorView,
                >(columns_view(inner@)),
            decreases self.fields.len() - i,
        {
            let ghost before = columns_view(inner@);
            assert(self.fields@.take(i + 1).drop_last() =~= self.fields@.take(i as int));
            assert(self.fields@.take(i + 1).last() == self.fields@[i as int]);
            match self.fields[i].as_column_in(self.model.database.as_str(), table_name.as_str()) {
                Ok(c) => {
                    inner.push(c);
                    assert(columns_view(inner@) =~= before.push(c@));
                },
                Err(e) => {
                    proof {
                        assert(backing_columns(self.fields@.take(i + 1), database, table_name@)
                            == Err::<Seq<ColumnView>, ErrorView>(e@));
                        lemma_backing_columns_breach(
                            self.fields@,
                            database,
                            table_name@,
                            i + 1,
                        );
                    }
                    return Err(e);
                },
            }
            i += 1;
        }
        assert(self.fields@.take(self.fields.len() as int) =~= self.fields@);
        Ok(ColumnIterator::from(inner))
    }
}

impl AsColumns for Field {
    open spec fn columns(&self) -> Result<Seq<ColumnView>, ErrorView> {
        match self {
            Field::Scalar(sf) => match sf.column() {
                Ok(c) => Ok(seq![c]),
                Err(e) => Err(e),
            },
            Field::Relation(rf) => rf.columns(),
        }
    }

    fn as_columns(&self) -> (r: Result<ColumnIterator, Error>) {
        match self {
            Field::Scalar(sf) => {
                let c = match sf.as_column() {
                    Ok(c) => c,
                    Err(e) => { return Err(e); },
                };
                let mut inner: Vec<Column> = Vec::new();
                inner.push(c);
                assert(columns_view(inner@) =~= seq![c@]);
                Ok(ColumnIterator::from(inner))
            },
            Field::Relation(rf) => rf.as_columns(),
        }
    }
}

/// The columns of all `fields`, one field after the other, with nothing
/// removed; the breach of the first field that has one, if any has.
pub open spec fn all_columns(fields: Seq<Field>) -> Result<Seq<ColumnView>, ErrorView>
    decreases fields.len(),
{
    if fields.len() == 0 {
        Ok(Seq::empty())
    } else {
        match all_columns(fields.drop_last()) {
            Ok(before) => match fields.last().columns() {
                Ok(own) => Ok(before + own),
                Err(e) => Err(e),
            },
            Err(e) => Err(e),
        }
    }
}

/// The columns of all `fields` with the first column of each fully-qualified
/// name kept.
pub open spec fn unique_columns_of(fields: Seq<Field>) -> Result<Seq<ColumnView>, ErrorView> {
    match all_columns(fields) {
        Ok(all) => Ok(unique_by_name(all)),
        Err(e) => Err(e),
    }
}

/// A breach among the first `k` fields is the breach of the whole list.
pub proof fn lemma_all_columns_breach(fields: Seq<Field>, k: int)
    requires
        0 <= k <= fields.len(),
        all_columns(fields.take(k)) is Err,
    ensures
        all_columns(fields) == all_columns(fields.take(k)),
    decreases fields.len(),
{
    if k == fields.len() {
        assert(fields.take(k) =~= fields);
    } else {
        assert(fields.drop_last().take(k) =~= fields.take(k));
        lemma_all_columns_breach(fields.drop_last(), k);
    }
}

/// Projection succeeds exactly when every field projects.
pub proof fn lemma_all_columns_ok(fields: Seq<Field>)
    ensures
        all_columns(fields) is Ok <==> forall|i: int|
            0 <= i < fields.len() ==> (#[trigger] fields[i]).columns() is Ok,
    decreases fields.len(),
{
    if fields.len() > 0 {
        let t = fields.drop_last();
        lemma_all_columns_ok(t);
        if all_columns(fields) is Ok {
            assert forall|i: int| 0 <= i < fields.len() implies (#[trigger] fields[i]).columns() is Ok by {
                if i < t.len() {
                    assert(t[i] == fields[i]);
                }
            }
        }
    }
}

/// Projects `fields` one after the other and keeps every column.
pub fn collect_columns(fields: &[Field]) -> (r: Result<Vec<Column>, Error>)
    ensures
        match r {
            Ok(v) => all_columns(fields@) == Ok::<Seq<ColumnView>, ErrorView>(columns_view(v@)),
            Err(e) => all_columns(fields@) == Err::<Seq<ColumnView>, ErrorView>(e@),
        },
{
    let mut acc: Vec<Column> = Vec::new();
    let mut i: usize = 0;
    assert(columns_view(acc@) =~= Seq::<ColumnView>::empty());
    while i < fields.len()
        invariant
            i <= fields.len(),
            all_columns(fields@.take(i as int)) == Ok::<Seq<ColumnView>, ErrorView>(
                columns_view(acc@),
            ),
        decreases fields.len() - i,
    {
        let ghost before = columns_view(acc@);
        assert(fields@.take(i + 1).drop_last() =~= fields@.take(i as int));
        match fields[i].as_columns() {
            Ok(it) => {
                let mut own = it.collect();
                let ghost own_view = columns_view(own@);
                acc.append(&mut own);
                assert(columns_view(acc@) =~= before + own_view);
            },
            Err(e) => {
                proof {
                    lemma_all_columns_breach(fields@, i + 1);
                }
                return Err(e);
            },
        }
        i += 1;
    }
    assert(fields@.take(fields.len() as int) =~= fields@);
    Ok(acc)
}

impl AsColumns for &[Field] {
    open spec fn columns(&self) -> Result<Seq<ColumnView>, ErrorView> {
        unique_columns_of(self@)
    }

    fn as_columns(&self) -> (r: Result<ColumnIterator, Error>) {
        match collect_columns(self) {
            Ok(all) => Ok(ColumnIterator::from(unique_columns(all))),
            Err(e) => Err(e),
        }
    }
}

impl AsColumns for ModelProjection {
    open spec fn columns(&self) -> Result<Seq<ColumnView>, ErrorView> {
        unique_columns_of(self.fields@)
    }

    fn as_columns(&self) -> (r: Result<ColumnIterator, Error>) {
        match collect_columns(self.fields.as_slice()) {
            Ok(all) => Ok(ColumnIterator::from(unique_columns(all))),
            Err(e) => Err(e),
        }
    }
}

impl AsRow for ModelProjection {
    open spec fn row(&self) -> Result<Seq<ColumnView>, ErrorView> {
        all_columns(self.fields@)
    }

    fn as_row(&self) -> (r: Result<Row, Error>) {
        match collect_columns(self.fields.as_slice()) {
            Ok(all) => Ok(Row::from(all)),
            Err(e) => Err(e),
        }
    }
}

/// The columns of `items`, one for each, in order; the breach of the first
/// item that has one, if any has.
pub open spec fn each_column<T: AsColumn>(items: Seq<T>) -> Result<Seq<ColumnView>, ErrorView>
    decreases items.len(),
{
    if items.len() == 0 {
        Ok(Seq::empty())
    } else {
        match each_column(items.drop_last()) {
            Ok(before) => match items.last().column() {
                Ok(own) => Ok(before.push(own)),
                Err(e) => Err(e),
            },
            Err(e) => Err(e),
        }
    }
}

/// A breach among the first `k` items is the breach of the whole list.
pub proof fn lemma_each_column_breach<T: AsColumn>(items: Seq<T>, k: int)
    requires
        0 <= k <= items.len(),
        each_column(items.take(k)) is Err,
    ensures
        each_column(items) == each_column(items.take(k)),
    decreases items.len(),
{
    if k == items.len() {
        assert(items.take(k) =~= items);
    } else {
        assert(items.drop_last().take(k) =~= items.take(k));
        lemma_each_column_breach(items.drop_last(), k);
    }
}

/// Projects every item onto its column.
pub fn collect_each<T: AsColumn>(items: &[T]) -> (r: Result<Vec<Column>, Error>)
    ensures
        match r {
            Ok(v) => each_column(items@) == Ok::<Seq<ColumnView>, ErrorView>(columns_view(v@)),
            Err(e) => each_column(items@) == Err::<Seq<ColumnView>, ErrorView>(e@),
        },
{
    let mut acc: Vec<Column> = Vec::new();
    let mut i: usize = 0;
    assert(columns_view(acc@) =~= Seq::<ColumnView>::empty());
    while i < items.len()
        invariant
            i <= items.len(),
            each_column(items@.take(i as int)) == Ok::<Seq<ColumnView>, ErrorView>(
                columns_view(acc@),
            ),
        decreases items.len() - i,
    {
        let ghost before = columns_view(acc@);
        assert(items@.take(i + 1).drop_last() =~= items@.take(i as int));
        match items[i].as_column() {
            Ok(c) => {
                acc.push(c);
                assert(columns_view(acc@) =~= before.push(c@));
            },
            Err(e) => {
                proof {
                    lemma_each_column_breach(items@, i + 1);
                }
                return Err(e);
            },
        }
        i += 1;
    }
    assert(items@.take(items.len() as int) =~= items@);
    Ok(acc)
}

impl<T: AsColumn> AsColumns for &[T] {
    open spec fn columns(&self) -> Result<Seq<ColumnView>, ErrorView> {
        each_column(self@)
    }

    fn as_columns(&self) -> (r: Result<ColumnIterator, Error>) {
        match collect_each(self) {
            Ok(all) => Ok(ColumnIterator::from(all)),
            Err(e) => Err(e),
        }
    }
}

impl<T: AsColumn> AsColumns for Vec<T> {
    open spec fn columns(&self) -> Result<Seq<ColumnView>, ErrorView> {
        each_column(self@)
    }

    fn as_columns(&self) -> (r: Result<ColumnIterator, Error>) {
        match collect_each(self.as_slice()) {
            Ok(all) => Ok(ColumnIterator::from(all)),
            Err(e) => Err(e),
        }
    }
}

/// The columns of a projection hold every fully-qualified name of its row
/// exactly once, and stand in the order in which the names first occur in
/// the row: they are the columns of the row at the first occurrences.
pub proof fn lemma_projection_columns(p: ModelProjection)
    ensures
        p.columns() is Ok <==> p.row() is Ok,
        p.columns() matches Ok(cols) ==> {
            let all = p.row()->Ok_0;
            let pos = first_positions(all);
            &&& cols.len() == pos.len()
            &&& cols.len() <= all.len()
            &&& forall|k: int|
                0 <= k < cols.len() ==> 0 <= pos[k] < all.len() && #[trigger] cols[k] == all[pos[k]]
                    && is_first_occurrence(all, pos[k])
            &&& forall|k: int, l: int|
                0 <= k < l < cols.len() ==> #[trigger] pos[k] < #[trigger] pos[l]
            &&& forall|k: int, l: int|
                #![trigger cols[k], cols[l]]
                0 <= k < l < cols.len() ==> cols[k].qualified_name() != cols[l].qualified_name()
            &&& forall|i: int| 0 <= i < all.len() ==> contains_name(cols, #[trigger] all[i])
        },
{
    if p.row() is Ok {
        let all = p.row()->Ok_0;
        lemma_unique_by_name(all);
        lemma_unique_is_first_occurrences(all);
        lemma_first_positions(all);
    }
}

/// A many-to-many relation resolves to its relation table and to nothing
/// else; a relation of another kind resolves to the table of the model that
/// owns the field, whatever its manifestation. The columns behind a relation
/// field are those of its backing fields in that table, each with the family
/// of its field's type and with its field's default; there are none where a
/// backing field is of an unsupported type.
pub proof fn lemma_relation_columns(rf: RelationField)
    ensures
        rf.relation.many_to_many() ==> match rf.relation.manifestation {
            RelationLinkManifestation::RelationTable(rt) => rf.table() == Ok::<
                Seq<char>,
                ErrorView,
            >(rt.table@),
            RelationLinkManifestation::Inline(_) => rf.columns() == Err::<
                Seq<ColumnView>,
                ErrorView,
            >(ErrorView::LogicFatal { violation: Violation::MissingRelationTable }),
        },
        !rf.relation.many_to_many() ==> rf.table() == Ok::<Seq<char>, ErrorView>(
            rf.model.db_name@,
        ),
        rf.columns() is Ok <==> rf.table() is Ok && forall|i: int|
            0 <= i < rf.fields@.len() ==> (#[trigger] rf.fields@[i]).type_identifier.is_supported(),
        rf.columns() matches Ok(cols) ==> cols.len() == rf.fields@.len() && forall|i: int|
            0 <= i < cols.len() ==> {
                &&& (#[trigger] cols[i]).table == rf.table()->Ok_0
                &&& cols[i].database == rf.model.database@
                &&& cols[i].name == rf.fields@[i].db_name@
                &&& cols[i].type_family == rf.fields@[i].type_identifier.family()
                &&& cols[i].type_family is Some
                &&& cols[i].default == Some(column_default(rf.fields@[i].default_value))
            },
{
    if rf.table() is Ok {
        lemma_backing_columns(rf.fields@, rf.model.database@, rf.table()->Ok_0);
    }
}

/// Every column that a field projects onto carries a family and a default.
pub proof fn lemma_columns_are_typed(field: Field)
    ensures
        field.columns() matches Ok(cols) ==> forall|i: int|
            0 <= i < cols.len() ==> (#[trigger] cols[i]).type_family is Some && cols[i].default
                is Some,
{
    match field {
        Field::Scalar(sf) => {},
        Field::Relation(rf) => {
            lemma_relation_columns(rf);
        },
    }
}

/// A scalar field projects onto one column of its model's table exactly when
/// its type is supported, and the column then carries the family of the type.
pub proof fn lemma_scalar_column(sf: ScalarField)
    ensures
        sf.column() is Ok <==> sf.type_identifier.is_supported(),
        sf.column() matches Ok(c) ==> c.type_family == sf.type_identifier.family()
            && c.qualified_name() == (sf.model.database@, sf.model.db_name@, sf.db_name@),
        sf.column() matches Err(e) ==> e == (ErrorView::LogicFatal {
            violation: Violation::UnsupportedType,
        }),
{
}

} // verus!
