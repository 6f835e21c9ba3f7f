//! Physical columns and the projection of fields onto them.

use vstd::prelude::*;
use crate::model::{DefaultValue, DefaultValueView};
use crate::types::TypeFamily;

verus! {

/// A reference to one column of one table.
#[derive(Debug, PartialEq, Eq)]
pub struct Column {
    pub database: String,
    pub table: String,
    pub name: String,
    /// How values of the column are encoded; unknown for a bare reference.
    pub type_family: Option<TypeFamily>,
    /// What the column holds when no value is given; unknown for a bare
    /// reference.
    pub default: Option<DefaultValue>,
}

/// The mathematical content of a [`Column`].
pub struct ColumnView {
    pub database: Seq<char>,
    pub table: Seq<char>,
    pub name: Seq<char>,
    pub type_family: Option<TypeFamily>,
    pub default: Option<DefaultValueView>,
}

impl ColumnView {
    /// The fully-qualified name: database, table and column.
    pub open spec fn qualified_name(self) -> (Seq<char>, Seq<char>, Seq<char>) {
        (self.database, self.table, self.name)
    }
}

impl View for Column {
    type V = ColumnView;

    open spec fn view(&self) -> ColumnView {
        ColumnView {
            database: self.database@,
            table: self.table@,
            name: self.name@,
            type_family: self.type_family,
            default: match self.default {
                Some(d) => Some(d@),
                None => None,
            },
        }
    }
}

impl Clone for Column {
    fn clone(&self) -> (r: Self)
        ensures
            r@ == self@,
    {
        Column {
            database: self.database.clone(),
            table: self.table.clone(),
            name: self.name.clone(),
            type_family: self.type_family,
            default: match &self.default {
                Some(d) => Some(d.clone()),
                None => None,
            },
        }
    }
}

impl Column {
    /// Whether two columns carry the same fully-qualified name.
    pub fn same_name(&self, other: &Column) -> (r: bool)
        ensures
            r == (self@.qualified_name() == other@.qualified_name()),
    {
        self.database == other.database && self.table == other.table && self.name == other.name
    }
}

/// The contents of a sequence of columns.
pub open spec fn columns_view(s: Seq<Column>) -> Seq<ColumnView> {
    s.map_values(|c: Column| c@)
}

/// An ordered list of columns for positional binding.
#[derive(Debug, PartialEq, Eq)]
pub struct Row {
    pub values: Vec<Column>,
}

impl View for Row {
    type V = Seq<ColumnView>;

    open spec fn view(&self) -> Seq<ColumnView> {
        columns_view(self.values@)
    }
}

impl From<Vec<Column>> for Row {
    fn from(values: Vec<Column>) -> (r: Self)
        ensures
            r.values == values,
    {
        Row { values }
    }
}

impl vstd::std_specs::convert::FromSpecImpl<Vec<Column>> for Row {
    open spec fn obeys_from_spec() -> bool {
        true
    }

    open spec fn from_spec(values: Vec<Column>) -> Self {
        Row { values }
    }
}

/// Columns that are handed out one by one, with the number that was announced
/// when the iterator was made.
#[derive(Debug)]
pub struct ColumnIterator {
    count: usize,
    inner: Vec<Column>,
}

impl ColumnIterator {
    /// The number of columns that was announced; it does not change as
    /// columns are taken.
    pub closed spec fn count(&self) -> usize {
        self.count
    }

    /// The columns that have not been taken yet.
    pub closed spec fn remaining(&self) -> Seq<Column> {
        self.inner@
    }

    /// An iterator over `inner` that announces `count` columns.
    pub fn new(inner: Vec<Column>, count: usize) -> (r: Self)
        ensures
            r.count() == count,
            r.remaining() == inner@,
    {
        ColumnIterator { count, inner }
    }

    pub fn len(&self) -> (r: usize)
        ensures
            r == self.count(),
    {
        self.count
    }

    pub fn is_empty(&self) -> (r: bool)
        ensures
            r == (self.count() == 0),
    {
        self.count == 0
    }

    /// Takes the next column, if one is left.
    pub fn next(&mut self) -> (r: Option<Column>)
        ensures
            final(self).count() == old(self).count(),
            old(self).remaining().len() == 0 ==> r is None,
            old(self).remaining().len() == 0 ==> final(self).remaining() == old(self).remaining(),
            old(self).remaining().len() > 0 ==> r == Some(old(self).remaining()[0]),
            old(self).remaining().len() > 0 ==> final(self).remaining() == old(self).remaining().drop_first(),
    {
        if self.inner.len() == 0 {
            None
        } else {
            let c = self.inner.remove(0);
            Some(c)
        }
    }

    /// All columns that are left, in order.
    pub fn collect(self) -> (r: Vec<Column>)
        ensures
            r@ == self.remaining(),
    {
        self.inner
    }
}

impl From<Vec<Column>> for ColumnIterator {
    fn from(v: Vec<Column>) -> (r: Self)
        ensures
            r.count() == v@.len(),
            r.remaining() == v@,
    {
        let count = v.len();
        ColumnIterator { count, inner: v }
    }
}

impl vstd::std_specs::convert::FromSpecImpl<Vec<Column>> for ColumnIterator {
    open spec fn obeys_from_spec() -> bool {
        true
    }

    closed spec fn from_spec(v: Vec<Column>) -> Self {
        ColumnIterator { count: v@.len() as usize, inner: v }
    }
}

} // verus!
