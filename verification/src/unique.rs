//! Keeping the first column of every fully-qualified name.

use vstd::prelude::*;
use crate::column::{columns_view, Column, ColumnView};

verus! {

/// Whether some column of `s` carries the fully-qualified name of `c`.
pub open spec fn contains_name(s: Seq<ColumnView>, c: ColumnView) -> bool {
    exists|j: int| #![trigger s[j]] 0 <= j < s.len() && s[j].qualified_name() == c.qualified_name()
}

/// The columns of `s` without those whose fully-qualified name occurred
/// earlier in `s`.
pub open spec fn unique_by_name(s: Seq<ColumnView>) -> Seq<ColumnView>
    decreases s.len(),
{
    if s.len() == 0 {
        Seq::empty()
    } else {
        let rest = unique_by_name(s.drop_last());
        if contains_name(rest, s.last()) {
            rest
        } else {
            rest.push(s.last())
        }
    }
}

/// Whether no column before position `i` carries the name of `s[i]`.
pub open spec fn is_first_occurrence(s: Seq<ColumnView>, i: int) -> bool {
    forall|j: int| #![trigger s[j]] 0 <= j < i ==> s[j].qualified_name() != s[i].qualified_name()
}

/// The positions of `s` at which a fully-qualified name occurs for the first
/// time, in rising order.
pub open spec fn first_positions(s: Seq<ColumnView>) -> Seq<int>
    decreases s.len(),
{
    if s.len() == 0 {
        Seq::empty()
    } else {
        let rest = first_positions(s.drop_last());
        if is_first_occurrence(s, s.len() - 1) {
            rest.push(s.len() - 1)
        } else {
            rest
        }
    }
}

/// What `first_positions` holds: exactly the first occurrences, each once, in
/// rising order.
pub proof fn lemma_first_positions(s: Seq<ColumnView>)
    ensures
        forall|k: int|
            0 <= k < first_positions(s).len() ==> 0 <= #[trigger] first_positions(s)[k] < s.len()
                && is_first_occurrence(s, first_positions(s)[k]),
        forall|k: int, l: int|
            0 <= k < l < first_positions(s).len() ==> #[trigger] first_positions(s)[k]
                < #[trigger] first_positions(s)[l],
        forall|i: int|
            0 <= i < s.len() && is_first_occurrence(s, i) ==> #[trigger] first_positions(
                s,
            ).contains(i),
    decreases s.len(),
{
    if s.len() > 0 {
        let t = s.drop_last();
        let rest = first_positions(t);
        let pos = first_positions(s);
        lemma_first_positions(t);
        assert forall|k: int| 0 <= k < rest.len() implies is_first_occurrence(s, rest[k]) by {
            let i = rest[k];
            assert forall|j: int| 0 <= j < i implies #[trigger] s[j].qualified_name()
                != s[i].qualified_name() by {
                assert(t[j] == s[j]);
            }
        }
        assert forall|i: int| 0 <= i < s.len() && is_first_occurrence(s, i) implies pos.contains(
            i,
        ) by {
            if i < t.len() {
                assert(rest.contains(i));
                let k = choose|k: int| 0 <= k < rest.len() && rest[k] == i;
                assert(pos[k] == i);
            } else {
                assert(pos[pos.len() - 1] == i);
            }
        }
    }
}

/// A name occurs in `s` exactly if it occurs at a first occurrence.
proof fn lemma_name_has_first_occurrence(s: Seq<ColumnView>, c: ColumnView)
    requires
        contains_name(s, c),
    ensures
        exists|i: int|
            #![trigger s[i]]
            0 <= i < s.len() && s[i].qualified_name() == c.qualified_name() && is_first_occurrence(
                s,
                i,
            ),
    decreases s.len(),
{
    let j = choose|j: int| #![trigger s[j]] 0 <= j < s.len() && s[j].qualified_name() == c.qualified_name();
    let t = s.drop_last();
    if exists|i: int| #![trigger t[i]] 0 <= i < t.len() && t[i].qualified_name() == c.qualified_name() {
        lemma_name_has_first_occurrence(t, c);
        let i = choose|i: int|
            #![trigger t[i]]
            0 <= i < t.len() && t[i].qualified_name() == c.qualified_name() && is_first_occurrence(
                t,
                i,
            );
        assert forall|k: int| 0 <= k < i implies #[trigger] s[k].qualified_name()
            != s[i].qualified_name() by {
            assert(t[k] == s[k]);
        }
    } else {
        assert(j == s.len() - 1) by {
            if j < s.len() - 1 {
                assert(t[j] == s[j]);
            }
        }
        assert forall|k: int| 0 <= k < j implies #[trigger] s[k].qualified_name()
            != s[j].qualified_name() by {
            assert(t[k] == s[k]);
        }
    }
}

/// The columns that `unique_by_name` keeps are those at the first occurrences.
pub proof fn lemma_unique_is_first_occurrences(s: Seq<ColumnView>)
    ensures
        unique_by_name(s).len() == first_positions(s).len(),
        forall|k: int|
            0 <= k < first_positions(s).len() ==> 0 <= first_positions(s)[k] < s.len()
                && #[trigger] unique_by_name(s)[k] == s[first_positions(s)[k]],
    decreases s.len(),
{
    if s.len() > 0 {
        let t = s.drop_last();
        let rest = unique_by_name(t);
        let last = s.last();
        lemma_unique_is_first_occurrences(t);
        lemma_first_positions(t);
        lemma_first_positions(s);
        if contains_name(rest, last) {
            let j = choose|j: int| #![trigger rest[j]] 0 <= j < rest.len() && rest[j].qualified_name() == last.qualified_name();
            let i = first_positions(t)[j];
            assert(s[i].qualified_name() == last.qualified_name());
        } else {
            if !is_first_occurrence(s, s.len() - 1) {
                let j = choose|j: int| #![trigger s[j]] 0 <= j < s.len() - 1 && s[j].qualified_name() == s[s.len() - 1].qualified_name();
                assert(t[j] == s[j]);
                lemma_name_has_first_occurrence(t, last);
                let i = choose|i: int|
                    #![trigger t[i]]
                    0 <= i < t.len() && t[i].qualified_name() == last.qualified_name()
                        && is_first_occurrence(t, i);
                assert(first_positions(t).contains(i));
                let k = choose|k: int| 0 <= k < first_positions(t).len() && first_positions(t)[k] == i;
                assert(rest[k] == t[i]);
            }
        }
    }
}

/// Every fully-qualified name of the input occurs in the output exactly once,
/// and the output keeps the order in which the names first occur.
pub proof fn lemma_unique_by_name(s: Seq<ColumnView>)
    ensures
        forall|k: int, l: int|
            #![trigger unique_by_name(s)[k], unique_by_name(s)[l]]
            0 <= k < l < unique_by_name(s).len() ==> unique_by_name(s)[k].qualified_name()
                != unique_by_name(s)[l].qualified_name(),
        forall|i: int| 0 <= i < s.len() ==> contains_name(unique_by_name(s), #[trigger] s[i]),
        forall|k: int|
            #![trigger unique_by_name(s)[k]]
            0 <= k < unique_by_name(s).len() ==> contains_name(s, unique_by_name(s)[k]),
        unique_by_name(s).len() <= s.len(),
{
    let out = unique_by_name(s);
    let pos = first_positions(s);
    lemma_unique_is_first_occurrences(s);
    lemma_first_positions(s);
    assert forall|i: int| 0 <= i < s.len() implies contains_name(out, #[trigger] s[i]) by {
        lemma_name_has_first_occurrence(s, s[i]);
        let f = choose|f: int|
            #![trigger s[f]]
            0 <= f < s.len() && s[f].qualified_name() == s[i].qualified_name()
                && is_first_occurrence(s, f);
        assert(pos.contains(f));
        let k = choose|k: int| 0 <= k < pos.len() && pos[k] == f;
        assert(out[k] == s[f]);
    }
    lemma_unique_len(s);
}

/// Removing repeated names never adds a column.
proof fn lemma_unique_len(s: Seq<ColumnView>)
    ensures
        unique_by_name(s).len() <= s.len(),
    decreases s.len(),
{
    if s.len() > 0 {
        lemma_unique_len(s.drop_last());
    }
}

/// Whether `columns` holds a column with the fully-qualified name of `c`.
pub fn has_name(columns: &Vec<Column>, c: &Column) -> (r: bool)
    ensures
        r == contains_name(columns_view(columns@), c@),
{
    let ghost s = columns_view(columns@);
    let mut i: usize = 0;
    while i < columns.len()
        invariant
            i <= columns.len(),
            s == columns_view(columns@),
            forall|j: int| #![trigger s[j]] 0 <= j < i ==> s[j].qualified_name() != c@.qualified_name(),
        decreases columns.len() - i,
    {
        if columns[i].same_name(c) {
            assert(s[i as int] == columns@[i as int]@);
            return true;
        }
        i += 1;
    }
    false
}

/// Keeps, in order, the first column of every fully-qualified name.
pub fn unique_columns(all: Vec<Column>) -> (out: Vec<Column>)
    ensures
        columns_view(out@) == unique_by_name(columns_view(all@)),
{
    let ghost s = columns_view(all@);
    let mut out: Vec<Column> = Vec::new();
    let mut i: usize = 0;
    while i < all.len()
        invariant
            i <= all.len(),
            s == columns_view(all@),
            columns_view(out@) == unique_by_name(s.take(i as int)),
        decreases all.len() - i,
    {
        assert(s.take(i + 1).drop_last() =~= s.take(i as int));
        if !has_name(&out, &all[i]) {
            out.push(all[i].clone());
        }
        i += 1;
    }
    assert(s.take(all.len() as int) =~= s);
    out
}

} // verus!
