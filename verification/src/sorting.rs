//! Stable ordering of columns by name.

use crate::seqs::{first_index, lemma_first_index, lemma_first_index_unique};
use crate::sql_schema::{Column, ColumnView};
use crate::text::{lemma_bytes_le_total, lemma_bytes_le_transitive, str_le, text_le};
use vstd::prelude::*;
use vstd::utf8::encode_utf8;

verus! {

/// Whether the names of the columns ascend.
pub open spec fn is_sorted(s: Seq<ColumnView>) -> bool {
    forall|i: int, j: int| 0 <= i <= j < s.len() ==> text_le(s[i].name, s[j].name)
}

/// Where a column called `name` goes in `s`: before the first column whose
/// name comes after it, or at the end.
pub open spec fn insertion_point(s: Seq<ColumnView>, name: Seq<char>) -> int {
    first_index(s.len() as int, |i: int| !text_le(s[i].name, name))
}

/// `s` with `c` put in behind the columns whose names do not come after its
/// own.
pub open spec fn insert_sorted(s: Seq<ColumnView>, c: ColumnView) -> Seq<ColumnView> {
    s.insert(insertion_point(s, c.name), c)
}

/// The columns in ascending order of their names; columns of one name keep
/// their order.
pub open spec fn sort_columns(s: Seq<ColumnView>) -> Seq<ColumnView>
    decreases s.len(),
{
    if s.len() == 0 {
        Seq::empty()
    } else {
        insert_sorted(sort_columns(s.drop_last()), s.last())
    }
}

/// Putting a column into ascending columns leaves them ascending.
pub proof fn lemma_insert_sorted(s: Seq<ColumnView>, c: ColumnView)
    requires
        is_sorted(s),
    ensures
        is_sorted(insert_sorted(s, c)),
        insert_sorted(s, c).len() == s.len() + 1,
{
    let p = |i: int| !text_le(s[i].name, c.name);
    lemma_first_index(s.len() as int, p);
    let k = insertion_point(s, c.name);
    let r = insert_sorted(s, c);
    assert forall|i: int, j: int| 0 <= i <= j < r.len() implies text_le(r[i].name, r[j].name) by {
        if i == j {
            lemma_bytes_le_total(encode_utf8(r[i].name), encode_utf8(r[i].name));
        } else if j == k {
            assert(!p(i));
        } else if j > k && i == k {
            lemma_bytes_le_total(encode_utf8(s[k].name), encode_utf8(c.name));
            assert(text_le(s[k].name, s[j - 1].name));
            lemma_bytes_le_transitive(
                encode_utf8(c.name),
                encode_utf8(s[k].name),
                encode_utf8(s[j - 1].name),
            );
        }
    }
}

/// Sorted columns ascend by name, and there are as many as before.
pub proof fn lemma_sort_columns_sorted(s: Seq<ColumnView>)
    ensures
        is_sorted(sort_columns(s)),
        sort_columns(s).len() == s.len(),
    decreases s.len(),
{
    if s.len() > 0 {
        lemma_sort_columns_sorted(s.drop_last());
        lemma_insert_sorted(sort_columns(s.drop_last()), s.last());
    }
}

/// Sorting keeps the columns: each occurs as often as before.
pub proof fn lemma_sort_columns_permutes(s: Seq<ColumnView>)
    ensures
        sort_columns(s).to_multiset() == s.to_multiset(),
    decreases s.len(),
{
    broadcast use vstd::seq_lib::group_to_multiset_ensures;

    if s.len() > 0 {
        let rest = sort_columns(s.drop_last());
        lemma_sort_columns_permutes(s.drop_last());
        lemma_sort_columns_sorted(s.drop_last());
        let p = |i: int| !text_le(rest[i].name, s.last().name);
        lemma_first_index(rest.len() as int, p);
        let k = insertion_point(rest, s.last().name);
        vstd::seq_lib::to_multiset_insert(rest, k, s.last());
        assert(s.drop_last().push(s.last()) == s);
    }
}

/// Puts the columns in ascending order of their names; columns of one name
/// keep their order.
pub fn sort_by_name(columns: Vec<Column>) -> (r: Vec<Column>)
    ensures
        r.deep_view() == sort_columns(columns.deep_view()),
{
    let ghost all = columns.deep_view();
    let mut rest = columns;
    let mut out: Vec<Column> = Vec::new();
    let ghost mut done: int = 0;
    assert(rest.deep_view() =~= all.skip(0));
    while rest.len() > 0
        invariant
            0 <= done <= all.len(),
            rest.deep_view() == all.skip(done),
            out.deep_view() == sort_columns(all.take(done)),
        decreases rest@.len(),
    {
        let ghost rest_before = rest.deep_view();
        let ghost raw_before = rest@;
        assert(rest_before.len() == raw_before.len());
        let c = rest.remove(0);
        proof {
            assert(rest_before[0] == raw_before[0].deep_view());
            assert forall|i: int| 0 <= i < rest@.len() implies #[trigger] rest.deep_view()[i]
                == all.skip(done + 1)[i] by {
                assert(rest_before[i + 1] == raw_before[i + 1].deep_view());
            }
        }
        let ghost sorted = out.deep_view();
        let ghost p = |i: int| !text_le(sorted[i].name, c.name@);
        let mut k: usize = 0;
        while k < out.len() && str_le(out[k].name.as_str(), c.name.as_str())
            invariant
                0 <= k <= out@.len(),
                sorted == out.deep_view(),
                p == (|i: int| !text_le(sorted[i].name, c.name@)),
                forall|j: int| 0 <= j < k ==> !#[trigger] p(j),
            decreases out@.len() - k,
        {
            k = k + 1;
        }
        proof {
            lemma_first_index_unique(sorted.len() as int, p, k as int);
        }
        out.insert(k, c);
        proof {
            assert(all.take(done + 1).drop_last() =~= all.take(done));
            done = done + 1;
        }
    }
    out
}

} // verus!
