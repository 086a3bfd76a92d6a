//! Tables of records: rows carry an identifier of their own and are kept
//! in ascending order of it, so that an identifier names at most one row.

use vstd::prelude::*;
use vstd::seq_lib::*;

verus! {

/// A record with an identifier.
pub trait Row: Sized {
    /// The identifier of the row.
    spec fn row_id(&self) -> i64;

    /// The identifier of the row.
    fn id(&self) -> (id: i64)
        ensures
            id == self.row_id(),
    ;
}

/// Identifiers are positive and strictly increase along the table.
pub open spec fn keyed<T: Row>(rows: Seq<T>) -> bool {
    &&& forall|i: int| 0 <= i < rows.len() ==> (#[trigger] rows[i]).row_id() > 0
    &&& forall|i: int, j: int|
        0 <= i < j < rows.len() ==> (#[trigger] rows[i]).row_id() < (#[trigger] rows[j]).row_id()
}

/// Some row of the table has identifier `id`.
pub open spec fn has_id<T: Row>(rows: Seq<T>, id: i64) -> bool {
    exists|i: int| 0 <= i < rows.len() && (#[trigger] rows[i]).row_id() == id
}

/// The position of the row with identifier `id`; meaningful when there is one.
pub open spec fn index_of<T: Row>(rows: Seq<T>, id: i64) -> int {
    choose|i: int| 0 <= i < rows.len() && (#[trigger] rows[i]).row_id() == id
}

/// The row with identifier `id`, if there is one.
pub open spec fn row_of<T: Row>(rows: Seq<T>, id: i64) -> Option<T> {
    if has_id(rows, id) {
        Some(rows[index_of(rows, id)])
    } else {
        None
    }
}

/// The identifier that the next new row receives: one more than the largest in use.
pub open spec fn next_id<T: Row>(rows: Seq<T>) -> int {
    if rows.len() == 0 {
        1
    } else {
        rows.last().row_id() + 1
    }
}

/// In a keyed table the position of an identifier is unique.
pub proof fn lemma_index_unique<T: Row>(rows: Seq<T>, i: int)
    requires
        keyed(rows),
        0 <= i < rows.len(),
    ensures
        has_id(rows, rows[i].row_id()),
        index_of(rows, rows[i].row_id()) == i,
{
    let id = rows[i].row_id();
    assert(has_id(rows, id));
    let j = index_of(rows, id);
    if j < i {
        assert(rows[j].row_id() < rows[i].row_id());
    } else if i < j {
        assert(rows[i].row_id() < rows[j].row_id());
    }
}

/// The row at a position of a keyed table is the row of its identifier.
pub proof fn lemma_found<T: Row>(rows: Seq<T>, i: int)
    requires
        keyed(rows),
        0 <= i < rows.len(),
    ensures
        row_of(rows, rows[i].row_id()) == Some(rows[i]),
        index_of(rows, rows[i].row_id()) == i,
{
    lemma_index_unique(rows, i);
}

/// Appending a row under the next identifier keeps the table keyed, and
/// leaves every earlier row where it was.
pub proof fn lemma_push_keyed<T: Row>(rows: Seq<T>, row: T)
    requires
        keyed(rows),
        row.row_id() == next_id(rows),
    ensures
        keyed(rows.push(row)),
        !has_id(rows, row.row_id()),
        row_of(rows.push(row), row.row_id()) == Some(row),
        forall|id: i64| has_id(rows, id) ==> row_of(rows.push(row), id) == row_of(rows, id),
{
    let after = rows.push(row);
    assert forall|i: int, j: int| 0 <= i < j < after.len() implies (#[trigger] after[i]).row_id()
        < (#[trigger] after[j]).row_id() by {
        if j == rows.len() {
            if i < rows.len() - 1 {
                assert(rows[i].row_id() < rows[rows.len() - 1].row_id());
            }
        } else {
            assert(rows[i].row_id() < rows[j].row_id());
        }
    }
    assert forall|i: int| 0 <= i < after.len() implies (#[trigger] after[i]).row_id() > 0 by {
        if i == rows.len() {
            if rows.len() > 0 {
                assert(rows[rows.len() - 1].row_id() > 0);
            }
        } else {
            assert(rows[i].row_id() > 0);
        }
    }
    if has_id(rows, row.row_id()) {
        let k = index_of(rows, row.row_id());
        if k < rows.len() - 1 {
            assert(rows[k].row_id() < rows[rows.len() - 1].row_id());
        }
        assert(false);
    }
    lemma_index_unique(after, rows.len() as int);
    assert forall|id: i64| has_id(rows, id) implies row_of(after, id) == row_of(rows, id) by {
        let k = index_of(rows, id);
        assert(after[k] == rows[k]);
        lemma_index_unique(after, k);
    }
}

/// Replacing a row by one with the same identifier keeps the table keyed.
pub proof fn lemma_update_keyed<T: Row>(rows: Seq<T>, i: int, row: T)
    requires
        keyed(rows),
        0 <= i < rows.len(),
        row.row_id() == rows[i].row_id(),
    ensures
        keyed(rows.update(i, row)),
        row_of(rows.update(i, row), row.row_id()) == Some(row),
        forall|id: i64| has_id(rows.update(i, row), id) <==> has_id(rows, id),
        forall|id: i64|
            id != row.row_id() ==> row_of(rows.update(i, row), id) == row_of(rows, id),
{
    let after = rows.update(i, row);
    assert forall|a: int, b: int| 0 <= a < b < after.len() implies (#[trigger] after[a]).row_id()
        < (#[trigger] after[b]).row_id() by {
        assert(rows[a].row_id() < rows[b].row_id());
    }
    assert forall|a: int| 0 <= a < after.len() implies (#[trigger] after[a]).row_id() > 0 by {
        assert(rows[a].row_id() > 0);
    }
    lemma_index_unique(after, i);
    assert forall|id: i64| has_id(after, id) <==> has_id(rows, id) by {
        if has_id(after, id) {
            let k = index_of(after, id);
            assert(rows[k].row_id() == id);
        }
        if has_id(rows, id) {
            let k = index_of(rows, id);
            assert(after[k].row_id() == id);
        }
    }
    assert forall|id: i64| id != row.row_id() implies row_of(after, id) == row_of(rows, id) by {
        if has_id(rows, id) {
            let k = index_of(rows, id);
            assert(k != i);
            assert(after[k] == rows[k]);
            lemma_index_unique(after, k);
        }
    }
}

/// Taking a row out keeps the table keyed, removes its identifier and no other.
pub proof fn lemma_remove_keyed<T: Row>(rows: Seq<T>, i: int)
    requires
        keyed(rows),
        0 <= i < rows.len(),
    ensures
        keyed(rows.remove(i)),
        !has_id(rows.remove(i), rows[i].row_id()),
        forall|id: i64|
            id != rows[i].row_id() ==> row_of(rows.remove(i), id) == row_of(rows, id),
{
    let after = rows.remove(i);
    let gone = rows[i].row_id();
    assert forall|a: int| 0 <= a < after.len() implies (#[trigger] after[a]).row_id() > 0 by {
        if a < i {
            assert(after[a] == rows[a]);
        } else {
            assert(after[a] == rows[a + 1]);
        }
    }
    assert forall|a: int, b: int| 0 <= a < b < after.len() implies (#[trigger] after[a]).row_id()
        < (#[trigger] after[b]).row_id() by {
        let a0 = if a < i {
            a
        } else {
            a + 1
        };
        let b0 = if b < i {
            b
        } else {
            b + 1
        };
        assert(after[a] == rows[a0]);
        assert(after[b] == rows[b0]);
        assert(rows[a0].row_id() < rows[b0].row_id());
    }
    if has_id(after, gone) {
        let k = index_of(after, gone);
        let k0 = if k < i {
            k
        } else {
            k + 1
        };
        assert(after[k] == rows[k0]);
        lemma_index_unique(rows, k0);
        lemma_index_unique(rows, i);
        assert(false);
    }
    assert forall|id: i64| id != gone implies row_of(after, id) == row_of(rows, id) by {
        if has_id(rows, id) {
            let k = index_of(rows, id);
            assert(k != i);
            let k1 = if k < i {
                k
            } else {
                k - 1
            };
            assert(after[k1] == rows[k]);
            lemma_index_unique(after, k1);
        } else if has_id(after, id) {
            let k = index_of(after, id);
            let k0 = if k < i {
                k
            } else {
                k + 1
            };
            assert(after[k] == rows[k0]);
            assert(rows[k0].row_id() == id);
            assert(false);
        }
    }
}

/// Rows appended under consecutive identifiers from the next one on keep the table keyed.
pub proof fn lemma_extend_keyed<T: Row>(rows: Seq<T>, extra: Seq<T>)
    requires
        keyed(rows),
        forall|k: int| 0 <= k < extra.len() ==> (#[trigger] extra[k]).row_id() == next_id(rows) + k,
    ensures
        keyed(rows + extra),
{
    let all = rows + extra;
    let n = rows.len() as int;
    assert forall|i: int| 0 <= i < all.len() implies (#[trigger] all[i]).row_id() > 0 by {
        if i < n {
            assert(all[i] == rows[i]);
        } else {
            assert(all[i] == extra[i - n]);
            if n > 0 {
                assert(rows[n - 1].row_id() > 0);
            }
        }
    }
    assert forall|i: int, j: int| 0 <= i < j < all.len() implies (#[trigger] all[i]).row_id() < (
    #[trigger] all[j]).row_id() by {
        if j < n {
            assert(all[i] == rows[i] && all[j] == rows[j]);
        } else if i < n {
            assert(all[i] == rows[i] && all[j] == extra[j - n]);
            if i < n - 1 {
                assert(rows[i].row_id() < rows[n - 1].row_id());
            }
        } else {
            assert(all[i] == extra[i - n] && all[j] == extra[j - n]);
        }
    }
}

/// The rows of a keyed table that satisfy a condition form a keyed table.
pub proof fn lemma_filter_keyed<T: Row>(rows: Seq<T>, keep: spec_fn(T) -> bool)
    requires
        keyed(rows),
    ensures
        keyed(rows.filter(keep)),
    decreases rows.len(),
{
    reveal(Seq::filter);
    if rows.len() > 0 {
        let front = rows.drop_last();
        assert forall|i: int| 0 <= i < front.len() implies (#[trigger] front[i]).row_id() > 0 by {
            assert(front[i] == rows[i]);
        }
        assert forall|i: int, j: int| 0 <= i < j < front.len() implies (
        #[trigger] front[i]).row_id() < (#[trigger] front[j]).row_id() by {
            assert(front[i] == rows[i] && front[j] == rows[j]);
        }
        lemma_filter_keyed(front, keep);
        let kept = front.filter(keep);
        if keep(rows.last()) {
            let out = kept.push(rows.last());
            assert(rows.last() == rows[rows.len() - 1]);
            assert forall|i: int| 0 <= i < out.len() implies (#[trigger] out[i]).row_id() > 0 by {
                if i < kept.len() {
                    assert(out[i] == kept[i]);
                }
            }
            assert forall|i: int, j: int| 0 <= i < j < out.len() implies (
            #[trigger] out[i]).row_id() < (#[trigger] out[j]).row_id() by {
                if j < kept.len() {
                    assert(out[i] == kept[i] && out[j] == kept[j]);
                } else {
                    assert(out[i] == kept[i]);
                    assert(kept.contains(kept[i]));
                    front.lemma_filter_contains_rev(keep, kept[i]);
                    let k = choose|k: int| 0 <= k < front.len() && front[k] == kept[i];
                    assert(front[k] == rows[k]);
                    assert(rows[k].row_id() < rows[rows.len() - 1].row_id());
                }
            }
        }
    }
}

/// Looks for the row with identifier `id` by halving the table.
pub fn find<T: Row>(rows: &Vec<T>, id: i64) -> (found: Option<usize>)
    requires
        keyed(rows@),
    ensures
        found is Some <==> has_id(rows@, id),
        found matches Some(i) ==> i < rows.len() && rows[i as int].row_id() == id && i
            == index_of(rows@, id),
{
    let mut low: usize = 0;
    let mut high: usize = rows.len();
    while low < high
        invariant
            low <= high <= rows.len(),
            keyed(rows@),
            forall|k: int| 0 <= k < low ==> (#[trigger] rows@[k]).row_id() < id,
            forall|k: int| high <= k < rows.len() ==> (#[trigger] rows@[k]).row_id() > id,
        decreases high - low,
    {
        let middle: usize = low + (high - low) / 2;
        let here: i64 = rows[middle].id();
        if here == id {
            proof {
                lemma_index_unique(rows@, middle as int);
            }
            return Some(middle);
        }
        if here < id {
            assert forall|k: int| 0 <= k < middle + 1 implies (#[trigger] rows@[k]).row_id()
                < id by {
                if k < middle {
                    assert(rows@[k].row_id() < rows@[middle as int].row_id());
                }
            }
            low = middle + 1;
        } else {
            assert forall|k: int| middle <= k < rows.len() implies (#[trigger] rows@[k]).row_id()
                > id by {
                if middle < k {
                    assert(rows@[middle as int].row_id() < rows@[k].row_id());
                }
            }
            high = middle;
        }
    }
    assert(!has_id(rows@, id)) by {
        if has_id(rows@, id) {
            let k = index_of(rows@, id);
            assert(rows@[k].row_id() == id);
        }
    }
    None
}

/// The identifier for the next new row, unless the largest one is in use.
pub fn fresh_id<T: Row>(rows: &Vec<T>) -> (id: Option<i64>)
    requires
        keyed(rows@),
    ensures
        id == (if next_id(rows@) <= i64::MAX {
            Some(next_id(rows@) as i64)
        } else {
            None
        }),
        id matches Some(n) ==> n > 0,
{
    if rows.len() == 0 {
        Some(1)
    } else {
        let last: i64 = rows[rows.len() - 1].id();
        assert(rows@.last() == rows[rows.len() - 1]);
        if last == i64::MAX {
            None
        } else {
            Some(last + 1)
        }
    }
}

/// `keyed`, decided.
pub fn is_keyed<T: Row>(rows: &Vec<T>) -> (b: bool)
    ensures
        b == keyed(rows@),
{
    let mut i: usize = 0;
    let mut previous: i64 = 0;
    while i < rows.len()
        invariant
            i <= rows.len(),
            keyed(rows@.take(i as int)),
            i == 0 ==> previous == 0,
            i > 0 ==> previous == rows[i - 1].row_id(),
        decreases rows.len() - i,
    {
        let current: i64 = rows[i].id();
        if current <= previous {
            proof {
                if keyed(rows@) {
                    assert(rows@[i as int].row_id() > 0);
                    if i > 0 {
                        assert(rows@[i - 1].row_id() < rows@[i as int].row_id());
                    }
                }
            }
            return false;
        }
        proof {
            let before = rows@.take(i as int);
            let after = rows@.take(i + 1);
            assert forall|a: int, b: int| 0 <= a < b < after.len() implies (
            #[trigger] after[a]).row_id() < (#[trigger] after[b]).row_id() by {
                if b == i {
                    if a < i - 1 {
                        assert(before[a].row_id() < before[i - 1].row_id());
                    }
                } else {
                    assert(before[a].row_id() < before[b].row_id());
                }
            }
            assert forall|a: int| 0 <= a < after.len() implies (#[trigger] after[a]).row_id()
                > 0 by {
                if a < i {
                    assert(before[a].row_id() > 0);
                }
            }
        }
        previous = current;
        i = i + 1;
    }
    assert(rows@.take(rows.len() as int) =~= rows@);
    true
}

} // verus!
