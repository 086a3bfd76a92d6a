//! Listings in a chosen order: a rule that says which of two rows may come
//! first, and an insertion sort that arranges a table by it.

use vstd::prelude::*;
use vstd::seq_lib::*;
use vstd::multiset::Multiset;

verus! {

/// A rule for arranging rows of type `T`: a total preorder.
pub trait RowOrder<T> {
    /// `a` may stand before `b`.
    spec fn precedes(a: T, b: T) -> bool;

    /// Decides `precedes`.
    fn in_order(a: &T, b: &T) -> (r: bool)
        ensures
            r == Self::precedes(*a, *b),
    ;

    /// Of any two rows, one may stand before the other.
    proof fn lemma_total(a: T, b: T)
        ensures
            Self::precedes(a, b) || Self::precedes(b, a),
    ;

    /// What may stand before a row may stand before all that the row may stand before.
    proof fn lemma_transitive(a: T, b: T, c: T)
        requires
            Self::precedes(a, b),
            Self::precedes(b, c),
        ensures
            Self::precedes(a, c),
    ;
}

/// Every row may stand before each row that follows it.
pub open spec fn sorted<T, O: RowOrder<T>>(rows: Seq<T>) -> bool {
    forall|i: int, j: int| 0 <= i < j < rows.len() ==> O::precedes(rows[i], rows[j])
}

/// `out` holds exactly the rows of `rows`, each as often, arranged by `O`.
pub open spec fn arranged<T, O: RowOrder<T>>(rows: Seq<T>, out: Seq<T>) -> bool {
    sorted::<T, O>(out) && out.to_multiset() == rows.to_multiset()
}

/// Arranges the rows by the rule `O`.
pub fn sort<T, O: RowOrder<T>>(rows: Vec<T>) -> (out: Vec<T>)
    ensures
        arranged::<T, O>(rows@, out@),
{
    let ghost all: Seq<T> = rows@;
    let mut rest: Vec<T> = rows;
    let mut out: Vec<T> = Vec::new();
    proof {
        broadcast use vstd::multiset::group_multiset_axioms;

        assert(out@.to_multiset() =~= Multiset::<T>::empty()) by {
            out@.to_multiset_ensures();
        }
        assert(out@.to_multiset().add(rest@.to_multiset()) =~= all.to_multiset());
    }
    while rest.len() > 0
        invariant
            sorted::<T, O>(out@),
            out@.to_multiset().add(rest@.to_multiset()) == all.to_multiset(),
        decreases rest.len(),
    {
        let ghost before: Seq<T> = rest@;
        let ghost placed: Seq<T> = out@;
        let row: T = rest.pop().unwrap();
        let mut at: usize = 0;
        while at < out.len() && O::in_order(&out[at], &row)
            invariant
                at <= out.len(),
                out@ == placed,
                forall|k: int| 0 <= k < at ==> O::precedes(#[trigger] out@[k], row),
            decreases out.len() - at,
        {
            at = at + 1;
        }
        proof {
            assert forall|k: int| at <= k < out.len() implies O::precedes(
                row,
                #[trigger] out@[k],
            ) by {
                O::lemma_total(out@[at as int], row);
                if k > at {
                    O::lemma_transitive(row, out@[at as int], out@[k]);
                }
            }
        }
        out.insert(at, row);
        proof {
            broadcast use vstd::multiset::group_multiset_axioms;

            assert forall|i: int, j: int| 0 <= i < j < out@.len() implies O::precedes(
                out@[i],
                out@[j],
            ) by {
                if j < at {
                    assert(out@[i] == placed[i] && out@[j] == placed[j]);
                } else if j == at {
                    assert(out@[i] == placed[i]);
                } else if i < at {
                    assert(out@[i] == placed[i] && out@[j] == placed[j - 1]);
                } else if i == at {
                    assert(out@[j] == placed[j - 1]);
                } else {
                    assert(out@[i] == placed[i - 1] && out@[j] == placed[j - 1]);
                }
            }
            to_multiset_insert(placed, at as int, row);
            assert(before =~= rest@.push(row));
            to_multiset_build(rest@, row);
            assert(out@.to_multiset().add(rest@.to_multiset()) =~= placed.to_multiset().add(
                before.to_multiset(),
            ));
        }
    }
    proof {
        broadcast use vstd::multiset::group_multiset_axioms;

        assert(rest@.to_multiset() =~= Multiset::<T>::empty()) by {
            rest@.to_multiset_ensures();
        }
        assert(out@.to_multiset() =~= all.to_multiset());
    }
    out
}

} // verus!
