//! Stable ordering of items by rank.
//!
//! An item type says when one item outranks another; `stable_sort` puts
//! items that outrank others first and keeps the input order among items
//! that neither outranks.

use vstd::prelude::*;
use vstd::seq_lib::seq_to_set_is_finite;
use vstd::set_lib::{lemma_int_range, lemma_subset_equality, set_int_range};

verus! {

/// A strict weak order: `outranks` is asymmetric, and whatever outranks an
/// item also outranks everything that does not outrank that item.
pub trait Ranked: Sized {
    /// Whether `self` must stand before `other`, whatever their input order.
    spec fn outranks(&self, other: &Self) -> bool;

    proof fn asymmetric(x: &Self, y: &Self)
        requires
            x.outranks(y),
        ensures
            !y.outranks(x),
    ;

    proof fn carries(x: &Self, y: &Self, z: &Self)
        requires
            x.outranks(y),
            !z.outranks(y),
        ensures
            x.outranks(z),
    ;

    fn ranks_above(&self, other: &Self) -> (r: bool)
        ensures
            r == self.outranks(other),
    ;
}

/// `output` holds the first `count` items of `input`, `output[k]` being
/// `input[order[k]]`, each once, so that no item stands behind one that it
/// outranks and items of equal rank stand in their input order.
pub open spec fn arranged<T: Ranked>(
    input: Seq<T>,
    output: Seq<T>,
    order: Seq<int>,
    count: int,
) -> bool {
    &&& 0 <= count <= input.len()
    &&& order.len() == count
    &&& output.len() == count
    &&& forall|k: int|
        0 <= k < count ==> 0 <= #[trigger] order[k] < count && output[k] == input[order[k]]
    &&& forall|k: int, l: int|
        #![trigger order[k], order[l]]
        0 <= k < l < count ==> order[k] != order[l]
    &&& forall|k: int, l: int|
        #![trigger output[k], output[l]]
        0 <= k < l < count ==> !output[l].outranks(&output[k])
    &&& forall|k: int, l: int|
        #![trigger order[k], order[l]]
        0 <= k < l < count && !output[k].outranks(&output[l]) ==> order[k] < order[l]
}

/// `output` is `input` in stable rank order, `order` naming for each place
/// of the output the place in the input that its item came from.
pub open spec fn is_stable_sort<T: Ranked>(input: Seq<T>, output: Seq<T>, order: Seq<int>) -> bool {
    arranged(input, output, order, input.len() as int)
}

/// The items of `items` in stable rank order.
pub fn stable_sort<T: Ranked>(items: Vec<T>) -> (sorted: Vec<T>)
    ensures
        exists|order: Seq<int>| is_stable_sort(items@, sorted@, order),
{
    let ghost input = items@;
    let mut rest = items;
    let mut out: Vec<T> = Vec::new();
    let ghost mut order: Seq<int> = Seq::empty();
    assert(input.subrange(0, input.len() as int) =~= input);
    while rest.len() > 0
        invariant
            rest.len() <= input.len(),
            rest@ == input.subrange(input.len() - rest.len(), input.len() as int),
            arranged(input, out@, order, input.len() - rest.len()),
        decreases rest.len(),
    {
        let ghost i: int = input.len() - rest.len();
        let ghost before = out@;
        let ghost order_before = order;
        let item = rest.remove(0);
        assert(item == input[i]);
        assert(rest@ =~= input.subrange(i + 1, input.len() as int));
        let mut j: usize = 0;
        while j < out.len() && !item.ranks_above(&out[j])
            invariant
                j <= out.len(),
                forall|k: int| 0 <= k < j ==> !item.outranks(&#[trigger] out@[k]),
            decreases out.len() - j,
        {
            j = j + 1;
        }
        out.insert(j, item);
        proof {
            order = order_before.insert(j as int, i);
            let after = out@;
            assert(after.len() == i + 1);
            assert forall|k: int| 0 <= k < i + 1 implies (if k < j {
                after[k] == before[k] && order[k] == order_before[k]
            } else if k == j {
                after[k] == item && order[k] == i
            } else {
                after[k] == before[k - 1] && order[k] == order_before[k - 1]
            }) by {}
            assert forall|l: int| j <= l < i implies item.outranks(&#[trigger] before[l]) by {
                if l > j {
                    T::carries(&item, &before[j as int], &before[l]);
                }
            }
            assert forall|k: int, l: int|
                #![trigger after[k], after[l]]
                0 <= k < l < i + 1 implies !after[l].outranks(&after[k]) by {
                if k == j {
                    T::asymmetric(&item, &before[l - 1]);
                }
            }
            assert forall|k: int, l: int|
                #![trigger order[k], order[l]]
                0 <= k < l < i + 1 && !after[k].outranks(&after[l]) implies order[k] < order[l] by {}
        }
    }
    proof {
        assert(is_stable_sort(input, out@, order));
    }
    out
}

/// Every place of the input stands somewhere in the order of a stable sort.
pub proof fn order_covers_input<T: Ranked>(input: Seq<T>, output: Seq<T>, order: Seq<int>, p: int)
    requires
        is_stable_sort(input, output, order),
        0 <= p < input.len(),
    ensures
        exists|k: int| 0 <= k < order.len() && order[k] == p,
{
    let n = input.len() as int;
    assert(order.no_duplicates());
    order.unique_seq_to_set();
    seq_to_set_is_finite(order);
    lemma_int_range(0, n);
    assert(order.to_set().subset_of(set_int_range(0, n))) by {
        assert forall|x: int| order.to_set().contains(x) implies set_int_range(0, n).contains(
            x,
        ) by {
            let k = choose|k: int| 0 <= k < order.len() && order[k] == x;
            assert(0 <= order[k] < n);
        }
    }
    lemma_subset_equality(order.to_set(), set_int_range(0, n));
    assert(set_int_range(0, n).contains(p));
    assert(order.to_set().contains(p));
}

proof fn lemma_same_place<T: Ranked, U: Ranked>(
    first: Seq<T>,
    first_sorted: Seq<T>,
    first_order: Seq<int>,
    second: Seq<U>,
    second_sorted: Seq<U>,
    second_order: Seq<int>,
    k: int,
)
    requires
        is_stable_sort(first, first_sorted, first_order),
        is_stable_sort(second, second_sorted, second_order),
        first.len() == second.len(),
        forall|p: int, q: int|
            #![trigger first[p], first[q]]
            0 <= p < first.len() && 0 <= q < first.len() ==> first[p].outranks(&first[q])
                == second[p].outranks(&second[q]),
        0 <= k < first.len(),
    ensures
        first_order[k] == second_order[k],
    decreases k,
{
    assert forall|m: int| 0 <= m < k implies first_order[m] == second_order[m] by {
        lemma_same_place(
            first,
            first_sorted,
            first_order,
            second,
            second_sorted,
            second_order,
            m,
        );
    }
    let p = first_order[k];
    let q = second_order[k];
    if p != q {
        order_covers_input(second, second_sorted, second_order, p);
        let k2 = choose|k2: int| 0 <= k2 < second_order.len() && second_order[k2] == p;
        order_covers_input(first, first_sorted, first_order, q);
        let k1 = choose|k1: int| 0 <= k1 < first_order.len() && first_order[k1] == q;
        if k2 < k {
            assert(first_order[k2] == p);
            assert(first_order[k2] != first_order[k]);
        }
        if k1 < k {
            assert(second_order[k1] == q);
            assert(second_order[k1] != second_order[k]);
        }
        assert(k < k2 && k < k1);
        assert(first_sorted[k] == first[p] && first_sorted[k1] == first[q]);
        assert(second_sorted[k] == second[q] && second_sorted[k2] == second[p]);
        assert(!first_sorted[k1].outranks(&first_sorted[k]));
        assert(!second_sorted[k2].outranks(&second_sorted[k]));
        assert(first[p].outranks(&first[q]) == second[p].outranks(&second[q]));
        assert(first[q].outranks(&first[p]) == second[q].outranks(&second[p]));
        assert(first_order[k] < first_order[k1]);
        assert(second_order[k] < second_order[k2]);
    }
}

/// Two inputs whose items rank alike, place by place, are put in the same
/// order by a stable sort.
pub proof fn stable_order_is_unique<T: Ranked, U: Ranked>(
    first: Seq<T>,
    first_sorted: Seq<T>,
    first_order: Seq<int>,
    second: Seq<U>,
    second_sorted: Seq<U>,
    second_order: Seq<int>,
)
    requires
        is_stable_sort(first, first_sorted, first_order),
        is_stable_sort(second, second_sorted, second_order),
        first.len() == second.len(),
        forall|p: int, q: int|
            #![trigger first[p], first[q]]
            0 <= p < first.len() && 0 <= q < first.len() ==> first[p].outranks(&first[q])
                == second[p].outranks(&second[q]),
    ensures
        first_order == second_order,
{
    assert forall|k: int| 0 <= k < first.len() implies first_order[k] == second_order[k] by {
        lemma_same_place(
            first,
            first_sorted,
            first_order,
            second,
            second_sorted,
            second_order,
            k,
        );
    }
    assert(first_order =~= second_order);
}

/// A sequence has one stable sort only.
pub proof fn stable_sort_is_unique<T: Ranked>(
    input: Seq<T>,
    a: Seq<T>,
    order_a: Seq<int>,
    b: Seq<T>,
    order_b: Seq<int>,
)
    requires
        is_stable_sort(input, a, order_a),
        is_stable_sort(input, b, order_b),
    ensures
        a == b,
{
    stable_order_is_unique(input, a, order_a, input, b, order_b);
    assert forall|k: int| 0 <= k < input.len() implies a[k] == b[k] by {
        assert(a[k] == input[order_a[k]]);
        assert(b[k] == input[order_b[k]]);
    }
    assert(a =~= b);
}

} // verus!
