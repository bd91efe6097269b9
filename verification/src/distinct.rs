//! Lists in which nothing occurs twice, and the sets they enumerate.

use vstd::prelude::*;

verus! {

/// Appending an element that is not yet listed keeps the list free of
/// duplicates and adds that element to what it enumerates.
pub proof fn lemma_append<A>(list: Seq<A>, elem: A)
    requires
        list.no_duplicates(),
        !list.contains(elem),
    ensures
        list.push(elem).no_duplicates(),
        list.push(elem).to_set() == list.to_set().insert(elem),
{
    list.lemma_push_to_set_commute(elem);
}

/// Filling position `at` with the last element and dropping the last
/// position removes exactly the element that stood at `at`.
pub proof fn lemma_swap_out<A>(list: Seq<A>, at: int)
    requires
        list.no_duplicates(),
        0 <= at < list.len(),
    ensures
        list.update(at, list.last()).drop_last().no_duplicates(),
        list.update(at, list.last()).drop_last().to_set() == list.to_set().remove(list[at]),
{
    let last = list.len() - 1;
    let rest = list.update(at, list.last()).drop_last();
    assert forall|elem: A| rest.contains(elem) <==> (list.contains(elem) && elem != list[at]) by {
        if list.contains(elem) && elem != list[at] {
            let i = choose|i: int| 0 <= i < list.len() && list[i] == elem;
            let moved = if i == last { at } else { i };
            assert(rest[moved] == elem);
        }
    }
}

/// Filtering a list without duplicates gives a list without duplicates,
/// which enumerates the elements of the original that pass the filter.
pub proof fn lemma_filter<A>(list: Seq<A>, keep: spec_fn(A) -> bool)
    requires
        list.no_duplicates(),
    ensures
        list.filter(keep).no_duplicates(),
        list.filter(keep).to_set() == list.to_set().filter(keep),
    decreases list.len(),
{
    if list.len() == 0 {
        reveal(Seq::filter);
    } else {
        let rest = list.drop_last();
        let last = list.last();
        assert(list =~= rest.push(last));
        lemma_filter(rest, keep);
        rest.lemma_filter_push(last, keep);
        rest.lemma_push_to_set_commute(last);
        assert(!rest.filter(keep).contains(last)) by {
            if rest.filter(keep).contains(last) {
                assert(rest.filter(keep).to_set().contains(last));
            }
        }
        if keep(last) {
            lemma_append(rest.filter(keep), last);
        }
    }
}

} // verus!
