//! Finding the first item of a sequence that meets a condition, as a store
//! does when it is asked for one record by a field's value.

use vstd::prelude::*;

verus! {

/// The index of the first item at or after `from` that meets `wanted`, or
/// the length of the sequence where there is none.
pub open spec fn first_where<T>(items: Seq<T>, wanted: spec_fn(T) -> bool, from: int) -> int
    decreases items.len() - from,
{
    if from < 0 || from >= items.len() {
        items.len() as int
    } else if wanted(items[from]) {
        from
    } else {
        first_where(items, wanted, from + 1)
    }
}

/// Where no item from `from` up to `i` meets the condition, the search from
/// `from` gives what the search from `i` gives.
pub proof fn lemma_first_where_skips<T>(
    items: Seq<T>,
    wanted: spec_fn(T) -> bool,
    from: int,
    i: int,
)
    requires
        0 <= from <= i <= items.len(),
        forall|j: int| from <= j < i ==> !wanted(#[trigger] items[j]),
    ensures
        first_where(items, wanted, from) == first_where(items, wanted, i),
    decreases i - from,
{
    if from < i {
        assert(!wanted(items[from]));
        lemma_first_where_skips(items, wanted, from + 1, i);
    }
}

/// The search returns an index within the sequence or its length; an index
/// within the sequence is that of an item that meets the condition, and no
/// item before it does.
pub proof fn lemma_first_where_is_first<T>(items: Seq<T>, wanted: spec_fn(T) -> bool, from: int)
    requires
        0 <= from <= items.len(),
    ensures
        from <= first_where(items, wanted, from) <= items.len(),
        first_where(items, wanted, from) < items.len() ==> wanted(
            items[first_where(items, wanted, from)],
        ),
        forall|j: int|
            from <= j < first_where(items, wanted, from) ==> !wanted(#[trigger] items[j]),
    decreases items.len() - from,
{
    if from < items.len() && !wanted(items[from]) {
        lemma_first_where_is_first(items, wanted, from + 1);
    }
}

/// Replacing an item by one that meets the condition exactly when the old
/// one did leaves the result of the search as it was.
pub proof fn lemma_first_where_after_update<T>(
    items: Seq<T>,
    wanted: spec_fn(T) -> bool,
    i: int,
    item: T,
    from: int,
)
    requires
        0 <= i < items.len(),
        0 <= from <= items.len(),
        wanted(item) == wanted(items[i]),
    ensures
        first_where(items.update(i, item), wanted, from) == first_where(items, wanted, from),
    decreases items.len() - from,
{
    let updated = items.update(i, item);
    if from < items.len() {
        if from == i {
            assert(updated[from] == item);
        } else {
            assert(updated[from] == items[from]);
        }
        if !wanted(items[from]) {
            lemma_first_where_after_update(items, wanted, i, item, from + 1);
        }
    }
}

} // verus!
