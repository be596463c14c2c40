//! Facts about sequences that the rest of the library leans on.

use vstd::prelude::*;

verus! {

/// Picking from a sequence piece by piece gives what picking from the whole
/// gives: the picks of the first part, followed by the picks of the rest,
/// each in its order.
pub proof fn filter_map_of_parts<A, B>(
    first: Seq<A>,
    second: Seq<A>,
    pick: spec_fn(A) -> Option<B>,
)
    ensures
        (first + second).filter_map(pick) == first.filter_map(pick) + second.filter_map(pick),
    decreases second.len(),
{
    if second.len() == 0 {
        assert(first + second =~= first);
        assert(first.filter_map(pick) + second.filter_map(pick) =~= first.filter_map(pick));
    } else {
        let whole = first + second;
        assert(whole.drop_last() =~= first + second.drop_last());
        assert(whole.last() == second.last());
        filter_map_of_parts(first, second.drop_last(), pick);
        match pick(second.last()) {
            Some(picked) => {
                assert(first.filter_map(pick) + (second.drop_last().filter_map(pick)
                    + seq![picked]) =~= (first.filter_map(pick) + second.drop_last().filter_map(
                    pick,
                )) + seq![picked]);
            },
            None => {},
        }
    }
}

/// Picking from a sequence of which nothing is picked gives nothing.
pub proof fn filter_map_of_none<A, B>(list: Seq<A>, pick: spec_fn(A) -> Option<B>)
    requires
        forall|i: int| 0 <= i < list.len() ==> pick(#[trigger] list[i]) is None,
    ensures
        list.filter_map(pick) == Seq::<B>::empty(),
    decreases list.len(),
{
    if list.len() > 0 {
        filter_map_of_none(list.drop_last(), pick);
    }
}

/// Picking from a sequence that was made by wrapping, where the pick
/// unwraps, gives the sequence that was wrapped.
pub proof fn filter_map_of_wrapped<A, B>(
    list: Seq<B>,
    wrap: spec_fn(B) -> A,
    pick: spec_fn(A) -> Option<B>,
)
    requires
        forall|item: B| pick(#[trigger] wrap(item)) == Some(item),
    ensures
        list.map_values(wrap).filter_map(pick) == list,
    decreases list.len(),
{
    let wrapped = list.map_values(wrap);
    if list.len() == 0 {
        assert(wrapped.filter_map(pick) =~= list);
    } else {
        filter_map_of_wrapped(list.drop_last(), wrap, pick);
        assert(wrapped.drop_last() =~= list.drop_last().map_values(wrap));
        assert(wrapped.last() == wrap(list.last()));
        assert(list.drop_last() + seq![list.last()] =~= list);
    }
}

/// Filtering a sequence of which everything is kept gives the sequence.
pub proof fn filter_keeps_all<A>(list: Seq<A>, keep: spec_fn(A) -> bool)
    requires
        forall|i: int| 0 <= i < list.len() ==> keep(#[trigger] list[i]),
    ensures
        list.filter(keep) == list,
    decreases list.len(),
{
    reveal_with_fuel(Seq::filter, 1);
    if list.len() > 0 {
        filter_keeps_all(list.drop_last(), keep);
        assert(list.drop_last().push(list.last()) =~= list);
    }
}

/// Filtering a single entry that is not kept gives nothing.
pub proof fn filter_drops_one<A>(entry: A, keep: spec_fn(A) -> bool)
    requires
        !keep(entry),
    ensures
        seq![entry].filter(keep) == Seq::<A>::empty(),
{
    reveal_with_fuel(Seq::filter, 2);
    assert(seq![entry].drop_last() =~= Seq::<A>::empty());
}

} // verus!
