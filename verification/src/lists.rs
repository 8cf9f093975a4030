//! Lists: search, copies and unions.

use vstd::prelude::*;
use crate::neutral::ResourceDependency;

verus! {

/// Position of the first item that is wanted.
pub open spec fn first_where<T>(items: Seq<T>, wanted: spec_fn(T) -> bool) -> Option<int>
    decreases items.len(),
{
    if items.len() == 0 {
        None
    } else {
        match first_where(items.drop_last(), wanted) {
            Some(position) => Some(position),
            None => if wanted(items.last()) {
                Some(items.len() - 1)
            } else {
                None
            },
        }
    }
}

/// The position found is that of the first wanted item, and none is found exactly when
/// no item is wanted.
pub proof fn lemma_first_where<T>(items: Seq<T>, wanted: spec_fn(T) -> bool)
    ensures
        match first_where(items, wanted) {
            Some(position) => 0 <= position < items.len() && wanted(items[position]) && forall|
                i: int,
            |
                #![trigger items[i]]
                0 <= i < position ==> !wanted(items[i]),
            None => forall|i: int|
                #![trigger items[i]]
                0 <= i < items.len() ==> !wanted(items[i]),
        },
    decreases items.len(),
{
    if items.len() > 0 {
        lemma_first_where(items.drop_last(), wanted);
        assert forall|i: int| 0 <= i < items.len() - 1 implies items[i] == items.drop_last()[i] by {}
    }
}

/// A wanted item before which none is wanted is the one that is found.
pub proof fn lemma_first_where_at<T>(items: Seq<T>, wanted: spec_fn(T) -> bool, position: int)
    requires
        0 <= position <= items.len(),
        forall|i: int|
            #![trigger items[i]]
            0 <= i < position ==> !wanted(items[i]),
        position < items.len() ==> wanted(items[position]),
    ensures
        first_where(items, wanted) == if position < items.len() {
            Some(position)
        } else {
            None::<int>
        },
{
    lemma_first_where(items, wanted);
    match first_where(items, wanted) {
        Some(found) => {
            assert(wanted(items[found]));
        },
        None => {},
    }
}

/// Filtering one item more.
pub proof fn lemma_filter_step<T>(items: Seq<T>, wanted: spec_fn(T) -> bool, end: int)
    requires
        0 <= end < items.len(),
    ensures
        items.take(end + 1).filter(wanted) == if wanted(items[end]) {
            items.take(end).filter(wanted).push(items[end])
        } else {
            items.take(end).filter(wanted)
        },
{
    reveal(Seq::filter);
    assert(items.take(end + 1).drop_last() =~= items.take(end));
}

/// Filtering nothing.
pub proof fn lemma_filter_start<T>(items: Seq<T>, wanted: spec_fn(T) -> bool)
    ensures
        items.take(0).filter(wanted) == Seq::<T>::empty(),
{
    reveal(Seq::filter);
}

/// A filtered list holds the wanted items of the list and no others.
pub proof fn lemma_filter_members<T>(items: Seq<T>, wanted: spec_fn(T) -> bool)
    ensures
        forall|item: T| #[trigger]
            items.filter(wanted).contains(item) <==> items.contains(item) && wanted(item),
    decreases items.len(),
{
    reveal(Seq::filter);
    if items.len() > 0 {
        let rest = items.drop_last();
        lemma_filter_members(rest, wanted);
        assert(items =~= rest.push(items.last()));
        assert forall|item: T| #[trigger] items.filter(wanted).contains(item) implies items.contains(
            item,
        ) && wanted(item) by {
            let at = items.filter(wanted).index_of(item);
            if at < rest.filter(wanted).len() {
                assert(rest.filter(wanted)[at] == item);
                assert(rest.filter(wanted).contains(item));
                assert(items[rest.index_of(item)] == item);
            } else {
                assert(items[items.len() - 1] == item);
            }
        }
        assert forall|item: T| items.contains(item) && wanted(item) implies #[trigger] items.filter(
            wanted,
        ).contains(item) by {
            let at = items.index_of(item);
            if at < rest.len() {
                assert(rest[at] == item);
                assert(rest.filter(wanted).contains(item));
                let there = rest.filter(wanted).index_of(item);
                assert(items.filter(wanted)[there] == item);
            } else {
                assert(items.filter(wanted)[rest.filter(wanted).len() as int] == item);
            }
        }
    }
}

/// Items that are not related in pairs are not so in a filtered list either.
pub proof fn lemma_filter_keeps_apart<T>(
    items: Seq<T>,
    wanted: spec_fn(T) -> bool,
    related: spec_fn(T, T) -> bool,
)
    requires
        forall|i: int, j: int|
            #![trigger items[i], items[j]]
            0 <= i < j < items.len() ==> !related(items[i], items[j]),
    ensures
        forall|i: int, j: int|
            #![trigger items.filter(wanted)[i], items.filter(wanted)[j]]
            0 <= i < j < items.filter(wanted).len() ==> !related(
                items.filter(wanted)[i],
                items.filter(wanted)[j],
            ),
    decreases items.len(),
{
    reveal(Seq::filter);
    if items.len() > 0 {
        let rest = items.drop_last();
        let kept = rest.filter(wanted);
        lemma_filter_keeps_apart(rest, wanted, related);
        lemma_filter_members(rest, wanted);
        assert forall|i: int, j: int|
            #![trigger items.filter(wanted)[i], items.filter(wanted)[j]]
            0 <= i < j < items.filter(wanted).len() implies !related(
            items.filter(wanted)[i],
            items.filter(wanted)[j],
        ) by {
            assert(items.filter(wanted)[i] == kept[i]);
            if j < kept.len() {
                assert(items.filter(wanted)[j] == kept[j]);
            } else {
                assert(kept.contains(kept[i]));
                let at = rest.index_of(kept[i]);
                assert(items[at] == kept[i]);
                assert(items[items.len() - 1] == items.filter(wanted)[j]);
            }
        }
    }
}

/// The first wanted item stays so where a filter keeps it, and none appears where there
/// was none.
pub proof fn lemma_first_where_filtered<T>(
    items: Seq<T>,
    kept: spec_fn(T) -> bool,
    wanted: spec_fn(T) -> bool,
)
    ensures
        match first_where(items, wanted) {
            Some(position) => kept(items[position]) ==> {
                &&& first_where(items.filter(kept), wanted) matches Some(there)
                &&& 0 <= there < items.filter(kept).len()
                &&& items.filter(kept)[there] == items[position]
            },
            None => first_where(items.filter(kept), wanted) is None,
        },
    decreases items.len(),
{
    reveal(Seq::filter);
    if items.len() > 0 {
        let rest = items.drop_last();
        lemma_first_where_filtered(rest, kept, wanted);
        lemma_first_where(rest, wanted);
        if kept(items.last()) {
            assert(items.filter(kept).drop_last() =~= rest.filter(kept));
        }
    }
}

/// List of which a beginning has been filtered and the rest not yet.
pub open spec fn filtered_up_to<T>(items: Seq<T>, wanted: spec_fn(T) -> bool, done: int) -> Seq<T> {
    items.take(done).filter(wanted) + items.skip(done)
}

/// Filtering in place, one item more: the item stays or is removed where it is.
pub proof fn lemma_retain_step<T>(items: Seq<T>, wanted: spec_fn(T) -> bool, done: int)
    requires
        0 <= done < items.len(),
    ensures
        ({
            let now = filtered_up_to(items, wanted, done);
            let at = items.take(done).filter(wanted).len() as int;
            let after = items.take(done + 1).filter(wanted).len();
            &&& at < now.len()
            &&& now[at] == items[done]
            &&& wanted(items[done]) ==> filtered_up_to(items, wanted, done + 1) == now && after
                == at + 1
            &&& !wanted(items[done]) ==> filtered_up_to(items, wanted, done + 1) == now.remove(at)
                && after == at
        }),
{
    lemma_filter_step(items, wanted, done);
    let now = filtered_up_to(items, wanted, done);
    let kept = items.take(done).filter(wanted);
    if wanted(items[done]) {
        assert(filtered_up_to(items, wanted, done + 1) =~= now);
    } else {
        assert(filtered_up_to(items, wanted, done + 1) =~= now.remove(kept.len() as int));
    }
}

/// Filtering in place begins with the list and ends with the filtered list.
pub proof fn lemma_retain_ends<T>(items: Seq<T>, wanted: spec_fn(T) -> bool)
    ensures
        filtered_up_to(items, wanted, 0) == items,
        items.take(0).filter(wanted).len() == 0,
        filtered_up_to(items, wanted, items.len() as int) == items.filter(wanted),
{
    lemma_filter_start(items, wanted);
    assert(filtered_up_to(items, wanted, 0) =~= items);
    assert(items.take(items.len() as int) =~= items);
    assert(filtered_up_to(items, wanted, items.len() as int) =~= items.filter(wanted));
}

/// Copy of a list.
pub fn copied<T: Copy>(items: &Vec<T>) -> (r: Vec<T>)
    ensures
        r@ == items@,
{
    let mut copies: Vec<T> = Vec::new();
    let mut index: usize = 0;
    while index < items.len()
        invariant
            index <= items@.len(),
            copies@ == items@.take(index as int),
        decreases items@.len() - index,
    {
        copies.push(items[index]);
        proof {
            assert(copies@ =~= items@.take(index + 1));
        }
        index = index + 1;
    }
    proof {
        assert(items@.take(index as int) =~= items@);
    }
    copies
}

/// Whether two lists of numbers are equal.
pub fn same_numbers(left: &Vec<u64>, right: &Vec<u64>) -> (r: bool)
    ensures
        r == (left@ == right@),
{
    if left.len() != right.len() {
        return false;
    }
    let mut index: usize = 0;
    while index < left.len()
        invariant
            index <= left@.len() == right@.len(),
            forall|i: int| 0 <= i < index ==> left@[i] == right@[i],
        decreases left@.len() - index,
    {
        if left[index] != right[index] {
            proof {
                assert(left@[index as int] != right@[index as int]);
            }
            return false;
        }
        index = index + 1;
    }
    proof {
        assert(left@ =~= right@);
    }
    true
}

/// Whether a list of numbers holds one.
pub fn holds_number(items: &Vec<u64>, wanted: u64) -> (r: bool)
    ensures
        r == items@.contains(wanted),
{
    let mut index: usize = 0;
    while index < items.len()
        invariant
            index <= items@.len(),
            forall|i: int| 0 <= i < index ==> items@[i] != wanted,
        decreases items@.len() - index,
    {
        if items[index] == wanted {
            return true;
        }
        index = index + 1;
    }
    false
}

/// Whether a list of positions holds one.
pub fn holds_position(items: &Vec<usize>, wanted: usize) -> (r: bool)
    ensures
        r == items@.contains(wanted),
{
    let mut index: usize = 0;
    while index < items.len()
        invariant
            index <= items@.len(),
            forall|i: int| 0 <= i < index ==> items@[i] != wanted,
        decreases items@.len() - index,
    {
        if items[index] == wanted {
            return true;
        }
        index = index + 1;
    }
    false
}

/// Whether a list of dependencies holds one.
pub fn holds_dependency(items: &Vec<ResourceDependency>, wanted: ResourceDependency) -> (r: bool)
    ensures
        r == items@.contains(wanted),
{
    let mut index: usize = 0;
    while index < items.len()
        invariant
            index <= items@.len(),
            forall|i: int| 0 <= i < index ==> items@[i] != wanted,
        decreases items@.len() - index,
    {
        if items[index] == wanted {
            return true;
        }
        index = index + 1;
    }
    false
}

/// List after items were added that it does not hold yet, each once.
pub open spec fn extended<T>(items: Seq<T>, added: Seq<T>) -> Seq<T>
    decreases added.len(),
{
    if added.len() == 0 {
        items
    } else {
        let before = extended(items, added.drop_last());
        if before.contains(added.last()) {
            before
        } else {
            before.push(added.last())
        }
    }
}

/// Adds dependencies that are not there yet.
pub fn extend_unique(items: &mut Vec<ResourceDependency>, added: &Vec<ResourceDependency>)
    ensures
        final(items)@ == extended(old(items)@, added@),
{
    let ghost before = items@;
    let mut index: usize = 0;
    while index < added.len()
        invariant
            index <= added@.len(),
            items@ == extended(before, added@.take(index as int)),
        decreases added@.len() - index,
    {
        let dependency = added[index];
        proof {
            assert(added@.take(index + 1).drop_last() =~= added@.take(index as int));
        }
        if !holds_dependency(items, dependency) {
            items.push(dependency);
        }
        index = index + 1;
    }
    proof {
        assert(added@.take(index as int) =~= added@);
    }
}

/// Adding keeps what was there, holds everything added, holds nothing else, and repeats
/// nothing that was not repeated before.
pub proof fn law_extension_is_a_union<T>(items: Seq<T>, added: Seq<T>)
    ensures
        items.is_prefix_of(extended(items, added)),
        forall|item: T| #[trigger]
            extended(items, added).contains(item) <==> items.contains(item) || added.contains(item),
        items.no_duplicates() ==> extended(items, added).no_duplicates(),
    decreases added.len(),
{
    if added.len() > 0 {
        let before = extended(items, added.drop_last());
        law_extension_is_a_union(items, added.drop_last());
        assert(added =~= added.drop_last().push(added.last()));
        assert forall|item: T| #[trigger]
            extended(items, added).contains(item) implies items.contains(item) || added.contains(
            item,
        ) by {
            let at = extended(items, added).index_of(item);
            if at < before.len() {
                assert(before.contains(before[at]));
                if added.drop_last().contains(item) {
                    let there = added.drop_last().index_of(item);
                    assert(added[there] == item);
                }
            } else {
                assert(added[added.len() - 1] == item);
            }
        }
        assert forall|item: T| items.contains(item) || added.contains(item) implies #[trigger] extended(
            items,
            added,
        ).contains(item) by {
            if before.contains(item) {
                let at = before.index_of(item);
                assert(extended(items, added)[at] == item);
            } else {
                assert(!added.drop_last().contains(item));
                let there = added.index_of(item);
                if there < added.len() - 1 {
                    assert(added.drop_last()[there] == item);
                }
                assert(item == added.last());
                assert(extended(items, added)[before.len() as int] == item);
            }
        }
    }
}

} // verus!
