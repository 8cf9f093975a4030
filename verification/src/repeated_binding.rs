//! Binding the same resources again.

use vstd::prelude::*;
use crate::lowering_cache::{CacheModel, ViewModel};
use crate::neutral::ResourceDependency;
use crate::resource::ResolvedModel;
use crate::resource_preparation::WorkModel;

verus! {

/// Position of the view that a resource would be bound to without a new one.
pub open spec fn view_found(
    views: Seq<ViewModel>,
    resource: ResolvedModel,
    current: Seq<u64>,
) -> Option<int> {
    match crate::resource_preparation::view_position(views, resource) {
        Some(position) => Some(position),
        None => if resource.requires_materialization() {
            crate::resource_preparation::current_view_position(views, resource, current)
        } else {
            None
        },
    }
}

/// Whether a resource would be bound to an object without creating anything.
pub open spec fn binds(
    cache: CacheModel,
    resource: ResolvedModel,
    current: Seq<u64>,
    dependency: ResourceDependency,
) -> bool {
    &&& crate::resource_preparation::allocation_of(cache.allocations, resource.allocation) == Some(
        resource.allocation_description,
    )
    &&& view_found(cache.views, resource, current) matches Some(position)
    &&& cache.views[position].dependency == dependency
}

/// Whether a resource is among those at the first positions of a list.
pub open spec fn listed(indices: Seq<usize>, end: int, resource: int) -> bool {
    exists|j: int| 0 <= j < end && #[trigger] indices[j] == resource
}

/// A view that is found is there, and is of the same image or buffer bytes.
proof fn lemma_view_found(views: Seq<ViewModel>, resource: ResolvedModel, current: Seq<u64>)
    ensures
        match crate::resource_preparation::view_position(views, resource) {
            Some(position) => 0 <= position < views.len() && views[position].matches_resource(
                resource,
            ) && forall|i: int|
                #![trigger views[i]]
                0 <= i < position ==> !views[i].matches_resource(resource),
            None => forall|i: int|
                #![trigger views[i]]
                0 <= i < views.len() ==> !views[i].matches_resource(resource),
        },
        match crate::resource_preparation::current_view_position(views, resource, current) {
            Some(position) => 0 <= position < views.len() && views[position].remains_current(
                resource,
                current,
            ) && forall|i: int|
                #![trigger views[i]]
                0 <= i < position ==> !views[i].remains_current(resource, current),
            None => forall|i: int|
                #![trigger views[i]]
                0 <= i < views.len() ==> !views[i].remains_current(resource, current),
        },
{
    crate::lists::lemma_first_where(views, |view: ViewModel| view.matches_resource(resource));
    crate::lists::lemma_first_where(
        views,
        |view: ViewModel| view.remains_current(resource, current),
    );
}

/// Position of a view that is of a resource while none before it is.
proof fn lemma_view_at(views: Seq<ViewModel>, resource: ResolvedModel, position: int)
    requires
        0 <= position <= views.len(),
        forall|i: int|
            #![trigger views[i]]
            0 <= i < position ==> !views[i].matches_resource(resource),
        position < views.len() ==> views[position].matches_resource(resource),
    ensures
        crate::resource_preparation::view_position(views, resource) == if position < views.len() {
            Some(position)
        } else {
            None::<int>
        },
{
    crate::lists::lemma_first_where_at(
        views,
        |view: ViewModel| view.matches_resource(resource),
        position,
    );
}

/// Position of a view that is current while none before it is.
proof fn lemma_current_view_at(
    views: Seq<ViewModel>,
    resource: ResolvedModel,
    current: Seq<u64>,
    position: int,
)
    requires
        0 <= position < views.len(),
        forall|i: int|
            #![trigger views[i]]
            0 <= i < position ==> !views[i].remains_current(resource, current),
        views[position].remains_current(resource, current),
    ensures
        crate::resource_preparation::current_view_position(views, resource, current) == Some(
            position,
        ),
{
    crate::lists::lemma_first_where_at(
        views,
        |view: ViewModel| view.remains_current(resource, current),
        position,
    );
}

/// Allocations that are known stay known when another is noted.
proof fn lemma_allocation_kept(work: WorkModel, resource: ResolvedModel, other: ResolvedModel)
    requires
        crate::resource_preparation::allocation_of(work.cache.allocations, other.allocation)
            is Some,
    ensures
        crate::resource_preparation::allocation_of(
            work.allocation_noted(resource).0.cache.allocations,
            other.allocation,
        ) == crate::resource_preparation::allocation_of(
            work.cache.allocations,
            other.allocation,
        ),
{
    let allocations = work.cache.allocations;
    let after = work.allocation_noted(resource).0.cache.allocations;
    let known = crate::resource_preparation::is_allocation(other.allocation);
    crate::lists::lemma_first_where(allocations, known);
    let position = crate::lists::first_where(allocations, known)->Some_0;
    assert forall|i: int| 0 <= i < allocations.len() implies #[trigger] after[i]
        == allocations[i] by {}
    crate::lists::lemma_first_where_at(after, known, position);
}

/// An allocation that was noted is known.
proof fn lemma_allocation_known(work: WorkModel, resource: ResolvedModel)
    requires
        work.allocation_noted(resource).1 is Ok,
    ensures
        crate::resource_preparation::allocation_of(
            work.allocation_noted(resource).0.cache.allocations,
            resource.allocation,
        ) == Some(resource.allocation_description),
{
    let allocations = work.cache.allocations;
    let known = crate::resource_preparation::is_allocation(resource.allocation);
    crate::lists::lemma_first_where(allocations, known);
    if crate::resource_preparation::allocation_of(allocations, resource.allocation) is None {
        crate::lists::lemma_first_where_at(
            work.allocation_noted(resource).0.cache.allocations,
            known,
            allocations.len() as int,
        );
    }
}

/// What another resource is bound to stays when a view becomes one of a resource that had
/// none.
proof fn lemma_found_after_rekeying(
    views: Seq<ViewModel>,
    resource: ResolvedModel,
    current: Seq<u64>,
    position: int,
    other: ResolvedModel,
)
    requires
        crate::lowering_cache::distinct_views(views),
        resource.requires_materialization(),
        crate::resource_preparation::view_position(views, resource) is None,
        crate::resource_preparation::current_view_position(views, resource, current) == Some(
            position,
        ),
        view_found(views, other, current) is Some,
    ensures
        ({
            let after = views.update(
                position,
                crate::resource_preparation::rekeyed(views[position], resource),
            );
            &&& view_found(after, other, current) == view_found(views, other, current)
            &&& after[view_found(views, other, current)->Some_0].dependency
                == views[view_found(views, other, current)->Some_0].dependency
        }),
{
    reveal(crate::lowering_cache::distinct_views);
    lemma_view_found(views, resource, current);
    lemma_view_found(views, other, current);
    let after = views.update(
        position,
        crate::resource_preparation::rekeyed(views[position], resource),
    );
    assert forall|i: int|
        #![trigger after[i]]
        0 <= i < after.len() && i != position implies after[i] == views[i] by {}
    assert(after[position].shape == views[position].shape);
    assert(after[position].pieces == views[position].pieces);
    assert(after[position].cpu_writes == views[position].cpu_writes);
    assert forall|i: int| #![trigger after[i]] 0 <= i < after.len() implies after[i].remains_current(
        other,
        current,
    ) == views[i].remains_current(other, current) by {}
    let found = view_found(views, other, current)->Some_0;
    match crate::resource_preparation::view_position(views, other) {
        Some(at) => {
            if at != position {
                assert(!after[position].matches_resource(other)) by {
                    if after[position].matches_resource(other) {
                        assert(views[at].matches_resource(resource));
                    }
                }
                lemma_view_at(after, other, at);
            } else {
                assert forall|i: int|
                    #![trigger after[i]]
                    0 <= i < after.len() implies !after[i].matches_resource(other) by {
                    if after[i].matches_resource(other) {
                        if i == position {
                            assert(views[position].matches_resource(resource));
                        } else {
                            assert(views[i].same_resource(views[position]));
                            assert(views[position].same_resource(views[i]));
                        }
                    }
                }
                lemma_view_at(after, other, after.len() as int);
                assert forall|i: int|
                    #![trigger after[i]]
                    0 <= i < position implies !after[i].remains_current(other, current) by {
                    assert(!views[i].remains_current(resource, current));
                }
                lemma_current_view_at(after, other, current, position);
            }
        },
        None => {
            lemma_current_view_at(after, other, current, found);
            if after[position].matches_resource(other) {
                assert forall|i: int|
                    #![trigger views[i]]
                    0 <= i < views.len() implies views[i].remains_current(other, current)
                    == views[i].remains_current(resource, current) by {}
                assert(found == position) by {
                    assert(views[found].remains_current(resource, current));
                    assert(views[position].remains_current(other, current));
                }
                lemma_view_at(after, other, position);
            } else {
                lemma_view_at(after, other, after.len() as int);
            }
        },
    }
}

/// What another resource is bound to stays when a new view is created, unless its view gave
/// way.
proof fn lemma_found_after_creation(
    views: Seq<ViewModel>,
    gone: Seq<ResourceDependency>,
    resource: ResolvedModel,
    dependency: ResourceDependency,
    current: Seq<u64>,
    other: ResolvedModel,
)
    requires
        view_found(views, resource, current) is None,
        view_found(views, other, current) is Some,
        !gone.contains(views[view_found(views, other, current)->Some_0].dependency),
    ensures
        ({
            let after = crate::resource_preparation::views_without(views, gone).push(
                crate::resource_preparation::new_view(resource, dependency),
            );
            &&& view_found(after, other, current) matches Some(there)
            &&& after[there].dependency == views[view_found(
                views,
                other,
                current,
            )->Some_0].dependency
        }),
{
    let kept = crate::resource_preparation::views_without(views, gone);
    let added = crate::resource_preparation::new_view(resource, dependency);
    let after = kept.push(added);
    lemma_view_found(views, resource, current);
    lemma_view_found(views, other, current);
    crate::lists::lemma_first_where_filtered(
        views,
        crate::resource_preparation::views_kept(gone),
        |view: ViewModel| view.matches_resource(other),
    );
    crate::lists::lemma_first_where_filtered(
        views,
        crate::resource_preparation::views_kept(gone),
        |view: ViewModel| view.remains_current(other, current),
    );
    lemma_view_found(kept, other, current);
    assert forall|i: int| #![trigger after[i]] 0 <= i < kept.len() implies after[i]
        == kept[i] by {}
    match crate::resource_preparation::view_position(views, other) {
        Some(at) => {
            let there = crate::resource_preparation::view_position(kept, other)->Some_0;
            lemma_view_at(after, other, there);
        },
        None => {
            let there = crate::resource_preparation::current_view_position(
                kept,
                other,
                current,
            )->Some_0;
            let found = view_found(views, other, current)->Some_0;
            lemma_current_view_at(after, other, current, there);
            assert(!added.matches_resource(other)) by {
                if added.matches_resource(other) {
                    assert(views[found].remains_current(resource, current));
                    assert(resource.requires_materialization());
                }
            }
            lemma_view_at(after, other, after.len() as int);
        },
    }
}

/// Binding a resource keeps what another is bound to, as long as its view is bound or no
/// view is created.
proof fn lemma_binding_kept(
    work: WorkModel,
    resource: ResolvedModel,
    index: usize,
    bound: Seq<Option<ResourceDependency>>,
    current: Seq<u64>,
    other: ResolvedModel,
    dependency: ResourceDependency,
)
    requires
        crate::lowering_cache::distinct_views(work.cache.views),
        work.resource_prepared(resource, index, bound, current).1 is Ok,
        binds(work.cache, other, current, dependency),
        bound.contains(Some(dependency)) || view_found(work.cache.views, resource, current) is Some,
    ensures
        binds(
            work.resource_prepared(resource, index, bound, current).0.cache,
            other,
            current,
            dependency,
        ),
{
    lemma_allocation_kept(work, resource, other);
    let views = work.cache.views;
    let noted = work.allocation_noted(resource).0;
    lemma_view_found(views, resource, current);
    if crate::resource_preparation::view_position(views, resource) is None {
        match view_found(views, resource, current) {
            Some(position) => {
                lemma_found_after_rekeying(views, resource, current, position, other);
            },
            None => {
                let gone = crate::resource_preparation::displaced(views, resource.pieces, bound);
                crate::resource_preparation::lemma_displaced(views, resource.pieces, bound);
                let made = noted.made_way(resource, bound).view_created(resource, index).1->Ok_0;
                lemma_found_after_creation(views, gone, resource, made, current, other);
            },
        }
    }
}

/// A resource that was bound would be bound to the same object again, and views stay
/// distinct.
proof fn lemma_binding_made(
    work: WorkModel,
    resource: ResolvedModel,
    index: usize,
    bound: Seq<Option<ResourceDependency>>,
    current: Seq<u64>,
)
    requires
        crate::lowering_cache::distinct_views(work.cache.views),
        work.resource_prepared(resource, index, bound, current).1 is Ok,
    ensures
        ({
            let (after, result) = work.resource_prepared(resource, index, bound, current);
            &&& crate::lowering_cache::distinct_views(after.cache.views)
            &&& binds(after.cache, resource, current, result->Ok_0)
        }),
{
    let (after, result) = work.resource_prepared(resource, index, bound, current);
    let views = work.cache.views;
    lemma_allocation_known(work, resource);
    lemma_view_found(views, resource, current);
    if crate::resource_preparation::view_position(views, resource) is None {
        match view_found(views, resource, current) {
            Some(position) => {
                crate::resource_preparation::lemma_view_rekeyed(views, resource, position);
                lemma_view_at(after.cache.views, resource, position);
            },
            None => {
                let gone = crate::resource_preparation::displaced(views, resource.pieces, bound);
                let kept = crate::resource_preparation::views_without(views, gone);
                crate::resource_preparation::lemma_fewer_views(views, gone, resource);
                crate::resource_preparation::lemma_view_added(kept, resource, result->Ok_0);
                lemma_view_found(kept, resource, current);
                assert forall|i: int|
                    #![trigger after.cache.views[i]]
                    0 <= i < kept.len() implies !after.cache.views[i].matches_resource(
                    resource,
                ) by {
                    assert(after.cache.views[i] == kept[i]);
                }
                lemma_view_at(after.cache.views, resource, kept.len() as int);
            },
        }
    }
}

/// Whether every resource that is bound would be bound to the same object again.
spec fn all_bind(
    cache: CacheModel,
    models: Seq<ResolvedModel>,
    current: Seq<u64>,
    bound: Seq<Option<ResourceDependency>>,
) -> bool {
    forall|i: int|
        #![trigger bound[i]]
        0 <= i < models.len() && bound[i] is Some ==> binds(
            cache,
            models[i],
            current,
            bound[i]->Some_0,
        )
}

/// After resources were bound, each would be bound to the same object again; exactly those
/// asked for are bound.
proof fn lemma_resources_bound(
    work: WorkModel,
    models: Seq<ResolvedModel>,
    indices: Seq<usize>,
    from: int,
    bound: Seq<Option<ResourceDependency>>,
    current: Seq<u64>,
)
    requires
        0 <= from <= indices.len(),
        bound.len() == models.len(),
        crate::lowering_cache::distinct_views(work.cache.views),
        all_bind(work.cache, models, current, bound),
        forall|i: int|
            #![trigger bound[i]]
            0 <= i < models.len() ==> (bound[i] is Some <==> listed(indices, from, i)),
        work.resources_prepared(models, indices, from, bound, current).1 is Ok,
    ensures
        ({
            let (after, result) = work.resources_prepared(models, indices, from, bound, current);
            &&& crate::lowering_cache::distinct_views(after.cache.views)
            &&& result->Ok_0.len() == models.len()
            &&& all_bind(after.cache, models, current, result->Ok_0)
            &&& forall|i: int|
                #![trigger result->Ok_0[i]]
                0 <= i < models.len() ==> (result->Ok_0[i] is Some <==> listed(
                    indices,
                    indices.len() as int,
                    i,
                ))
            &&& forall|j: int|
                #![trigger indices[j]]
                from <= j < indices.len() ==> indices[j] < models.len()
        }),
    decreases indices.len() - from,
{
    if from < indices.len() {
        let index = indices[from];
        let resource = models[index as int];
        let (prepared, result) = work.resource_prepared(resource, index, bound, current);
        let dependency = result->Ok_0;
        let next = bound.update(index as int, Some(dependency));
        lemma_binding_made(work, resource, index, bound, current);
        assert forall|i: int|
            #![trigger next[i]]
            0 <= i < models.len() && next[i] is Some implies binds(
            prepared.cache,
            models[i],
            current,
            next[i]->Some_0,
        ) by {
            if i != index {
                assert(next[i] == bound[i]);
                assert(bound.contains(Some(bound[i]->Some_0)));
                lemma_binding_kept(
                    work,
                    resource,
                    index,
                    bound,
                    current,
                    models[i],
                    bound[i]->Some_0,
                );
            }
        }
        assert forall|i: int| #![trigger next[i]] 0 <= i < models.len() implies (next[i] is Some
            <==> listed(indices, from + 1, i)) by {
            if i == index {
                assert(indices[from] == i);
            } else {
                assert(next[i] == bound[i]);
                if listed(indices, from + 1, i) {
                    let j = choose|j: int| 0 <= j < from + 1 && #[trigger] indices[j] == i;
                    assert(0 <= j < from && indices[j] == i);
                }
                if listed(indices, from, i) {
                    let j = choose|j: int| 0 <= j < from && #[trigger] indices[j] == i;
                    assert(0 <= j < from + 1 && indices[j] == i);
                }
            }
        }
        lemma_resources_bound(prepared, models, indices, from + 1, next, current);
    }
}

/// Where every resource asked for would be bound without creating anything, all are.
proof fn lemma_resources_bound_again(
    work: WorkModel,
    models: Seq<ResolvedModel>,
    indices: Seq<usize>,
    from: int,
    whole: Seq<Option<ResourceDependency>>,
    bound: Seq<Option<ResourceDependency>>,
    current: Seq<u64>,
)
    requires
        0 <= from <= indices.len(),
        whole.len() == models.len(),
        bound.len() == models.len(),
        crate::lowering_cache::distinct_views(work.cache.views),
        all_bind(work.cache, models, current, whole),
        forall|j: int|
            #![trigger indices[j]]
            0 <= j < indices.len() ==> indices[j] < models.len() && whole[indices[j] as int]
                is Some,
        forall|i: int|
            #![trigger bound[i]]
            0 <= i < models.len() ==> bound[i] == if listed(indices, from, i) {
                whole[i]
            } else {
                None
            },
    ensures
        ({
            let (after, result) = work.resources_prepared(models, indices, from, bound, current);
            &&& after.creations == work.creations
            &&& after.invalidations == work.invalidations
            &&& result matches Ok(again)
            &&& again.len() == models.len()
            &&& forall|i: int|
                #![trigger again[i]]
                0 <= i < models.len() ==> again[i] == if listed(
                    indices,
                    indices.len() as int,
                    i,
                ) {
                    whole[i]
                } else {
                    None
                }
        }),
    decreases indices.len() - from,
{
    if from < indices.len() {
        let index = indices[from];
        let resource = models[index as int];
        let dependency = whole[index as int]->Some_0;
        assert(binds(work.cache, resource, current, dependency));
        let (prepared, result) = work.resource_prepared(resource, index, bound, current);
        assert(work.allocation_noted(resource).0 == work);
        assert(result matches Ok(found) && found == dependency);
        lemma_binding_made(work, resource, index, bound, current);
        let next = bound.update(index as int, Some(dependency));
        assert forall|i: int|
            #![trigger whole[i]]
            0 <= i < models.len() && whole[i] is Some implies binds(
            prepared.cache,
            models[i],
            current,
            whole[i]->Some_0,
        ) by {
            lemma_binding_kept(
                work,
                resource,
                index,
                bound,
                current,
                models[i],
                whole[i]->Some_0,
            );
        }
        assert forall|i: int| #![trigger next[i]] 0 <= i < models.len() implies next[i] == if listed(
            indices,
            from + 1,
            i,
        ) {
            whole[i]
        } else {
            None
        } by {
            if i == index {
                assert(indices[from] == i);
            } else {
                assert(next[i] == bound[i]);
                if listed(indices, from + 1, i) {
                    let j = choose|j: int| 0 <= j < from + 1 && #[trigger] indices[j] == i;
                    assert(0 <= j < from && indices[j] == i);
                }
                if listed(indices, from, i) {
                    let j = choose|j: int| 0 <= j < from && #[trigger] indices[j] == i;
                    assert(0 <= j < from + 1 && indices[j] == i);
                }
            }
        }
        lemma_resources_bound_again(prepared, models, indices, from + 1, whole, next, current);
    }
}

/// Resources that an operation has bound are bound to the same objects when they are bound
/// again, without anything to create or to drop, as long as nothing was lowered and no CPU
/// write was seen in between. Each resource asked for is bound, and no other.
pub proof fn law_resources_bind_repeatably(
    work: WorkModel,
    models: Seq<ResolvedModel>,
    indices: Seq<usize>,
    current: Seq<u64>,
    later: WorkModel,
)
    requires
        work.cache.wf(),
        ({
            let unbound = crate::resource_preparation::unbound(models.len());
            let (after, result) = work.resources_prepared(models, indices, 0, unbound, current);
            result is Ok && later.cache == after.cache
        }),
    ensures
        ({
            let unbound = crate::resource_preparation::unbound(models.len());
            let first = work.resources_prepared(models, indices, 0, unbound, current).1;
            let (after, second) = later.resources_prepared(models, indices, 0, unbound, current);
            &&& second == first
            &&& after.creations == later.creations
            &&& after.invalidations == later.invalidations
            &&& first->Ok_0.len() == models.len()
            &&& forall|i: int|
                #![trigger first->Ok_0[i]]
                0 <= i < models.len() ==> (first->Ok_0[i] is Some <==> exists|j: int|
                    0 <= j < indices.len() && #[trigger] indices[j] == i)
        }),
{
    let unbound = crate::resource_preparation::unbound(models.len());
    lemma_resources_bound(work, models, indices, 0, unbound, current);
    let whole = work.resources_prepared(models, indices, 0, unbound, current).1->Ok_0;
    assert forall|j: int|
        #![trigger indices[j]]
        0 <= j < indices.len() implies indices[j] < models.len() && whole[indices[j] as int]
        is Some by {
        assert(listed(indices, indices.len() as int, indices[j] as int));
    }
    lemma_resources_bound_again(later, models, indices, 0, whole, unbound, current);
    let again = later.resources_prepared(models, indices, 0, unbound, current).1->Ok_0;
    assert forall|i: int| #![trigger again[i]] 0 <= i < models.len() implies again[i] == whole[i] by {
        assert(whole[i] is Some <==> listed(indices, indices.len() as int, i));
    }
    assert(again =~= whole);
    assert forall|i: int| #![trigger whole[i]] 0 <= i < models.len() implies (whole[i] is Some
        <==> exists|j: int| 0 <= j < indices.len() && #[trigger] indices[j] == i) by {
        assert(whole[i] is Some <==> listed(indices, indices.len() as int, i));
    }
}

} // verus!
