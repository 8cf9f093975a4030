//! Binding of resolved resources to backend objects.

use vstd::prelude::*;
use crate::draw_plan::{add_creation, CreationModel, ResourceCreation};
use crate::lists::{copied, extend_unique, holds_dependency};
use crate::lowering_cache::{CacheModel, DescriptorModel, DescriptorRecord, MaxwellThreeDLoweringCache, ViewMaterialization, ViewModel, ViewRecord};
use crate::lowering_error::MaxwellThreeDLoweringError;
use crate::neutral::{AccessScope, AccessTarget, GpuAllocationDescription, GpuAllocationId, ResourceDependency};
use crate::resource::{BackingPiece, MaxwellThreeDResolvedResource, MaxwellThreeDResolvedResources, MaxwellThreeDResourceRole, ResolvedModel, ViewShape};

verus! {

/// Cache together with what the work being lowered asks a backend to create and to drop.
#[verifier::ext_equal]
pub struct WorkModel {
    pub cache: CacheModel,
    pub creations: Seq<CreationModel>,
    pub invalidations: Seq<ResourceDependency>,
}

/// Whether an entry is of an allocation.
pub open spec fn is_allocation(id: GpuAllocationId) -> spec_fn(
    (GpuAllocationId, GpuAllocationDescription),
) -> bool {
    |allocation: (GpuAllocationId, GpuAllocationDescription)| allocation.0 == id
}

/// Description of an allocation that is known.
pub open spec fn allocation_of(
    allocations: Seq<(GpuAllocationId, GpuAllocationDescription)>,
    id: GpuAllocationId,
) -> Option<GpuAllocationDescription> {
    match crate::lists::first_where(allocations, is_allocation(id)) {
        Some(position) => Some(allocations[position].1),
        None => None,
    }
}

#[verifier::loop_isolation(false)]
fn find_allocation(
    allocations: &Vec<(GpuAllocationId, GpuAllocationDescription)>,
    id: GpuAllocationId,
) -> (r: Option<GpuAllocationDescription>)
    ensures
        r == allocation_of(allocations@, id),
{
    let ghost wanted = is_allocation(id);
    let mut index: usize = 0;
    while index < allocations.len()
        invariant
            index <= allocations@.len(),
            forall|i: int|
                #![trigger allocations@[i]]
                0 <= i < index ==> !wanted(allocations@[i]),
        decreases allocations@.len() - index,
    {
        if allocations[index].0 == id {
            proof {
                crate::lists::lemma_first_where_at(allocations@, wanted, index as int);
            }
            return Some(allocations[index].1);
        }
        index = index + 1;
    }
    proof {
        crate::lists::lemma_first_where_at(allocations@, wanted, index as int);
    }
    None
}

/// Position of the view of a resource.
pub open spec fn view_position(views: Seq<ViewModel>, resource: ResolvedModel) -> Option<int> {
    crate::lists::first_where(views, |view: ViewModel| view.matches_resource(resource))
}

/// Position of the first matching view of a resource, if any.
#[verifier::loop_isolation(false)]
pub fn find_view(views: &Vec<ViewRecord>, resource: &MaxwellThreeDResolvedResource) -> (r: Option<
    usize,
>)
    ensures
        match r {
            Some(position) => position < views@.len() && view_position(
                crate::lowering_cache::view_models(views@),
                resource@,
            ) == Some(position as int),
            None => view_position(crate::lowering_cache::view_models(views@), resource@) is None,
        },
{
    let ghost models = crate::lowering_cache::view_models(views@);
    let ghost wanted = |view: ViewModel| view.matches_resource(resource@);
    let mut index: usize = 0;
    while index < views.len()
        invariant
            index <= views@.len(),
            forall|i: int|
                #![trigger models[i]]
                0 <= i < index ==> !wanted(models[i]),
        decreases views@.len() - index,
    {
        proof {
            assert(models[index as int] == views@[index as int]@);
        }
        if views[index].matches_resource(resource) {
            proof {
                crate::lists::lemma_first_where_at(models, wanted, index as int);
            }
            return Some(index);
        }
        index = index + 1;
    }
    proof {
        crate::lists::lemma_first_where_at(models, wanted, index as int);
    }
    None
}

/// Position of the view that still holds the bytes of an image.
pub open spec fn current_view_position(
    views: Seq<ViewModel>,
    resource: ResolvedModel,
    current: Seq<u64>,
) -> Option<int> {
    crate::lists::first_where(views, |view: ViewModel| view.remains_current(resource, current))
}

#[verifier::loop_isolation(false)]
fn find_current_view(
    views: &Vec<ViewRecord>,
    resource: &MaxwellThreeDResolvedResource,
    current: &Vec<u64>,
) -> (r: Option<usize>)
    ensures
        match r {
            Some(position) => position < views@.len() && current_view_position(
                crate::lowering_cache::view_models(views@),
                resource@,
                current@,
            ) == Some(position as int),
            None => current_view_position(
                crate::lowering_cache::view_models(views@),
                resource@,
                current@,
            ) is None,
        },
{
    let ghost models = crate::lowering_cache::view_models(views@);
    let ghost wanted = |view: ViewModel| view.remains_current(resource@, current@);
    let mut index: usize = 0;
    while index < views.len()
        invariant
            index <= views@.len(),
            forall|i: int|
                #![trigger models[i]]
                0 <= i < index ==> !wanted(models[i]),
        decreases views@.len() - index,
    {
        proof {
            assert(models[index as int] == views@[index as int]@);
        }
        if views[index].remains_current(resource, current) {
            proof {
                crate::lists::lemma_first_where_at(models, wanted, index as int);
            }
            return Some(index);
        }
        index = index + 1;
    }
    proof {
        crate::lists::lemma_first_where_at(models, wanted, index as int);
    }
    None
}

/// Whether a view gives way to a new view: it shares bytes with it and the operation has
/// not bound it.
pub open spec fn gives_way(
    view: ViewModel,
    pieces: Seq<BackingPiece>,
    bound: Seq<Option<ResourceDependency>>,
) -> bool {
    crate::lowering_cache::pieces_overlap(view.pieces, pieces) && !bound.contains(Some(view.dependency))
}

/// Views that give way to a new view.
pub open spec fn displaced(
    views: Seq<ViewModel>,
    pieces: Seq<BackingPiece>,
    bound: Seq<Option<ResourceDependency>>,
) -> Seq<ResourceDependency> {
    views.filter(|view: ViewModel| gives_way(view, pieces, bound)).map_values(
        |view: ViewModel| view.dependency,
    )
}

fn holds_bound(bound: &Vec<Option<ResourceDependency>>, wanted: ResourceDependency) -> (r: bool)
    ensures
        r == bound@.contains(Some(wanted)),
{
    let mut index: usize = 0;
    while index < bound.len()
        invariant
            index <= bound@.len(),
            forall|i: int| 0 <= i < index ==> bound@[i] != Some(wanted),
        decreases bound@.len() - index,
    {
        if let Some(dependency) = bound[index] {
            if dependency == wanted {
                proof {
                    assert(bound@[index as int] == Some(wanted));
                }
                return true;
            }
        }
        index = index + 1;
    }
    false
}

#[verifier::loop_isolation(false)]
fn find_displaced(
    views: &Vec<ViewRecord>,
    pieces: &Vec<BackingPiece>,
    bound: &Vec<Option<ResourceDependency>>,
) -> (r: Vec<ResourceDependency>)
    ensures
        r@ == displaced(crate::lowering_cache::view_models(views@), pieces@, bound@),
{
    let ghost models = crate::lowering_cache::view_models(views@);
    let ghost wanted = |view: ViewModel| gives_way(view, pieces@, bound@);
    let ghost name = |view: ViewModel| view.dependency;
    let mut found: Vec<ResourceDependency> = Vec::new();
    let mut index: usize = 0;
    proof {
        crate::lists::lemma_filter_start(models, wanted);
        assert(found@ =~= models.take(0).filter(wanted).map_values(name));
    }
    while index < views.len()
        invariant
            index <= views@.len(),
            found@ == models.take(index as int).filter(wanted).map_values(name),
        decreases views@.len() - index,
    {
        let ghost earlier = models.take(index as int).filter(wanted);
        proof {
            assert(models[index as int] == views@[index as int]@);
            crate::lists::lemma_filter_step(models, wanted, index as int);
        }
        if views[index].overlaps(pieces) && !holds_bound(bound, views[index].dependency) {
            found.push(views[index].dependency);
            proof {
                assert(found@ =~= earlier.push(models[index as int]).map_values(name));
            }
        }
        index = index + 1;
    }
    proof {
        assert(models.take(index as int) =~= models);
    }
    found
}

/// Keeps views of other objects than some.
pub open spec fn views_kept(gone: Seq<ResourceDependency>) -> spec_fn(ViewModel) -> bool {
    |view: ViewModel| !gone.contains(view.dependency)
}

/// Views without those of some objects.
pub open spec fn views_without(views: Seq<ViewModel>, gone: Seq<ResourceDependency>) -> Seq<
    ViewModel,
> {
    views.filter(views_kept(gone))
}

/// Models of views after one of them was removed.
proof fn lemma_view_removed(views: Seq<ViewRecord>, index: int)
    requires
        0 <= index < views.len(),
    ensures
        crate::lowering_cache::view_models(views.remove(index))
            == crate::lowering_cache::view_models(views).remove(index),
        crate::lowering_cache::view_models(views).len() == views.len(),
        crate::lowering_cache::view_models(views)[index] == views[index]@,
{
    assert(crate::lowering_cache::view_models(views.remove(index))
        =~= crate::lowering_cache::view_models(views).remove(index));
}

#[verifier::spinoff_prover]
fn remove_views(views: &mut Vec<ViewRecord>, gone: &Vec<ResourceDependency>)
    ensures
        crate::lowering_cache::view_models(final(views)@) == views_without(
            crate::lowering_cache::view_models(old(views)@),
            gone@,
        ),
{
    let ghost before = crate::lowering_cache::view_models(views@);
    let ghost wanted = views_kept(gone@);
    let ghost mut done: int = 0;
    let mut index: usize = 0;
    proof {
        crate::lists::lemma_retain_ends(before, wanted);
    }
    while index < views.len()
        invariant
            wanted == views_kept(gone@),
            index <= views@.len(),
            0 <= done <= before.len(),
            index == before.take(done).filter(wanted).len(),
            crate::lowering_cache::view_models(views@) == crate::lists::filtered_up_to(
                before,
                wanted,
                done,
            ),
        decreases before.len() - done,
    {
        proof {
            if done == before.len() {
                crate::lists::lemma_retain_ends(before, wanted);
                assert(before.take(done) =~= before);
            }
            crate::lists::lemma_retain_step(before, wanted, done);
            lemma_view_removed(views@, index as int);
            done = done + 1;
        }
        if holds_dependency(gone, views[index].dependency) {
            let _removed = views.remove(index);
        } else {
            index = index + 1;
        }
    }
    proof {
        assert(crate::lowering_cache::view_models(views@).len() == views@.len());
        assert(done == before.len()) by {
            if done < before.len() {
                crate::lists::lemma_retain_step(before, wanted, done);
            }
        }
        crate::lists::lemma_retain_ends(before, wanted);
    }
}

/// Whether an access is to one of some objects.
pub open spec fn touches(target: AccessTarget, gone: Seq<ResourceDependency>) -> bool {
    match target {
        AccessTarget::Buffer { buffer, .. } => gone.contains(ResourceDependency::Buffer(buffer)),
        AccessTarget::Image { image, .. } => gone.contains(ResourceDependency::Image(image)),
    }
}

/// Accesses without those to some objects.
pub open spec fn accesses_without(
    accesses: Seq<(AccessTarget, AccessScope)>,
    gone: Seq<ResourceDependency>,
) -> Seq<(AccessTarget, AccessScope)> {
    accesses.filter(|access: (AccessTarget, AccessScope)| !touches(access.0, gone))
}

#[verifier::loop_isolation(false)]
fn remaining_accesses(
    accesses: &Vec<(AccessTarget, AccessScope)>,
    gone: &Vec<ResourceDependency>,
) -> (r: Vec<(AccessTarget, AccessScope)>)
    ensures
        r@ == accesses_without(accesses@, gone@),
{
    let ghost wanted = |access: (AccessTarget, AccessScope)| !touches(access.0, gone@);
    let mut kept: Vec<(AccessTarget, AccessScope)> = Vec::new();
    let mut index: usize = 0;
    proof {
        crate::lists::lemma_filter_start(accesses@, wanted);
    }
    while index < accesses.len()
        invariant
            index <= accesses@.len(),
            kept@ == accesses@.take(index as int).filter(wanted),
        decreases accesses@.len() - index,
    {
        let access = accesses[index];
        proof {
            crate::lists::lemma_filter_step(accesses@, wanted, index as int);
        }
        let touched = match access.0 {
            AccessTarget::Buffer { buffer, .. } => holds_dependency(
                gone,
                ResourceDependency::Buffer(buffer),
            ),
            AccessTarget::Image { image, .. } => holds_dependency(
                gone,
                ResourceDependency::Image(image),
            ),
        };
        if !touched {
            kept.push(access);
        }
        index = index + 1;
    }
    proof {
        assert(accesses@.take(index as int) =~= accesses@);
    }
    kept
}

/// Whether a descriptor table refers to one of some objects.
pub open spec fn table_uses(table: DescriptorModel, gone: Seq<ResourceDependency>) -> bool {
    exists|i: int|
        0 <= i < table.entries.len() && gone.contains((#[trigger] table.entries[i]).dependency)
}

fn table_is_affected(table: &DescriptorRecord, gone: &Vec<ResourceDependency>) -> (r: bool)
    ensures
        r == table_uses(table@, gone@),
{
    let mut index: usize = 0;
    while index < table.entries.len()
        invariant
            index <= table.entries@.len(),
            forall|i: int|
                #![trigger table.entries@[i]]
                0 <= i < index ==> !gone@.contains(table.entries@[i].dependency),
        decreases table.entries@.len() - index,
    {
        if holds_dependency(gone, table.entries[index].dependency) {
            proof {
                assert(gone@.contains(table@.entries[index as int].dependency));
            }
            return true;
        }
        index = index + 1;
    }
    false
}

/// Descriptor tables that refer to some objects.
pub open spec fn affected_tables(tables: Seq<DescriptorModel>, gone: Seq<ResourceDependency>) -> Seq<
    ResourceDependency,
> {
    tables.filter(|table: DescriptorModel| table_uses(table, gone)).map_values(
        |table: DescriptorModel| ResourceDependency::DescriptorTable(table.id),
    )
}

/// Keeps other tables than some.
pub open spec fn tables_kept(gone: Seq<ResourceDependency>) -> spec_fn(DescriptorModel) -> bool {
    |table: DescriptorModel| !gone.contains(ResourceDependency::DescriptorTable(table.id))
}

/// Tables without some.
pub open spec fn tables_without(tables: Seq<DescriptorModel>, gone: Seq<ResourceDependency>) -> Seq<
    DescriptorModel,
> {
    tables.filter(tables_kept(gone))
}

#[verifier::loop_isolation(false)]
fn find_affected_tables(tables: &Vec<DescriptorRecord>, gone: &Vec<ResourceDependency>) -> (r: Vec<
    ResourceDependency,
>)
    ensures
        r@ == affected_tables(crate::lowering_cache::descriptor_models(tables@), gone@),
{
    let ghost models = crate::lowering_cache::descriptor_models(tables@);
    let ghost wanted = |table: DescriptorModel| table_uses(table, gone@);
    let ghost name = |table: DescriptorModel| ResourceDependency::DescriptorTable(table.id);
    let mut found: Vec<ResourceDependency> = Vec::new();
    let mut index: usize = 0;
    proof {
        crate::lists::lemma_filter_start(models, wanted);
        assert(found@ =~= models.take(0).filter(wanted).map_values(name));
    }
    while index < tables.len()
        invariant
            index <= tables@.len(),
            found@ == models.take(index as int).filter(wanted).map_values(name),
        decreases tables@.len() - index,
    {
        let ghost earlier = models.take(index as int).filter(wanted);
        proof {
            assert(models[index as int] == tables@[index as int]@);
            crate::lists::lemma_filter_step(models, wanted, index as int);
        }
        if table_is_affected(&tables[index], gone) {
            found.push(ResourceDependency::DescriptorTable(tables[index].id));
            proof {
                assert(found@ =~= earlier.push(models[index as int]).map_values(name));
            }
        }
        index = index + 1;
    }
    proof {
        assert(models.take(index as int) =~= models);
    }
    found
}

/// Models of tables after one of them was removed.
proof fn lemma_table_removed(tables: Seq<DescriptorRecord>, index: int)
    requires
        0 <= index < tables.len(),
    ensures
        crate::lowering_cache::descriptor_models(tables.remove(index))
            == crate::lowering_cache::descriptor_models(tables).remove(index),
        crate::lowering_cache::descriptor_models(tables).len() == tables.len(),
        crate::lowering_cache::descriptor_models(tables)[index] == tables[index]@,
{
    assert(crate::lowering_cache::descriptor_models(tables.remove(index))
        =~= crate::lowering_cache::descriptor_models(tables).remove(index));
}

#[verifier::spinoff_prover]
fn remove_tables(tables: &mut Vec<DescriptorRecord>, gone: &Vec<ResourceDependency>)
    ensures
        crate::lowering_cache::descriptor_models(final(tables)@) == tables_without(
            crate::lowering_cache::descriptor_models(old(tables)@),
            gone@,
        ),
{
    let ghost before = crate::lowering_cache::descriptor_models(tables@);
    let ghost wanted = tables_kept(gone@);
    let ghost mut done: int = 0;
    let mut index: usize = 0;
    proof {
        crate::lists::lemma_retain_ends(before, wanted);
    }
    while index < tables.len()
        invariant
            wanted == tables_kept(gone@),
            index <= tables@.len(),
            0 <= done <= before.len(),
            index == before.take(done).filter(wanted).len(),
            crate::lowering_cache::descriptor_models(tables@) == crate::lists::filtered_up_to(
                before,
                wanted,
                done,
            ),
        decreases before.len() - done,
    {
        proof {
            if done == before.len() {
                crate::lists::lemma_retain_ends(before, wanted);
                assert(before.take(done) =~= before);
            }
            crate::lists::lemma_retain_step(before, wanted, done);
            lemma_table_removed(tables@, index as int);
            done = done + 1;
        }
        if holds_dependency(gone, ResourceDependency::DescriptorTable(tables[index].id)) {
            let _removed = tables.remove(index);
        } else {
            index = index + 1;
        }
    }
    proof {
        assert(crate::lowering_cache::descriptor_models(tables@).len() == tables@.len());
        assert(done == before.len()) by {
            if done < before.len() {
                crate::lists::lemma_retain_step(before, wanted, done);
            }
        }
        crate::lists::lemma_retain_ends(before, wanted);
    }
}

/// Drops the descriptor tables that refer to some objects, and tells which those are.
pub fn drop_affected_tables(tables: &mut Vec<DescriptorRecord>, gone: &Vec<ResourceDependency>) -> (r:
    Vec<ResourceDependency>)
    ensures
        r@ == affected_tables(crate::lowering_cache::descriptor_models(old(tables)@), gone@),
        crate::lowering_cache::descriptor_models(final(tables)@) == tables_without(
            crate::lowering_cache::descriptor_models(old(tables)@),
            r@,
        ),
{
    let affected = find_affected_tables(tables, gone);
    remove_tables(tables, &affected);
    affected
}

impl WorkModel {
    /// Work after the allocation of a resource was made known; an allocation keeps the
    /// description it was first seen with.
    pub open spec fn allocation_noted(self, resource: ResolvedModel) -> (
        WorkModel,
        Result<(), MaxwellThreeDLoweringError>,
    ) {
        match allocation_of(self.cache.allocations, resource.allocation) {
            Some(known) => if known != resource.allocation_description {
                (
                    self,
                    Err(
                        MaxwellThreeDLoweringError::AllocationDescriptionChanged {
                            allocation: resource.allocation,
                        },
                    ),
                )
            } else {
                (self, Ok(()))
            },
            None => (
                WorkModel {
                    cache: CacheModel {
                        allocations: self.cache.allocations.push(
                            (resource.allocation, resource.allocation_description),
                        ),
                        ..self.cache
                    },
                    creations: self.creations.push(
                        CreationModel::Allocation {
                            id: resource.allocation,
                            description: resource.allocation_description,
                        },
                    ),
                    ..self
                },
                Ok(()),
            ),
        }
    }

    /// Work after the views that a new view displaces were dropped, with the accesses
    /// to them and the descriptor tables that refer to them.
    pub open spec fn made_way(
        self,
        resource: ResolvedModel,
        bound: Seq<Option<ResourceDependency>>,
    ) -> WorkModel {
        let gone = displaced(self.cache.views, resource.pieces, bound);
        let tables = affected_tables(self.cache.descriptors, gone);
        WorkModel {
            cache: CacheModel {
                views: views_without(self.cache.views, gone),
                accesses: accesses_without(self.cache.accesses, gone),
                descriptors: tables_without(self.cache.descriptors, tables),
                ..self.cache
            },
            invalidations: crate::lists::extended(
                crate::lists::extended(self.invalidations, tables),
                gone,
            ),
            ..self
        }
    }

    /// Work after a new view of a resource was created under the next identity, which is
    /// used up even where no view can be made.
    pub open spec fn view_created(self, resource: ResolvedModel, index: usize) -> (
        WorkModel,
        Result<ResourceDependency, MaxwellThreeDLoweringError>,
    ) {
        match self.cache.identity_taken() {
            Err(error) => (self, Err(error)),
            Ok((taken, id)) => if !resource.view_is_valid {
                (
                    WorkModel { cache: taken, ..self },
                    Err(MaxwellThreeDLoweringError::InvalidResolvedView { role: resource.role }),
                )
            } else {
                let dependency = match resource.shape {
                    ViewShape::Buffer { .. } => ResourceDependency::Buffer(id),
                    ViewShape::Image { .. } => ResourceDependency::Image(id),
                };
                (
                    WorkModel {
                        cache: CacheModel {
                            views: self.cache.views.push(
                                new_view(resource, dependency),
                            ),
                            ..taken
                        },
                        creations: self.creations.push(
                            match resource.shape {
                                ViewShape::Buffer { .. } => CreationModel::Buffer {
                                    id,
                                    resource: index,
                                },
                                ViewShape::Image { .. } => CreationModel::Image {
                                    id,
                                    resource: index,
                                    with_view: resource.has_direct_representation,
                                },
                            },
                        ),
                        ..self
                    },
                    Ok(dependency),
                )
            },
        }
    }

    /// Work after a view of a resource was found or created: a view of exactly this
    /// resource is used again, and so is a view that still holds the bytes of a
    /// compressed image, which then becomes a view of this resource; else a new view is
    /// created and those in its way are dropped.
    pub open spec fn view_provided(
        self,
        resource: ResolvedModel,
        index: usize,
        bound: Seq<Option<ResourceDependency>>,
        current: Seq<u64>,
    ) -> (WorkModel, Result<ResourceDependency, MaxwellThreeDLoweringError>) {
        let views = self.cache.views;
        match view_position(views, resource) {
            Some(position) => (self, Ok(views[position].dependency)),
            None => match (
                resource.requires_materialization(),
                current_view_position(views, resource, current),
            ) {
                (true, Some(position)) => (
                    WorkModel {
                        cache: CacheModel {
                            views: views.update(position, rekeyed(views[position], resource)),
                            ..self.cache
                        },
                        ..self
                    },
                    Ok(views[position].dependency),
                ),
                _ => self.made_way(resource, bound).view_created(resource, index),
            },
        }
    }

    /// Work after a resource was bound.
    pub open spec fn resource_prepared(
        self,
        resource: ResolvedModel,
        index: usize,
        bound: Seq<Option<ResourceDependency>>,
        current: Seq<u64>,
    ) -> (WorkModel, Result<ResourceDependency, MaxwellThreeDLoweringError>) {
        match self.allocation_noted(resource) {
            (noted, Err(error)) => (noted, Err(error)),
            (noted, Ok(())) => noted.view_provided(resource, index, bound, current),
        }
    }

    /// Work after the resources at some positions were bound, from one of them on.
    pub open spec fn resources_prepared(
        self,
        models: Seq<ResolvedModel>,
        indices: Seq<usize>,
        from: int,
        bound: Seq<Option<ResourceDependency>>,
        current: Seq<u64>,
    ) -> (WorkModel, Result<Seq<Option<ResourceDependency>>, MaxwellThreeDLoweringError>)
        decreases indices.len() - from,
    {
        if from < 0 || from >= indices.len() {
            (self, Ok(bound))
        } else if indices[from] >= models.len() {
            (self, Err(MaxwellThreeDLoweringError::ResourceExhausted))
        } else {
            let index = indices[from];
            match self.resource_prepared(models[index as int], index, bound, current) {
                (prepared, Err(error)) => (prepared, Err(error)),
                (prepared, Ok(dependency)) => prepared.resources_prepared(
                    models,
                    indices,
                    from + 1,
                    bound.update(index as int, Some(dependency)),
                    current,
                ),
            }
        }
    }
}

/// What a new view retains of the contents of a resource.
pub open spec fn initial_materialization(resource: ResolvedModel) -> ViewMaterialization {
    if !resource.requires_materialization() {
        ViewMaterialization::Direct
    } else if resource.role == MaxwellThreeDResourceRole::DepthStencilTarget {
        ViewMaterialization::CompressedDepthStencil { depth: false, stencil: false }
    } else {
        ViewMaterialization::CompressedColor
    }
}

/// Record of a new view.
pub open spec fn new_view(resource: ResolvedModel, dependency: ResourceDependency) -> ViewModel {
    ViewModel {
        shape: resource.shape,
        pieces: resource.pieces,
        mappings: resource.mappings,
        dependency,
        materialization: initial_materialization(resource),
        cpu_writes: match resource.shape {
            ViewShape::Buffer { .. } => None,
            ViewShape::Image { .. } => resource.cpu_writes,
        },
    }
}

/// View that has become one of another resource.
pub open spec fn rekeyed(view: ViewModel, resource: ResolvedModel) -> ViewModel {
    ViewModel {
        shape: resource.shape,
        pieces: resource.pieces,
        mappings: resource.mappings,
        ..view
    }
}

/// Cache and work, seen together.
pub open spec fn work_model(
    cache: MaxwellThreeDLoweringCache,
    creations: Vec<ResourceCreation>,
    invalidations: Vec<ResourceDependency>,
) -> WorkModel {
    WorkModel { cache: cache@, creations: crate::draw_plan::creation_models(creations@), invalidations: invalidations@ }
}

/// Views stay distinct when some are dropped, and none becomes one of a resource.
pub proof fn lemma_fewer_views(
    views: Seq<ViewModel>,
    gone: Seq<ResourceDependency>,
    resource: ResolvedModel,
)
    requires
        crate::lowering_cache::distinct_views(views),
    ensures
        crate::lowering_cache::distinct_views(views_without(views, gone)),
        view_position(views, resource) is None ==> view_position(
            views_without(views, gone),
            resource,
        ) is None,
{
    reveal(crate::lowering_cache::distinct_views);
    crate::lists::lemma_filter_keeps_apart(
        views,
        views_kept(gone),
        |left: ViewModel, right: ViewModel| left.same_resource(right),
    );
    crate::lists::lemma_first_where_filtered(
        views,
        views_kept(gone),
        |view: ViewModel| view.matches_resource(resource),
    );
}

/// Views stay distinct when a resource that has none gets one.
pub proof fn lemma_view_added(
    views: Seq<ViewModel>,
    resource: ResolvedModel,
    dependency: ResourceDependency,
)
    requires
        crate::lowering_cache::distinct_views(views),
        view_position(views, resource) is None,
    ensures
        crate::lowering_cache::distinct_views(views.push(new_view(resource, dependency))),
{
    reveal(crate::lowering_cache::distinct_views);
    crate::lists::lemma_first_where(
        views,
        |view: ViewModel| view.matches_resource(resource),
    );
}

/// Views stay distinct when one of them becomes one of a resource that has none.
pub proof fn lemma_view_rekeyed(views: Seq<ViewModel>, resource: ResolvedModel, position: int)
    requires
        crate::lowering_cache::distinct_views(views),
        view_position(views, resource) is None,
        0 <= position < views.len(),
    ensures
        crate::lowering_cache::distinct_views(
            views.update(position, rekeyed(views[position], resource)),
        ),
{
    reveal(crate::lowering_cache::distinct_views);
    crate::lists::lemma_first_where(
        views,
        |view: ViewModel| view.matches_resource(resource),
    );
}

fn note_allocation(
    resource: &MaxwellThreeDResolvedResource,
    cache: &mut MaxwellThreeDLoweringCache,
    creations: &mut Vec<ResourceCreation>,
    invalidations: &mut Vec<ResourceDependency>,
) -> (r: Result<(), MaxwellThreeDLoweringError>)
    requires
        old(cache).wf(),
    ensures
        final(cache).wf(),
        (work_model(*final(cache), *final(creations), *final(invalidations)), r) == work_model(*old(cache), *old(creations), *old(invalidations)).allocation_noted(resource@),
{
    match find_allocation(&cache.allocations, resource.allocation) {
        Some(known) => {
            if known != resource.allocation_description {
                return Err(
                    MaxwellThreeDLoweringError::AllocationDescriptionChanged {
                        allocation: resource.allocation,
                    },
                );
            }
        },
        None => {
            cache.allocations.push((resource.allocation, resource.allocation_description));
            add_creation(
                creations,
                ResourceCreation::Allocation {
                    id: resource.allocation,
                    description: resource.allocation_description,
                },
            );
        },
    }
    Ok(())
}

fn make_way(
    resource: &MaxwellThreeDResolvedResource,
    bound: &Vec<Option<ResourceDependency>>,
    cache: &mut MaxwellThreeDLoweringCache,
    creations: &mut Vec<ResourceCreation>,
    invalidations: &mut Vec<ResourceDependency>,
)
    requires
        old(cache).wf(),
    ensures
        final(cache).wf(),
        work_model(*final(cache), *final(creations), *final(invalidations)) == work_model(*old(cache), *old(creations), *old(invalidations)).made_way(resource@, bound@),
        view_position(old(cache)@.views, resource@) is None ==> view_position(
            final(cache)@.views,
            resource@,
        ) is None,
{
    let gone = find_displaced(&cache.views, &resource.pieces, bound);
    proof {
        lemma_fewer_views(cache@.views, gone@, resource@);
    }
    remove_views(&mut cache.views, &gone);
    cache.accesses = remaining_accesses(&cache.accesses, &gone);
    let tables = drop_affected_tables(&mut cache.descriptors, &gone);
    extend_unique(invalidations, &tables);
    extend_unique(invalidations, &gone);
}

fn create_view(
    resource: &MaxwellThreeDResolvedResource,
    index: usize,
    cache: &mut MaxwellThreeDLoweringCache,
    creations: &mut Vec<ResourceCreation>,
    invalidations: &mut Vec<ResourceDependency>,
) -> (r: Result<ResourceDependency, MaxwellThreeDLoweringError>)
    requires
        old(cache).wf(),
        view_position(old(cache)@.views, resource@) is None,
    ensures
        final(cache).wf(),
        (work_model(*final(cache), *final(creations), *final(invalidations)), r) == work_model(*old(cache), *old(creations), *old(invalidations)).view_created(resource@, index),
{
    let ghost before = cache@;
    let materialization = if !resource.requires_materialization() {
        ViewMaterialization::Direct
    } else if resource.role == MaxwellThreeDResourceRole::DepthStencilTarget {
        ViewMaterialization::CompressedDepthStencil { depth: false, stencil: false }
    } else {
        ViewMaterialization::CompressedColor
    };
    let id: u64 = match cache.take_identity() {
        Ok(id) => id,
        Err(error) => {
            return Err(error);
        },
    };
    if !resource.view_is_valid {
        return Err(MaxwellThreeDLoweringError::InvalidResolvedView { role: resource.role });
    }
    let (dependency, cpu_writes): (ResourceDependency, Option<u64>) = match resource.shape {
        ViewShape::Buffer { .. } => {
            add_creation(creations, ResourceCreation::Buffer { id, resource: index });
            (ResourceDependency::Buffer(id), None)
        },
        ViewShape::Image { .. } => {
            add_creation(
                creations,
                ResourceCreation::Image {
                    id,
                    resource: index,
                    with_view: resource.has_direct_representation,
                },
            );
            (ResourceDependency::Image(id), resource.cpu_writes)
        },
    };
    let record = ViewRecord {
        shape: resource.shape,
        pieces: copied(&resource.pieces),
        mappings: copied(&resource.mappings),
        dependency,
        materialization,
        cpu_writes,
    };
    proof {
        assert(record@ == new_view(resource@, dependency));
        lemma_view_added(before.views, resource@, dependency);
    }
    cache.views.push(record);
    proof {
        assert(cache@.views =~= before.views.push(new_view(resource@, dependency)));
    }
    Ok(dependency)
}

fn rekey(view: &mut ViewRecord, resource: &MaxwellThreeDResolvedResource)
    ensures
        final(view)@ == rekeyed(old(view)@, resource@),
{
    view.shape = resource.shape;
    view.pieces = copied(&resource.pieces);
    view.mappings = copied(&resource.mappings);
}

/// Binds one resource.
pub fn prepare_resource(
    resource: &MaxwellThreeDResolvedResource,
    index: usize,
    bound: &Vec<Option<ResourceDependency>>,
    current: &Vec<u64>,
    cache: &mut MaxwellThreeDLoweringCache,
    creations: &mut Vec<ResourceCreation>,
    invalidations: &mut Vec<ResourceDependency>,
) -> (r: Result<ResourceDependency, MaxwellThreeDLoweringError>)
    requires
        old(cache).wf(),
    ensures
        final(cache).wf(),
        (work_model(*final(cache), *final(creations), *final(invalidations)), r) == work_model(
            *old(cache),
            *old(creations),
            *old(invalidations),
        ).resource_prepared(resource@, index, bound@, current@),
{
    match note_allocation(resource, cache, creations, invalidations) {
        Ok(()) => {},
        Err(error) => {
            return Err(error);
        },
    }
    if let Some(position) = find_view(&cache.views, resource) {
        return Ok(cache.views[position].dependency);
    }
    if resource.requires_materialization() {
        if let Some(position) = find_current_view(&cache.views, resource, current) {
            let ghost before = cache@;
            let dependency = cache.views[position].dependency;
            rekey(&mut cache.views[position], resource);
            proof {
                lemma_view_rekeyed(before.views, resource@, position as int);
                assert(cache@.views =~= before.views.update(
                    position as int,
                    rekeyed(before.views[position as int], resource@),
                ));
            }
            return Ok(dependency);
        }
    }
    make_way(resource, bound, cache, creations, invalidations);
    create_view(resource, index, cache, creations, invalidations)
}

/// Binds the resources at some positions; the result tells what each resource is bound
/// to.
#[verifier::loop_isolation(false)]
pub fn prepare_resources(
    resources: &MaxwellThreeDResolvedResources,
    indices: &Vec<usize>,
    current: &Vec<u64>,
    cache: &mut MaxwellThreeDLoweringCache,
    creations: &mut Vec<ResourceCreation>,
    invalidations: &mut Vec<ResourceDependency>,
) -> (r: Result<Vec<Option<ResourceDependency>>, MaxwellThreeDLoweringError>)
    requires
        old(cache).wf(),
    ensures
        final(cache).wf(),
        ({
            let (after, result) = work_model(
                *old(cache),
                *old(creations),
                *old(invalidations),
            ).resources_prepared(
                resources.models(),
                indices@,
                0,
                unbound(resources.models().len()),
                current@,
            );
            &&& work_model(*final(cache), *final(creations), *final(invalidations)) == after
            &&& match result {
                Ok(bound) => r matches Ok(bindings) && bindings@ == bound && bindings@.len()
                    == resources.resources@.len(),
                Err(error) => r == Err::<
                    Vec<Option<ResourceDependency>>,
                    MaxwellThreeDLoweringError,
                >(error),
            }
        }),
{
    let ghost models = resources.models();
    let ghost whole = work_model(*cache, *creations, *invalidations).resources_prepared(
        models,
        indices@,
        0,
        unbound(models.len()),
        current@,
    );
    let mut bound: Vec<Option<ResourceDependency>> = Vec::new();
    while bound.len() < resources.resources.len()
        invariant
            bound@.len() <= resources.resources@.len(),
            bound@ == unbound(bound@.len()),
        decreases resources.resources@.len() - bound@.len(),
    {
        let ghost length = bound@.len();
        bound.push(None);
        proof {
            assert(bound@ =~= unbound(length + 1));
        }
    }
    let mut index: usize = 0;
    while index < indices.len()
        invariant
            index <= indices@.len(),
            cache.wf(),
            bound@.len() == resources.resources@.len(),
            whole == work_model(*cache, *creations, *invalidations).resources_prepared(
                models,
                indices@,
                index as int,
                bound@,
                current@,
            ),
        decreases indices@.len() - index,
    {
        let position: usize = indices[index];
        if position >= resources.resources.len() {
            return Err(MaxwellThreeDLoweringError::ResourceExhausted);
        }
        proof {
            assert(models[position as int] == resources.resources@[position as int]@);
        }
        match prepare_resource(
            &resources.resources[position],
            position,
            &bound,
            current,
            cache,
            creations,
            invalidations,
        ) {
            Ok(dependency) => {
                bound.set(position, Some(dependency));
            },
            Err(error) => {
                return Err(error);
            },
        }
        index = index + 1;
    }
    Ok(bound)
}

/// Nothing is bound yet.
pub open spec fn unbound(length: nat) -> Seq<Option<ResourceDependency>> {
    Seq::new(length, |i: int| None)
}

/// Views that an operation has bound stay when it binds another resource.
pub proof fn law_bound_views_stay(
    work: WorkModel,
    resource: ResolvedModel,
    index: usize,
    bound: Seq<Option<ResourceDependency>>,
    current: Seq<u64>,
    view: ViewModel,
)
    requires
        work.cache.views.contains(view),
        bound.contains(Some(view.dependency)),
    ensures
        exists|after: ViewModel| #[trigger]
            work.resource_prepared(resource, index, bound, current).0.cache.views.contains(after)
                && after.dependency == view.dependency,
{
    let noted = work.allocation_noted(resource).0;
    let views = work.cache.views;
    let at = views.index_of(view);
    let result = work.resource_prepared(resource, index, bound, current);
    assert(noted.cache.views == views);
    if work.allocation_noted(resource).1 is Err {
        assert(result.0.cache.views.contains(view));
    } else if view_position(views, resource) is Some {
        assert(result.0.cache.views.contains(view));
    } else if resource.requires_materialization() && current_view_position(
        views,
        resource,
        current,
    ) is Some {
        let position = current_view_position(views, resource, current)->Some_0;
        crate::lists::lemma_first_where(
            views,
            |view: ViewModel| view.remains_current(resource, current),
        );
        let after = result.0.cache.views[at];
        assert(result.0.cache.views.contains(after));
        assert(after.dependency == view.dependency);
    } else {
        let gone = displaced(views, resource.pieces, bound);
        lemma_displaced(views, resource.pieces, bound);
        crate::lists::lemma_filter_members(
            views,
            |view: ViewModel| !gone.contains(view.dependency),
        );
        let kept = views_without(views, gone);
        assert(kept.contains(view));
        let there = kept.index_of(view);
        assert(result.0.cache.views[there] == view);
        assert(result.0.cache.views.contains(view));
    }
}

/// What is displaced belongs to a view that gives way, and every such view is displaced.
pub proof fn lemma_displaced(
    views: Seq<ViewModel>,
    pieces: Seq<BackingPiece>,
    bound: Seq<Option<ResourceDependency>>,
)
    ensures
        forall|dependency: ResourceDependency| #[trigger]
            displaced(views, pieces, bound).contains(dependency) ==> !bound.contains(
                Some(dependency),
            ),
        forall|view: ViewModel|
            #![trigger views.contains(view)]
            views.contains(view) && gives_way(view, pieces, bound) ==> displaced(
                views,
                pieces,
                bound,
            ).contains(view.dependency),
{
    let wanted = |view: ViewModel| gives_way(view, pieces, bound);
    let matching = views.filter(wanted);
    let gone = displaced(views, pieces, bound);
    crate::lists::lemma_filter_members(views, wanted);
    assert forall|dependency: ResourceDependency| #[trigger]
        gone.contains(dependency) implies !bound.contains(Some(dependency)) by {
        let at = gone.index_of(dependency);
        assert(matching.contains(matching[at]));
        assert(gone[at] == matching[at].dependency);
    }
    assert forall|view: ViewModel|
        #![trigger views.contains(view)]
        views.contains(view) && gives_way(view, pieces, bound) implies gone.contains(
        view.dependency,
    ) by {
        assert(matching.contains(view));
        let at = matching.index_of(view);
        assert(gone[at] == view.dependency);
    }
}

/// Where a new view is created, every older view that shares bytes with it is one that
/// the operation has bound; the others were dropped, and the backend is told.
pub proof fn law_new_view_displaces_overlaps(
    work: WorkModel,
    resource: ResolvedModel,
    bound: Seq<Option<ResourceDependency>>,
    view: ViewModel,
)
    requires
        work.cache.views.contains(view),
        crate::lowering_cache::pieces_overlap(view.pieces, resource.pieces),
        !bound.contains(Some(view.dependency)),
    ensures
        !work.made_way(resource, bound).cache.views.contains(view),
        work.made_way(resource, bound).invalidations.contains(view.dependency),
{
    let gone = displaced(work.cache.views, resource.pieces, bound);
    let tables = affected_tables(work.cache.descriptors, gone);
    lemma_displaced(work.cache.views, resource.pieces, bound);
    assert(gone.contains(view.dependency));
    crate::lists::lemma_filter_members(
        work.cache.views,
        |view: ViewModel| !gone.contains(view.dependency),
    );
    crate::lists::law_extension_is_a_union(
        crate::lists::extended(work.invalidations, tables),
        gone,
    );
}

/// A resource that was bound is bound to the same object again, without any change, as
/// long as nothing else happens in between.
pub proof fn law_binding_is_repeatable(
    work: WorkModel,
    resource: ResolvedModel,
    index: usize,
    bound: Seq<Option<ResourceDependency>>,
    current: Seq<u64>,
    later_index: usize,
    later_bound: Seq<Option<ResourceDependency>>,
    later_current: Seq<u64>,
)
    ensures
        ({
            let (after, result) = work.resource_prepared(resource, index, bound, current);
            result is Ok ==> after.resource_prepared(
                resource,
                later_index,
                later_bound,
                later_current,
            ) == (after, result)
        }),
{
    let (after, result) = work.resource_prepared(resource, index, bound, current);
    if result is Ok {
        let allocations = work.cache.allocations;
        let known = is_allocation(resource.allocation);
        crate::lists::lemma_first_where(allocations, known);
        if allocation_of(allocations, resource.allocation) is None {
            crate::lists::lemma_first_where_at(
                after.cache.allocations,
                known,
                allocations.len() as int,
            );
        }
        assert(allocation_of(after.cache.allocations, resource.allocation) == Some(
            resource.allocation_description,
        ));
        let views = work.cache.views;
        let wanted = |view: ViewModel| view.matches_resource(resource);
        crate::lists::lemma_first_where(views, wanted);
        if view_position(views, resource) is None {
            if resource.requires_materialization() && current_view_position(
                views,
                resource,
                current,
            ) is Some {
                let position = current_view_position(views, resource, current)->Some_0;
                crate::lists::lemma_first_where(
                    views,
                    |view: ViewModel| view.remains_current(resource, current),
                );
                crate::lists::lemma_first_where_at(after.cache.views, wanted, position);
            } else {
                let gone = displaced(views, resource.pieces, bound);
                let kept = views_without(views, gone);
                crate::lists::lemma_filter_members(
                    views,
                    |view: ViewModel| !gone.contains(view.dependency),
                );
                assert forall|i: int|
                    #![trigger after.cache.views[i]]
                    0 <= i < kept.len() implies !wanted(after.cache.views[i]) by {
                    assert(kept.contains(kept[i]));
                    let there = views.index_of(kept[i]);
                    assert(!wanted(views[there]));
                }
                crate::lists::lemma_first_where_at(after.cache.views, wanted, kept.len() as int);
            }
        }
    }
}

} // verus!
