//! Binding of samplers, and what roles are bound to.

use vstd::prelude::*;
use crate::draw_plan::{add_creation, CreationModel, ResourceCreation};
use crate::lists::extend_unique;
use crate::lowering_cache::{CacheModel, MaxwellThreeDLoweringCache, SamplerRecord};
use crate::lowering_error::MaxwellThreeDLoweringError;
use crate::neutral::ResourceDependency;
use crate::resource::{find_role, MaxwellThreeDResolvedResources, MaxwellThreeDResolvedSampler, MaxwellThreeDResourceRole, ResolvedModel};
use crate::resource_preparation::{drop_affected_tables, WorkModel};

verus! {

/// Whether a record is of a sampler.
pub open spec fn is_sampler(sampler: MaxwellThreeDResolvedSampler) -> spec_fn(SamplerRecord) -> bool {
    |record: SamplerRecord| record.sampler == sampler
}

/// Whether a record is of a role.
pub open spec fn has_role(role: MaxwellThreeDResourceRole) -> spec_fn(SamplerRecord) -> bool {
    |record: SamplerRecord| record.sampler.role == role
}

/// Whether a record is of another role.
pub open spec fn lacks_role(role: MaxwellThreeDResourceRole) -> spec_fn(SamplerRecord) -> bool {
    |record: SamplerRecord| record.sampler.role != role
}

/// Object of a sampler record.
pub open spec fn sampler_dependency() -> spec_fn(SamplerRecord) -> ResourceDependency {
    |record: SamplerRecord| ResourceDependency::Sampler(record.id)
}

fn same_sampler(left: MaxwellThreeDResolvedSampler, right: MaxwellThreeDResolvedSampler) -> (r: bool)
    ensures
        r == (left == right),
{
    left.role == right.role && left.descriptor == right.descriptor && left.description
        == right.description
}

#[verifier::loop_isolation(false)]
fn find_sampler(samplers: &Vec<SamplerRecord>, sampler: MaxwellThreeDResolvedSampler) -> (r: Option<
    u64,
>)
    ensures
        r == match crate::lists::first_where(samplers@, is_sampler(sampler)) {
            Some(position) => Some(samplers@[position].id),
            None => None::<u64>,
        },
{
    let ghost wanted = is_sampler(sampler);
    let mut index: usize = 0;
    while index < samplers.len()
        invariant
            index <= samplers@.len(),
            forall|i: int|
                #![trigger samplers@[i]]
                0 <= i < index ==> !wanted(samplers@[i]),
        decreases samplers@.len() - index,
    {
        if same_sampler(samplers[index].sampler, sampler) {
            proof {
                crate::lists::lemma_first_where_at(samplers@, wanted, index as int);
            }
            return Some(samplers[index].id);
        }
        index = index + 1;
    }
    proof {
        crate::lists::lemma_first_where_at(samplers@, wanted, index as int);
    }
    None
}

#[verifier::loop_isolation(false)]
fn split_role(samplers: &Vec<SamplerRecord>, role: MaxwellThreeDResourceRole) -> (r: (
    Vec<ResourceDependency>,
    Vec<SamplerRecord>,
))
    ensures
        r.0@ == samplers@.filter(has_role(role)).map_values(sampler_dependency()),
        r.1@ == samplers@.filter(lacks_role(role)),
{
    let mut retired: Vec<ResourceDependency> = Vec::new();
    let mut kept: Vec<SamplerRecord> = Vec::new();
    let mut index: usize = 0;
    proof {
        crate::lists::lemma_filter_start(samplers@, has_role(role));
        crate::lists::lemma_filter_start(samplers@, lacks_role(role));
        assert(retired@ =~= samplers@.take(0).filter(has_role(role)).map_values(
            sampler_dependency(),
        ));
    }
    while index < samplers.len()
        invariant
            index <= samplers@.len(),
            retired@ == samplers@.take(index as int).filter(has_role(role)).map_values(
                sampler_dependency(),
            ),
            kept@ == samplers@.take(index as int).filter(lacks_role(role)),
        decreases samplers@.len() - index,
    {
        let record = samplers[index];
        let ghost earlier = samplers@.take(index as int).filter(has_role(role));
        proof {
            crate::lists::lemma_filter_step(samplers@, has_role(role), index as int);
            crate::lists::lemma_filter_step(samplers@, lacks_role(role), index as int);
        }
        if record.sampler.role == role {
            retired.push(ResourceDependency::Sampler(record.id));
            proof {
                assert(retired@ =~= earlier.push(record).map_values(sampler_dependency()));
            }
        } else {
            kept.push(record);
        }
        index = index + 1;
    }
    proof {
        assert(samplers@.take(index as int) =~= samplers@);
    }
    (retired, kept)
}

impl WorkModel {
    /// Work after the samplers of a role were dropped, with the descriptor tables that
    /// refer to them.
    pub open spec fn role_retired(self, role: MaxwellThreeDResourceRole) -> WorkModel {
        let retired = self.cache.samplers.filter(has_role(role)).map_values(sampler_dependency());
        let tables = crate::resource_preparation::affected_tables(self.cache.descriptors, retired);
        WorkModel {
            cache: CacheModel {
                samplers: self.cache.samplers.filter(lacks_role(role)),
                descriptors: crate::resource_preparation::tables_without(
                    self.cache.descriptors,
                    tables,
                ),
                ..self.cache
            },
            invalidations: crate::lists::extended(
                crate::lists::extended(self.invalidations, retired),
                tables,
            ),
            ..self
        }
    }

    /// Work after a sampler was created.
    pub open spec fn sampler_created(self, sampler: MaxwellThreeDResolvedSampler) -> (
        WorkModel,
        Result<ResourceDependency, MaxwellThreeDLoweringError>,
    ) {
        match self.cache.identity_taken() {
            Err(error) => (self, Err(error)),
            Ok((taken, id)) => match sampler.description {
                None => (
                    WorkModel { cache: taken, ..self },
                    Err(MaxwellThreeDLoweringError::InvalidResolvedView { role: sampler.role }),
                ),
                Some(description) => (
                    WorkModel {
                        cache: CacheModel {
                            samplers: self.cache.samplers.push(SamplerRecord { sampler, id }),
                            ..taken
                        },
                        creations: self.creations.push(
                            CreationModel::Sampler { id, description },
                        ),
                        ..self
                    },
                    Ok(ResourceDependency::Sampler(id)),
                ),
            },
        }
    }

    /// Work after a sampler was bound: a known one is used again, a new one takes the
    /// place of those of its role.
    pub open spec fn sampler_prepared(self, sampler: MaxwellThreeDResolvedSampler) -> (
        WorkModel,
        Result<ResourceDependency, MaxwellThreeDLoweringError>,
    ) {
        match crate::lists::first_where(self.cache.samplers, is_sampler(sampler)) {
            Some(position) => (
                self,
                Ok(ResourceDependency::Sampler(self.cache.samplers[position].id)),
            ),
            None => self.role_retired(sampler.role).sampler_created(sampler),
        }
    }

    /// Work after samplers were bound, from one of them on.
    pub open spec fn samplers_prepared(
        self,
        samplers: Seq<MaxwellThreeDResolvedSampler>,
        from: int,
        bound: Seq<(MaxwellThreeDResourceRole, ResourceDependency)>,
    ) -> (
        WorkModel,
        Result<Seq<(MaxwellThreeDResourceRole, ResourceDependency)>, MaxwellThreeDLoweringError>,
    )
        decreases samplers.len() - from,
    {
        if from < 0 || from >= samplers.len() {
            (self, Ok(bound))
        } else {
            match self.sampler_prepared(samplers[from]) {
                (prepared, Err(error)) => (prepared, Err(error)),
                (prepared, Ok(dependency)) => prepared.samplers_prepared(
                    samplers,
                    from + 1,
                    bound.push((samplers[from].role, dependency)),
                ),
            }
        }
    }
}

/// Binds one sampler.
pub fn prepare_sampler(
    sampler: MaxwellThreeDResolvedSampler,
    cache: &mut MaxwellThreeDLoweringCache,
    creations: &mut Vec<ResourceCreation>,
    invalidations: &mut Vec<ResourceDependency>,
) -> (r: Result<ResourceDependency, MaxwellThreeDLoweringError>)
    requires
        old(cache).wf(),
    ensures
        final(cache).wf(),
        (
            crate::resource_preparation::work_model(
                *final(cache),
                *final(creations),
                *final(invalidations),
            ),
            r,
        ) == crate::resource_preparation::work_model(
            *old(cache),
            *old(creations),
            *old(invalidations),
        ).sampler_prepared(sampler),
{
    if let Some(id) = find_sampler(&cache.samplers, sampler) {
        return Ok(ResourceDependency::Sampler(id));
    }
    let (retired, kept) = split_role(&cache.samplers, sampler.role);
    cache.samplers = kept;
    let tables = drop_affected_tables(&mut cache.descriptors, &retired);
    extend_unique(invalidations, &retired);
    extend_unique(invalidations, &tables);
    let id: u64 = match cache.take_identity() {
        Ok(id) => id,
        Err(error) => {
            return Err(error);
        },
    };
    let description: u64 = match sampler.description {
        Some(description) => description,
        None => {
            return Err(MaxwellThreeDLoweringError::InvalidResolvedView { role: sampler.role });
        },
    };
    add_creation(creations, ResourceCreation::Sampler { id, description });
    cache.samplers.push(SamplerRecord { sampler, id });
    Ok(ResourceDependency::Sampler(id))
}

/// Binds the samplers of an operation; the result tells what each role is bound to.
#[verifier::loop_isolation(false)]
pub fn prepare_samplers(
    resources: &MaxwellThreeDResolvedResources,
    cache: &mut MaxwellThreeDLoweringCache,
    creations: &mut Vec<ResourceCreation>,
    invalidations: &mut Vec<ResourceDependency>,
) -> (r: Result<Vec<(MaxwellThreeDResourceRole, ResourceDependency)>, MaxwellThreeDLoweringError>)
    requires
        old(cache).wf(),
    ensures
        final(cache).wf(),
        ({
            let (after, result) = crate::resource_preparation::work_model(
                *old(cache),
                *old(creations),
                *old(invalidations),
            ).samplers_prepared(resources.samplers@, 0, Seq::empty());
            &&& crate::resource_preparation::work_model(
                *final(cache),
                *final(creations),
                *final(invalidations),
            ) == after
            &&& match result {
                Ok(bound) => r matches Ok(bindings) && bindings@ == bound,
                Err(error) => r == Err::<
                    Vec<(MaxwellThreeDResourceRole, ResourceDependency)>,
                    MaxwellThreeDLoweringError,
                >(error),
            }
        }),
{
    let ghost whole = crate::resource_preparation::work_model(
        *cache,
        *creations,
        *invalidations,
    ).samplers_prepared(resources.samplers@, 0, Seq::empty());
    let mut bound: Vec<(MaxwellThreeDResourceRole, ResourceDependency)> = Vec::new();
    let mut index: usize = 0;
    while index < resources.samplers.len()
        invariant
            index <= resources.samplers@.len(),
            cache.wf(),
            whole == crate::resource_preparation::work_model(
                *cache,
                *creations,
                *invalidations,
            ).samplers_prepared(resources.samplers@, index as int, bound@),
        decreases resources.samplers@.len() - index,
    {
        let sampler = resources.samplers[index];
        match prepare_sampler(sampler, cache, creations, invalidations) {
            Ok(dependency) => {
                bound.push((sampler.role, dependency));
            },
            Err(error) => {
                return Err(error);
            },
        }
        index = index + 1;
    }
    Ok(bound)
}

/// After a sampler was bound, no other sampler of its role is left, and the role keeps
/// its object until another sampler takes its place.
pub proof fn law_one_sampler_per_role(work: WorkModel, sampler: MaxwellThreeDResolvedSampler)
    requires
        forall|i: int, j: int|
            #![trigger work.cache.samplers[i], work.cache.samplers[j]]
            0 <= i < j < work.cache.samplers.len() ==> work.cache.samplers[i].sampler.role
                != work.cache.samplers[j].sampler.role,
    ensures
        ({
            let (after, result) = work.sampler_prepared(sampler);
            &&& forall|i: int, j: int|
                #![trigger after.cache.samplers[i], after.cache.samplers[j]]
                0 <= i < j < after.cache.samplers.len() ==> after.cache.samplers[i].sampler.role
                    != after.cache.samplers[j].sampler.role
            &&& result is Ok ==> after.sampler_prepared(sampler) == (after, result)
        }),
{
    let samplers = work.cache.samplers;
    let (after, result) = work.sampler_prepared(sampler);
    crate::lists::lemma_first_where(samplers, is_sampler(sampler));
    if crate::lists::first_where(samplers, is_sampler(sampler)) is None {
        let kept = samplers.filter(lacks_role(sampler.role));
        lemma_filter_keeps_roles_apart(samplers, sampler.role);
        crate::lists::lemma_filter_members(samplers, lacks_role(sampler.role));
        assert forall|i: int|
            #![trigger kept[i]]
            0 <= i < kept.len() implies kept[i].sampler.role != sampler.role by {
            assert(kept.contains(kept[i]));
        }
        if result is Ok {
            crate::lists::lemma_first_where_at(
                after.cache.samplers,
                is_sampler(sampler),
                kept.len() as int,
            );
        }
    }
}

proof fn lemma_filter_keeps_roles_apart(
    samplers: Seq<SamplerRecord>,
    role: MaxwellThreeDResourceRole,
)
    requires
        forall|i: int, j: int|
            #![trigger samplers[i], samplers[j]]
            0 <= i < j < samplers.len() ==> samplers[i].sampler.role != samplers[j].sampler.role,
    ensures
        forall|i: int, j: int|
            #![trigger samplers.filter(lacks_role(role))[i], samplers.filter(lacks_role(role))[j]]
            0 <= i < j < samplers.filter(lacks_role(role)).len() ==> samplers.filter(
                lacks_role(role),
            )[i].sampler.role != samplers.filter(lacks_role(role))[j].sampler.role,
    decreases samplers.len(),
{
    reveal(Seq::filter);
    if samplers.len() > 0 {
        let rest = samplers.drop_last();
        lemma_filter_keeps_roles_apart(rest, role);
        crate::lists::lemma_filter_members(rest, lacks_role(role));
        let kept = rest.filter(lacks_role(role));
        assert forall|i: int|
            #![trigger kept[i]]
            0 <= i < kept.len() implies kept[i].sampler.role != samplers.last().sampler.role by {
            assert(kept.contains(kept[i]));
            let there = rest.index_of(kept[i]);
            assert(samplers[there] == kept[i]);
        }
    }
}

/// Object that a resource is bound to.
pub open spec fn spec_binding_at(
    models: Seq<ResolvedModel>,
    bindings: Seq<Option<ResourceDependency>>,
    index: usize,
) -> Result<ResourceDependency, MaxwellThreeDLoweringError> {
    match bindings[index as int] {
        Some(dependency) => Ok(dependency),
        None => Err(
            MaxwellThreeDLoweringError::MissingResolvedResource {
                role: models[index as int].role,
            },
        ),
    }
}

/// Object that a resource is bound to.
pub fn binding_at(
    resources: &MaxwellThreeDResolvedResources,
    bindings: &Vec<Option<ResourceDependency>>,
    index: usize,
) -> (r: Result<ResourceDependency, MaxwellThreeDLoweringError>)
    requires
        bindings@.len() == resources.resources@.len(),
        index < resources.resources@.len(),
    ensures
        r == spec_binding_at(resources.models(), bindings@, index),
{
    match bindings[index] {
        Some(dependency) => Ok(dependency),
        None => Err(
            MaxwellThreeDLoweringError::MissingResolvedResource {
                role: resources.resources[index].role,
            },
        ),
    }
}

/// Position of the resource with a role, or that it is missing.
pub open spec fn spec_resource_index(models: Seq<ResolvedModel>, role: MaxwellThreeDResourceRole) -> Result<
    usize,
    MaxwellThreeDLoweringError,
> {
    match crate::resource::role_position(models, role) {
        Some(index) => Ok(index),
        None => Err(MaxwellThreeDLoweringError::MissingResolvedResource { role }),
    }
}

/// Position of the resource with a role, or that it is missing.
pub fn resource_index(resources: &MaxwellThreeDResolvedResources, role: MaxwellThreeDResourceRole) -> (r:
    Result<usize, MaxwellThreeDLoweringError>)
    ensures
        r == spec_resource_index(resources.models(), role),
        r matches Ok(index) ==> index < resources.resources@.len()
            && resources.resources@[index as int]@.role == role,
{
    match find_role(resources, role) {
        Some(index) => Ok(index),
        None => Err(MaxwellThreeDLoweringError::MissingResolvedResource { role }),
    }
}

/// Whether a binding is of a role.
pub open spec fn binds_role(role: MaxwellThreeDResourceRole) -> spec_fn(
    (MaxwellThreeDResourceRole, ResourceDependency),
) -> bool {
    |binding: (MaxwellThreeDResourceRole, ResourceDependency)| binding.0 == role
}

/// Object that a role is bound to.
pub open spec fn role_dependency(
    models: Seq<ResolvedModel>,
    bindings: Seq<Option<ResourceDependency>>,
    samplers: Seq<(MaxwellThreeDResourceRole, ResourceDependency)>,
    role: MaxwellThreeDResourceRole,
) -> Result<ResourceDependency, MaxwellThreeDLoweringError> {
    match role {
        MaxwellThreeDResourceRole::Sampler(_) => match crate::lists::first_where(
            samplers,
            binds_role(role),
        ) {
            Some(position) => Ok(samplers[position].1),
            None => Err(MaxwellThreeDLoweringError::MissingResolvedResource { role }),
        },
        _ => match spec_resource_index(models, role) {
            Ok(index) => spec_binding_at(models, bindings, index),
            Err(error) => Err(error),
        },
    }
}

/// Object that a role is bound to.
#[verifier::loop_isolation(false)]
pub fn shader_resource_dependency(
    resources: &MaxwellThreeDResolvedResources,
    bindings: &Vec<Option<ResourceDependency>>,
    samplers: &Vec<(MaxwellThreeDResourceRole, ResourceDependency)>,
    role: MaxwellThreeDResourceRole,
) -> (r: Result<ResourceDependency, MaxwellThreeDLoweringError>)
    requires
        bindings@.len() == resources.resources@.len(),
    ensures
        r == role_dependency(resources.models(), bindings@, samplers@, role),
{
    match role {
        MaxwellThreeDResourceRole::Sampler(_) => {
            let ghost wanted = binds_role(role);
            let mut index: usize = 0;
            while index < samplers.len()
                invariant
                    index <= samplers@.len(),
                    forall|i: int|
                        #![trigger samplers@[i]]
                        0 <= i < index ==> !wanted(samplers@[i]),
                decreases samplers@.len() - index,
            {
                if samplers[index].0 == role {
                    proof {
                        crate::lists::lemma_first_where_at(samplers@, wanted, index as int);
                    }
                    return Ok(samplers[index].1);
                }
                index = index + 1;
            }
            proof {
                crate::lists::lemma_first_where_at(samplers@, wanted, index as int);
            }
            Err(MaxwellThreeDLoweringError::MissingResolvedResource { role })
        },
        _ => match resource_index(resources, role) {
            Ok(index) => binding_at(resources, bindings, index),
            Err(error) => Err(error),
        },
    }
}

} // verus!
