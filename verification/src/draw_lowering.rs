//! Lowering of draws.

use vstd::prelude::*;
use crate::attachments::{DrawAttachmentSelection, SelectionModel};
use crate::draw_inputs::{attachment_records, find_bound_buffer, find_vertex_inputs, triangle_rasterization, validate_shader_stages};
use crate::draw_plan::{add_creation, CreationModel, DescriptorEntry, DrawPlan, PlanModel, RenderAttachment, RenderPassAttachment, ResourceCreation, VertexAttributePlan, VertexBufferPlan};
use crate::draw_state::{draw_alpha_test_state, draw_arguments, draw_depth_state, draw_viewport_transform, primitive_topology};
use crate::lists::{copied, holds_dependency};
use crate::lowering_cache::{CacheModel, DescriptorModel, DescriptorRecord, MaxwellThreeDLoweringCache, PreparedDrawRecord, PreparedModel, RenderPassModel, RenderPassRecord, ShaderTranslationRecord};
use crate::lowering_error::MaxwellThreeDLoweringError;
use crate::neutral::{AccessMode, AccessScope, AccessTarget, AlphaTest, DepthState, DescriptorKind, DrawArguments, PrimitiveTopology, ResourceAccess, ResourceDependency, ShaderStage, TriangleRasterization, ViewportTransform};
use crate::neutral_refusals::{NeutralConstruction, NeutralRefusals};
use crate::resource::{MaxwellThreeDResolvedResources, MaxwellThreeDResolvedSampler, MaxwellThreeDResourceAlias, MaxwellThreeDResourceRole, ResolvedModel, ViewShape};
use crate::resource_indices::{draw_resource_indices, reject_draw_aliases};
use crate::resource_preparation::WorkModel;
use crate::sampler_preparation::{binding_at, resource_index, shader_resource_dependency};
use crate::state::MaxwellThreeDState;
use crate::translated_shaders::{MaxwellThreeDShaderResourceUse, MaxwellThreeDTranslatedShader, MaxwellThreeDTranslatedShaders, ShadersModel};

verus! {

impl WorkModel {
    /// Work after the translations of shaders were published, from one of them on: a
    /// backend is asked to create each shader once.
    pub open spec fn shaders_published(
        self,
        shaders: Seq<MaxwellThreeDTranslatedShader>,
        from: int,
    ) -> (WorkModel, Result<(), MaxwellThreeDLoweringError>)
        decreases shaders.len() - from,
    {
        if from < 0 || from >= shaders.len() {
            (self, Ok(()))
        } else {
            match self.shader_published(shaders[from]) {
                (published, Err(error)) => (published, Err(error)),
                (published, Ok(())) => published.shaders_published(shaders, from + 1),
            }
        }
    }

    /// Work after the translation of a shader was published, which counts as a use.
    pub open spec fn shader_published(self, shader: MaxwellThreeDTranslatedShader) -> (
        WorkModel,
        Result<(), MaxwellThreeDLoweringError>,
    ) {
        let translations = self.cache.shader_translations;
        match crate::fingerprint_cache::fingerprint_position(
            translations,
            shader.cache_fingerprint,
        ) {
            None => (self, Err(MaxwellThreeDLoweringError::InvalidTranslatedShaders)),
            Some(position) => {
                let record = translations[position].1;
                let used = WorkModel {
                    cache: CacheModel {
                        shader_translations: crate::fingerprint_cache::used(
                            translations,
                            position,
                        ),
                        ..self.cache
                    },
                    ..self
                };
                if record.module_stage != shader.stage {
                    (used, Err(MaxwellThreeDLoweringError::InvalidTranslatedShaders))
                } else if record.published {
                    (used, Ok(()))
                } else {
                    (
                        WorkModel {
                            cache: CacheModel {
                                shader_translations: translations.remove(position).push(
                                    (
                                        shader.cache_fingerprint,
                                        ShaderTranslationRecord { published: true, ..record },
                                    ),
                                ),
                                ..self.cache
                            },
                            creations: self.creations.push(
                                CreationModel::Shader {
                                    id: record.id,
                                    stage: shader.stage,
                                    fingerprint: shader.cache_fingerprint,
                                },
                            ),
                            ..self
                        },
                        Ok(()),
                    )
                }
            },
        }
    }

    /// Work after a render pass with some attachments was found or created.
    pub open spec fn render_pass_provided(self, attachments: Seq<RenderPassAttachment>) -> (
        WorkModel,
        Result<u64, MaxwellThreeDLoweringError>,
    ) {
        let passes = self.cache.render_passes;
        match crate::lists::first_where(passes, has_attachments(attachments)) {
            Some(position) => (self, Ok(passes[position].id)),
            None => match self.cache.identity_taken() {
                Err(error) => (self, Err(error)),
                Ok((taken, id)) => (
                    WorkModel {
                        cache: CacheModel {
                            render_passes: passes.push(RenderPassModel { attachments, id }),
                            ..taken
                        },
                        creations: self.creations.push(
                            CreationModel::RenderPass { id, attachments },
                        ),
                        ..self
                    },
                    Ok(id),
                ),
            },
        }
    }

    /// Work after a descriptor table with some entries was found or created; no entries
    /// need no table. A new table uses up an identity even where it is refused.
    pub open spec fn table_provided(
        self,
        entries: Seq<DescriptorEntry>,
        kinds: Seq<DescriptorKind>,
        refused: bool,
    ) -> (WorkModel, Result<Option<u64>, MaxwellThreeDLoweringError>) {
        let tables = self.cache.descriptors;
        if entries.len() == 0 {
            (self, Ok(None))
        } else {
            match crate::lists::first_where(tables, has_entries(entries)) {
                Some(position) => (self, Ok(Some(tables[position].id))),
                None => match self.cache.identity_taken() {
                    Err(error) => (self, Err(error)),
                    Ok((taken, id)) => if refused {
                        (
                            WorkModel { cache: taken, ..self },
                            Err(MaxwellThreeDLoweringError::InvalidTranslatedShaders),
                        )
                    } else {
                        (
                            WorkModel {
                                cache: CacheModel {
                                    descriptors: tables.push(DescriptorModel { entries, id }),
                                    ..taken
                                },
                                creations: self.creations.push(
                                    CreationModel::DescriptorTable { id, kinds, entries },
                                ),
                                ..self
                            },
                            Ok(Some(id)),
                        )
                    },
                },
            }
        }
    }

    /// Work after the graphics pipeline was found or created. There is one.
    pub open spec fn pipeline_provided(self) -> (
        WorkModel,
        Result<u64, MaxwellThreeDLoweringError>,
    ) {
        match self.cache.graphics_pipeline {
            Some(pipeline) => (self, Ok(pipeline)),
            None => match self.cache.identity_taken() {
                Err(error) => (self, Err(error)),
                Ok((taken, id)) => (
                    WorkModel {
                        cache: CacheModel { graphics_pipeline: Some(id), ..taken },
                        creations: self.creations.push(CreationModel::Pipeline { id }),
                        ..self
                    },
                    Ok(id),
                ),
            },
        }
    }
}

/// Whether a render pass has some attachments.
pub open spec fn has_attachments(attachments: Seq<RenderPassAttachment>) -> spec_fn(
    RenderPassModel,
) -> bool {
    |pass: RenderPassModel| pass.attachments == attachments
}

/// Whether a descriptor table has some entries.
pub open spec fn has_entries(entries: Seq<DescriptorEntry>) -> spec_fn(DescriptorModel) -> bool {
    |table: DescriptorModel| table.entries == entries
}

fn publish_shader(
    shader: MaxwellThreeDTranslatedShader,
    cache: &mut MaxwellThreeDLoweringCache,
    creations: &mut Vec<ResourceCreation>,
    invalidations: &mut Vec<ResourceDependency>,
) -> (r: Result<(), MaxwellThreeDLoweringError>)
    requires
        old(cache).wf(),
    ensures
        final(cache).wf(),
        (
            crate::resource_preparation::work_model(
                *final(cache),
                *final(creations),
                *final(invalidations),
            ),
            r,
        ) == crate::resource_preparation::work_model(
            *old(cache),
            *old(creations),
            *old(invalidations),
        ).shader_published(shader),
{
    let ghost before = cache@.shader_translations;
    proof {
        crate::fingerprint_cache::lemma_fingerprint_position(before, shader.cache_fingerprint);
    }
    let record = match cache.shader_translations.get(shader.cache_fingerprint) {
        Some(record) => *record,
        None => {
            return Err(MaxwellThreeDLoweringError::InvalidTranslatedShaders);
        },
    };
    if record.module_stage != shader.stage {
        return Err(MaxwellThreeDLoweringError::InvalidTranslatedShaders);
    }
    if !record.published {
        add_creation(
            creations,
            ResourceCreation::Shader {
                id: record.id,
                stage: shader.stage,
                fingerprint: shader.cache_fingerprint,
            },
        );
        let ghost hit = cache@.shader_translations;
        let ghost position = crate::fingerprint_cache::fingerprint_position(
            before,
            shader.cache_fingerprint,
        )->Some_0;
        proof {
            assert(hit == crate::fingerprint_cache::used(before, position));
            assert(hit[hit.len() - 1].0 == shader.cache_fingerprint);
            crate::fingerprint_cache::lemma_fingerprint_found(hit, hit.len() - 1);
            assert(hit.remove(hit.len() - 1) =~= before.remove(position));
        }
        cache.shader_translations.replace(
            shader.cache_fingerprint,
            ShaderTranslationRecord {
                id: record.id,
                module_stage: record.module_stage,
                published: true,
            },
        );
    }
    Ok(())
}

/// Publishes the translations of the shaders of a draw.
#[verifier::loop_isolation(false)]
pub fn publish_shaders(
    shaders: &MaxwellThreeDTranslatedShaders,
    cache: &mut MaxwellThreeDLoweringCache,
    creations: &mut Vec<ResourceCreation>,
    invalidations: &mut Vec<ResourceDependency>,
) -> (r: Result<(), MaxwellThreeDLoweringError>)
    requires
        old(cache).wf(),
    ensures
        final(cache).wf(),
        (
            crate::resource_preparation::work_model(
                *final(cache),
                *final(creations),
                *final(invalidations),
            ),
            r,
        ) == crate::resource_preparation::work_model(
            *old(cache),
            *old(creations),
            *old(invalidations),
        ).shaders_published(shaders@.shaders, 0),
{
    let ghost whole = crate::resource_preparation::work_model(
        *cache,
        *creations,
        *invalidations,
    ).shaders_published(shaders@.shaders, 0);
    let mut index: usize = 0;
    while index < shaders.shaders.len()
        invariant
            index <= shaders@.shaders.len(),
            cache.wf(),
            whole == crate::resource_preparation::work_model(
                *cache,
                *creations,
                *invalidations,
            ).shaders_published(shaders@.shaders, index as int),
        decreases shaders@.shaders.len() - index,
    {
        match publish_shader(shaders.shaders[index], cache, creations, invalidations) {
            Ok(()) => {},
            Err(error) => {
                return Err(error);
            },
        }
        index = index + 1;
    }
    Ok(())
}

/// A shader that was published is not created again: publishing it once more changes
/// nothing.
pub proof fn law_shader_is_created_once(work: WorkModel, shader: MaxwellThreeDTranslatedShader)
    requires
        work.cache.wf(),
    ensures
        work.shader_published(shader).1 is Ok ==> {
            let once = work.shader_published(shader).0;
            once.shader_published(shader) == (once, Ok::<(), MaxwellThreeDLoweringError>(()))
        },
{
    let translations = work.cache.shader_translations;
    crate::fingerprint_cache::lemma_fingerprint_position(translations, shader.cache_fingerprint);
    if work.shader_published(shader).1 is Ok {
        let position = crate::fingerprint_cache::fingerprint_position(
            translations,
            shader.cache_fingerprint,
        )->Some_0;
        let once = work.shader_published(shader).0;
        let after = once.cache.shader_translations;
        let last = after.len() - 1;
        assert(crate::fingerprint_cache::distinct_fingerprints(after));
        crate::fingerprint_cache::lemma_fingerprint_found(after, last);
        assert(crate::fingerprint_cache::used(after, last) =~= after);
    }
}

fn same_attachments(left: &Vec<RenderPassAttachment>, right: &Vec<RenderPassAttachment>) -> (r: bool)
    ensures
        r == (left@ == right@),
{
    if left.len() != right.len() {
        return false;
    }
    let mut index: usize = 0;
    while index < left.len()
        invariant
            index <= left@.len() == right@.len(),
            forall|i: int| 0 <= i < index ==> left@[i] == right@[i],
        decreases left@.len() - index,
    {
        if left[index] != right[index] {
            proof {
                assert(left@[index as int] != right@[index as int]);
            }
            return false;
        }
        index = index + 1;
    }
    proof {
        assert(left@ =~= right@);
    }
    true
}

fn same_entries(left: &Vec<DescriptorEntry>, right: &Vec<DescriptorEntry>) -> (r: bool)
    ensures
        r == (left@ == right@),
{
    if left.len() != right.len() {
        return false;
    }
    let mut index: usize = 0;
    while index < left.len()
        invariant
            index <= left@.len() == right@.len(),
            forall|i: int| 0 <= i < index ==> left@[i] == right@[i],
        decreases left@.len() - index,
    {
        if left[index] != right[index] {
            proof {
                assert(left@[index as int] != right@[index as int]);
            }
            return false;
        }
        index = index + 1;
    }
    proof {
        assert(left@ =~= right@);
    }
    true
}

#[verifier::loop_isolation(false)]
fn provide_render_pass(
    attachments: Vec<RenderPassAttachment>,
    cache: &mut MaxwellThreeDLoweringCache,
    creations: &mut Vec<ResourceCreation>,
    invalidations: &mut Vec<ResourceDependency>,
) -> (r: Result<u64, MaxwellThreeDLoweringError>)
    requires
        old(cache).wf(),
    ensures
        final(cache).wf(),
        (
            crate::resource_preparation::work_model(
                *final(cache),
                *final(creations),
                *final(invalidations),
            ),
            r,
        ) == crate::resource_preparation::work_model(
            *old(cache),
            *old(creations),
            *old(invalidations),
        ).render_pass_provided(attachments@),
{
    let ghost before = cache@;
    let ghost wanted = has_attachments(attachments@);
    let mut index: usize = 0;
    while index < cache.render_passes.len()
        invariant
            index <= cache.render_passes@.len(),
            *cache == *old(cache),
            forall|i: int|
                #![trigger before.render_passes[i]]
                0 <= i < index ==> !wanted(before.render_passes[i]),
        decreases cache.render_passes@.len() - index,
    {
        proof {
            assert(before.render_passes[index as int] == cache.render_passes@[index as int]@);
        }
        if same_attachments(&cache.render_passes[index].attachments, &attachments) {
            proof {
                crate::lists::lemma_first_where_at(before.render_passes, wanted, index as int);
            }
            return Ok(cache.render_passes[index].id);
        }
        index = index + 1;
    }
    proof {
        crate::lists::lemma_first_where_at(before.render_passes, wanted, index as int);
    }
    let id: u64 = match cache.take_identity() {
        Ok(id) => id,
        Err(error) => {
            return Err(error);
        },
    };
    let ghost model = RenderPassModel { attachments: attachments@, id };
    add_creation(
        creations,
        ResourceCreation::RenderPass { id, attachments: copied(&attachments) },
    );
    cache.render_passes.push(RenderPassRecord { attachments, id });
    proof {
        assert(cache@.render_passes =~= before.render_passes.push(model));
    }
    Ok(id)
}

#[verifier::loop_isolation(false)]
fn provide_table(
    entries: &Vec<DescriptorEntry>,
    kinds: Vec<DescriptorKind>,
    refused: bool,
    cache: &mut MaxwellThreeDLoweringCache,
    creations: &mut Vec<ResourceCreation>,
    invalidations: &mut Vec<ResourceDependency>,
) -> (r: Result<Option<u64>, MaxwellThreeDLoweringError>)
    requires
        old(cache).wf(),
    ensures
        final(cache).wf(),
        (
            crate::resource_preparation::work_model(
                *final(cache),
                *final(creations),
                *final(invalidations),
            ),
            r,
        ) == crate::resource_preparation::work_model(
            *old(cache),
            *old(creations),
            *old(invalidations),
        ).table_provided(entries@, kinds@, refused),
{
    let ghost before = cache@;
    let ghost wanted = has_entries(entries@);
    if entries.len() == 0 {
        return Ok(None);
    }
    let mut index: usize = 0;
    while index < cache.descriptors.len()
        invariant
            index <= cache.descriptors@.len(),
            *cache == *old(cache),
            forall|i: int|
                #![trigger before.descriptors[i]]
                0 <= i < index ==> !wanted(before.descriptors[i]),
        decreases cache.descriptors@.len() - index,
    {
        proof {
            assert(before.descriptors[index as int] == cache.descriptors@[index as int]@);
        }
        if same_entries(&cache.descriptors[index].entries, entries) {
            proof {
                crate::lists::lemma_first_where_at(before.descriptors, wanted, index as int);
            }
            return Ok(Some(cache.descriptors[index].id));
        }
        index = index + 1;
    }
    proof {
        crate::lists::lemma_first_where_at(before.descriptors, wanted, index as int);
    }
    let id: u64 = match cache.take_identity() {
        Ok(id) => id,
        Err(error) => {
            return Err(error);
        },
    };
    if refused {
        return Err(MaxwellThreeDLoweringError::InvalidTranslatedShaders);
    }
    cache.descriptors.push(DescriptorRecord { entries: copied(entries), id });
    add_creation(
        creations,
        ResourceCreation::DescriptorTable { id, kinds, entries: copied(entries) },
    );
    proof {
        assert(cache@.descriptors =~= before.descriptors.push(
            DescriptorModel { entries: entries@, id },
        ));
    }
    Ok(Some(id))
}

fn provide_pipeline(
    cache: &mut MaxwellThreeDLoweringCache,
    creations: &mut Vec<ResourceCreation>,
    invalidations: &mut Vec<ResourceDependency>,
) -> (r: Result<u64, MaxwellThreeDLoweringError>)
    requires
        old(cache).wf(),
    ensures
        final(cache).wf(),
        (
            crate::resource_preparation::work_model(
                *final(cache),
                *final(creations),
                *final(invalidations),
            ),
            r,
        ) == crate::resource_preparation::work_model(
            *old(cache),
            *old(creations),
            *old(invalidations),
        ).pipeline_provided(),
{
    if let Some(pipeline) = cache.graphics_pipeline {
        return Ok(pipeline);
    }
    let id: u64 = match cache.take_identity() {
        Ok(id) => id,
        Err(error) => {
            return Err(error);
        },
    };
    cache.graphics_pipeline = Some(id);
    add_creation(creations, ResourceCreation::Pipeline { id });
    Ok(id)
}

/// Descriptor entries of uses after those found so far, from a use on.
pub open spec fn entries_from(
    models: Seq<ResolvedModel>,
    bindings: Seq<Option<ResourceDependency>>,
    samplers: Seq<(MaxwellThreeDResourceRole, ResourceDependency)>,
    uses: Seq<MaxwellThreeDShaderResourceUse>,
    from: int,
    found: Seq<DescriptorEntry>,
) -> Result<Seq<DescriptorEntry>, MaxwellThreeDLoweringError>
    decreases uses.len() - from,
{
    if from < 0 || from >= uses.len() {
        Ok(found)
    } else {
        match crate::sampler_preparation::role_dependency(
            models,
            bindings,
            samplers,
            uses[from].role,
        ) {
            Err(error) => Err(error),
            Ok(dependency) => entries_from(
                models,
                bindings,
                samplers,
                uses,
                from + 1,
                found.push(
                    DescriptorEntry {
                        role: uses[from].role,
                        binding: uses[from].binding,
                        dependency,
                    },
                ),
            ),
        }
    }
}

#[verifier::loop_isolation(false)]
fn find_entries(
    resources: &MaxwellThreeDResolvedResources,
    bindings: &Vec<Option<ResourceDependency>>,
    samplers: &Vec<(MaxwellThreeDResourceRole, ResourceDependency)>,
    uses: &Vec<MaxwellThreeDShaderResourceUse>,
) -> (r: Result<Vec<DescriptorEntry>, MaxwellThreeDLoweringError>)
    requires
        bindings@.len() == resources.resources@.len(),
    ensures
        match entries_from(resources.models(), bindings@, samplers@, uses@, 0, Seq::empty()) {
            Ok(found) => r matches Ok(entries) && entries@ == found,
            Err(error) => r == Err::<Vec<DescriptorEntry>, MaxwellThreeDLoweringError>(error),
        },
{
    let ghost models = resources.models();
    let ghost whole = entries_from(models, bindings@, samplers@, uses@, 0, Seq::empty());
    let mut found: Vec<DescriptorEntry> = Vec::new();
    let mut index: usize = 0;
    while index < uses.len()
        invariant
            index <= uses@.len(),
            whole == entries_from(models, bindings@, samplers@, uses@, index as int, found@),
        decreases uses@.len() - index,
    {
        let resource_use = uses[index];
        match shader_resource_dependency(resources, bindings, samplers, resource_use.role) {
            Ok(dependency) => {
                found.push(
                    DescriptorEntry {
                        role: resource_use.role,
                        binding: resource_use.binding,
                        dependency,
                    },
                );
            },
            Err(error) => {
                return Err(error);
            },
        }
        index = index + 1;
    }
    Ok(found)
}

/// Part of a resource that a shader reads: the whole buffer, or the subresources of the
/// image.
pub open spec fn read_target(
    models: Seq<ResolvedModel>,
    bindings: Seq<Option<ResourceDependency>>,
    role: MaxwellThreeDResourceRole,
) -> Result<AccessTarget, MaxwellThreeDLoweringError> {
    match crate::sampler_preparation::spec_resource_index(models, role) {
        Err(error) => Err(error),
        Ok(index) => match models[index as int].shape {
            ViewShape::Buffer { .. } => match crate::draw_inputs::bound_buffer(
                models,
                bindings,
                index,
            ) {
                Err(error) => Err(error),
                Ok((buffer, size)) => Ok(AccessTarget::Buffer { buffer, offset: 0, size }),
            },
            ViewShape::Image { .. } => match crate::sampler_preparation::spec_binding_at(
                models,
                bindings,
                index,
            ) {
                Err(error) => Err(error),
                Ok(ResourceDependency::Image(image)) => Ok(
                    AccessTarget::Image { image, subresources: models[index as int].subresources },
                ),
                Ok(_) => Err(MaxwellThreeDLoweringError::ResolvedResourceKindMismatch),
            },
        },
    }
}

fn find_read_target(
    resources: &MaxwellThreeDResolvedResources,
    bindings: &Vec<Option<ResourceDependency>>,
    role: MaxwellThreeDResourceRole,
) -> (r: Result<AccessTarget, MaxwellThreeDLoweringError>)
    requires
        bindings@.len() == resources.resources@.len(),
    ensures
        r == read_target(resources.models(), bindings@, role),
{
    let index: usize = match resource_index(resources, role) {
        Ok(index) => index,
        Err(error) => {
            return Err(error);
        },
    };
    proof {
        assert(resources.models()[index as int] == resources.resources@[index as int]@);
    }
    match resources.resources[index].shape {
        ViewShape::Buffer { .. } => match find_bound_buffer(resources, bindings, index) {
            Err(error) => Err(error),
            Ok((buffer, size)) => Ok(AccessTarget::Buffer { buffer, offset: 0, size }),
        },
        ViewShape::Image { .. } => match binding_at(resources, bindings, index) {
            Err(error) => Err(error),
            Ok(ResourceDependency::Image(image)) => Ok(
                AccessTarget::Image {
                    image,
                    subresources: resources.resources[index].subresources,
                },
            ),
            Ok(_) => Err(MaxwellThreeDLoweringError::ResolvedResourceKindMismatch),
        },
    }
}

/// Dependencies and reads of uses after those found so far, from a use on. A dependency
/// counts once; samplers are not read; a read whose scope is refused ends the draw.
pub open spec fn reads_from(
    models: Seq<ResolvedModel>,
    bindings: Seq<Option<ResourceDependency>>,
    samplers: Seq<(MaxwellThreeDResourceRole, ResourceDependency)>,
    uses: Seq<MaxwellThreeDShaderResourceUse>,
    refusals: &NeutralRefusals,
    from: int,
    dependencies: Seq<ResourceDependency>,
    accesses: Seq<ResourceAccess>,
) -> Result<(Seq<ResourceDependency>, Seq<ResourceAccess>), MaxwellThreeDLoweringError>
    decreases uses.len() - from,
{
    if from < 0 || from >= uses.len() {
        Ok((dependencies, accesses))
    } else {
        match crate::sampler_preparation::role_dependency(
            models,
            bindings,
            samplers,
            uses[from].role,
        ) {
            Err(error) => Err(error),
            Ok(dependency) => {
                let with_dependency = if dependencies.contains(dependency) {
                    dependencies
                } else {
                    dependencies.push(dependency)
                };
                match uses[from].usage {
                    None => reads_from(
                        models,
                        bindings,
                        samplers,
                        uses,
                        refusals,
                        from + 1,
                        with_dependency,
                        accesses,
                    ),
                    Some(usage) => match read_target(models, bindings, uses[from].role) {
                        Err(error) => Err(error),
                        Ok(target) => if refusals.reason(
                            NeutralConstruction::ReadScope { position: from as usize },
                        ) is Some {
                            Err(
                                MaxwellThreeDLoweringError::InvalidShaderResourceUse {
                                    role: uses[from].role,
                                },
                            )
                        } else {
                            reads_from(
                                models,
                                bindings,
                                samplers,
                                uses,
                                refusals,
                                from + 1,
                                with_dependency,
                                accesses.push(
                                    ResourceAccess {
                                        target,
                                        scope: AccessScope {
                                            stages: uses[from].stages,
                                            mode: AccessMode::Read,
                                            usage,
                                        },
                                    },
                                ),
                            )
                        },
                    },
                }
            },
        }
    }
}

/// Objects of shaders, in order.
pub open spec fn shader_dependencies(shaders: Seq<MaxwellThreeDTranslatedShader>) -> Seq<
    ResourceDependency,
> {
    shaders.map_values(
        |shader: MaxwellThreeDTranslatedShader| ResourceDependency::Shader(shader.shader),
    )
}

/// Stages of shaders, in order.
pub open spec fn shader_stages(shaders: Seq<MaxwellThreeDTranslatedShader>) -> Seq<ShaderStage> {
    shaders.map_values(|shader: MaxwellThreeDTranslatedShader| shader.stage)
}

/// Descriptor kinds of uses, in order.
pub open spec fn use_kinds(uses: Seq<MaxwellThreeDShaderResourceUse>) -> Seq<DescriptorKind> {
    uses.map_values(|resource_use: MaxwellThreeDShaderResourceUse| resource_use.kind)
}

/// What a render pass knows of attachments, in order.
pub open spec fn pass_attachments(attachments: Seq<RenderAttachment>) -> Seq<RenderPassAttachment> {
    attachments.map_values(
        |attachment: RenderAttachment|
            RenderPassAttachment {
                kind: attachment.kind,
                format: attachment.format,
                samples: attachment.samples,
            },
    )
}

#[verifier::loop_isolation(false)]
fn find_reads(
    resources: &MaxwellThreeDResolvedResources,
    bindings: &Vec<Option<ResourceDependency>>,
    samplers: &Vec<(MaxwellThreeDResourceRole, ResourceDependency)>,
    shaders: &MaxwellThreeDTranslatedShaders,
    refusals: &NeutralRefusals,
) -> (r: Result<(Vec<ResourceDependency>, Vec<ResourceAccess>), MaxwellThreeDLoweringError>)
    requires
        bindings@.len() == resources.resources@.len(),
    ensures
        match reads_from(
            resources.models(),
            bindings@,
            samplers@,
            shaders@.resources,
            refusals,
            0,
            shader_dependencies(shaders@.shaders),
            Seq::empty(),
        ) {
            Ok((dependencies, accesses)) => r matches Ok(found) && found.0@ == dependencies
                && found.1@ == accesses,
            Err(error) => r == Err::<
                (Vec<ResourceDependency>, Vec<ResourceAccess>),
                MaxwellThreeDLoweringError,
            >(error),
        },
{
    let ghost models = resources.models();
    let ghost uses = shaders@.resources;
    let ghost whole = reads_from(
        models,
        bindings@,
        samplers@,
        uses,
        refusals,
        0,
        shader_dependencies(shaders@.shaders),
        Seq::empty(),
    );
    let mut dependencies: Vec<ResourceDependency> = Vec::new();
    let mut slot: usize = 0;
    while slot < shaders.shaders.len()
        invariant
            slot <= shaders@.shaders.len(),
            dependencies@ == shader_dependencies(shaders@.shaders.take(slot as int)),
        decreases shaders@.shaders.len() - slot,
    {
        dependencies.push(ResourceDependency::Shader(shaders.shaders[slot].shader));
        proof {
            assert(dependencies@ =~= shader_dependencies(shaders@.shaders.take(slot + 1)));
        }
        slot = slot + 1;
    }
    proof {
        assert(shaders@.shaders.take(slot as int) =~= shaders@.shaders);
    }
    let mut accesses: Vec<ResourceAccess> = Vec::new();
    let mut index: usize = 0;
    while index < shaders.resources.len()
        invariant
            index <= uses.len(),
            whole == reads_from(
                models,
                bindings@,
                samplers@,
                uses,
                refusals,
                index as int,
                dependencies@,
                accesses@,
            ),
        decreases uses.len() - index,
    {
        let resource_use = shaders.resources[index];
        let dependency = match shader_resource_dependency(
            resources,
            bindings,
            samplers,
            resource_use.role,
        ) {
            Ok(dependency) => dependency,
            Err(error) => {
                return Err(error);
            },
        };
        if !holds_dependency(&dependencies, dependency) {
            dependencies.push(dependency);
        }
        if let Some(usage) = resource_use.usage {
            match find_read_target(resources, bindings, resource_use.role) {
                Ok(target) => {
                    if refusals.reason(
                        NeutralConstruction::ReadScope { position: index },
                    ).is_some() {
                        return Err(
                            MaxwellThreeDLoweringError::InvalidShaderResourceUse {
                                role: resource_use.role,
                            },
                        );
                    }
                    accesses.push(
                        ResourceAccess {
                            target,
                            scope: AccessScope {
                                stages: resource_use.stages,
                                mode: AccessMode::Read,
                                usage,
                            },
                        },
                    );
                },
                Err(error) => {
                    return Err(error);
                },
            }
        }
        index = index + 1;
    }
    Ok((dependencies, accesses))
}

fn list_stages(shaders: &Vec<MaxwellThreeDTranslatedShader>) -> (r: Vec<ShaderStage>)
    ensures
        r@ == shader_stages(shaders@),
{
    let mut stages: Vec<ShaderStage> = Vec::new();
    let mut index: usize = 0;
    while index < shaders.len()
        invariant
            index <= shaders@.len(),
            stages@ == shader_stages(shaders@.take(index as int)),
        decreases shaders@.len() - index,
    {
        stages.push(shaders[index].stage);
        proof {
            assert(stages@ =~= shader_stages(shaders@.take(index + 1)));
        }
        index = index + 1;
    }
    proof {
        assert(shaders@.take(index as int) =~= shaders@);
    }
    stages
}

fn list_kinds(uses: &Vec<MaxwellThreeDShaderResourceUse>) -> (r: Vec<DescriptorKind>)
    ensures
        r@ == use_kinds(uses@),
{
    let mut kinds: Vec<DescriptorKind> = Vec::new();
    let mut index: usize = 0;
    while index < uses.len()
        invariant
            index <= uses@.len(),
            kinds@ == use_kinds(uses@.take(index as int)),
        decreases uses@.len() - index,
    {
        kinds.push(uses[index].kind);
        proof {
            assert(kinds@ =~= use_kinds(uses@.take(index + 1)));
        }
        index = index + 1;
    }
    proof {
        assert(uses@.take(index as int) =~= uses@);
    }
    kinds
}

fn list_pass_attachments(attachments: &Vec<RenderAttachment>) -> (r: Vec<RenderPassAttachment>)
    ensures
        r@ == pass_attachments(attachments@),
{
    let mut listed: Vec<RenderPassAttachment> = Vec::new();
    let mut index: usize = 0;
    while index < attachments.len()
        invariant
            index <= attachments@.len(),
            listed@ == pass_attachments(attachments@.take(index as int)),
        decreases attachments@.len() - index,
    {
        let attachment = attachments[index];
        listed.push(
            RenderPassAttachment {
                kind: attachment.kind,
                format: attachment.format,
                samples: attachment.samples,
            },
        );
        proof {
            assert(listed@ =~= pass_attachments(attachments@.take(index + 1)));
        }
        index = index + 1;
    }
    proof {
        assert(attachments@.take(index as int) =~= attachments@);
    }
    listed
}

/// Everything that one draw is lowered from.
pub struct DrawRequest<'a> {
    pub state: &'a MaxwellThreeDState,
    pub resources: &'a MaxwellThreeDResolvedResources,
    pub bindings: &'a Vec<Option<ResourceDependency>>,
    pub samplers: &'a Vec<(MaxwellThreeDResourceRole, ResourceDependency)>,
    pub shaders: &'a MaxwellThreeDTranslatedShaders,
    pub attachments: &'a DrawAttachmentSelection,
    pub vertex_count: u32,
    pub refusals: &'a NeutralRefusals,
}

/// Content of a draw request.
pub struct RequestModel {
    pub state: MaxwellThreeDState,
    pub resources: u64,
    pub models: Seq<ResolvedModel>,
    pub aliases: Seq<MaxwellThreeDResourceAlias>,
    pub resolved_samplers: Seq<MaxwellThreeDResolvedSampler>,
    pub bindings: Seq<Option<ResourceDependency>>,
    pub samplers: Seq<(MaxwellThreeDResourceRole, ResourceDependency)>,
    pub shaders: ShadersModel,
    pub attachments: SelectionModel,
    pub vertex_count: u32,
    pub refusals: NeutralRefusals,
}

impl<'a> View for DrawRequest<'a> {
    type V = RequestModel;

    open spec fn view(&self) -> RequestModel {
        RequestModel {
            state: *self.state,
            resources: self.resources.identity,
            models: self.resources.models(),
            aliases: self.resources.aliases@,
            resolved_samplers: self.resources.samplers@,
            bindings: self.bindings@,
            samplers: self.samplers@,
            shaders: self.shaders@,
            attachments: self.attachments@,
            vertex_count: self.vertex_count,
            refusals: *self.refusals,
        }
    }
}

impl<'a> DrawRequest<'a> {
    /// Bindings are those of the resources, and aliases and attachments name resources.
    pub open spec fn wf(&self) -> bool {
        &&& self.bindings@.len() == self.resources.resources@.len()
        &&& self.resources.wf()
        &&& self.attachments@.wf(self.resources.resources@.len())
    }
}

/// What a draw fetches and writes.
#[derive(Debug)]
pub struct DrawGeometry {
    pub topology: PrimitiveTopology,
    pub triangle_rasterization: TriangleRasterization,
    pub vertex_buffers: Vec<VertexBufferPlan>,
    pub attributes: Vec<VertexAttributePlan>,
    pub attachments: Vec<RenderAttachment>,
}

/// Content of what a draw fetches and writes.
#[verifier::ext_equal]
pub struct GeometryModel {
    pub topology: PrimitiveTopology,
    pub triangle_rasterization: TriangleRasterization,
    pub vertex_buffers: Seq<VertexBufferPlan>,
    pub attributes: Seq<VertexAttributePlan>,
    pub attachments: Seq<RenderAttachment>,
}

impl View for DrawGeometry {
    type V = GeometryModel;

    open spec fn view(&self) -> GeometryModel {
        GeometryModel {
            topology: self.topology,
            triangle_rasterization: self.triangle_rasterization,
            vertex_buffers: self.vertex_buffers@,
            attributes: self.attributes@,
            attachments: self.attachments@,
        }
    }
}

/// Fixed-function state of a draw.
#[derive(Clone, Copy, Debug, PartialEq, Eq)]
pub struct DrawTests {
    pub alpha_test: Option<AlphaTest>,
    pub viewport_transform: Option<ViewportTransform>,
    pub depth_state: Option<DepthState>,
}

impl RequestModel {
    /// What the draw fetches and writes.
    pub open spec fn geometry(self, arguments: DrawArguments) -> Result<
        GeometryModel,
        MaxwellThreeDLoweringError,
    > {
        match self.state.vertex_input.active_begin {
            None => Err(MaxwellThreeDLoweringError::IncompleteDraw("BEGIN")),
            Some(begin) => match primitive_topology(begin) {
                Err(error) => Err(error),
                Ok(topology) => match crate::draw_inputs::vertex_inputs(
                    &self.state,
                    self.models,
                    self.bindings,
                    &self.refusals,
                    0,
                    Seq::empty(),
                    Seq::empty(),
                ) {
                    Err(error) => Err(error),
                    Ok((vertex_buffers, attributes)) => match crate::draw_inputs::rasterization(
                        &self.state,
                        topology,
                        arguments,
                        vertex_buffers,
                    ) {
                        Err(error) => Err(error),
                        Ok(triangle_rasterization) => match self.checked_attachments() {
                            Err(error) => Err(error),
                            Ok(attachments) => Ok(
                                GeometryModel {
                                    topology,
                                    triangle_rasterization,
                                    vertex_buffers,
                                    attributes,
                                    attachments,
                                },
                            ),
                        },
                    },
                },
            },
        }
    }

    /// Attachments of the draw: at least one, none that shares memory with another
    /// resource of the draw, and such as a render pass can have.
    pub open spec fn checked_attachments(self) -> Result<
        Seq<RenderAttachment>,
        MaxwellThreeDLoweringError,
    > {
        let indices = self.attachments.attachment_indices();
        match crate::draw_inputs::attachments_from(
            self.models,
            self.bindings,
            indices,
            0,
            Seq::empty(),
        ) {
            Err(error) => Err(error),
            Ok(attachments) => if attachments.len() == 0 {
                Err(MaxwellThreeDLoweringError::IncompleteDraw("render target"))
            } else {
                match crate::resource_indices::draw_indices(
                    &self.state,
                    self.models,
                    self.attachments,
                    self.shaders.resources,
                ) {
                    Err(error) => Err(error),
                    Ok(required) => match crate::resource_indices::aliases_check(
                        self.models,
                        self.aliases,
                        0,
                        required,
                        indices,
                    ) {
                        Err(error) => Err(error),
                        Ok(()) => if self.refusals.reason(
                            NeutralConstruction::RenderPassDescription,
                        ) is Some {
                            Err(MaxwellThreeDLoweringError::InvalidResourceCreation)
                        } else {
                            Ok(attachments)
                        },
                    },
                }
            },
        }
    }

    /// Fixed-function state of the draw.
    pub open spec fn tests(self) -> Result<DrawTests, MaxwellThreeDLoweringError> {
        match draw_alpha_test_state(&self.state) {
            Err(error) => Err(error),
            Ok(alpha_test) => match draw_viewport_transform(&self.state, &self.refusals) {
                Err(error) => Err(error),
                Ok(viewport_transform) => if self.attachments.depth_stencil is None {
                    Ok(DrawTests { alpha_test, viewport_transform, depth_state: None })
                } else {
                    match draw_depth_state(&self.state) {
                        Err(error) => Err(error),
                        Ok(depth_state) => Ok(
                            DrawTests {
                                alpha_test,
                                viewport_transform,
                                depth_state: Some(depth_state),
                            },
                        ),
                    }
                },
            },
        }
    }

    /// Descriptor entries of the draw.
    pub open spec fn entries(self) -> Result<Seq<DescriptorEntry>, MaxwellThreeDLoweringError> {
        entries_from(
            self.models,
            self.bindings,
            self.samplers,
            self.shaders.resources,
            0,
            Seq::empty(),
        )
    }

    /// Dependencies and reads of the draw.
    pub open spec fn reads(self) -> Result<
        (Seq<ResourceDependency>, Seq<ResourceAccess>),
        MaxwellThreeDLoweringError,
    > {
        reads_from(
            self.models,
            self.bindings,
            self.samplers,
            self.shaders.resources,
            &self.refusals,
            0,
            shader_dependencies(self.shaders.shaders),
            Seq::empty(),
        )
    }

    /// First refusal of the commands of the draw: the begin of the pass, the draw itself, and
    /// its arguments.
    pub open spec fn command_refusal(self) -> Option<&'static str> {
        match self.refusals.reason(NeutralConstruction::RenderPassBegin) {
            Some(reason) => Some(reason),
            None => match self.refusals.reason(NeutralConstruction::Draw) {
                Some(reason) => Some(reason),
                None => self.refusals.reason(NeutralConstruction::DrawArguments),
            },
        }
    }

    /// Plan of the draw on objects that were provided: the draw is prepared, its tests are
    /// set, and then the pass begins, the draw is made and takes its arguments.
    pub open spec fn planned(
        self,
        arguments: DrawArguments,
        geometry: GeometryModel,
        render_pass: u64,
        entries: Seq<DescriptorEntry>,
        descriptor_table: Option<u64>,
        pipeline: u64,
    ) -> Result<PlanModel, MaxwellThreeDLoweringError> {
        match self.reads() {
            Err(error) => Err(error),
            Ok((dependencies, accesses)) => match self.refusals.reason(
                NeutralConstruction::PreparedDraw,
            ) {
                Some(reason) => Err(MaxwellThreeDLoweringError::Command(reason)),
                None => match self.tests() {
                    Err(error) => Err(error),
                    Ok(tests) => match self.command_refusal() {
                        Some(reason) => Err(MaxwellThreeDLoweringError::Command(reason)),
                        None => Ok(
                            PlanModel {
                                pipeline,
                                render_pass,
                                topology: geometry.topology,
                                descriptor_table,
                                triangle_rasterization: geometry.triangle_rasterization,
                                alpha_test: tests.alpha_test,
                                viewport_transform: tests.viewport_transform,
                                depth_state: tests.depth_state,
                                arguments,
                                descriptors: entries,
                                descriptor_kinds: use_kinds(self.shaders.resources),
                                vertex_buffers: geometry.vertex_buffers,
                                attributes: geometry.attributes,
                                attachments: geometry.attachments,
                                accesses,
                                dependencies,
                                stages: shader_stages(self.shaders.shaders),
                                dirty_images: self.attachments.attachment_indices(),
                            },
                        ),
                    },
                },
            },
        }
    }
}

impl WorkModel {
    /// Work after the objects of a draw were provided and the draw was planned.
    pub open spec fn draw_bound(
        self,
        request: RequestModel,
        arguments: DrawArguments,
        geometry: GeometryModel,
    ) -> (WorkModel, Result<PlanModel, MaxwellThreeDLoweringError>) {
        match self.render_pass_provided(pass_attachments(geometry.attachments)) {
            (passed, Err(error)) => (passed, Err(error)),
            (passed, Ok(render_pass)) => match request.entries() {
                Err(error) => (passed, Err(error)),
                Ok(entries) => match passed.table_provided(
                    entries,
                    use_kinds(request.shaders.resources),
                    request.refusals.reason(NeutralConstruction::DescriptorTable) is Some,
                ) {
                    (tabled, Err(error)) => (tabled, Err(error)),
                    (tabled, Ok(descriptor_table)) => match tabled.pipeline_provided() {
                        (piped, Err(error)) => (piped, Err(error)),
                        (piped, Ok(pipeline)) => (
                            piped,
                            request.planned(
                                arguments,
                                geometry,
                                render_pass,
                                entries,
                                descriptor_table,
                                pipeline,
                            ),
                        ),
                    },
                },
            },
        }
    }

    /// Work after a draw was lowered: its shaders are published, its objects provided,
    /// and its plan is retained for draws that repeat it.
    #[verifier::opaque]
    pub open spec fn drawn(self, request: RequestModel) -> (
        WorkModel,
        Result<PlanModel, MaxwellThreeDLoweringError>,
    ) {
        match draw_arguments(&request.state, request.vertex_count) {
            Err(error) => (self, Err(error)),
            Ok(arguments) => match crate::draw_inputs::stages_check(
                &request.state,
                request.shaders,
                0,
                0,
            ) {
                Err(error) => (self, Err(error)),
                Ok(()) => match self.shaders_published(request.shaders.shaders, 0) {
                    (published, Err(error)) => (published, Err(error)),
                    (published, Ok(())) => match request.geometry(arguments) {
                        Err(error) => (published, Err(error)),
                        Ok(geometry) => match published.draw_bound(request, arguments, geometry) {
                            (bound, Err(error)) => (bound, Err(error)),
                            (bound, Ok(plan)) => (
                                WorkModel {
                                    cache: CacheModel {
                                        prepared_draw: Some(
                                            PreparedModel {
                                                state: request.state.identity,
                                                resources: request.resources,
                                                shaders: request.shaders.identity,
                                                plan,
                                            },
                                        ),
                                        ..bound.cache
                                    },
                                    ..bound
                                },
                                Ok(plan),
                            ),
                        },
                    },
                },
            },
        }
    }
}

fn check_attachments(request: &DrawRequest) -> (r: Result<
    Vec<RenderAttachment>,
    MaxwellThreeDLoweringError,
>)
    requires
        request.wf(),
    ensures
        match request@.checked_attachments() {
            Ok(attachments) => r matches Ok(found) && found@ == attachments,
            Err(error) => r == Err::<Vec<RenderAttachment>, MaxwellThreeDLoweringError>(error),
        },
{
    let indices: Vec<usize> = request.attachments.attachment_indices();
    let attachments: Vec<RenderAttachment> = match attachment_records(
        request.resources,
        request.bindings,
        &indices,
    ) {
        Ok(attachments) => attachments,
        Err(error) => {
            return Err(error);
        },
    };
    if attachments.len() == 0 {
        return Err(MaxwellThreeDLoweringError::IncompleteDraw("render target"));
    }
    let required: Vec<usize> = match draw_resource_indices(
        request.state,
        request.resources,
        request.attachments,
        request.shaders,
    ) {
        Ok(required) => required,
        Err(error) => {
            return Err(error);
        },
    };
    match reject_draw_aliases(request.resources, &required, &indices) {
        Ok(()) => {},
        Err(error) => {
            return Err(error);
        },
    }
    if request.refusals.reason(NeutralConstruction::RenderPassDescription).is_some() {
        return Err(MaxwellThreeDLoweringError::InvalidResourceCreation);
    }
    Ok(attachments)
}

fn draw_geometry(request: &DrawRequest, arguments: DrawArguments) -> (r: Result<
    DrawGeometry,
    MaxwellThreeDLoweringError,
>)
    requires
        request.wf(),
    ensures
        match request@.geometry(arguments) {
            Ok(geometry) => r matches Ok(found) && found@ == geometry,
            Err(error) => r == Err::<DrawGeometry, MaxwellThreeDLoweringError>(error),
        },
{
    let begin = match request.state.vertex_input.active_begin {
        Some(begin) => begin,
        None => {
            return Err(MaxwellThreeDLoweringError::IncompleteDraw("BEGIN"));
        },
    };
    let topology = match primitive_topology(begin) {
        Ok(topology) => topology,
        Err(error) => {
            return Err(error);
        },
    };
    let (vertex_buffers, attributes) = match find_vertex_inputs(
        request.state,
        request.resources,
        request.bindings,
        request.refusals,
    ) {
        Ok(found) => found,
        Err(error) => {
            return Err(error);
        },
    };
    let triangle_rasterization = match triangle_rasterization(
        request.state,
        topology,
        arguments,
        &vertex_buffers,
    ) {
        Ok(mode) => mode,
        Err(error) => {
            return Err(error);
        },
    };
    match check_attachments(request) {
        Ok(attachments) => Ok(
            DrawGeometry {
                topology,
                triangle_rasterization,
                vertex_buffers,
                attributes,
                attachments,
            },
        ),
        Err(error) => Err(error),
    }
}

fn draw_tests(request: &DrawRequest) -> (r: Result<DrawTests, MaxwellThreeDLoweringError>)
    ensures
        r == request@.tests(),
{
    let alpha_test = match draw_alpha_test_state(request.state) {
        Ok(alpha_test) => alpha_test,
        Err(error) => {
            return Err(error);
        },
    };
    let viewport_transform = match draw_viewport_transform(request.state, request.refusals) {
        Ok(viewport_transform) => viewport_transform,
        Err(error) => {
            return Err(error);
        },
    };
    if request.attachments.depth_stencil.is_none() {
        return Ok(DrawTests { alpha_test, viewport_transform, depth_state: None });
    }
    match draw_depth_state(request.state) {
        Ok(depth_state) => Ok(
            DrawTests { alpha_test, viewport_transform, depth_state: Some(depth_state) },
        ),
        Err(error) => Err(error),
    }
}

fn command_refusal(request: &DrawRequest) -> (r: Option<&'static str>)
    ensures
        r == request@.command_refusal(),
{
    if let Some(reason) = request.refusals.reason(NeutralConstruction::RenderPassBegin) {
        return Some(reason);
    }
    if let Some(reason) = request.refusals.reason(NeutralConstruction::Draw) {
        return Some(reason);
    }
    request.refusals.reason(NeutralConstruction::DrawArguments)
}

fn plan_draw(
    request: &DrawRequest,
    arguments: DrawArguments,
    geometry: DrawGeometry,
    render_pass: u64,
    entries: Vec<DescriptorEntry>,
    descriptor_table: Option<u64>,
    pipeline: u64,
) -> (r: Result<DrawPlan, MaxwellThreeDLoweringError>)
    requires
        request.wf(),
    ensures
        match request@.planned(
            arguments,
            geometry@,
            render_pass,
            entries@,
            descriptor_table,
            pipeline,
        ) {
            Ok(plan) => r matches Ok(planned) && planned@ == plan,
            Err(error) => r == Err::<DrawPlan, MaxwellThreeDLoweringError>(error),
        },
{
    let (dependencies, accesses) = match find_reads(
        request.resources,
        request.bindings,
        request.samplers,
        request.shaders,
        request.refusals,
    ) {
        Ok(found) => found,
        Err(error) => {
            return Err(error);
        },
    };
    if let Some(reason) = request.refusals.reason(NeutralConstruction::PreparedDraw) {
        return Err(MaxwellThreeDLoweringError::Command(reason));
    }
    let tests = match draw_tests(request) {
        Ok(tests) => tests,
        Err(error) => {
            return Err(error);
        },
    };
    if let Some(reason) = command_refusal(request) {
        return Err(MaxwellThreeDLoweringError::Command(reason));
    }
    Ok(
        DrawPlan {
            pipeline,
            render_pass,
            topology: geometry.topology,
            descriptor_table,
            triangle_rasterization: geometry.triangle_rasterization,
            alpha_test: tests.alpha_test,
            viewport_transform: tests.viewport_transform,
            depth_state: tests.depth_state,
            arguments,
            descriptors: entries,
            descriptor_kinds: list_kinds(&request.shaders.resources),
            vertex_buffers: geometry.vertex_buffers,
            attributes: geometry.attributes,
            attachments: geometry.attachments,
            accesses,
            dependencies,
            stages: list_stages(&request.shaders.shaders),
            dirty_images: request.attachments.attachment_indices(),
        },
    )
}

fn bind_draw(
    request: &DrawRequest,
    arguments: DrawArguments,
    geometry: DrawGeometry,
    cache: &mut MaxwellThreeDLoweringCache,
    creations: &mut Vec<ResourceCreation>,
    invalidations: &mut Vec<ResourceDependency>,
) -> (r: Result<DrawPlan, MaxwellThreeDLoweringError>)
    requires
        old(cache).wf(),
        request.wf(),
    ensures
        final(cache).wf(),
        ({
            let (after, result) = crate::resource_preparation::work_model(
                *old(cache),
                *old(creations),
                *old(invalidations),
            ).draw_bound(request@, arguments, geometry@);
            &&& crate::resource_preparation::work_model(
                *final(cache),
                *final(creations),
                *final(invalidations),
            ) == after
            &&& match result {
                Ok(plan) => r matches Ok(planned) && planned@ == plan,
                Err(error) => r == Err::<DrawPlan, MaxwellThreeDLoweringError>(error),
            }
        }),
{
    let render_pass: u64 = match provide_render_pass(
        list_pass_attachments(&geometry.attachments),
        cache,
        creations,
        invalidations,
    ) {
        Ok(render_pass) => render_pass,
        Err(error) => {
            return Err(error);
        },
    };
    let entries: Vec<DescriptorEntry> = match find_entries(
        request.resources,
        request.bindings,
        request.samplers,
        &request.shaders.resources,
    ) {
        Ok(entries) => entries,
        Err(error) => {
            return Err(error);
        },
    };
    let descriptor_table: Option<u64> = match provide_table(
        &entries,
        list_kinds(&request.shaders.resources),
        request.refusals.reason(NeutralConstruction::DescriptorTable).is_some(),
        cache,
        creations,
        invalidations,
    ) {
        Ok(descriptor_table) => descriptor_table,
        Err(error) => {
            return Err(error);
        },
    };
    let pipeline: u64 = match provide_pipeline(cache, creations, invalidations) {
        Ok(pipeline) => pipeline,
        Err(error) => {
            return Err(error);
        },
    };
    plan_draw(request, arguments, geometry, render_pass, entries, descriptor_table, pipeline)
}

/// Lowers a draw.
pub fn lower_draw(
    request: &DrawRequest,
    cache: &mut MaxwellThreeDLoweringCache,
    creations: &mut Vec<ResourceCreation>,
    invalidations: &mut Vec<ResourceDependency>,
) -> (r: Result<DrawPlan, MaxwellThreeDLoweringError>)
    requires
        old(cache).wf(),
        request.wf(),
    ensures
        final(cache).wf(),
        ({
            let (after, result) = crate::resource_preparation::work_model(
                *old(cache),
                *old(creations),
                *old(invalidations),
            ).drawn(request@);
            &&& crate::resource_preparation::work_model(
                *final(cache),
                *final(creations),
                *final(invalidations),
            ) == after
            &&& match result {
                Ok(plan) => r matches Ok(planned) && planned@ == plan,
                Err(error) => r == Err::<DrawPlan, MaxwellThreeDLoweringError>(error),
            }
        }),
{
    proof {
        reveal(WorkModel::drawn);
    }
    let arguments = match draw_arguments(request.state, request.vertex_count) {
        Ok(arguments) => arguments,
        Err(error) => {
            return Err(error);
        },
    };
    match validate_shader_stages(request.state, request.shaders) {
        Ok(()) => {},
        Err(error) => {
            return Err(error);
        },
    }
    match publish_shaders(request.shaders, cache, creations, invalidations) {
        Ok(()) => {},
        Err(error) => {
            return Err(error);
        },
    }
    let geometry = match draw_geometry(request, arguments) {
        Ok(geometry) => geometry,
        Err(error) => {
            return Err(error);
        },
    };
    let plan = match bind_draw(request, arguments, geometry, cache, creations, invalidations) {
        Ok(plan) => plan,
        Err(error) => {
            return Err(error);
        },
    };
    let retained: DrawPlan = plan.with_arguments(arguments);
    proof {
        assert(plan@.arguments == arguments);
        assert(retained@ =~= plan@);
    }
    cache.prepared_draw = Some(
        PreparedDrawRecord {
            state: request.state.identity,
            resources: request.resources.identity,
            shaders: request.shaders.identity,
            plan: retained,
        },
    );
    Ok(plan)
}

} // verus!
