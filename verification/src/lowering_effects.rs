//! What lowering may have changed when it fails.

use vstd::prelude::*;
use crate::dispatch::MaxwellThreeDOperationTrigger;
use crate::draw_lowering::RequestModel;
use crate::draw_plan::{DescriptorEntry, RenderAttachment, VertexAttributePlan, VertexBufferPlan};
use crate::draw_state::draw_arguments;
use crate::draw_validation::MaxwellThreeDDrawFacts;
use crate::lowering::ResourcesModel;
use crate::lowering_cache::{CacheModel, ColorModel};
use crate::lowering_error::MaxwellThreeDLoweringError;
use crate::neutral::{AccessMode, AccessScope, AccessTarget, DrawArguments, ResourceAccess, ResourceDependency, ResourceTransition};
use crate::neutral_refusals::NeutralRefusals;
use crate::register::MaxwellMethodSource;
use crate::resource::{MaxwellThreeDResolvedSampler, MaxwellThreeDResourceAlias, MaxwellThreeDResourceRole, ResolvedModel};
use crate::resource_preparation::WorkModel;
use crate::sequencing::{CommandModel, OperationModel};
use crate::state::MaxwellThreeDState;
use crate::translated_shaders::{MaxwellThreeDShaderResourceUse, MaxwellThreeDTranslatedShader, ShadersModel};

verus! {

/// Errors that lowering can meet after it has begun to change its cache. Any other error
/// leaves the cache as it was.
pub open spec fn may_follow_changes(error: MaxwellThreeDLoweringError) -> bool {
    match error {
        MaxwellThreeDLoweringError::ContradictoryState { .. } => true,
        MaxwellThreeDLoweringError::UnsupportedClearStencilMaskSemantics => true,
        MaxwellThreeDLoweringError::UnsupportedVertexAttributeFormat { .. } => true,
        MaxwellThreeDLoweringError::UnsupportedVertexInstanceDivisor { .. } => true,
        MaxwellThreeDLoweringError::UnsupportedFillViaTriangleSemantics(..) => true,
        MaxwellThreeDLoweringError::UnsupportedFillRectangleDraw(..) => true,
        MaxwellThreeDLoweringError::IncompleteAlphaTestState(..) => true,
        MaxwellThreeDLoweringError::InvalidTranslatedShaders => true,
        MaxwellThreeDLoweringError::TranslatedShaderStageMismatch => true,
        MaxwellThreeDLoweringError::UnsupportedShaderStage(..) => true,
        MaxwellThreeDLoweringError::MissingResolvedResource { .. } => true,
        MaxwellThreeDLoweringError::ResolvedResourceKindMismatch => true,
        MaxwellThreeDLoweringError::InvalidResolvedView { .. } => true,
        MaxwellThreeDLoweringError::AllocationDescriptionChanged { .. } => true,
        MaxwellThreeDLoweringError::IncompleteClear(..) => true,
        MaxwellThreeDLoweringError::EmptyClearMask => true,
        MaxwellThreeDLoweringError::EmptyClearRectangle => true,
        MaxwellThreeDLoweringError::PartialColorClearUnsupported { .. } => true,
        MaxwellThreeDLoweringError::ClearOutsideAttachment => true,
        MaxwellThreeDLoweringError::IncompleteDraw(..) => true,
        MaxwellThreeDLoweringError::EmptyDraw => true,
        MaxwellThreeDLoweringError::UnsupportedPrimitiveIdContinuation => true,
        MaxwellThreeDLoweringError::UnsupportedPrimitiveSplitMode(..) => true,
        MaxwellThreeDLoweringError::InstanceIndexOverflow { .. } => true,
        MaxwellThreeDLoweringError::UnsupportedTopology(..) => true,
        MaxwellThreeDLoweringError::AliasedDrawResources { .. } => true,
        MaxwellThreeDLoweringError::InvalidShaderResourceUse { .. } => true,
        MaxwellThreeDLoweringError::InvalidTransition => true,
        MaxwellThreeDLoweringError::InvalidResourceCreation => true,
        MaxwellThreeDLoweringError::Command(..) => true,
        MaxwellThreeDLoweringError::ResourceExhausted => true,
        _ => false,
    }
}

/// Binding resources counts no work and fails only with errors that may follow changes.
proof fn lemma_resources_effects(
    work: WorkModel,
    models: Seq<ResolvedModel>,
    indices: Seq<usize>,
    from: int,
    bound: Seq<Option<ResourceDependency>>,
    current: Seq<u64>,
)
    ensures
        ({
            let (after, result) = work.resources_prepared(models, indices, from, bound, current);
            &&& after.cache.revision == work.cache.revision
            &&& result matches Err(error) ==> may_follow_changes(error)
        }),
    decreases indices.len() - from,
{
    if 0 <= from < indices.len() && indices[from] < models.len() {
        let index = indices[from];
        let (prepared, result) = work.resource_prepared(models[index as int], index, bound, current);
        if let Ok(dependency) = result {
            lemma_resources_effects(
                prepared,
                models,
                indices,
                from + 1,
                bound.update(index as int, Some(dependency)),
                current,
            );
        }
    }
}

/// Binding samplers counts no work and fails only with errors that may follow changes.
proof fn lemma_samplers_effects(
    work: WorkModel,
    samplers: Seq<MaxwellThreeDResolvedSampler>,
    from: int,
    bound: Seq<(MaxwellThreeDResourceRole, ResourceDependency)>,
)
    ensures
        ({
            let (after, result) = work.samplers_prepared(samplers, from, bound);
            &&& after.cache.revision == work.cache.revision
            &&& result matches Err(error) ==> may_follow_changes(error)
        }),
    decreases samplers.len() - from,
{
    if 0 <= from < samplers.len() {
        let (prepared, result) = work.sampler_prepared(samplers[from]);
        if let Ok(dependency) = result {
            lemma_samplers_effects(
                prepared,
                samplers,
                from + 1,
                bound.push((samplers[from].role, dependency)),
            );
        }
    }
}

/// Publishing shaders counts no work and fails only with errors that may follow changes.
proof fn lemma_shaders_effects(
    work: WorkModel,
    shaders: Seq<MaxwellThreeDTranslatedShader>,
    from: int,
)
    ensures
        ({
            let (after, result) = work.shaders_published(shaders, from);
            &&& after.cache.revision == work.cache.revision
            &&& result matches Err(error) ==> may_follow_changes(error)
        }),
    decreases shaders.len() - from,
{
    if 0 <= from < shaders.len() {
        lemma_shaders_effects(work.shader_published(shaders[from]).0, shaders, from + 1);
    }
}

proof fn lemma_stages_errors(
    state: &MaxwellThreeDState,
    shaders: ShadersModel,
    from: int,
    enabled: nat,
)
    ensures
        crate::draw_inputs::stages_check(state, shaders, from, enabled) matches Err(error)
            ==> may_follow_changes(error),
    decreases 6 - from,
{
    if 0 <= from < 6 {
        lemma_stages_errors(state, shaders, from + 1, enabled);
        lemma_stages_errors(state, shaders, from + 1, enabled + 1);
    }
}

proof fn lemma_attributes_errors(
    state: &MaxwellThreeDState,
    stream: u8,
    from: int,
    found: Seq<VertexAttributePlan>,
)
    ensures
        crate::draw_inputs::stream_attributes(state, stream, from, found) matches Err(error)
            ==> may_follow_changes(error),
    decreases 32 - from,
{
    if 0 <= from < 32 {
        let attribute = state.vertex_input.attributes[from].value;
        if !crate::draw_inputs::spec_feeds(attribute, stream) {
            lemma_attributes_errors(state, stream, from + 1, found);
        } else if let Ok(format) = crate::draw_state::spec_neutral_vertex_format(
            from as u8,
            attribute->Some_0,
        ) {
            lemma_attributes_errors(
                state,
                stream,
                from + 1,
                found.push(
                    VertexAttributePlan {
                        stream,
                        format,
                        offset: attribute->Some_0.offset() as u64,
                        shader_location: from as u32,
                    },
                ),
            );
        }
    }
}

proof fn lemma_inputs_errors(
    state: &MaxwellThreeDState,
    models: Seq<ResolvedModel>,
    bindings: Seq<Option<ResourceDependency>>,
    refusals: &NeutralRefusals,
    from: int,
    buffers: Seq<VertexBufferPlan>,
    attributes: Seq<VertexAttributePlan>,
)
    ensures
        crate::draw_inputs::vertex_inputs(
            state,
            models,
            bindings,
            refusals,
            from,
            buffers,
            attributes,
        ) matches Err(error) ==> may_follow_changes(error),
    decreases 32 - from,
{
    if 0 <= from < 32 {
        lemma_attributes_errors(state, from as u8, 0, Seq::empty());
        lemma_inputs_errors(state, models, bindings, refusals, from + 1, buffers, attributes);
        if let Ok(found) = crate::draw_inputs::stream_attributes(
            state,
            from as u8,
            0,
            Seq::empty(),
        ) {
            if let Ok(buffer) = crate::draw_inputs::stream_buffer(
                state,
                models,
                bindings,
                refusals,
                from as u8,
            ) {
                lemma_inputs_errors(
                    state,
                    models,
                    bindings,
                    refusals,
                    from + 1,
                    buffers.push(buffer),
                    attributes + found,
                );
            }
        }
    }
}

proof fn lemma_attachments_errors(
    models: Seq<ResolvedModel>,
    bindings: Seq<Option<ResourceDependency>>,
    indices: Seq<usize>,
    from: int,
    found: Seq<RenderAttachment>,
)
    ensures
        crate::draw_inputs::attachments_from(models, bindings, indices, from, found) matches Err(
            error,
        ) ==> may_follow_changes(error),
    decreases indices.len() - from,
{
    if 0 <= from < indices.len() {
        if let Ok(record) = crate::draw_inputs::attachment(models, bindings, indices[from]) {
            lemma_attachments_errors(models, bindings, indices, from + 1, found.push(record));
        }
    }
}

proof fn lemma_streams_errors(
    state: &MaxwellThreeDState,
    models: Seq<ResolvedModel>,
    from: int,
    found: Seq<usize>,
)
    ensures
        crate::resource_indices::streams_indexed(state, models, from, found) matches Err(error)
            ==> may_follow_changes(error),
    decreases 32 - from,
{
    if 0 <= from < 32 {
        lemma_streams_errors(state, models, from + 1, found);
        if let Ok(index) = crate::sampler_preparation::spec_resource_index(
            models,
            MaxwellThreeDResourceRole::VertexStream(from as u8),
        ) {
            lemma_streams_errors(state, models, from + 1, found.push(index));
        }
    }
}

proof fn lemma_uses_errors(
    models: Seq<ResolvedModel>,
    uses: Seq<MaxwellThreeDShaderResourceUse>,
    from: int,
    found: Seq<usize>,
)
    ensures
        crate::resource_indices::uses_indexed(models, uses, from, found) matches Err(error)
            ==> may_follow_changes(error),
    decreases uses.len() - from,
{
    if 0 <= from < uses.len() {
        lemma_uses_errors(models, uses, from + 1, found);
        if let Ok(index) = crate::sampler_preparation::spec_resource_index(
            models,
            uses[from].role,
        ) {
            lemma_uses_errors(models, uses, from + 1, found.push(index));
        }
    }
}

proof fn lemma_aliases_errors(
    models: Seq<ResolvedModel>,
    aliases: Seq<MaxwellThreeDResourceAlias>,
    from: int,
    required: Seq<usize>,
    attached: Seq<usize>,
)
    ensures
        crate::resource_indices::aliases_check(models, aliases, from, required, attached) matches Err(
            error,
        ) ==> may_follow_changes(error),
    decreases aliases.len() - from,
{
    if 0 <= from < aliases.len() {
        lemma_aliases_errors(models, aliases, from + 1, required, attached);
    }
}

proof fn lemma_entries_errors(
    models: Seq<ResolvedModel>,
    bindings: Seq<Option<ResourceDependency>>,
    samplers: Seq<(MaxwellThreeDResourceRole, ResourceDependency)>,
    uses: Seq<MaxwellThreeDShaderResourceUse>,
    from: int,
    found: Seq<DescriptorEntry>,
)
    ensures
        crate::draw_lowering::entries_from(models, bindings, samplers, uses, from, found) matches Err(
            error,
        ) ==> may_follow_changes(error),
    decreases uses.len() - from,
{
    if 0 <= from < uses.len() {
        if let Ok(dependency) = crate::sampler_preparation::role_dependency(
            models,
            bindings,
            samplers,
            uses[from].role,
        ) {
            lemma_entries_errors(
                models,
                bindings,
                samplers,
                uses,
                from + 1,
                found.push(
                    DescriptorEntry {
                        role: uses[from].role,
                        binding: uses[from].binding,
                        dependency,
                    },
                ),
            );
        }
    }
}

proof fn lemma_reads_errors(
    models: Seq<ResolvedModel>,
    bindings: Seq<Option<ResourceDependency>>,
    samplers: Seq<(MaxwellThreeDResourceRole, ResourceDependency)>,
    uses: Seq<MaxwellThreeDShaderResourceUse>,
    refusals: &NeutralRefusals,
    from: int,
    dependencies: Seq<ResourceDependency>,
    accesses: Seq<ResourceAccess>,
)
    ensures
        crate::draw_lowering::reads_from(
            models,
            bindings,
            samplers,
            uses,
            refusals,
            from,
            dependencies,
            accesses,
        ) matches Err(error) ==> may_follow_changes(error),
    decreases uses.len() - from,
{
    if 0 <= from < uses.len() {
        if let Ok(dependency) = crate::sampler_preparation::role_dependency(
            models,
            bindings,
            samplers,
            uses[from].role,
        ) {
            let known = if dependencies.contains(dependency) {
                dependencies
            } else {
                dependencies.push(dependency)
            };
            lemma_reads_errors(
                models,
                bindings,
                samplers,
                uses,
                refusals,
                from + 1,
                known,
                accesses,
            );
            if let (Some(usage), Ok(target)) = (
                uses[from].usage,
                crate::draw_lowering::read_target(models, bindings, uses[from].role),
            ) {
                let scope = AccessScope {
                    stages: uses[from].stages,
                    mode: AccessMode::Read,
                    usage,
                };
                lemma_reads_errors(
                    models,
                    bindings,
                    samplers,
                    uses,
                    refusals,
                    from + 1,
                    known,
                    accesses.push(ResourceAccess { target, scope }),
                );
            }
        }
    }
}

/// Planning what a draw fetches and writes fails only with errors that may follow changes.
proof fn lemma_geometry_errors(request: RequestModel, arguments: DrawArguments)
    ensures
        request.geometry(arguments) matches Err(error) ==> may_follow_changes(error),
{
    let indices = request.attachments.attachment_indices();
    lemma_inputs_errors(
        &request.state,
        request.models,
        request.bindings,
        &request.refusals,
        0,
        Seq::empty(),
        Seq::empty(),
    );
    lemma_attachments_errors(request.models, request.bindings, indices, 0, Seq::empty());
    lemma_streams_errors(&request.state, request.models, 0, indices);
    if let Ok(found) = crate::resource_indices::streams_indexed(
        &request.state,
        request.models,
        0,
        indices,
    ) {
        lemma_uses_errors(request.models, request.shaders.resources, 0, found);
    }
    if let Ok(required) = crate::resource_indices::draw_indices(
        &request.state,
        request.models,
        request.attachments,
        request.shaders.resources,
    ) {
        lemma_aliases_errors(request.models, request.aliases, 0, required, indices);
    }
}

/// Lowering a draw counts no work and fails only with errors that may follow changes.
proof fn lemma_draw_effects(work: WorkModel, request: RequestModel)
    ensures
        ({
            let (after, result) = work.drawn(request);
            &&& after.cache.revision == work.cache.revision
            &&& result matches Err(error) ==> may_follow_changes(error)
        }),
{
    reveal(WorkModel::drawn);
    lemma_stages_errors(&request.state, request.shaders, 0, 0);
    lemma_shaders_effects(work, request.shaders.shaders, 0);
    if let Ok(arguments) = draw_arguments(&request.state, request.vertex_count) {
        lemma_geometry_errors(request, arguments);
    }
    lemma_entries_errors(
        request.models,
        request.bindings,
        request.samplers,
        request.shaders.resources,
        0,
        Seq::empty(),
    );
    assert forall|dependencies: Seq<ResourceDependency>, accesses: Seq<ResourceAccess>|
        #[trigger] crate::draw_lowering::reads_from(
            request.models,
            request.bindings,
            request.samplers,
            request.shaders.resources,
            &request.refusals,
            0,
            dependencies,
            accesses,
        ) matches Err(error) ==> may_follow_changes(error) by {
        lemma_reads_errors(
            request.models,
            request.bindings,
            request.samplers,
            request.shaders.resources,
            &request.refusals,
            0,
            dependencies,
            accesses,
        );
    }
}

proof fn lemma_recording_errors(
    state: &MaxwellThreeDState,
    models: Seq<ResolvedModel>,
    records: Seq<ColorModel>,
    current: Seq<u64>,
    colors: Seq<(u8, usize)>,
    from: int,
)
    ensures
        crate::materialization::draw_recorded(state, models, records, current, colors, from).1
            matches Err(error) ==> may_follow_changes(error),
    decreases colors.len() - from,
{
    if 0 <= from < colors.len() {
        let after = crate::materialization::target_recorded(
            state,
            models,
            records,
            current,
            colors[from].0,
        ).0;
        lemma_recording_errors(state, models, after, current, colors, from + 1);
    }
}

/// Binding what an operation uses counts no work and fails only with errors that may
/// follow changes.
proof fn lemma_binding_effects(
    work: WorkModel,
    resources: ResourcesModel,
    indices: Seq<usize>,
    current: Seq<u64>,
)
    ensures
        ({
            let (after, result) = crate::lowering::inputs_bound(work, resources, indices, current);
            &&& after.cache.revision == work.cache.revision
            &&& result matches Err(error) ==> may_follow_changes(error)
        }),
{
    let unbound = crate::resource_preparation::unbound(resources.models.len());
    lemma_resources_effects(work, resources.models, indices, 0, unbound, current);
    let prepared = work.resources_prepared(resources.models, indices, 0, unbound, current).0;
    lemma_samplers_effects(prepared, resources.samplers, 0, Seq::empty());
}

/// Lowering a surface clear counts no work, and an error that may not follow changes
/// leaves the cache as it was.
proof fn lemma_clear_effects(
    state: &MaxwellThreeDState,
    facts: &MaxwellThreeDDrawFacts,
    resources: ResourcesModel,
    source: MaxwellMethodSource,
    current: Seq<u64>,
    cache: CacheModel,
)
    ensures
        ({
            let (after, result) = crate::lowering::clear_lowered(
                state,
                facts,
                resources,
                source,
                current,
                cache,
            );
            &&& after.revision == cache.revision
            &&& result matches Err(error) ==> may_follow_changes(error) || after == cache
        }),
{
    if let Ok(indices) = crate::lowering::clear_admitted(
        state,
        resources.models,
        source,
        current,
        cache,
    ) {
        lemma_binding_effects(crate::lowering::work_started(cache), resources, indices, current);
    }
}

/// Lowering a draw counts no work, and an error that may not follow changes leaves the
/// cache as it was.
proof fn lemma_draw_operation_effects(
    state: &MaxwellThreeDState,
    facts: &MaxwellThreeDDrawFacts,
    resources: ResourcesModel,
    shaders: Option<ShadersModel>,
    vertex_count: u32,
    current: Seq<u64>,
    cache: CacheModel,
)
    ensures
        ({
            let (after, result) = crate::lowering::draw_lowered(
                state,
                facts,
                resources,
                shaders,
                vertex_count,
                current,
                cache,
            );
            &&& after.revision == cache.revision
            &&& result matches Err(error) ==> may_follow_changes(error) || after == cache
        }),
{
    if let Ok((attachments, admitted, indices)) = crate::lowering::draw_admitted(
        state,
        facts,
        resources.models,
        shaders,
        current,
        cache,
    ) {
        let started = crate::lowering::work_started(cache);
        lemma_binding_effects(started, resources, indices, current);
        let (bound, result) = crate::lowering::inputs_bound(started, resources, indices, current);
        if let Ok((bindings, samplers)) = result {
            let request = RequestModel {
                state: *state,
                resources: resources.identity,
                models: resources.models,
                aliases: resources.aliases,
                resolved_samplers: resources.samplers,
                bindings,
                samplers,
                shaders: admitted,
                attachments,
                vertex_count,
                refusals: facts.refusals,
            };
            lemma_draw_effects(bound, request);
            lemma_recording_errors(
                state,
                resources.models,
                bound.drawn(request).0.cache.color_materializations,
                current,
                attachments.colors,
                0,
            );
        }
    }
}

/// Lowering a trigger to commands counts no work, and an error that may not follow changes
/// leaves the cache as it was.
proof fn lemma_operation_effects(
    state: &MaxwellThreeDState,
    facts: &MaxwellThreeDDrawFacts,
    resources: ResourcesModel,
    trigger: MaxwellThreeDOperationTrigger,
    shaders: Option<ShadersModel>,
    current: Seq<u64>,
    cache: CacheModel,
)
    ensures
        ({
            let (after, result) = crate::lowering::operation_lowered(
                state,
                facts,
                resources,
                trigger,
                shaders,
                current,
                cache,
            );
            &&& after.revision == cache.revision
            &&& result matches Err(error) ==> may_follow_changes(error) || after == cache
        }),
{
    match trigger {
        MaxwellThreeDOperationTrigger::ClearSurface { source } => {
            lemma_clear_effects(state, facts, resources, source, current, cache);
        },
        MaxwellThreeDOperationTrigger::DrawVertexArray { vertex_count, .. } => {
            lemma_draw_operation_effects(
                state,
                facts,
                resources,
                shaders,
                vertex_count,
                current,
                cache,
            );
        },
    }
}

proof fn lemma_transitions_errors(
    known: Seq<(AccessTarget, AccessScope)>,
    accesses: Seq<ResourceAccess>,
    refusals: &NeutralRefusals,
    command: usize,
    from: int,
    found: Seq<ResourceTransition>,
)
    ensures
        crate::sequencing::transitions_from(known, accesses, refusals, command, from, found)
            matches Err(error) ==> may_follow_changes(error),
    decreases accesses.len() - from,
{
    if 0 <= from < accesses.len() {
        lemma_transitions_errors(known, accesses, refusals, command, from + 1, found);
        if let Some(before) = crate::sequencing::last_scope(known, accesses[from].target) {
            lemma_transitions_errors(
                known,
                accesses,
                refusals,
                command,
                from + 1,
                found.push(
                    ResourceTransition {
                        target: accesses[from].target,
                        before,
                        after: accesses[from].scope,
                    },
                ),
            );
        }
    }
}

proof fn lemma_sequence_errors(
    known: Seq<(AccessTarget, AccessScope)>,
    commands: Seq<CommandModel>,
    refusals: &NeutralRefusals,
    from: int,
    operations: Seq<OperationModel>,
)
    ensures
        crate::sequencing::sequenced(known, commands, refusals, from, operations).1 matches Err(
            error,
        ) ==> may_follow_changes(error),
    decreases commands.len() - from,
{
    if 0 <= from < commands.len() {
        let accesses = commands[from].accesses;
        lemma_transitions_errors(known, accesses, refusals, from as usize, 0, Seq::empty());
        if let Ok(transitions) = crate::sequencing::barrier(
            known,
            accesses,
            refusals,
            from as usize,
        ) {
            lemma_sequence_errors(
                crate::sequencing::accesses_recorded(known, accesses, 0),
                commands,
                refusals,
                from + 1,
                operations.push(OperationModel { transitions, command: commands[from].command }),
            );
        }
    }
}

/// Work is counted exactly when it is handed out, and only then.
pub proof fn law_revision_counts_lowered_work(
    state: &MaxwellThreeDState,
    facts: &MaxwellThreeDDrawFacts,
    resources: ResourcesModel,
    trigger: MaxwellThreeDOperationTrigger,
    shaders: Option<ShadersModel>,
    current: Seq<u64>,
    id: u64,
    predecessors: Seq<u64>,
    cache: CacheModel,
)
    ensures
        ({
            let (after, result) = crate::lowering::work_lowered(
                state,
                facts,
                resources,
                trigger,
                shaders,
                current,
                id,
                predecessors,
                cache,
            );
            &&& result is Ok ==> after.revision == cache.revision + 1
            &&& result is Err ==> after.revision == cache.revision
        }),
{
    lemma_operation_effects(state, facts, resources, trigger, shaders, current, cache);
}

/// Where lowering fails with an error that it meets before it changes anything, such as one
/// about color reduction, render enabling, a trigger of another state, blending or missing
/// shaders, the cache is as it was.
pub proof fn law_early_refusal_keeps_cache(
    state: &MaxwellThreeDState,
    facts: &MaxwellThreeDDrawFacts,
    resources: ResourcesModel,
    trigger: MaxwellThreeDOperationTrigger,
    shaders: Option<ShadersModel>,
    current: Seq<u64>,
    id: u64,
    predecessors: Seq<u64>,
    cache: CacheModel,
)
    ensures
        ({
            let (after, result) = crate::lowering::work_lowered(
                state,
                facts,
                resources,
                trigger,
                shaders,
                current,
                id,
                predecessors,
                cache,
            );
            result matches Err(error) ==> may_follow_changes(error) || after == cache
        }),
{
    lemma_operation_effects(state, facts, resources, trigger, shaders, current, cache);
    let (after, result) = crate::lowering::operation_lowered(
        state,
        facts,
        resources,
        trigger,
        shaders,
        current,
        cache,
    );
    if let Ok(lowered) = result {
        lemma_sequence_errors(
            after.accesses,
            lowered.commands,
            &facts.refusals,
            0,
            Seq::empty(),
        );
    }
}

} // verus!
