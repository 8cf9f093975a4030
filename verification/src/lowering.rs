//! Lowering of triggers to work for a backend.

use vstd::prelude::*;
use crate::attachments::{DrawAttachmentSelection, select_draw_attachments, SelectionModel};
use crate::blend_validation::validate_attachments;
use crate::clear::{ClearPlan, lower_clear};
use crate::dispatch::MaxwellThreeDOperationTrigger;
use crate::draw_lowering::{DrawRequest, lower_draw, RequestModel};
use crate::draw_plan::{CreationModel, DrawPlan, GpuCommand, PlanModel, ResourceCreation};
use crate::draw_state::{draw_arguments, validate_draw_stencil_state};
use crate::draw_validation::{MaxwellThreeDDrawFacts, validate_draw_state, validate_execution};
use crate::lists::copied;
use crate::lowering_cache::{CacheModel, MaxwellThreeDLoweringCache};
use crate::lowering_error::MaxwellThreeDLoweringError;
use crate::materialization::{record_clear_materialization, record_draw_color_materializations, validate_compressed_color_materialization, validate_compressed_depth_materialization};
use crate::neutral::{DrawArguments, ResourceDependency};
use crate::neutral_refusals::{NeutralConstruction, NeutralRefusals};
use crate::register::MaxwellMethodSource;
use crate::resource::{MaxwellThreeDResolvedResources, MaxwellThreeDResolvedSampler, MaxwellThreeDResourceAlias, MaxwellThreeDResourceRole, ResolvedModel};
use crate::resource_indices::{clear_resource_indices, draw_resource_indices};
use crate::resource_preparation::{prepare_resources, WorkModel};
use crate::sampler_preparation::prepare_samplers;
use crate::sequencing::{CommandModel, OperationModel, PlannedCommand, sequence_with_transitions, SequencedOperation};
use crate::state::MaxwellThreeDState;
use crate::translated_shaders::{MaxwellThreeDTranslatedShaders, ShadersModel, validate_shader_memory_configuration, validate_visible_call_limit};

verus! {

/// Commands of one operation, before they are put in order, with what they need.
#[derive(Debug)]
pub struct LoweredCommands {
    pub creations: Vec<ResourceCreation>,
    pub invalidations: Vec<ResourceDependency>,
    pub commands: Vec<PlannedCommand>,
    pub draw: Option<DrawPlan>,
    pub dirty_images: Vec<usize>,
}

/// Content of lowered commands.
#[verifier::ext_equal]
pub struct LoweredModel {
    pub creations: Seq<CreationModel>,
    pub invalidations: Seq<ResourceDependency>,
    pub commands: Seq<CommandModel>,
    pub draw: Option<PlanModel>,
    pub dirty_images: Seq<usize>,
}

impl View for LoweredCommands {
    type V = LoweredModel;

    open spec fn view(&self) -> LoweredModel {
        LoweredModel {
            creations: crate::draw_plan::creation_models(self.creations@),
            invalidations: self.invalidations@,
            commands: crate::sequencing::command_models(self.commands@),
            draw: plan_model(self.draw),
            dirty_images: self.dirty_images@,
        }
    }
}

/// Content of the plan of a draw, if there is one.
pub open spec fn plan_model(plan: Option<DrawPlan>) -> Option<PlanModel> {
    match plan {
        Some(plan) => Some(plan@),
        None => None,
    }
}

/// Content of translated shaders, if there are any.
pub open spec fn shaders_model(shaders: Option<&MaxwellThreeDTranslatedShaders>) -> Option<
    ShadersModel,
> {
    match shaders {
        Some(shaders) => Some(shaders@),
        None => None,
    }
}

/// Content of resolved resources.
pub struct ResourcesModel {
    pub identity: u64,
    pub models: Seq<ResolvedModel>,
    pub samplers: Seq<MaxwellThreeDResolvedSampler>,
    pub aliases: Seq<MaxwellThreeDResourceAlias>,
}

pub open spec fn resources_model(resources: &MaxwellThreeDResolvedResources) -> ResourcesModel {
    ResourcesModel {
        identity: resources.identity,
        models: resources.models(),
        samplers: resources.samplers@,
        aliases: resources.aliases@,
    }
}

/// Commands of a draw: its render pass begins, it draws, the render pass ends.
pub open spec fn draw_commands(plan: PlanModel) -> Seq<CommandModel> {
    seq![
        CommandModel {
            command: GpuCommand::BeginRenderPass(plan.render_pass),
            accesses: Seq::empty(),
        },
        CommandModel { command: GpuCommand::Draw(plan.arguments), accesses: plan.accesses },
        CommandModel { command: GpuCommand::EndRenderPass(plan.render_pass), accesses: Seq::empty() },
    ]
}

fn command_draw(plan: &DrawPlan) -> (r: Vec<PlannedCommand>)
    ensures
        crate::sequencing::command_models(r@) == draw_commands(plan@),
{
    let mut commands: Vec<PlannedCommand> = Vec::new();
    commands.push(
        PlannedCommand {
            command: GpuCommand::BeginRenderPass(plan.render_pass),
            accesses: Vec::new(),
        },
    );
    commands.push(
        PlannedCommand {
            command: GpuCommand::Draw(plan.arguments),
            accesses: copied(&plan.accesses),
        },
    );
    commands.push(
        PlannedCommand {
            command: GpuCommand::EndRenderPass(plan.render_pass),
            accesses: Vec::new(),
        },
    );
    proof {
        let models = crate::sequencing::command_models(commands@);
        assert(models.len() == 3);
        assert(models[0].accesses =~= Seq::empty());
        assert(models[2].accesses =~= Seq::empty());
        assert(models =~= draw_commands(plan@));
    }
    commands
}

/// Commands of a surface clear.
pub open spec fn clear_commands(plans: Seq<ClearPlan>) -> Seq<CommandModel> {
    plans.map_values(
        |plan: ClearPlan|
            CommandModel { command: GpuCommand::Clear(plan), accesses: Seq::empty() },
    )
}

/// Resources that a surface clear writes.
pub open spec fn clear_dirty(plans: Seq<ClearPlan>) -> Seq<usize> {
    plans.map_values(|plan: ClearPlan| plan.resource)
}

#[verifier::loop_isolation(false)]
fn command_clears(plans: &Vec<ClearPlan>) -> (r: (Vec<PlannedCommand>, Vec<usize>))
    ensures
        crate::sequencing::command_models(r.0@) == clear_commands(plans@),
        r.1@ == clear_dirty(plans@),
{
    let mut commands: Vec<PlannedCommand> = Vec::new();
    let mut dirty: Vec<usize> = Vec::new();
    let mut index: usize = 0;
    proof {
        assert(crate::sequencing::command_models(commands@) =~= clear_commands(plans@.take(0)));
        assert(dirty@ =~= clear_dirty(plans@.take(0)));
    }
    while index < plans.len()
        invariant
            index <= plans@.len(),
            crate::sequencing::command_models(commands@) == clear_commands(
                plans@.take(index as int),
            ),
            dirty@ == clear_dirty(plans@.take(index as int)),
        decreases plans@.len() - index,
    {
        let ghost earlier = crate::sequencing::command_models(commands@);
        let command = PlannedCommand {
            command: GpuCommand::Clear(plans[index]),
            accesses: Vec::new(),
        };
        let ghost model = command@;
        proof {
            assert(model.accesses =~= Seq::empty());
        }
        commands.push(command);
        dirty.push(plans[index].resource);
        proof {
            assert(crate::sequencing::command_models(commands@) =~= earlier.push(model));
            assert(plans@.take(index + 1) =~= plans@.take(index as int).push(
                plans@[index as int],
            ));
            assert(clear_commands(plans@.take(index + 1)) =~= clear_commands(
                plans@.take(index as int),
            ).push(model));
            assert(dirty@ =~= clear_dirty(plans@.take(index + 1)));
        }
        index = index + 1;
    }
    proof {
        assert(plans@.take(index as int) =~= plans@);
    }
    (commands, dirty)
}

/// Work at the start of an operation: what earlier operations retired is handed on.
pub open spec fn work_started(cache: CacheModel) -> WorkModel {
    WorkModel {
        cache: CacheModel { retired_resources: Seq::empty(), ..cache },
        creations: Seq::empty(),
        invalidations: cache.retired_resources,
    }
}

fn take_retired(cache: &mut MaxwellThreeDLoweringCache) -> (r: Vec<ResourceDependency>)
    requires
        old(cache).wf(),
    ensures
        final(cache).wf(),
        r@ == old(cache)@.retired_resources,
        final(cache)@ == (CacheModel { retired_resources: Seq::empty(), ..old(cache)@ }),
{
    let mut retired: Vec<ResourceDependency> = Vec::new();
    std::mem::swap(&mut retired, &mut cache.retired_resources);
    proof {
        assert(cache@.retired_resources =~= Seq::empty());
    }
    retired
}

/// Work after the resources at some positions and the samplers were bound.
pub open spec fn inputs_bound(
    work: WorkModel,
    resources: ResourcesModel,
    indices: Seq<usize>,
    current: Seq<u64>,
) -> (
    WorkModel,
    Result<
        (Seq<Option<ResourceDependency>>, Seq<(MaxwellThreeDResourceRole, ResourceDependency)>),
        MaxwellThreeDLoweringError,
    >,
) {
    match work.resources_prepared(
        resources.models,
        indices,
        0,
        crate::resource_preparation::unbound(resources.models.len()),
        current,
    ) {
        (prepared, Err(error)) => (prepared, Err(error)),
        (prepared, Ok(bindings)) => match prepared.samplers_prepared(
            resources.samplers,
            0,
            Seq::empty(),
        ) {
            (sampled, Err(error)) => (sampled, Err(error)),
            (sampled, Ok(samplers)) => (sampled, Ok((bindings, samplers))),
        },
    }
}

fn bind_inputs(
    resources: &MaxwellThreeDResolvedResources,
    indices: &Vec<usize>,
    current: &Vec<u64>,
    cache: &mut MaxwellThreeDLoweringCache,
    creations: &mut Vec<ResourceCreation>,
    invalidations: &mut Vec<ResourceDependency>,
) -> (r: Result<
    (Vec<Option<ResourceDependency>>, Vec<(MaxwellThreeDResourceRole, ResourceDependency)>),
    MaxwellThreeDLoweringError,
>)
    requires
        old(cache).wf(),
    ensures
        final(cache).wf(),
        ({
            let (after, result) = inputs_bound(
                crate::resource_preparation::work_model(
                    *old(cache),
                    *old(creations),
                    *old(invalidations),
                ),
                resources_model(resources),
                indices@,
                current@,
            );
            &&& crate::resource_preparation::work_model(
                *final(cache),
                *final(creations),
                *final(invalidations),
            ) == after
            &&& match result {
                Ok((bindings, samplers)) => r matches Ok(bound) && bound.0@ == bindings
                    && bound.1@ == samplers && bound.0@.len() == resources.resources@.len(),
                Err(error) => r == Err::<
                    (
                        Vec<Option<ResourceDependency>>,
                        Vec<(MaxwellThreeDResourceRole, ResourceDependency)>,
                    ),
                    MaxwellThreeDLoweringError,
                >(error),
            }
        }),
{
    let bindings: Vec<Option<ResourceDependency>> = match prepare_resources(
        resources,
        indices,
        current,
        cache,
        creations,
        invalidations,
    ) {
        Ok(bindings) => bindings,
        Err(error) => {
            return Err(error);
        },
    };
    match prepare_samplers(resources, cache, creations, invalidations) {
        Ok(samplers) => Ok((bindings, samplers)),
        Err(error) => Err(error),
    }
}

/// Checks that a surface clear passes before anything is bound, and the positions of
/// its resources.
pub open spec fn clear_admitted(
    state: &MaxwellThreeDState,
    models: Seq<ResolvedModel>,
    source: MaxwellMethodSource,
    current: Seq<u64>,
    cache: CacheModel,
) -> Result<Seq<usize>, MaxwellThreeDLoweringError> {
    match validate_execution(state) {
        Err(error) => Err(error),
        Ok(()) => if state.render_targets.clear_surface.source != Some(source) {
            Err(MaxwellThreeDLoweringError::TriggerStateMismatch)
        } else {
            match crate::materialization::depth_materialization_check(
                state,
                models,
                None,
                cache.views,
                current,
            ) {
                Err(error) => Err(error),
                Ok(()) => match crate::materialization::color_materialization_check(
                    state,
                    models,
                    None,
                    cache.color_materializations,
                    current,
                ) {
                    Err(error) => Err(error),
                    Ok(()) => crate::resource_indices::clear_indices(state, models),
                },
            }
        },
    }
}

fn admit_clear(
    state: &MaxwellThreeDState,
    resources: &MaxwellThreeDResolvedResources,
    source: MaxwellMethodSource,
    current: &Vec<u64>,
    cache: &MaxwellThreeDLoweringCache,
) -> (r: Result<Vec<usize>, MaxwellThreeDLoweringError>)
    ensures
        match clear_admitted(state, resources.models(), source, current@, cache@) {
            Ok(indices) => r matches Ok(found) && found@ == indices,
            Err(error) => r == Err::<Vec<usize>, MaxwellThreeDLoweringError>(error),
        },
{
    match validate_execution(state) {
        Ok(()) => {},
        Err(error) => {
            return Err(error);
        },
    }
    let expected = match state.render_targets.clear_surface.source {
        Some(written) => written == source,
        None => false,
    };
    if !expected {
        return Err(MaxwellThreeDLoweringError::TriggerStateMismatch);
    }
    match validate_compressed_depth_materialization(state, resources, None, current, cache) {
        Ok(()) => {},
        Err(error) => {
            return Err(error);
        },
    }
    match validate_compressed_color_materialization(state, resources, None, current, cache) {
        Ok(()) => {},
        Err(error) => {
            return Err(error);
        },
    }
    clear_resource_indices(state, resources)
}

/// Cache after a surface clear was lowered, and its commands.
pub open spec fn clear_lowered(
    state: &MaxwellThreeDState,
    facts: &MaxwellThreeDDrawFacts,
    resources: ResourcesModel,
    source: MaxwellMethodSource,
    current: Seq<u64>,
    cache: CacheModel,
) -> (CacheModel, Result<LoweredModel, MaxwellThreeDLoweringError>) {
    match clear_admitted(state, resources.models, source, current, cache) {
        Err(error) => (cache, Err(error)),
        Ok(indices) => match inputs_bound(work_started(cache), resources, indices, current) {
            (bound, Err(error)) => (bound.cache, Err(error)),
            (bound, Ok((bindings, _))) => match crate::clear::cleared(
                state,
                resources.models,
                bindings,
                &facts.refusals,
            ) {
                Err(error) => (bound.cache, Err(error)),
                Ok(plans) => match crate::materialization::clear_recorded(
                    state,
                    resources.models,
                    current,
                    bound.cache,
                ) {
                    (recorded, Err(error)) => (recorded, Err(error)),
                    (recorded, Ok(())) => (
                        recorded,
                        Ok(
                            LoweredModel {
                                creations: bound.creations,
                                invalidations: bound.invalidations,
                                commands: clear_commands(plans),
                                draw: None,
                                dirty_images: clear_dirty(plans),
                            },
                        ),
                    ),
                },
            },
        },
    }
}

fn lower_clear_into_cache(
    state: &MaxwellThreeDState,
    facts: &MaxwellThreeDDrawFacts,
    resources: &MaxwellThreeDResolvedResources,
    source: MaxwellMethodSource,
    current: &Vec<u64>,
    cache: &mut MaxwellThreeDLoweringCache,
) -> (r: Result<LoweredCommands, MaxwellThreeDLoweringError>)
    requires
        old(cache).wf(),
    ensures
        final(cache).wf(),
        ({
            let (after, result) = clear_lowered(
                state,
                facts,
                resources_model(resources),
                source,
                current@,
                old(cache)@,
            );
            &&& final(cache)@ == after
            &&& match result {
                Ok(lowered) => r matches Ok(commands) && commands@ == lowered,
                Err(error) => r == Err::<LoweredCommands, MaxwellThreeDLoweringError>(error),
            }
        }),
{
    let indices: Vec<usize> = match admit_clear(state, resources, source, current, cache) {
        Ok(indices) => indices,
        Err(error) => {
            return Err(error);
        },
    };
    let mut creations: Vec<ResourceCreation> = Vec::new();
    let ghost before = cache@;
    let mut invalidations: Vec<ResourceDependency> = take_retired(cache);
    proof {
        assert(crate::resource_preparation::work_model(*cache, creations, invalidations)
            =~= work_started(before));
    }
    let (bindings, _samplers) = match bind_inputs(
        resources,
        &indices,
        current,
        cache,
        &mut creations,
        &mut invalidations,
    ) {
        Ok(bound) => bound,
        Err(error) => {
            return Err(error);
        },
    };
    let plans: Vec<ClearPlan> = match lower_clear(
        state,
        resources,
        &bindings,
        &facts.refusals,
    ) {
        Ok(plans) => plans,
        Err(error) => {
            return Err(error);
        },
    };
    match record_clear_materialization(state, resources, current, cache) {
        Ok(()) => {},
        Err(error) => {
            return Err(error);
        },
    }
    let (commands, dirty_images) = command_clears(&plans);
    Ok(LoweredCommands { creations, invalidations, commands, draw: None, dirty_images })
}

/// Checks that a draw passes before anything is bound: its attachments, its shaders and
/// the positions of its resources.
pub open spec fn draw_admitted(
    state: &MaxwellThreeDState,
    facts: &MaxwellThreeDDrawFacts,
    models: Seq<ResolvedModel>,
    shaders: Option<ShadersModel>,
    current: Seq<u64>,
    cache: CacheModel,
) -> Result<(SelectionModel, ShadersModel, Seq<usize>), MaxwellThreeDLoweringError> {
    match validate_execution(state) {
        Err(error) => Err(error),
        Ok(()) => match crate::draw_validation::spec_validate_draw_state(state, facts) {
            Err(error) => Err(error),
            Ok(()) => match crate::attachments::selected_attachments(state, facts, models) {
                Err(error) => Err(error),
                Ok(attachments) => match draw_contents_checked(
                    state,
                    facts,
                    models,
                    attachments,
                    current,
                    cache,
                ) {
                    Err(error) => Err(error),
                    Ok(()) => match shaders {
                        None => Err(MaxwellThreeDLoweringError::ShaderTranslationRequired),
                        Some(shaders) => match shaders_checked(state, facts, shaders) {
                            Err(error) => Err(error),
                            Ok(()) => match crate::resource_indices::draw_indices(
                                state,
                                models,
                                attachments,
                                shaders.resources,
                            ) {
                                Err(error) => Err(error),
                                Ok(indices) => Ok((attachments, shaders, indices)),
                            },
                        },
                    },
                },
            },
        },
    }
}

/// Check of the attachments of a draw and of the contents they have.
pub open spec fn draw_contents_checked(
    state: &MaxwellThreeDState,
    facts: &MaxwellThreeDDrawFacts,
    models: Seq<ResolvedModel>,
    attachments: SelectionModel,
    current: Seq<u64>,
    cache: CacheModel,
) -> Result<(), MaxwellThreeDLoweringError> {
    match crate::blend_validation::attachment_check(state, facts, models, attachments) {
        Err(error) => Err(error),
        Ok(()) => match crate::materialization::depth_materialization_check(
            state,
            models,
            Some(attachments),
            cache.views,
            current,
        ) {
            Err(error) => Err(error),
            Ok(()) => match crate::materialization::color_materialization_check(
                state,
                models,
                Some(attachments),
                cache.color_materializations,
                current,
            ) {
                Err(error) => Err(error),
                Ok(()) => validate_draw_stencil_state(state),
            },
        },
    }
}

/// Check of the shaders of a draw against the calls and memory they were translated for.
pub open spec fn shaders_checked(
    state: &MaxwellThreeDState,
    facts: &MaxwellThreeDDrawFacts,
    shaders: ShadersModel,
) -> Result<(), MaxwellThreeDLoweringError> {
    match (match facts.visible_call_limit {
        Some(limit) => crate::translated_shaders::visible_call_check(limit, shaders.shaders),
        None => Ok(()),
    }) {
        Err(error) => Err(error),
        Ok(()) => crate::translated_shaders::shader_memory_check(
            state.shader_execution.l1_configuration.value,
            facts.directly_addressable_bytes,
            shaders.shaders,
        ),
    }
}

fn check_draw_contents(
    state: &MaxwellThreeDState,
    facts: &MaxwellThreeDDrawFacts,
    resources: &MaxwellThreeDResolvedResources,
    attachments: &DrawAttachmentSelection,
    current: &Vec<u64>,
    cache: &MaxwellThreeDLoweringCache,
) -> (r: Result<(), MaxwellThreeDLoweringError>)
    requires
        attachments@.wf(resources.resources@.len()),
    ensures
        r == draw_contents_checked(
            state,
            facts,
            resources.models(),
            attachments@,
            current@,
            cache@,
        ),
{
    match validate_attachments(state, facts, resources, attachments) {
        Ok(()) => {},
        Err(error) => {
            return Err(error);
        },
    }
    match validate_compressed_depth_materialization(
        state,
        resources,
        Some(attachments),
        current,
        cache,
    ) {
        Ok(()) => {},
        Err(error) => {
            return Err(error);
        },
    }
    match validate_compressed_color_materialization(
        state,
        resources,
        Some(attachments),
        current,
        cache,
    ) {
        Ok(()) => {},
        Err(error) => {
            return Err(error);
        },
    }
    validate_draw_stencil_state(state)
}

fn check_shaders(
    state: &MaxwellThreeDState,
    facts: &MaxwellThreeDDrawFacts,
    shaders: &MaxwellThreeDTranslatedShaders,
) -> (r: Result<(), MaxwellThreeDLoweringError>)
    ensures
        r == shaders_checked(state, facts, shaders@),
{
    match validate_visible_call_limit(facts.visible_call_limit, shaders) {
        Ok(()) => validate_shader_memory_configuration(
            state,
            &facts.directly_addressable_bytes,
            shaders,
        ),
        Err(error) => Err(error),
    }
}

fn admit_draw(
    state: &MaxwellThreeDState,
    facts: &MaxwellThreeDDrawFacts,
    resources: &MaxwellThreeDResolvedResources,
    shaders: Option<&MaxwellThreeDTranslatedShaders>,
    current: &Vec<u64>,
    cache: &MaxwellThreeDLoweringCache,
) -> (r: Result<(DrawAttachmentSelection, Vec<usize>), MaxwellThreeDLoweringError>)
    ensures
        match draw_admitted(
            state,
            facts,
            resources.models(),
            shaders_model(shaders),
            current@,
            cache@,
        ) {
            Ok((attachments, admitted, indices)) => {
                &&& r matches Ok(found)
                &&& found.0@ == attachments
                &&& found.1@ == indices
                &&& attachments.wf(resources.resources@.len())
                &&& shaders matches Some(shaders)
                &&& shaders@ == admitted
            },
            Err(error) => r == Err::<
                (DrawAttachmentSelection, Vec<usize>),
                MaxwellThreeDLoweringError,
            >(error),
        },
{
    match validate_execution(state) {
        Ok(()) => {},
        Err(error) => {
            return Err(error);
        },
    }
    match validate_draw_state(state, facts) {
        Ok(()) => {},
        Err(error) => {
            return Err(error);
        },
    }
    let attachments = match select_draw_attachments(state, facts, resources) {
        Ok(attachments) => attachments,
        Err(error) => {
            return Err(error);
        },
    };
    match check_draw_contents(state, facts, resources, &attachments, current, cache) {
        Ok(()) => {},
        Err(error) => {
            return Err(error);
        },
    }
    let shaders = match shaders {
        Some(shaders) => shaders,
        None => {
            return Err(MaxwellThreeDLoweringError::ShaderTranslationRequired);
        },
    };
    match check_shaders(state, facts, shaders) {
        Ok(()) => {},
        Err(error) => {
            return Err(error);
        },
    }
    match draw_resource_indices(state, resources, &attachments, shaders) {
        Ok(indices) => Ok((attachments, indices)),
        Err(error) => Err(error),
    }
}

/// Cache after a draw that repeats no other was lowered, and its commands.
pub open spec fn new_draw_lowered(
    state: &MaxwellThreeDState,
    facts: &MaxwellThreeDDrawFacts,
    resources: ResourcesModel,
    shaders: Option<ShadersModel>,
    vertex_count: u32,
    current: Seq<u64>,
    cache: CacheModel,
) -> (CacheModel, Result<LoweredModel, MaxwellThreeDLoweringError>) {
    match draw_admitted(state, facts, resources.models, shaders, current, cache) {
        Err(error) => (cache, Err(error)),
        Ok((attachments, admitted, indices)) => match inputs_bound(
            work_started(cache),
            resources,
            indices,
            current,
        ) {
            (bound, Err(error)) => (bound.cache, Err(error)),
            (bound, Ok((bindings, samplers))) => match bound.drawn(
                RequestModel {
                    state: *state,
                    resources: resources.identity,
                    models: resources.models,
                    aliases: resources.aliases,
                    resolved_samplers: resources.samplers,
                    bindings,
                    samplers,
                    shaders: admitted,
                    attachments,
                    vertex_count,
                    refusals: facts.refusals,
                },
            ) {
                (drawn, Err(error)) => (drawn.cache, Err(error)),
                (drawn, Ok(plan)) => {
                    let (records, recorded) = crate::materialization::draw_recorded(
                        state,
                        resources.models,
                        drawn.cache.color_materializations,
                        current,
                        attachments.colors,
                        0,
                    );
                    (
                        CacheModel { color_materializations: records, ..drawn.cache },
                        match recorded {
                            Err(error) => Err(error),
                            Ok(()) => Ok(
                                LoweredModel {
                                    creations: drawn.creations,
                                    invalidations: drawn.invalidations,
                                    commands: draw_commands(plan),
                                    draw: Some(plan),
                                    dirty_images: plan.dirty_images,
                                },
                            ),
                        },
                    )
                },
            },
        },
    }
}

fn lower_new_draw(
    state: &MaxwellThreeDState,
    facts: &MaxwellThreeDDrawFacts,
    resources: &MaxwellThreeDResolvedResources,
    shaders: Option<&MaxwellThreeDTranslatedShaders>,
    vertex_count: u32,
    current: &Vec<u64>,
    cache: &mut MaxwellThreeDLoweringCache,
) -> (r: Result<LoweredCommands, MaxwellThreeDLoweringError>)
    requires
        old(cache).wf(),
        resources.wf(),
    ensures
        final(cache).wf(),
        ({
            let (after, result) = new_draw_lowered(
                state,
                facts,
                resources_model(resources),
                shaders_model(shaders),
                vertex_count,
                current@,
                old(cache)@,
            );
            &&& final(cache)@ == after
            &&& match result {
                Ok(lowered) => r matches Ok(commands) && commands@ == lowered,
                Err(error) => r == Err::<LoweredCommands, MaxwellThreeDLoweringError>(error),
            }
        }),
{
    let (attachments, indices) = match admit_draw(
        state,
        facts,
        resources,
        shaders,
        current,
        cache,
    ) {
        Ok(admitted) => admitted,
        Err(error) => {
            return Err(error);
        },
    };
    let shaders = match shaders {
        Some(shaders) => shaders,
        None => {
            return Err(MaxwellThreeDLoweringError::ShaderTranslationRequired);
        },
    };
    let mut creations: Vec<ResourceCreation> = Vec::new();
    let ghost before = cache@;
    let mut invalidations: Vec<ResourceDependency> = take_retired(cache);
    proof {
        assert(crate::resource_preparation::work_model(*cache, creations, invalidations)
            =~= work_started(before));
    }
    let (bindings, samplers) = match bind_inputs(
        resources,
        &indices,
        current,
        cache,
        &mut creations,
        &mut invalidations,
    ) {
        Ok(bound) => bound,
        Err(error) => {
            return Err(error);
        },
    };
    let request = DrawRequest {
        state,
        resources,
        bindings: &bindings,
        samplers: &samplers,
        shaders,
        attachments: &attachments,
        vertex_count,
        refusals: &facts.refusals,
    };
    let plan = match lower_draw(&request, cache, &mut creations, &mut invalidations) {
        Ok(plan) => plan,
        Err(error) => {
            return Err(error);
        },
    };
    match record_draw_color_materializations(state, resources, &attachments, current, cache) {
        Ok(()) => {},
        Err(error) => {
            return Err(error);
        },
    }
    let commands = command_draw(&plan);
    let dirty_images: Vec<usize> = copied(&plan.dirty_images);
    Ok(LoweredCommands { creations, invalidations, commands, draw: Some(plan), dirty_images })
}

/// Whether the prepared draw is one of these inputs.
pub open spec fn repeats_prepared(
    cache: CacheModel,
    state: &MaxwellThreeDState,
    resources: u64,
    shaders: u64,
) -> bool {
    match cache.prepared_draw {
        Some(prepared) => prepared.state == state.identity && prepared.resources == resources
            && prepared.shaders == shaders,
        None => false,
    }
}

/// Cache after a draw was lowered, and its commands: a draw that repeats the prepared one
/// reuses its plan with arguments of its own, unless these are refused.
pub open spec fn draw_lowered(
    state: &MaxwellThreeDState,
    facts: &MaxwellThreeDDrawFacts,
    resources: ResourcesModel,
    shaders: Option<ShadersModel>,
    vertex_count: u32,
    current: Seq<u64>,
    cache: CacheModel,
) -> (CacheModel, Result<LoweredModel, MaxwellThreeDLoweringError>) {
    match shaders {
        None => new_draw_lowered(
            state,
            facts,
            resources,
            shaders,
            vertex_count,
            current,
            cache,
        ),
        Some(set) => match draw_arguments(state, vertex_count) {
            Err(error) => (cache, Err(error)),
            Ok(arguments) => if repeats_prepared(cache, state, resources.identity, set.identity) {
                match facts.refusals.reason(NeutralConstruction::DrawArguments) {
                    Some(reason) => (cache, Err(MaxwellThreeDLoweringError::Command(reason))),
                    None => {
                        let plan = PlanModel { arguments, ..cache.prepared_draw->Some_0.plan };
                        (
                            CacheModel { retired_resources: Seq::empty(), ..cache },
                            Ok(
                                LoweredModel {
                                    creations: Seq::empty(),
                                    invalidations: cache.retired_resources,
                                    commands: draw_commands(plan),
                                    draw: Some(plan),
                                    dirty_images: plan.dirty_images,
                                },
                            ),
                        )
                    },
                }
            } else {
                new_draw_lowered(state, facts, resources, shaders, vertex_count, current, cache)
            },
        },
    }
}

fn repeat_prepared(
    state: &MaxwellThreeDState,
    resources: &MaxwellThreeDResolvedResources,
    shaders: &MaxwellThreeDTranslatedShaders,
    arguments: DrawArguments,
    cache: &MaxwellThreeDLoweringCache,
) -> (r: Option<DrawPlan>)
    ensures
        if repeats_prepared(cache@, state, resources.identity, shaders.identity) {
            r matches Some(plan) && plan@ == (PlanModel {
                arguments,
                ..cache@.prepared_draw->Some_0.plan
            })
        } else {
            r is None
        },
{
    match &cache.prepared_draw {
        Some(prepared) => {
            if prepared.state == state.identity && prepared.resources == resources.identity
                && prepared.shaders == shaders.identity {
                Some(prepared.plan.with_arguments(arguments))
            } else {
                None
            }
        },
        None => None,
    }
}

fn lower_draw_into_cache(
    state: &MaxwellThreeDState,
    facts: &MaxwellThreeDDrawFacts,
    resources: &MaxwellThreeDResolvedResources,
    shaders: Option<&MaxwellThreeDTranslatedShaders>,
    vertex_count: u32,
    current: &Vec<u64>,
    cache: &mut MaxwellThreeDLoweringCache,
) -> (r: Result<LoweredCommands, MaxwellThreeDLoweringError>)
    requires
        old(cache).wf(),
        resources.wf(),
    ensures
        final(cache).wf(),
        ({
            let (after, result) = draw_lowered(
                state,
                facts,
                resources_model(resources),
                shaders_model(shaders),
                vertex_count,
                current@,
                old(cache)@,
            );
            &&& final(cache)@ == after
            &&& match result {
                Ok(lowered) => r matches Ok(commands) && commands@ == lowered,
                Err(error) => r == Err::<LoweredCommands, MaxwellThreeDLoweringError>(error),
            }
        }),
{
    if let Some(set) = shaders {
        let arguments = match draw_arguments(state, vertex_count) {
            Ok(arguments) => arguments,
            Err(error) => {
                return Err(error);
            },
        };
        if let Some(plan) = repeat_prepared(state, resources, set, arguments, cache) {
            if let Some(reason) = facts.refusals.reason(NeutralConstruction::DrawArguments) {
                return Err(MaxwellThreeDLoweringError::Command(reason));
            }
            let creations: Vec<ResourceCreation> = Vec::new();
            let invalidations: Vec<ResourceDependency> = take_retired(cache);
            let commands = command_draw(&plan);
            let dirty_images: Vec<usize> = copied(&plan.dirty_images);
            proof {
                assert(crate::draw_plan::creation_models(creations@) =~= Seq::empty());
            }
            return Ok(
                LoweredCommands { creations, invalidations, commands, draw: Some(plan), dirty_images },
            );
        }
    }
    lower_new_draw(state, facts, resources, shaders, vertex_count, current, cache)
}

/// Cache after a trigger was lowered, and its commands.
pub open spec fn operation_lowered(
    state: &MaxwellThreeDState,
    facts: &MaxwellThreeDDrawFacts,
    resources: ResourcesModel,
    trigger: MaxwellThreeDOperationTrigger,
    shaders: Option<ShadersModel>,
    current: Seq<u64>,
    cache: CacheModel,
) -> (CacheModel, Result<LoweredModel, MaxwellThreeDLoweringError>) {
    match trigger {
        MaxwellThreeDOperationTrigger::ClearSurface { source } => clear_lowered(
            state,
            facts,
            resources,
            source,
            current,
            cache,
        ),
        MaxwellThreeDOperationTrigger::DrawVertexArray { vertex_count, .. } => draw_lowered(
            state,
            facts,
            resources,
            shaders,
            vertex_count,
            current,
            cache,
        ),
    }
}

/// Lowers a trigger to commands, which are not put in order yet.
fn lower_operation_commands(
    state: &MaxwellThreeDState,
    facts: &MaxwellThreeDDrawFacts,
    resources: &MaxwellThreeDResolvedResources,
    trigger: MaxwellThreeDOperationTrigger,
    shaders: Option<&MaxwellThreeDTranslatedShaders>,
    current: &Vec<u64>,
    cache: &mut MaxwellThreeDLoweringCache,
) -> (r: Result<LoweredCommands, MaxwellThreeDLoweringError>)
    requires
        old(cache).wf(),
        resources.wf(),
    ensures
        final(cache).wf(),
        ({
            let (after, result) = operation_lowered(
                state,
                facts,
                resources_model(resources),
                trigger,
                shaders_model(shaders),
                current@,
                old(cache)@,
            );
            &&& final(cache)@ == after
            &&& match result {
                Ok(lowered) => r matches Ok(commands) && commands@ == lowered,
                Err(error) => r == Err::<LoweredCommands, MaxwellThreeDLoweringError>(error),
            }
        }),
{
    match trigger {
        MaxwellThreeDOperationTrigger::ClearSurface { source } => lower_clear_into_cache(
            state,
            facts,
            resources,
            source,
            current,
            cache,
        ),
        MaxwellThreeDOperationTrigger::DrawVertexArray { vertex_count, .. } => lower_draw_into_cache(
            state,
            facts,
            resources,
            shaders,
            vertex_count,
            current,
            cache,
        ),
    }
}

/// Operations that are handed to a backend together, after those they depend on.
#[derive(Debug)]
pub struct OperationSubmission {
    pub id: u64,
    pub predecessors: Vec<u64>,
    pub operations: Vec<SequencedOperation>,
}

/// Work that one trigger was lowered to: objects to create, objects to drop, what to run
/// and the resources it writes, by position.
#[derive(Debug)]
pub struct MaxwellThreeDLoweredWork {
    pub creations: Vec<ResourceCreation>,
    pub invalidations: Vec<ResourceDependency>,
    pub submission: OperationSubmission,
    pub draw: Option<DrawPlan>,
    pub dirty_images: Vec<usize>,
}

/// Content of lowered work.
#[verifier::ext_equal]
pub struct LoweredWorkModel {
    pub creations: Seq<CreationModel>,
    pub invalidations: Seq<ResourceDependency>,
    pub id: u64,
    pub predecessors: Seq<u64>,
    pub operations: Seq<OperationModel>,
    pub draw: Option<PlanModel>,
    pub dirty_images: Seq<usize>,
}

impl View for MaxwellThreeDLoweredWork {
    type V = LoweredWorkModel;

    open spec fn view(&self) -> LoweredWorkModel {
        LoweredWorkModel {
            creations: crate::draw_plan::creation_models(self.creations@),
            invalidations: self.invalidations@,
            id: self.submission.id,
            predecessors: self.submission.predecessors@,
            operations: crate::sequencing::operation_models(self.submission.operations@),
            draw: plan_model(self.draw),
            dirty_images: self.dirty_images@,
        }
    }
}

impl MaxwellThreeDLoweredWork {
    #[must_use]
    pub fn resource_creations(&self) -> (r: &Vec<ResourceCreation>)
        ensures
            crate::draw_plan::creation_models(r@) == self@.creations,
    {
        &self.creations
    }

    #[must_use]
    pub fn resource_invalidations(&self) -> (r: &Vec<ResourceDependency>)
        ensures
            r@ == self@.invalidations,
    {
        &self.invalidations
    }

    #[must_use]
    pub fn submission(&self) -> (r: &OperationSubmission)
        ensures
            r.id == self@.id,
            r.predecessors@ == self@.predecessors,
            crate::sequencing::operation_models(r.operations@) == self@.operations,
    {
        &self.submission
    }

    #[must_use]
    pub fn dirty_images(&self) -> (r: &Vec<usize>)
        ensures
            r@ == self@.dirty_images,
    {
        &self.dirty_images
    }
}

/// Cache after commands were put in order and counted, and the work they form. Work whose
/// barriers or submission are refused is not counted.
pub open spec fn work_finished(
    cache: CacheModel,
    id: u64,
    predecessors: Seq<u64>,
    lowered: LoweredModel,
    refusals: &NeutralRefusals,
) -> (CacheModel, Result<LoweredWorkModel, MaxwellThreeDLoweringError>) {
    let (accesses, result) = crate::sequencing::sequenced(
        cache.accesses,
        lowered.commands,
        refusals,
        0,
        Seq::empty(),
    );
    let sequenced = CacheModel { accesses, ..cache };
    match result {
        Err(error) => (sequenced, Err(error)),
        Ok(operations) => match refusals.reason(NeutralConstruction::Submission) {
            Some(reason) => (sequenced, Err(MaxwellThreeDLoweringError::Command(reason))),
            None => if cache.revision == u64::MAX {
                (sequenced, Err(MaxwellThreeDLoweringError::ResourceExhausted))
            } else {
                (
                    CacheModel { revision: (cache.revision + 1) as u64, ..sequenced },
                    Ok(
                        LoweredWorkModel {
                            creations: lowered.creations,
                            invalidations: lowered.invalidations,
                            id,
                            predecessors,
                            operations,
                            draw: lowered.draw,
                            dirty_images: lowered.dirty_images,
                        },
                    ),
                )
            },
        },
    }
}

/// Puts the commands of an operation in order and counts the operation.
pub fn finish_lowered_work(
    cache: &mut MaxwellThreeDLoweringCache,
    id: u64,
    predecessors: Vec<u64>,
    lowered: LoweredCommands,
    refusals: &NeutralRefusals,
) -> (r: Result<MaxwellThreeDLoweredWork, MaxwellThreeDLoweringError>)
    requires
        old(cache).wf(),
    ensures
        final(cache).wf(),
        ({
            let (after, result) = work_finished(
                old(cache)@,
                id,
                predecessors@,
                lowered@,
                refusals,
            );
            &&& final(cache)@ == after
            &&& match result {
                Ok(work) => r matches Ok(finished) && finished@ == work,
                Err(error) => r == Err::<MaxwellThreeDLoweredWork, MaxwellThreeDLoweringError>(
                    error,
                ),
            }
        }),
{
    let operations: Vec<SequencedOperation> = match sequence_with_transitions(
        &lowered.commands,
        refusals,
        cache,
    ) {
        Ok(operations) => operations,
        Err(error) => {
            return Err(error);
        },
    };
    if let Some(reason) = refusals.reason(NeutralConstruction::Submission) {
        return Err(MaxwellThreeDLoweringError::Command(reason));
    }
    match cache.revision.checked_add(1) {
        None => {
            return Err(MaxwellThreeDLoweringError::ResourceExhausted);
        },
        Some(revision) => {
            cache.revision = revision;
        },
    }
    Ok(
        MaxwellThreeDLoweredWork {
            creations: lowered.creations,
            invalidations: lowered.invalidations,
            submission: OperationSubmission { id, predecessors, operations },
            draw: lowered.draw,
            dirty_images: lowered.dirty_images,
        },
    )
}

/// Cache after a trigger was lowered to work, and that work.
pub open spec fn work_lowered(
    state: &MaxwellThreeDState,
    facts: &MaxwellThreeDDrawFacts,
    resources: ResourcesModel,
    trigger: MaxwellThreeDOperationTrigger,
    shaders: Option<ShadersModel>,
    current: Seq<u64>,
    id: u64,
    predecessors: Seq<u64>,
    cache: CacheModel,
) -> (CacheModel, Result<LoweredWorkModel, MaxwellThreeDLoweringError>) {
    match operation_lowered(state, facts, resources, trigger, shaders, current, cache) {
        (after, Err(error)) => (after, Err(error)),
        (after, Ok(lowered)) => work_finished(after, id, predecessors, lowered, &facts.refusals),
    }
}

/// Lowers a trigger into the cache of ordered execution. `current` names the records of
/// CPU writes that saw no write since they were made. A failure ends the submission of the
/// guest, so the cache is left as far as lowering came.
pub fn lower_maxwell_three_d_operation_into_cache(
    state: &MaxwellThreeDState,
    facts: &MaxwellThreeDDrawFacts,
    resources: &MaxwellThreeDResolvedResources,
    trigger: MaxwellThreeDOperationTrigger,
    shaders: Option<&MaxwellThreeDTranslatedShaders>,
    current: &Vec<u64>,
    id: u64,
    predecessors: Vec<u64>,
    cache: &mut MaxwellThreeDLoweringCache,
) -> (r: Result<MaxwellThreeDLoweredWork, MaxwellThreeDLoweringError>)
    requires
        old(cache).wf(),
        resources.wf(),
    ensures
        final(cache).wf(),
        ({
            let (after, result) = work_lowered(
                state,
                facts,
                resources_model(resources),
                trigger,
                shaders_model(shaders),
                current@,
                id,
                predecessors@,
                old(cache)@,
            );
            &&& final(cache)@ == after
            &&& match result {
                Ok(work) => r matches Ok(lowered) && lowered@ == work,
                Err(error) => r == Err::<MaxwellThreeDLoweredWork, MaxwellThreeDLoweringError>(
                    error,
                ),
            }
        }),
        r is Ok ==> final(cache)@.revision == old(cache)@.revision + 1,
        r is Err ==> final(cache)@.revision == old(cache)@.revision,
        r matches Err(error) ==> crate::lowering_effects::may_follow_changes(error)
            || final(cache)@ == old(cache)@,
{
    proof {
        crate::lowering_effects::law_revision_counts_lowered_work(
            state,
            facts,
            resources_model(resources),
            trigger,
            shaders_model(shaders),
            current@,
            id,
            predecessors@,
            cache@,
        );
        crate::lowering_effects::law_early_refusal_keeps_cache(
            state,
            facts,
            resources_model(resources),
            trigger,
            shaders_model(shaders),
            current@,
            id,
            predecessors@,
            cache@,
        );
    }
    match lower_operation_commands(
        state,
        facts,
        resources,
        trigger,
        shaders,
        current,
        cache,
    ) {
        Ok(lowered) => finish_lowered_work(cache, id, predecessors, lowered, &facts.refusals),
        Err(error) => Err(error),
    }
}

/// A draw that repeats the prepared one, with arguments that are not refused, creates
/// nothing, hands on exactly what was retired before it, and is the prepared draw with
/// arguments of its own.
pub proof fn law_repeated_draw_creates_nothing(
    state: &MaxwellThreeDState,
    facts: &MaxwellThreeDDrawFacts,
    resources: ResourcesModel,
    shaders: ShadersModel,
    vertex_count: u32,
    current: Seq<u64>,
    cache: CacheModel,
)
    requires
        repeats_prepared(cache, state, resources.identity, shaders.identity),
        draw_arguments(state, vertex_count) is Ok,
        facts.refusals.reason(NeutralConstruction::DrawArguments) is None,
    ensures
        ({
            let (after, result) = draw_lowered(
                state,
                facts,
                resources,
                Some(shaders),
                vertex_count,
                current,
                cache,
            );
            &&& result matches Ok(lowered)
            &&& lowered.creations.len() == 0
            &&& lowered.invalidations == cache.retired_resources
            &&& after == (CacheModel { retired_resources: Seq::empty(), ..cache })
            &&& lowered.draw == Some(
                PlanModel {
                    arguments: draw_arguments(state, vertex_count)->Ok_0,
                    ..cache.prepared_draw->Some_0.plan
                },
            )
        }),
{
}

/// A draw that was lowered can be repeated: with the same state, resources and shaders
/// the next draw reuses its plan.
pub proof fn law_lowered_draw_can_be_repeated(
    work: WorkModel,
    request: RequestModel,
)
    ensures
        work.drawn(request).1 matches Ok(plan) ==> {
            let after = work.drawn(request).0.cache;
            &&& repeats_prepared(
                after,
                &request.state,
                request.resources,
                request.shaders.identity,
            )
            &&& after.prepared_draw->Some_0.plan == plan
        },
{
    reveal(WorkModel::drawn);
}

/// A trigger that is refused before anything is bound leaves the cache as it was.
pub proof fn law_refused_draw_keeps_cache(
    state: &MaxwellThreeDState,
    facts: &MaxwellThreeDDrawFacts,
    resources: ResourcesModel,
    shaders: Option<ShadersModel>,
    vertex_count: u32,
    current: Seq<u64>,
    cache: CacheModel,
)
    requires
        draw_admitted(state, facts, resources.models, shaders, current, cache) is Err,
        shaders matches Some(set) ==> !repeats_prepared(
            cache,
            state,
            resources.identity,
            set.identity,
        ),
    ensures
        draw_lowered(state, facts, resources, shaders, vertex_count, current, cache).0 == cache,
        draw_lowered(state, facts, resources, shaders, vertex_count, current, cache).1 is Err,
{
}

} // verus!
