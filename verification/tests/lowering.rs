use maxwell_threed::capability::{
    lower_maxwell_three_d_operation, negotiate_lowered_work, CreationVerdict,
};
use maxwell_threed::clear::{ClearPlan, ClearValue};
use maxwell_threed::dispatch::{MaxwellEngineOperation, MaxwellThreeDOperationTrigger};
use maxwell_threed::draw_plan::{
    DescriptorEntry, DrawPlan, GpuCommand, RenderAttachment, RenderPassAttachment,
    ResourceCreation, VertexAttributePlan, VertexBufferPlan,
};
use maxwell_threed::draw_state::draw_arguments;
use maxwell_threed::draw_validation::{MaxwellThreeDAttachmentReadiness, MaxwellThreeDDrawFacts};
use maxwell_threed::frontend::preflight;
use maxwell_threed::lowering::{
    lower_maxwell_three_d_operation_into_cache, MaxwellThreeDLoweredWork,
};
use maxwell_threed::lowering_cache::MaxwellThreeDLoweringCache;
use maxwell_threed::lowering_error::MaxwellThreeDLoweringError;
use maxwell_threed::neutral::{
    AccessMode, AccessScope, AccessTarget, BufferDescription, DescriptorKind, DrawArguments,
    GpuAllocationDescription, GpuAllocationId, ImageDescription, ImageExtent, ImageKind,
    ImageSubresourceRange, PipelineStages, PrimitiveTopology, ResourceAccess, ResourceDependency,
    ResourceUsage, ShaderStage, TriangleRasterization, VertexFormat, VertexStepMode,
};
use maxwell_threed::neutral_refusals::{NeutralConstruction, NeutralRefusals};
use maxwell_threed::profile::{
    MaxwellAamVersion, MaxwellAamVersionRange, MaxwellGpuProfile, MaxwellShaderProgramHeaderVersion,
    MaxwellShaderProgramHeaderVersionRange, MaxwellThreeDEncodedField,
    MaxwellThreeDEncodingPattern,
};
use maxwell_threed::register::{GpuMethodId, MaxwellMethodSource};
use maxwell_threed::resource::{
    BackingPiece, MaxwellThreeDResolvedResource, MaxwellThreeDResolvedResources,
    MaxwellThreeDResolvedSampler, MaxwellThreeDResourceAlias, MaxwellThreeDResourceRole,
    MaxwellThreeDTextureDimension, MaxwellThreeDTextureReference, ViewShape,
};
use maxwell_threed::render_enable::MaxwellThreeDRenderEnableMode;
use maxwell_threed::resource_preparation::prepare_resources;
use maxwell_threed::state::{MaxwellThreeDFrontendState, MaxwellThreeDState};
use maxwell_threed::translated_shaders::{
    MaxwellThreeDShaderProgram, MaxwellThreeDTranslatedShaders, ShaderProgramResource,
    ShaderResourceKind, ShaderTextureBinding,
};

const ENCODED: [MaxwellThreeDEncodedField; 7] = [
    MaxwellThreeDEncodedField::VertexAttribute,
    MaxwellThreeDEncodedField::VertexStreamFormat,
    MaxwellThreeDEncodedField::Begin,
    MaxwellThreeDEncodedField::ColorTargetSelection,
    MaxwellThreeDEncodedField::ClearSurface,
    MaxwellThreeDEncodedField::ClearSurfaceControl,
    MaxwellThreeDEncodedField::PointSpriteSelect,
];

const SUBRESOURCES: ImageSubresourceRange = ImageSubresourceRange {
    aspects: 1,
    base_level: 0,
    level_count: 1,
    base_layer: 0,
    layer_count: 1,
};

fn profile() -> MaxwellGpuProfile {
    MaxwellGpuProfile {
        sph_versions: MaxwellShaderProgramHeaderVersionRange::new(
            MaxwellShaderProgramHeaderVersion::new(3),
            MaxwellShaderProgramHeaderVersion::new(3),
        ),
        aam_versions: MaxwellAamVersionRange::new(
            MaxwellAamVersion::new(2),
            MaxwellAamVersion::new(2),
        ),
        sm_timeout_counter_mask: 0x3f,
        local_memory_per_warp_mask: 0x00ff_ffff,
        encodings: ENCODED
            .iter()
            .map(|field| MaxwellThreeDEncodingPattern::new(*field, 0, 0))
            .collect(),
        resets: vec![],
    }
}

/// Sends method words and hands out the trigger of the last one with the state it saw.
fn trigger(words: &[(u32, u32)]) -> (MaxwellThreeDOperationTrigger, MaxwellThreeDState) {
    let mut state = MaxwellThreeDFrontendState::with_resets(0x1b02, 0);
    let mut last = None;
    for (position, (method, argument)) in words.iter().enumerate() {
        let source = MaxwellMethodSource::new(position as u64, GpuMethodId::new(*method), *argument);
        last = preflight(&profile(), source, &mut state).unwrap().operation;
    }
    match last {
        Some(MaxwellEngineOperation::ThreeD { trigger, state }) => (trigger, state),
        other => panic!("unexpected operation {other:?}"),
    }
}

fn facts() -> MaxwellThreeDDrawFacts {
    MaxwellThreeDDrawFacts {
        color_readiness: [MaxwellThreeDAttachmentReadiness::Ready; 8],
        render_target_layer_routing: None,
        point_sprite_coordinates: None,
        interlock_conflicts: None,
        directly_addressable_bytes: [0, 16384, 0, 49152, 0, 0, 0, 0],
        edge_flag_affects_draw: false,
        visible_call_limit: None,
        refusals: NeutralRefusals::none(),
    }
}

fn piece(page: u64) -> BackingPiece {
    BackingPiece { binding: 0, subresources: SUBRESOURCES, layout: 0, page, offset: 0, size: 4096 }
}

fn description(kind: ImageKind, width: u32, height: u32) -> ImageDescription {
    ImageDescription {
        kind,
        format: 7,
        samples: 1,
        levels: 1,
        layers: 1,
        extent: ImageExtent { width, height, depth: 1 },
    }
}

fn image(role: MaxwellThreeDResourceRole, kind: ImageKind, page: u64) -> MaxwellThreeDResolvedResource {
    MaxwellThreeDResolvedResource {
        role,
        shape: ViewShape::Image {
            description: description(kind, 64, 32),
            swizzle: 0,
            guest_format: 0xd5,
            guest_pte_kind: 0xfe,
            guest_compression_enabled: false,
        },
        allocation: GpuAllocationId(page),
        allocation_description: GpuAllocationDescription { size: 4096, memory: 0 },
        subresources: SUBRESOURCES,
        has_direct_representation: true,
        view_is_valid: true,
        range_is_valid: true,
        pieces: vec![piece(page)],
        mappings: vec![page],
        cpu_writes: Some(page),
    }
}

fn buffer(role: MaxwellThreeDResourceRole, size: u64, page: u64) -> MaxwellThreeDResolvedResource {
    MaxwellThreeDResolvedResource {
        role,
        shape: ViewShape::Buffer {
            description: BufferDescription { size, usage: 0 },
            buffer_offset: 0,
        },
        allocation: GpuAllocationId(page),
        allocation_description: GpuAllocationDescription { size: 4096, memory: 0 },
        subresources: SUBRESOURCES,
        has_direct_representation: true,
        view_is_valid: true,
        range_is_valid: true,
        pieces: vec![piece(page)],
        mappings: vec![page],
        cpu_writes: None,
    }
}

fn compressed(mut resource: MaxwellThreeDResolvedResource) -> MaxwellThreeDResolvedResource {
    if let ViewShape::Image { guest_compression_enabled, .. } = &mut resource.shape {
        *guest_compression_enabled = true;
    }
    resource
}

fn resolved(
    identity: u64,
    resources: Vec<MaxwellThreeDResolvedResource>,
) -> MaxwellThreeDResolvedResources {
    MaxwellThreeDResolvedResources { identity, resources, samplers: vec![], aliases: vec![] }
}

const COLOR: MaxwellThreeDResourceRole = MaxwellThreeDResourceRole::ColorTarget(0);
const DEPTH: MaxwellThreeDResourceRole = MaxwellThreeDResourceRole::DepthStencilTarget;
const STREAM: MaxwellThreeDResourceRole = MaxwellThreeDResourceRole::VertexStream(0);
const CONSTANTS: MaxwellThreeDResourceRole =
    MaxwellThreeDResourceRole::ConstantBuffer { group: 1, slot: 0 };
const TEXTURE: MaxwellThreeDTextureReference =
    MaxwellThreeDTextureReference { group: 1, slot: 2, byte_offset: 16 };

fn draw_words() -> Vec<(u32, u32)> {
    vec![
        (0x121c, 1),
        (0x12e4, 0),
        (0x135c, 0),
        (0x0d74, 2),
        (0x1160, 0x3840_0000),
        (0x1164, 0x3840_0600),
        (0x1c00, 0x1018),
        (0x2040, 0x11),
        (0x2140, 0x51),
        (0x1618, 4),
        (0x0d78, 6),
    ]
}

fn program(fingerprint: u128, stage: ShaderStage) -> MaxwellThreeDShaderProgram {
    MaxwellThreeDShaderProgram {
        fingerprint,
        stage,
        module_stage: stage,
        bind_group: Some(1),
        texture_slot: Some(2),
        directly_addressable_memory: None,
        maximum_api_visible_calls: 0,
        resources: vec![ShaderProgramResource {
            binding: 0,
            kind: ShaderResourceKind::ConstantBuffer,
            readable: true,
            writable: false,
            local_binding: Some(0),
            access_is_valid: true,
        }],
        textures: vec![],
    }
}

fn staged(cache: &mut MaxwellThreeDLoweringCache) -> MaxwellThreeDTranslatedShaders {
    cache
        .stage_shader_translations(
            5,
            &vec![program(0xa, ShaderStage::Vertex), program(0xb, ShaderStage::Fragment)],
        )
        .unwrap()
}

fn draw_resources(identity: u64) -> MaxwellThreeDResolvedResources {
    resolved(
        identity,
        vec![
            image(COLOR, ImageKind::Color, 10),
            buffer(STREAM, 240, 11),
            buffer(CONSTANTS, 256, 12),
        ],
    )
}

fn lower_draw_words(
    words: &[(u32, u32)],
    facts: &MaxwellThreeDDrawFacts,
    resources: &MaxwellThreeDResolvedResources,
    cache: &mut MaxwellThreeDLoweringCache,
) -> Result<MaxwellThreeDLoweredWork, MaxwellThreeDLoweringError> {
    let (trigger, state) = trigger(words);
    let shaders = staged(cache);
    lower_maxwell_three_d_operation_into_cache(
        &state,
        facts,
        resources,
        trigger,
        Some(&shaders),
        &vec![],
        1,
        vec![],
        cache,
    )
}

fn refused_draw(
    extra: &[(u32, u32)],
    facts: &MaxwellThreeDDrawFacts,
    resources: &MaxwellThreeDResolvedResources,
) -> MaxwellThreeDLoweringError {
    let mut words = draw_words();
    let draw = words.pop().unwrap();
    words.extend_from_slice(extra);
    words.push(draw);
    let mut cache = MaxwellThreeDLoweringCache::new(8, 8);
    lower_draw_words(&words, facts, resources, &mut cache).unwrap_err()
}

fn clear_words(surface: u32) -> Vec<(u32, u32)> {
    vec![
        (0x0d6c, 60 << 16 | 4),
        (0x0d70, 100 << 16 | 2),
        (0x0d80, 0x3f80_0000),
        (0x0d84, 0x3f00_0000),
        (0x0d88, 0),
        (0x0d8c, 0x3f80_0000),
        (0x0d90, 0x3f00_0000),
        (0x0da0, 0x5a),
        (0x19d0, surface),
    ]
}

fn lower_clear_words(
    words: &[(u32, u32)],
    resources: &MaxwellThreeDResolvedResources,
    current: Vec<u64>,
    cache: &mut MaxwellThreeDLoweringCache,
) -> Result<MaxwellThreeDLoweredWork, MaxwellThreeDLoweringError> {
    let (trigger, state) = trigger(words);
    lower_maxwell_three_d_operation_into_cache(
        &state,
        &facts(),
        resources,
        trigger,
        None,
        &current,
        1,
        vec![],
        cache,
    )
}

fn refused_clear(words: &[(u32, u32)]) -> MaxwellThreeDLoweringError {
    let resources = resolved(
        1,
        vec![image(COLOR, ImageKind::Color, 10), image(DEPTH, ImageKind::DepthStencil, 11)],
    );
    let mut cache = MaxwellThreeDLoweringCache::new(8, 8);
    lower_clear_words(words, &resources, vec![], &mut cache).unwrap_err()
}

fn commands(work: &MaxwellThreeDLoweredWork) -> Vec<GpuCommand> {
    work.submission().operations.iter().map(|operation| operation.command).collect()
}

#[test]
fn color_clear_is_bounded_by_rectangle_and_attachment() {
    let resources = resolved(1, vec![image(COLOR, ImageKind::Color, 10)]);
    let mut cache = MaxwellThreeDLoweringCache::new(8, 8);
    let work = lower_clear_words(&clear_words(0x3c), &resources, vec![], &mut cache).unwrap();
    let plan = ClearPlan {
        resource: 0,
        image: 1,
        subresources: SUBRESOURCES,
        description: description(ImageKind::Color, 64, 32),
        x: 4,
        y: 2,
        width: 56,
        height: 30,
        value: ClearValue::Color {
            red: 0x3f80_0000,
            green: 0x3f00_0000,
            blue: 0,
            alpha: 0x3f80_0000,
        },
    };
    assert_eq!(commands(&work), [GpuCommand::Clear(plan)]);
    assert_eq!(work.dirty_images().as_slice(), [0]);
    assert_eq!(
        work.resource_creations().as_slice(),
        [
            ResourceCreation::Allocation {
                id: GpuAllocationId(10),
                description: GpuAllocationDescription { size: 4096, memory: 0 },
            },
            ResourceCreation::Image { id: 1, resource: 0, with_view: true },
        ]
    );
    assert!(work.resource_invalidations().is_empty());
    assert_eq!(cache.revision(), 1);
    assert_eq!(cache.view_count(), 1);
}

#[test]
fn clear_of_color_and_depth_stencil_is_two_clears() {
    let resources = resolved(
        1,
        vec![image(DEPTH, ImageKind::DepthStencil, 11), image(COLOR, ImageKind::Color, 10)],
    );
    let mut cache = MaxwellThreeDLoweringCache::new(8, 8);
    let work = lower_clear_words(&clear_words(0x3f), &resources, vec![], &mut cache).unwrap();
    match commands(&work).as_slice() {
        [GpuCommand::Clear(color), GpuCommand::Clear(deep)] => {
            assert_eq!(color.resource, 1);
            assert_eq!(deep.resource, 0);
            assert_eq!(
                deep.value,
                ClearValue::DepthStencil { depth: 0x3f00_0000, stencil: 0x5a }
            );
        }
        other => panic!("unexpected commands {other:?}"),
    }
    assert_eq!(work.dirty_images().as_slice(), [1, 0]);
}

#[test]
fn single_planes_are_cleared_alone() {
    let resources = resolved(1, vec![image(DEPTH, ImageKind::DepthStencil, 11)]);
    for (surface, value) in
        [(1, ClearValue::Depth(0x3f00_0000)), (2, ClearValue::Stencil(0x5a))]
    {
        let mut cache = MaxwellThreeDLoweringCache::new(8, 8);
        let work = lower_clear_words(&clear_words(surface), &resources, vec![], &mut cache).unwrap();
        match commands(&work).as_slice() {
            [GpuCommand::Clear(plan)] => assert_eq!(plan.value, value),
            other => panic!("unexpected commands {other:?}"),
        }
    }
}

#[test]
fn clear_control_selects_the_bounds() {
    let mut words = clear_words(0x3c);
    words.insert(0, (0x10f8, 0));
    let resources = resolved(1, vec![image(COLOR, ImageKind::Color, 10)]);
    let mut cache = MaxwellThreeDLoweringCache::new(8, 8);
    let work = lower_clear_words(&words, &resources, vec![], &mut cache).unwrap();
    match commands(&work).as_slice() {
        [GpuCommand::Clear(plan)] => {
            assert_eq!((plan.x, plan.y, plan.width, plan.height), (0, 0, 64, 32));
        }
        other => panic!("unexpected commands {other:?}"),
    }
}

#[test]
fn clears_that_cannot_be_lowered_are_refused() {
    assert_eq!(refused_clear(&clear_words(0)), MaxwellThreeDLoweringError::EmptyClearMask);
    assert_eq!(
        refused_clear(&clear_words(0x1c)),
        MaxwellThreeDLoweringError::PartialColorClearUnsupported { mask: 7 }
    );
    assert_eq!(
        refused_clear(&[(0x0d6c, 8 << 16), (0x0d70, 8 << 16), (0x19d0, 0x3c)]),
        MaxwellThreeDLoweringError::IncompleteClear("color value")
    );
    assert_eq!(
        refused_clear(&[(0x0d6c, 8 << 16), (0x0d70, 8 << 16), (0x19d0, 1)]),
        MaxwellThreeDLoweringError::IncompleteClear("depth value")
    );
    assert_eq!(
        refused_clear(&[(0x0d6c, 8 << 16), (0x0d70, 8 << 16), (0x19d0, 2)]),
        MaxwellThreeDLoweringError::IncompleteClear("stencil value")
    );
    assert_eq!(
        refused_clear(&[(0x19d0, 1)]),
        MaxwellThreeDLoweringError::IncompleteClear("horizontal rectangle")
    );
    assert_eq!(
        refused_clear(&[(0x0d6c, 8 << 16), (0x19d0, 1)]),
        MaxwellThreeDLoweringError::IncompleteClear("vertical rectangle")
    );
    assert_eq!(
        refused_clear(&[(0x0d6c, 100 << 16 | 64), (0x0d70, 8 << 16), (0x0d90, 0), (0x19d0, 1)]),
        MaxwellThreeDLoweringError::EmptyClearRectangle
    );
    assert_eq!(
        refused_clear(&[(0x0d6c, 8 << 16), (0x0d70, 8 << 16), (0x0d90, 0), (0x19d0, 1 | 1 << 10)]),
        MaxwellThreeDLoweringError::ClearOutsideAttachment
    );
    let mut masked = clear_words(2);
    masked.insert(0, (0x10f8, 1));
    assert_eq!(
        refused_clear(&masked),
        MaxwellThreeDLoweringError::UnsupportedClearStencilMaskSemantics
    );
}

#[test]
fn clear_without_its_target_is_refused() {
    let mut cache = MaxwellThreeDLoweringCache::new(8, 8);
    assert_eq!(
        lower_clear_words(&clear_words(0x3c), &resolved(1, vec![]), vec![], &mut cache)
            .unwrap_err(),
        MaxwellThreeDLoweringError::MissingResolvedResource { role: COLOR }
    );
    assert_eq!(
        lower_clear_words(
            &clear_words(0x3c),
            &resolved(1, vec![buffer(COLOR, 64, 10)]),
            vec![],
            &mut cache,
        )
        .unwrap_err(),
        MaxwellThreeDLoweringError::ResolvedResourceKindMismatch
    );
    assert_eq!(cache.revision(), 0);
}

#[test]
fn trigger_of_another_state_is_refused() {
    let (trigger, _) = trigger(&clear_words(0x3c));
    let (_, state) = {
        let mut words = clear_words(0x3c);
        words.insert(0, (0x0100, 0));
        self::trigger(&words)
    };
    let mut cache = MaxwellThreeDLoweringCache::new(8, 8);
    assert_eq!(
        lower_maxwell_three_d_operation_into_cache(
            &state,
            &facts(),
            &resolved(1, vec![image(COLOR, ImageKind::Color, 10)]),
            trigger,
            None,
            &vec![],
            1,
            vec![],
            &mut cache,
        )
        .unwrap_err(),
        MaxwellThreeDLoweringError::TriggerStateMismatch
    );
}

#[test]
fn repeated_clear_uses_its_image_again() {
    let resources = resolved(1, vec![image(COLOR, ImageKind::Color, 10)]);
    let mut cache = MaxwellThreeDLoweringCache::new(8, 8);
    lower_clear_words(&clear_words(0x3c), &resources, vec![], &mut cache).unwrap();
    let again = lower_clear_words(&clear_words(0x3c), &resources, vec![], &mut cache).unwrap();
    assert!(again.resource_creations().is_empty());
    assert_eq!(cache.revision(), 2);
    assert_eq!(cache.view_count(), 1);
}

#[test]
fn view_in_the_way_of_a_new_one_is_dropped() {
    let mut cache = MaxwellThreeDLoweringCache::new(8, 8);
    lower_clear_words(
        &clear_words(0x3c),
        &resolved(1, vec![image(COLOR, ImageKind::Color, 10)]),
        vec![],
        &mut cache,
    )
    .unwrap();
    let mut other = image(COLOR, ImageKind::Color, 10);
    other.mappings = vec![77];
    let work =
        lower_clear_words(&clear_words(0x3c), &resolved(2, vec![other]), vec![], &mut cache)
            .unwrap();
    assert_eq!(
        work.resource_invalidations().as_slice(),
        [ResourceDependency::Image(1)]
    );
    assert_eq!(
        work.resource_creations().as_slice(),
        [ResourceCreation::Image { id: 2, resource: 0, with_view: true }]
    );
    assert_eq!(cache.view_count(), 1);
}

#[test]
fn allocation_keeps_its_description() {
    let mut cache = MaxwellThreeDLoweringCache::new(8, 8);
    lower_clear_words(
        &clear_words(0x3c),
        &resolved(1, vec![image(COLOR, ImageKind::Color, 10)]),
        vec![],
        &mut cache,
    )
    .unwrap();
    let mut changed = image(COLOR, ImageKind::Color, 10);
    changed.allocation_description.size = 8192;
    assert_eq!(
        lower_clear_words(&clear_words(0x3c), &resolved(2, vec![changed]), vec![], &mut cache)
            .unwrap_err(),
        MaxwellThreeDLoweringError::AllocationDescriptionChanged {
            allocation: GpuAllocationId(10),
        }
    );
}

#[test]
fn compressed_color_needs_a_complete_clear_first() {
    let resources = resolved(1, vec![image(COLOR, ImageKind::Color, 10)]);
    let mut partial = clear_words(0x3c);
    partial.insert(0, (0x19e0, 1));
    let mut cache = MaxwellThreeDLoweringCache::new(8, 8);
    assert_eq!(
        lower_clear_words(&partial, &resources, vec![10], &mut cache).unwrap_err(),
        MaxwellThreeDLoweringError::CompressedColorImportRequired { target: 0 }
    );
    let mut complete = partial.clone();
    complete.insert(0, (0x10f8, 0));
    lower_clear_words(&complete, &resources, vec![10], &mut cache).unwrap();
    lower_clear_words(&partial, &resources, vec![10], &mut cache).unwrap();
    assert_eq!(
        lower_clear_words(&partial, &resources, vec![], &mut cache).unwrap_err(),
        MaxwellThreeDLoweringError::CompressedColorImportRequired { target: 0 }
    );
}

#[test]
fn compressed_depth_planes_become_usable_one_by_one() {
    let resources = resolved(1, vec![compressed(image(DEPTH, ImageKind::DepthStencil, 11))]);
    let complete = |surface: u32| {
        let mut words = clear_words(surface);
        words.insert(0, (0x10f8, 0));
        words
    };
    let mut cache = MaxwellThreeDLoweringCache::new(8, 8);
    assert_eq!(
        lower_clear_words(&clear_words(1), &resources, vec![11], &mut cache).unwrap_err(),
        MaxwellThreeDLoweringError::CompressedDepthImportRequired { kind: 0xfe }
    );
    lower_clear_words(&complete(1), &resources, vec![11], &mut cache).unwrap();
    lower_clear_words(&clear_words(1), &resources, vec![11], &mut cache).unwrap();
    assert_eq!(
        lower_clear_words(&clear_words(2), &resources, vec![11], &mut cache).unwrap_err(),
        MaxwellThreeDLoweringError::CompressedDepthImportRequired { kind: 0xfe }
    );
    lower_clear_words(&complete(2), &resources, vec![11], &mut cache).unwrap();
    lower_clear_words(&clear_words(3), &resources, vec![11], &mut cache).unwrap();
}

#[test]
fn draw_creates_its_objects_in_order() {
    let mut cache = MaxwellThreeDLoweringCache::new(8, 8);
    let work = lower_draw_words(&draw_words(), &facts(), &draw_resources(9), &mut cache).unwrap();
    let memory = GpuAllocationDescription { size: 4096, memory: 0 };
    assert_eq!(
        work.resource_creations().as_slice(),
        [
            ResourceCreation::Allocation { id: GpuAllocationId(10), description: memory },
            ResourceCreation::Image { id: 3, resource: 0, with_view: true },
            ResourceCreation::Allocation { id: GpuAllocationId(11), description: memory },
            ResourceCreation::Buffer { id: 4, resource: 1 },
            ResourceCreation::Allocation { id: GpuAllocationId(12), description: memory },
            ResourceCreation::Buffer { id: 5, resource: 2 },
            ResourceCreation::Shader { id: 1, stage: ShaderStage::Vertex, fingerprint: 0xa },
            ResourceCreation::Shader { id: 2, stage: ShaderStage::Fragment, fingerprint: 0xb },
            ResourceCreation::RenderPass {
                id: 6,
                attachments: vec![RenderPassAttachment {
                    kind: ImageKind::Color,
                    format: 7,
                    samples: 1,
                }],
            },
            ResourceCreation::DescriptorTable {
                id: 7,
                kinds: vec![DescriptorKind::Buffer],
                entries: vec![DescriptorEntry {
                    role: CONSTANTS,
                    binding: 0,
                    dependency: ResourceDependency::Buffer(5),
                }],
            },
            ResourceCreation::Pipeline { id: 8 },
        ]
    );
    let arguments = DrawArguments {
        first_vertex: 2,
        vertex_count: 6,
        first_instance: 0,
        instance_count: 1,
    };
    assert_eq!(
        commands(&work),
        [
            GpuCommand::BeginRenderPass(6),
            GpuCommand::Draw(arguments),
            GpuCommand::EndRenderPass(6),
        ]
    );
    assert_eq!(work.dirty_images().as_slice(), [0]);
    let plan: &DrawPlan = work.draw.as_ref().unwrap();
    assert_eq!(plan.topology, PrimitiveTopology::Triangles);
    assert_eq!(plan.triangle_rasterization, TriangleRasterization::Fill);
    assert_eq!(plan.depth_state, None);
    assert_eq!(plan.alpha_test, None);
    assert_eq!(plan.viewport_transform, None);
    assert_eq!(plan.descriptor_table, Some(7));
    assert_eq!(plan.pipeline, 8);
    assert_eq!(plan.stages, [ShaderStage::Vertex, ShaderStage::Fragment]);
    assert_eq!(
        plan.vertex_buffers,
        [VertexBufferPlan {
            stream: 0,
            buffer: 4,
            size: 240,
            stride: 0x18,
            step_mode: VertexStepMode::Vertex,
        }]
    );
    assert_eq!(
        plan.attributes,
        [
            VertexAttributePlan {
                stream: 0,
                format: VertexFormat::Float32x3,
                offset: 0,
                shader_location: 0,
            },
            VertexAttributePlan {
                stream: 0,
                format: VertexFormat::Float32x3,
                offset: 12,
                shader_location: 1,
            },
        ]
    );
    assert_eq!(
        plan.attachments,
        [RenderAttachment {
            image: 3,
            subresources: SUBRESOURCES,
            kind: ImageKind::Color,
            format: 7,
            samples: 1,
        }]
    );
    assert_eq!(
        plan.descriptors,
        [DescriptorEntry {
            role: CONSTANTS,
            binding: 0,
            dependency: ResourceDependency::Buffer(5),
        }]
    );
    assert_eq!(plan.descriptor_kinds, [DescriptorKind::Buffer]);
    assert_eq!(
        plan.accesses,
        [ResourceAccess {
            target: AccessTarget::Buffer { buffer: 5, offset: 0, size: 256 },
            scope: AccessScope {
                stages: PipelineStages(0x11),
                mode: AccessMode::Read,
                usage: ResourceUsage::StorageBuffer,
            },
        }]
    );
    assert_eq!(
        plan.dependencies,
        [
            ResourceDependency::Shader(1),
            ResourceDependency::Shader(2),
            ResourceDependency::Buffer(5),
        ]
    );
}

#[test]
fn repeated_draw_creates_nothing_and_takes_new_arguments() {
    let (first, state) = trigger(&draw_words());
    let resources = draw_resources(9);
    let mut cache = MaxwellThreeDLoweringCache::new(8, 8);
    let shaders = staged(&mut cache);
    lower_maxwell_three_d_operation_into_cache(
        &state,
        &facts(),
        &resources,
        first,
        Some(&shaders),
        &vec![],
        1,
        vec![],
        &mut cache,
    )
    .unwrap();
    let second = match first {
        MaxwellThreeDOperationTrigger::DrawVertexArray { source, .. } => {
            MaxwellThreeDOperationTrigger::DrawVertexArray { source, vertex_count: 9 }
        }
        other => other,
    };
    let again = lower_maxwell_three_d_operation_into_cache(
        &state,
        &facts(),
        &resources,
        second,
        Some(&shaders),
        &vec![],
        2,
        vec![1],
        &mut cache,
    )
    .unwrap();
    assert!(again.resource_creations().is_empty());
    assert!(again.resource_invalidations().is_empty());
    assert_eq!(again.submission().id, 2);
    assert_eq!(again.submission().predecessors, [1]);
    assert_eq!(
        commands(&again)[1],
        GpuCommand::Draw(DrawArguments {
            first_vertex: 2,
            vertex_count: 9,
            first_instance: 0,
            instance_count: 1,
        })
    );
    assert_eq!(cache.revision(), 2);
}

#[test]
fn draw_with_other_resources_shares_pass_and_pipeline() {
    let mut cache = MaxwellThreeDLoweringCache::new(8, 8);
    lower_draw_words(&draw_words(), &facts(), &draw_resources(9), &mut cache).unwrap();
    let mut other = draw_resources(10);
    other.resources[2] = buffer(CONSTANTS, 512, 13);
    let work = lower_draw_words(&draw_words(), &facts(), &other, &mut cache).unwrap();
    assert_eq!(
        work.resource_creations().as_slice(),
        [
            ResourceCreation::Allocation {
                id: GpuAllocationId(13),
                description: GpuAllocationDescription { size: 4096, memory: 0 },
            },
            ResourceCreation::Buffer { id: 9, resource: 2 },
            ResourceCreation::DescriptorTable {
                id: 10,
                kinds: vec![DescriptorKind::Buffer],
                entries: vec![DescriptorEntry {
                    role: CONSTANTS,
                    binding: 0,
                    dependency: ResourceDependency::Buffer(9),
                }],
            },
        ]
    );
}

#[test]
fn sampled_texture_and_sampler_are_bound() {
    let image_role = MaxwellThreeDResourceRole::SampledImage {
        texture: TEXTURE,
        dimension: MaxwellThreeDTextureDimension::Two,
    };
    let sampler_role = MaxwellThreeDResourceRole::Sampler(TEXTURE);
    let mut fragment = program(0xb, ShaderStage::Fragment);
    fragment.resources = vec![
        ShaderProgramResource {
            binding: 3,
            kind: ShaderResourceKind::SampledImage,
            readable: true,
            writable: false,
            local_binding: None,
            access_is_valid: true,
        },
        ShaderProgramResource {
            binding: 4,
            kind: ShaderResourceKind::Sampler,
            readable: true,
            writable: false,
            local_binding: None,
            access_is_valid: true,
        },
    ];
    fragment.textures = vec![ShaderTextureBinding {
        image_binding: 3,
        sampler_binding: 4,
        byte_offset: 16,
        image_kind: ShaderResourceKind::SampledImage,
    }];
    let mut vertex = program(0xa, ShaderStage::Vertex);
    vertex.resources = vec![];
    let mut cache = MaxwellThreeDLoweringCache::new(8, 8);
    let shaders = cache.stage_shader_translations(5, &vec![vertex, fragment]).unwrap();
    let (trigger, state) = trigger(&draw_words());
    let mut resources = resolved(
        9,
        vec![
            image(COLOR, ImageKind::Color, 10),
            buffer(STREAM, 240, 11),
            image(image_role, ImageKind::Color, 12),
        ],
    );
    resources.samplers = vec![MaxwellThreeDResolvedSampler {
        role: sampler_role,
        descriptor: 77,
        description: Some(42),
    }];
    let work = lower_maxwell_three_d_operation_into_cache(
        &state,
        &facts(),
        &resources,
        trigger,
        Some(&shaders),
        &vec![],
        1,
        vec![],
        &mut cache,
    )
    .unwrap();
    let plan = work.draw.as_ref().unwrap();
    assert!(work
        .resource_creations()
        .contains(&ResourceCreation::Sampler { id: 6, description: 42 }));
    assert_eq!(
        plan.descriptors,
        [
            DescriptorEntry {
                role: image_role,
                binding: 3,
                dependency: ResourceDependency::Image(5),
            },
            DescriptorEntry {
                role: sampler_role,
                binding: 4,
                dependency: ResourceDependency::Sampler(6),
            },
        ]
    );
    assert_eq!(plan.accesses.len(), 1);

    resources.identity = 10;
    resources.samplers[0].descriptor = 78;
    let replaced = lower_maxwell_three_d_operation_into_cache(
        &state,
        &facts(),
        &resources,
        trigger,
        Some(&shaders),
        &vec![],
        2,
        vec![],
        &mut cache,
    )
    .unwrap();
    assert_eq!(
        replaced.resource_invalidations().as_slice(),
        [
            ResourceDependency::Sampler(6),
            ResourceDependency::DescriptorTable(8),
        ]
    );

    resources.identity = 11;
    resources.samplers[0].description = None;
    assert_eq!(
        lower_maxwell_three_d_operation_into_cache(
            &state,
            &facts(),
            &resources,
            trigger,
            Some(&shaders),
            &vec![],
            3,
            vec![],
            &mut cache,
        )
        .unwrap_err(),
        MaxwellThreeDLoweringError::InvalidResolvedView { role: sampler_role }
    );
}

#[test]
fn scope_change_of_a_buffer_is_a_transition() {
    let (trigger, state) = trigger(&draw_words());
    let resources = draw_resources(9);
    let mut cache = MaxwellThreeDLoweringCache::new(8, 8);
    let both = staged(&mut cache);
    let first = lower_maxwell_three_d_operation_into_cache(
        &state,
        &facts(),
        &resources,
        trigger,
        Some(&both),
        &vec![],
        1,
        vec![],
        &mut cache,
    )
    .unwrap();
    assert!(first.submission().operations.iter().all(|step| step.transitions.is_empty()));
    let mut fragment = program(0xc, ShaderStage::Fragment);
    fragment.resources = vec![];
    let vertex_only = cache
        .stage_shader_translations(6, &vec![program(0xa, ShaderStage::Vertex), fragment])
        .unwrap();
    let second = lower_maxwell_three_d_operation_into_cache(
        &state,
        &facts(),
        &resources,
        trigger,
        Some(&vertex_only),
        &vec![],
        2,
        vec![],
        &mut cache,
    )
    .unwrap();
    let transitions = &second.submission().operations[1].transitions;
    assert_eq!(transitions.len(), 1);
    assert_eq!(
        transitions[0].target,
        AccessTarget::Buffer { buffer: 5, offset: 0, size: 256 }
    );
    assert_eq!(transitions[0].before.stages, PipelineStages(0x11));
    assert_eq!(transitions[0].after.stages, PipelineStages(0x1));
}

#[test]
fn draw_needs_its_shaders() {
    let (trigger, state) = trigger(&draw_words());
    let mut cache = MaxwellThreeDLoweringCache::new(8, 8);
    assert_eq!(
        lower_maxwell_three_d_operation_into_cache(
            &state,
            &facts(),
            &draw_resources(9),
            trigger,
            None,
            &vec![],
            1,
            vec![],
            &mut cache,
        )
        .unwrap_err(),
        MaxwellThreeDLoweringError::ShaderTranslationRequired
    );
    let vertex = cache
        .stage_shader_translations(5, &vec![program(0xa, ShaderStage::Vertex)])
        .unwrap();
    assert_eq!(
        lower_maxwell_three_d_operation_into_cache(
            &state,
            &facts(),
            &draw_resources(9),
            trigger,
            Some(&vertex),
            &vec![],
            1,
            vec![],
            &mut cache,
        )
        .unwrap_err(),
        MaxwellThreeDLoweringError::TranslatedShaderStageMismatch
    );
}

#[test]
fn aliased_attachment_is_refused() {
    let mut resources = draw_resources(9);
    resources.aliases = vec![MaxwellThreeDResourceAlias { first: 0, second: 2 }];
    assert_eq!(
        refused_draw(&[], &facts(), &resources),
        MaxwellThreeDLoweringError::AliasedDrawResources { first: COLOR, second: CONSTANTS }
    );
    let mut reads = draw_resources(9);
    reads.aliases = vec![MaxwellThreeDResourceAlias { first: 1, second: 2 }];
    let mut cache = MaxwellThreeDLoweringCache::new(8, 8);
    assert!(lower_draw_words(&draw_words(), &facts(), &reads, &mut cache).is_ok());
}

#[test]
fn color_routes_must_be_ready() {
    let resources = draw_resources(9);
    for (readiness, error) in [
        (
            MaxwellThreeDAttachmentReadiness::Unprogrammed,
            MaxwellThreeDLoweringError::ColorTargetRouteUnprogrammed { slot: 0, target: 0 },
        ),
        (
            MaxwellThreeDAttachmentReadiness::Disabled,
            MaxwellThreeDLoweringError::ColorTargetRouteDisabled { slot: 0, target: 0 },
        ),
        (
            MaxwellThreeDAttachmentReadiness::Incomplete,
            MaxwellThreeDLoweringError::ColorTargetRouteIncomplete { slot: 0, target: 0 },
        ),
    ] {
        let mut facts = facts();
        facts.color_readiness[0] = readiness;
        assert_eq!(refused_draw(&[], &facts, &resources), error);
    }
    assert_eq!(
        refused_draw(&[(0x121c, 2)], &facts(), &resources),
        MaxwellThreeDLoweringError::DuplicateColorTargetRoute { target: 0 }
    );
}

#[test]
fn missing_inputs_are_named() {
    let resources = draw_resources(9);
    let mut without_stream = draw_resources(9);
    without_stream.resources.remove(1);
    assert_eq!(
        refused_draw(&[], &facts(), &without_stream),
        MaxwellThreeDLoweringError::MissingResolvedResource { role: STREAM }
    );
    assert_eq!(
        refused_draw(&[(0x1614, 0)], &facts(), &resources),
        MaxwellThreeDLoweringError::IncompleteDraw("BEGIN")
    );
    assert_eq!(
        refused_draw(&[(0x121c, 0)], &facts(), &resources),
        MaxwellThreeDLoweringError::IncompleteDraw("render target")
    );
    let (_, state) = trigger(&draw_words());
    assert_eq!(draw_arguments(&state, 0), Err(MaxwellThreeDLoweringError::EmptyDraw));
}

#[test]
fn blending_is_refused_once_it_is_complete() {
    let resources = draw_resources(9);
    assert_eq!(
        refused_draw(&[(0x135c, 1)], &facts(), &resources),
        MaxwellThreeDLoweringError::IncompleteBlendState {
            target: None,
            field: "SET_BLEND_SEPARATE_FOR_ALPHA",
        }
    );
}

#[test]
fn instance_base_is_added_and_checked() {
    let resources = draw_resources(9);
    let mut words = draw_words();
    words.insert(0, (0x1438, 40));
    let mut cache = MaxwellThreeDLoweringCache::new(8, 8);
    let work = lower_draw_words(&words, &facts(), &resources, &mut cache).unwrap();
    match commands(&work)[1] {
        GpuCommand::Draw(arguments) => assert_eq!(arguments.first_instance, 40),
        other => panic!("unexpected command {other:?}"),
    }
    assert_eq!(
        refused_draw(&[(0x1434, 5)], &facts(), &resources),
        MaxwellThreeDLoweringError::UnsupportedGlobalBaseVertexIndex(5)
    );
}

#[test]
fn refused_draw_leaves_revision_and_views() {
    let mut cache = MaxwellThreeDLoweringCache::new(8, 8);
    let mut facts = facts();
    facts.color_readiness[0] = MaxwellThreeDAttachmentReadiness::Disabled;
    lower_draw_words(&draw_words(), &facts, &draw_resources(9), &mut cache).unwrap_err();
    assert_eq!(cache.revision(), 0);
    assert_eq!(cache.view_count(), 0);
}

#[test]
fn visible_calls_are_limited() {
    let mut cache = MaxwellThreeDLoweringCache::new(8, 8);
    let mut vertex = program(0xa, ShaderStage::Vertex);
    vertex.maximum_api_visible_calls = 9;
    let shaders = cache
        .stage_shader_translations(5, &vec![vertex, program(0xb, ShaderStage::Fragment)])
        .unwrap();
    let (trigger, state) = trigger(&draw_words());
    let mut facts = facts();
    facts.visible_call_limit = Some(8);
    let error = lower_maxwell_three_d_operation_into_cache(
        &state,
        &facts,
        &draw_resources(9),
        trigger,
        Some(&shaders),
        &vec![],
        1,
        vec![],
        &mut cache,
    )
    .unwrap_err();
    assert!(matches!(error, MaxwellThreeDLoweringError::VisibleCallLimitExceeded { stage: ShaderStage::Vertex, required: 9, limit: 8 }));
}

#[test]
fn lowering_errors_read_as_sentences() {
    assert_eq!(
        MaxwellThreeDLoweringError::ColorTargetRouteDisabled { slot: 2, target: 5 }.message(),
        "SET_CT_SELECT routes output slot 2 to disabled color target 5"
    );
}

#[test]
fn work_is_negotiated_object_by_object() {
    let lowered = || {
        let mut cache = MaxwellThreeDLoweringCache::new(8, 8);
        lower_clear_words(
            &clear_words(0x3c),
            &resolved(1, vec![image(COLOR, ImageKind::Color, 10)]),
            vec![],
            &mut cache,
        )
        .unwrap()
    };
    let supported = CreationVerdict::Supported;
    let admitted = negotiate_lowered_work(lowered(), &vec![supported, supported], None).unwrap();
    assert_eq!(commands(&admitted), commands(&lowered()));
    assert_eq!(
        negotiate_lowered_work(
            lowered(),
            &vec![CreationVerdict::Undefined, CreationVerdict::Refused("memory")],
            Some("clear"),
        )
        .unwrap_err(),
        MaxwellThreeDLoweringError::InvalidResourceCreation
    );
    assert_eq!(
        negotiate_lowered_work(
            lowered(),
            &vec![supported, CreationVerdict::Refused("format")],
            Some("clear"),
        )
        .unwrap_err()
        .message(),
        "backend capabilities cannot represent complete 3D operation: format"
    );
    assert_eq!(
        negotiate_lowered_work(lowered(), &vec![supported, supported], Some("clear")).unwrap_err(),
        MaxwellThreeDLoweringError::Capability("clear")
    );
}

/// Lowers a color clear on the answers of a backend that refuses an object or the work.
fn negotiated_clear(
    cache: &mut MaxwellThreeDLoweringCache,
    image_verdict: CreationVerdict,
    refusal: Option<&'static str>,
) -> Result<MaxwellThreeDLoweredWork, MaxwellThreeDLoweringError> {
    let (trigger, state) = trigger(&clear_words(0x3c));
    lower_maxwell_three_d_operation(
        &state,
        &facts(),
        &resolved(1, vec![image(COLOR, ImageKind::Color, 10)]),
        trigger,
        None,
        &vec![],
        7,
        vec![6],
        |creation: &ResourceCreation| match creation {
            ResourceCreation::Image { .. } => image_verdict,
            _ => CreationVerdict::Supported,
        },
        |work: &MaxwellThreeDLoweredWork| {
            if work.submission().id == 7 { refusal } else { None }
        },
        cache,
    )
}

#[test]
fn lowered_work_is_admitted_on_the_answers_of_the_backend() {
    let mut cache = MaxwellThreeDLoweringCache::new(8, 8);
    let work = negotiated_clear(&mut cache, CreationVerdict::Supported, None).unwrap();
    assert_eq!(work.resource_creations().len(), 2);
    assert_eq!(work.submission().predecessors, [6]);
    assert_eq!(cache.revision(), 1);

    for (verdict, refusal, error) in [
        (
            CreationVerdict::Undefined,
            Some("clear"),
            MaxwellThreeDLoweringError::InvalidResourceCreation,
        ),
        (
            CreationVerdict::Refused("format"),
            Some("clear"),
            MaxwellThreeDLoweringError::Capability("format"),
        ),
        (
            CreationVerdict::Supported,
            Some("clear"),
            MaxwellThreeDLoweringError::Capability("clear"),
        ),
    ] {
        let mut cache = MaxwellThreeDLoweringCache::new(8, 8);
        assert_eq!(negotiated_clear(&mut cache, verdict, refusal).unwrap_err(), error);
        assert_eq!(cache.revision(), 1);
        assert_eq!(cache.view_count(), 1);
    }
}

#[test]
fn failed_lowering_is_not_negotiated() {
    let (trigger, state) = trigger(&draw_words());
    let mut cache = MaxwellThreeDLoweringCache::new(8, 8);
    let error = lower_maxwell_three_d_operation(
        &state,
        &facts(),
        &draw_resources(9),
        trigger,
        None,
        &vec![],
        1,
        vec![],
        |_: &ResourceCreation| CreationVerdict::Undefined,
        |_: &MaxwellThreeDLoweredWork| Some("everything"),
        &mut cache,
    )
    .unwrap_err();
    assert_eq!(error, MaxwellThreeDLoweringError::ShaderTranslationRequired);
    assert_eq!(cache.revision(), 0);
}

#[test]
fn early_refusals_leave_the_whole_cache() {
    let blending = [(0x135c, 1), (0x133c, 0), (0x1340, 1), (0x1344, 1), (0x1348, 1)];
    for (extra, error) in [
        (&[(0x0d9c, 1)][..], MaxwellThreeDLoweringError::UnsupportedColorReductionSemantics),
        (
            &[(0x1558, 0)][..],
            MaxwellThreeDLoweringError::UnsupportedRenderEnableMode(
                MaxwellThreeDRenderEnableMode::Disabled,
            ),
        ),
        (
            &blending[..],
            MaxwellThreeDLoweringError::UnsupportedBlendSemantics { target: None },
        ),
    ] {
        let mut cache = MaxwellThreeDLoweringCache::new(8, 8);
        lower_draw_words(&draw_words(), &facts(), &draw_resources(9), &mut cache).unwrap();
        let shaders = staged(&mut cache);
        let mut words = draw_words();
        let draw = words.pop().unwrap();
        words.extend_from_slice(extra);
        words.push(draw);
        let (trigger, state) = trigger(&words);
        let before = format!("{cache:?}");
        assert_eq!(
            lower_maxwell_three_d_operation_into_cache(
                &state,
                &facts(),
                &draw_resources(10),
                trigger,
                Some(&shaders),
                &vec![],
                2,
                vec![],
                &mut cache,
            )
            .unwrap_err(),
            error
        );
        assert_eq!(format!("{cache:?}"), before);
        assert_eq!(cache.revision(), 1);
    }
}

#[test]
fn late_failure_counts_no_work() {
    let mut cache = MaxwellThreeDLoweringCache::new(8, 8);
    let mut resources = draw_resources(9);
    resources.resources[1] = image(STREAM, ImageKind::Color, 11);
    lower_draw_words(&draw_words(), &facts(), &resources, &mut cache).unwrap_err();
    assert_eq!(cache.revision(), 0);
    assert!(cache.view_count() > 0);
}

#[test]
fn resources_bound_again_keep_their_objects() {
    let first = compressed(image(COLOR, ImageKind::Color, 10));
    let mut second = compressed(image(MaxwellThreeDResourceRole::ColorTarget(1), ImageKind::Color, 10));
    second.mappings = vec![77];
    let resources = resolved(
        1,
        vec![first, second, buffer(STREAM, 240, 11), buffer(CONSTANTS, 256, 12)],
    );
    let indices = vec![0, 2, 1];
    let current = vec![10];
    let mut cache = MaxwellThreeDLoweringCache::new(8, 8);
    let mut creations = vec![];
    let mut invalidations = vec![];
    let bound = prepare_resources(
        &resources, &indices, &current, &mut cache, &mut creations, &mut invalidations,
    )
    .unwrap();
    assert_eq!(
        bound,
        [
            Some(ResourceDependency::Image(1)),
            Some(ResourceDependency::Image(1)),
            Some(ResourceDependency::Buffer(2)),
            None,
        ]
    );
    assert_eq!(creations.len(), 4);
    for _ in 0..2 {
        let again = prepare_resources(
            &resources, &indices, &current, &mut cache, &mut creations, &mut invalidations,
        )
        .unwrap();
        assert_eq!(again, bound);
        assert_eq!(creations.len(), 4);
        assert!(invalidations.is_empty());
    }
}

/// Facts about an operation of which one construction is refused.
fn refusing(construction: NeutralConstruction) -> MaxwellThreeDDrawFacts {
    let mut facts = facts();
    facts.refusals.refused = vec![(construction, "no"), (construction, "never")];
    facts
}

#[test]
fn refused_constructions_end_a_draw() {
    let resources = draw_resources(9);
    let command = MaxwellThreeDLoweringError::Command("no");
    for (construction, error) in [
        (NeutralConstruction::VertexLayout { stream: 0 }, command),
        (
            NeutralConstruction::RenderPassDescription,
            MaxwellThreeDLoweringError::InvalidResourceCreation,
        ),
        (
            NeutralConstruction::DescriptorTable,
            MaxwellThreeDLoweringError::InvalidTranslatedShaders,
        ),
        (
            NeutralConstruction::ReadScope { position: 0 },
            MaxwellThreeDLoweringError::InvalidShaderResourceUse { role: CONSTANTS },
        ),
        (NeutralConstruction::PreparedDraw, command),
        (NeutralConstruction::RenderPassBegin, command),
        (NeutralConstruction::Draw, command),
        (NeutralConstruction::DrawArguments, command),
        (NeutralConstruction::Submission, command),
    ] {
        let mut cache = MaxwellThreeDLoweringCache::new(8, 8);
        assert_eq!(
            lower_draw_words(&draw_words(), &refusing(construction), &resources, &mut cache)
                .unwrap_err(),
            error
        );
        assert_eq!(cache.revision(), 0);
        assert_eq!(cache.view_count(), 3);
    }
    for construction in [
        NeutralConstruction::VertexLayout { stream: 1 },
        NeutralConstruction::ReadScope { position: 1 },
        NeutralConstruction::ViewportTransform,
        NeutralConstruction::ColorClear,
        NeutralConstruction::Transition { command: 1, access: 0 },
        NeutralConstruction::Barrier { command: 1 },
    ] {
        let mut cache = MaxwellThreeDLoweringCache::new(8, 8);
        lower_draw_words(&draw_words(), &refusing(construction), &resources, &mut cache).unwrap();
    }
}

#[test]
fn refused_viewport_transform_binds_nothing() {
    let mut words = draw_words();
    let draw = words.pop().unwrap();
    words.push((0x192c, 1));
    for method in [0x0a00, 0x0a04, 0x0a08, 0x0a0c, 0x0a10, 0x0a14, 0x0c08, 0x0c0c] {
        words.push((method, 0x3f80_0000));
    }
    words.push(draw);
    let mut cache = MaxwellThreeDLoweringCache::new(8, 8);
    assert_eq!(
        lower_draw_words(
            &words,
            &refusing(NeutralConstruction::ViewportTransform),
            &draw_resources(9),
            &mut cache,
        )
        .unwrap_err(),
        MaxwellThreeDLoweringError::Command("no")
    );
    assert_eq!(cache.view_count(), 0);
    assert_eq!(cache.revision(), 0);
    let work = lower_draw_words(&words, &facts(), &draw_resources(9), &mut cache).unwrap();
    assert!(work.draw.unwrap().viewport_transform.is_some());
}

#[test]
fn refused_clears_are_told_apart() {
    let resources = resolved(
        1,
        vec![image(COLOR, ImageKind::Color, 10), image(DEPTH, ImageKind::DepthStencil, 11)],
    );
    for (surface, construction, refused) in [
        (0x3c, NeutralConstruction::ColorClear, true),
        (0x3c, NeutralConstruction::DepthStencilClear, false),
        (0x03, NeutralConstruction::DepthStencilClear, true),
        (0x03, NeutralConstruction::ColorClear, false),
        (0x3f, NeutralConstruction::DepthStencilClear, true),
    ] {
        let (trigger, state) = trigger(&clear_words(surface));
        let mut cache = MaxwellThreeDLoweringCache::new(8, 8);
        let result = lower_maxwell_three_d_operation_into_cache(
            &state,
            &refusing(construction),
            &resources,
            trigger,
            None,
            &vec![],
            1,
            vec![],
            &mut cache,
        );
        match result {
            Ok(_) => assert!(!refused),
            Err(error) => {
                assert!(refused);
                assert_eq!(error, MaxwellThreeDLoweringError::Command("no"));
            }
        }
        assert_eq!(cache.revision(), u64::from(!refused));
    }
}

#[test]
fn view_without_a_new_identity_is_refused() {
    let mut resources = draw_resources(9);
    resources.resources[1].view_is_valid = false;
    assert_eq!(
        refused_draw(&[], &facts(), &resources),
        MaxwellThreeDLoweringError::InvalidResolvedView { role: STREAM }
    );
    let mut cache = MaxwellThreeDLoweringCache::new(8, 8);
    lower_draw_words(&draw_words(), &facts(), &draw_resources(9), &mut cache).unwrap();
    lower_draw_words(&draw_words(), &facts(), &resources, &mut cache).unwrap();
}

#[test]
fn buffer_without_a_range_is_refused() {
    for (position, role) in [(1, STREAM), (2, CONSTANTS)] {
        let mut resources = draw_resources(9);
        resources.resources[position].range_is_valid = false;
        assert_eq!(
            refused_draw(&[], &facts(), &resources),
            MaxwellThreeDLoweringError::InvalidResolvedView { role }
        );
    }
}

#[test]
fn repeated_draw_with_refused_arguments_leaves_the_whole_cache() {
    let (trigger, state) = trigger(&draw_words());
    let resources = draw_resources(9);
    let mut cache = MaxwellThreeDLoweringCache::new(8, 8);
    let shaders = staged(&mut cache);
    for facts in [facts(), refusing(NeutralConstruction::DrawArguments)] {
        let before = format!("{cache:?}");
        let result = lower_maxwell_three_d_operation_into_cache(
            &state,
            &facts,
            &resources,
            trigger,
            Some(&shaders),
            &vec![],
            1,
            vec![],
            &mut cache,
        );
        if let Err(error) = result {
            assert_eq!(error, MaxwellThreeDLoweringError::Command("no"));
            assert_eq!(format!("{cache:?}"), before);
        }
    }
    assert_eq!(cache.revision(), 1);
}

#[test]
fn refused_transition_and_barrier_end_the_work() {
    for (construction, error) in [
        (
            NeutralConstruction::Transition { command: 1, access: 0 },
            MaxwellThreeDLoweringError::InvalidTransition,
        ),
        (
            NeutralConstruction::Barrier { command: 1 },
            MaxwellThreeDLoweringError::Command("no"),
        ),
    ] {
        let (trigger, state) = trigger(&draw_words());
        let resources = draw_resources(9);
        let mut cache = MaxwellThreeDLoweringCache::new(8, 8);
        lower_draw_words(&draw_words(), &facts(), &resources, &mut cache).unwrap();
        let mut fragment = program(0xc, ShaderStage::Fragment);
        fragment.resources = vec![];
        let vertex_only = cache
            .stage_shader_translations(6, &vec![program(0xa, ShaderStage::Vertex), fragment])
            .unwrap();
        assert_eq!(
            lower_maxwell_three_d_operation_into_cache(
                &state,
                &refusing(construction),
                &resources,
                trigger,
                Some(&vertex_only),
                &vec![],
                2,
                vec![],
                &mut cache,
            )
            .unwrap_err(),
            error
        );
        assert_eq!(cache.revision(), 1);
    }
}
