use maxwell_threed::lowering_cache::{MaxwellThreeDLoweringCache, ShaderTranslationSourceRecord};
use maxwell_threed::lowering_error::MaxwellThreeDLoweringError;
use maxwell_threed::neutral::{DescriptorKind, PipelineStages, ResourceUsage, ShaderStage};
use maxwell_threed::resource::MaxwellThreeDResourceRole;
use maxwell_threed::shader_resolution::ShaderTranslationOutcome;
use maxwell_threed::state::MaxwellThreeDState;
use maxwell_threed::translated_shaders::{
    MaxwellThreeDShaderProgram, MaxwellThreeDShaderResourceUse, MaxwellThreeDTranslatedShader,
    MaxwellThreeDTranslatedShaders, ShaderProgramResource, ShaderResourceKind,
};

fn outcome(inputs: u64, fingerprint: u128, programs: u64) -> ShaderTranslationOutcome<&'static str> {
    ShaderTranslationOutcome { inputs: Ok((inputs, fingerprint)), programs: Ok(programs) }
}

fn failure() -> ShaderTranslationOutcome<&'static str> {
    ShaderTranslationOutcome { inputs: Err("no inputs"), programs: Err("no programs") }
}

fn program(fingerprint: u128, stage: ShaderStage, binding: u8) -> MaxwellThreeDShaderProgram {
    MaxwellThreeDShaderProgram {
        fingerprint,
        stage,
        module_stage: stage,
        bind_group: Some(1),
        texture_slot: None,
        directly_addressable_memory: None,
        maximum_api_visible_calls: 0,
        resources: vec![ShaderProgramResource {
            binding,
            kind: ShaderResourceKind::ConstantBuffer,
            readable: true,
            writable: false,
            local_binding: Some(0),
            access_is_valid: true,
        }],
        textures: vec![],
    }
}

#[test]
fn resolved_inputs_are_translated_once() {
    let mut cache = MaxwellThreeDLoweringCache::new(2, 1);
    assert_eq!(cache.resolve_shader_translation_inputs(1, Err("failed")), Err("failed"));
    assert_eq!(cache.shader_translation_set_count(), 0);
    assert_eq!(cache.resolve_shader_translation_inputs::<&str>(1, Ok(100)), Ok(100));
    assert_eq!(cache.resolve_shader_translation_inputs(1, Err("failed")), Ok(100));
    assert_eq!(cache.resolve_shader_translation_inputs::<&str>(2, Ok(200)), Ok(200));
    assert_eq!(cache.resolve_shader_translation_inputs::<&str>(1, Ok(101)), Ok(100));
    assert_eq!(cache.resolve_shader_translation_inputs::<&str>(3, Ok(300)), Ok(300));
    assert_eq!(cache.shader_translation_set_count(), 2);
    assert_eq!(cache.resolve_shader_translation_inputs(2, Err("evicted")), Err("evicted"));
    assert_eq!(cache.resolve_shader_translation_inputs(1, Err("evicted")), Ok(100));
}

#[test]
fn stale_source_is_read_again() {
    let mut cache = MaxwellThreeDLoweringCache::new(4, 1);
    let record = |inputs: u64, programs: u64| ShaderTranslationSourceRecord { inputs, programs };
    assert_eq!(
        cache.resolve_shader_translation_source(7, true, outcome(1, 11, 100)),
        Ok(record(1, 100))
    );
    assert_eq!(cache.resolve_shader_translation_source(7, true, failure()), Ok(record(1, 100)));
    assert_eq!(cache.resolve_shader_translation_source(7, false, failure()), Err("no inputs"));
    assert_eq!(
        cache.resolve_shader_translation_source(7, false, outcome(2, 22, 200)),
        Ok(record(2, 200))
    );
    assert_eq!(cache.resolve_shader_translation_source(7, true, failure()), Ok(record(2, 200)));
    assert_eq!(
        cache.resolve_shader_translation_source(8, true, outcome(3, 11, 999)),
        Ok(record(3, 100))
    );
}

#[test]
fn current_state_needs_no_source() {
    let state = MaxwellThreeDState::with_resets(0x1b02, 0);
    let mut cache = MaxwellThreeDLoweringCache::new(4, 1);
    assert_eq!(
        cache.resolve_shader_translation_for_state(
            &state, true, true, Err("no source"), true, failure(),
        ),
        Err("no source")
    );
    assert_eq!(
        cache.resolve_shader_translation_for_state(
            &state, true, true, Ok(7), true, outcome(1, 11, 100),
        ),
        Ok(100)
    );
    assert_eq!(cache.reuse_translated_shaders_for_state(&state, true, true), None);
    cache.retain_translated_shader_state(100, 55);
    assert_eq!(cache.reuse_translated_shaders_for_state(&state, true, true), Some(55));
    assert_eq!(cache.reuse_translated_shaders_for_state(&state, true, false), None);
    assert_eq!(
        cache.resolve_shader_translation_for_state(
            &state, true, true, Err("no source"), true, failure(),
        ),
        Ok(100)
    );
    assert_eq!(
        cache.resolve_shader_translation_for_state(
            &state, false, true, Err("no source"), true, failure(),
        ),
        Err("no source")
    );
}

#[test]
fn staged_programs_share_roles() {
    let mut cache = MaxwellThreeDLoweringCache::new(4, 1);
    let set = cache
        .stage_shader_translations(
            9,
            &vec![program(1, ShaderStage::Vertex, 3), program(2, ShaderStage::Fragment, 3)],
        )
        .unwrap();
    assert_eq!(set.shaders().len(), 2);
    assert_eq!(
        set.resources().as_slice(),
        [MaxwellThreeDShaderResourceUse {
            role: MaxwellThreeDResourceRole::ConstantBuffer { group: 1, slot: 0 },
            binding: 3,
            kind: DescriptorKind::Buffer,
            stages: PipelineStages(0x11),
            usage: Some(ResourceUsage::StorageBuffer),
        }]
    );
    assert_eq!(cache.shader_translation_count(), 2);
    assert_eq!(
        cache
            .stage_shader_translations(
                10,
                &vec![program(1, ShaderStage::Vertex, 3), program(3, ShaderStage::Fragment, 4)],
            )
            .unwrap_err(),
        MaxwellThreeDLoweringError::InvalidTranslatedShaders
    );
    let mut writable = program(5, ShaderStage::Vertex, 3);
    writable.resources[0].writable = true;
    assert_eq!(
        cache.stage_shader_translations(11, &vec![writable]).unwrap_err(),
        MaxwellThreeDLoweringError::InvalidTranslatedShaders
    );
}

#[test]
fn shader_sets_are_checked() {
    let shader = |stage: ShaderStage| MaxwellThreeDTranslatedShader::new(stage, 1, 1, None, 0);
    assert_eq!(
        MaxwellThreeDTranslatedShaders::new(1, vec![], vec![]).unwrap_err(),
        MaxwellThreeDLoweringError::ShaderTranslationRequired
    );
    assert_eq!(
        MaxwellThreeDTranslatedShaders::new(
            1,
            vec![shader(ShaderStage::Vertex), shader(ShaderStage::Vertex)],
            vec![],
        )
        .unwrap_err(),
        MaxwellThreeDLoweringError::InvalidTranslatedShaders
    );
    assert_eq!(
        MaxwellThreeDTranslatedShaders::new(1, vec![shader(ShaderStage::Compute)], vec![])
            .unwrap_err(),
        MaxwellThreeDLoweringError::InvalidTranslatedShaders
    );
    let role = MaxwellThreeDResourceRole::DepthStencilTarget;
    assert_eq!(
        MaxwellThreeDShaderResourceUse::new(
            role,
            0,
            DescriptorKind::Buffer,
            PipelineStages(1),
            None,
            true,
        ),
        Err(MaxwellThreeDLoweringError::InvalidShaderResourceUse { role })
    );
    for (access_is_valid, refused) in [(false, true), (true, false)] {
        assert_eq!(
            MaxwellThreeDShaderResourceUse::new(
                role,
                0,
                DescriptorKind::Buffer,
                PipelineStages(1),
                Some(ResourceUsage::StorageBuffer),
                access_is_valid,
            )
            .is_err(),
            refused
        );
    }
}

#[test]
fn identities_run_out_once() {
    let mut cache = MaxwellThreeDLoweringCache::new(1, 1);
    assert_eq!(cache.take_identity(), Ok(1));
    assert_eq!(cache.take_identity(), Ok(2));
    cache.next_identity = u64::MAX;
    assert_eq!(cache.take_identity(), Err(MaxwellThreeDLoweringError::ResourceExhausted));
    assert_eq!(cache.resource_cache_limit(), 1);
}

#[test]
fn programs_staged_again_keep_their_shaders() {
    let mut cache = MaxwellThreeDLoweringCache::new(2, 1);
    let programs = vec![program(1, ShaderStage::Vertex, 3), program(2, ShaderStage::Fragment, 3)];
    cache.stage_shader_translations(8, &vec![program(7, ShaderStage::Vertex, 3)]).unwrap();
    let first = cache.stage_shader_translations(9, &programs).unwrap();
    let second = cache.stage_shader_translations(10, &programs).unwrap();
    assert_eq!(second.shaders(), first.shaders());
    assert_eq!(second.resources(), first.resources());
    let stages: Vec<ShaderStage> = first.shaders().iter().map(|shader| shader.stage()).collect();
    assert_eq!(stages, [ShaderStage::Vertex, ShaderStage::Fragment]);
    assert_eq!(cache.shader_translation_count(), 2);

    let mut narrow = MaxwellThreeDLoweringCache::new(1, 1);
    let first = narrow.stage_shader_translations(9, &programs).unwrap();
    let second = narrow.stage_shader_translations(10, &programs).unwrap();
    assert_ne!(second.shaders(), first.shaders());
}

#[test]
fn invalid_access_of_a_new_role_is_refused() {
    let role = MaxwellThreeDResourceRole::ConstantBuffer { group: 1, slot: 0 };
    let mut invalid = program(1, ShaderStage::Vertex, 3);
    invalid.resources[0].access_is_valid = false;
    let mut cache = MaxwellThreeDLoweringCache::new(4, 1);
    assert_eq!(
        cache.stage_shader_translations(9, &vec![invalid]).unwrap_err(),
        MaxwellThreeDLoweringError::InvalidShaderResourceUse { role }
    );
    let mut known = program(2, ShaderStage::Fragment, 3);
    known.resources[0].access_is_valid = false;
    cache
        .stage_shader_translations(10, &vec![program(1, ShaderStage::Vertex, 3), known])
        .unwrap();
}
