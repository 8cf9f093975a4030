use maxwell_threed::color_reduction::{
    MaxwellThreeDColorReductionThresholdsUnorm8, MaxwellThreeDUnorm8,
};
use maxwell_threed::coverage::{
    MaxwellThreeDCoverageToColor, MaxwellThreeDHybridAntiAliasCentroid,
    MaxwellThreeDHybridAntiAliasControl, MaxwellThreeDPsOutputSampleMaskUsage,
    MaxwellThreeDSampleLocationGroup, MaxwellThreeDTirControl,
};
use maxwell_threed::falcon::{
    MaxwellThreeDFalconMaskedRegisterWrite, MaxwellThreeDFalconRegisterAddress,
    MaxwellThreeDFalconState,
};
use maxwell_threed::fingerprint_cache::FingerprintCache;
use maxwell_threed::l2_cache::{
    MaxwellThreeDL2CacheEvictionPolicy, MaxwellThreeDSystemMemoryVolatile,
    MaxwellThreeDVafL2CacheControl,
};
use maxwell_threed::line::{
    MaxwellThreeDLineState, MaxwellThreeDLineStateWrite, MaxwellThreeDLineStippleParameters,
};
use maxwell_threed::lists::extend_unique;
use maxwell_threed::neutral::{ImageSubresourceRange, ResourceDependency};
use maxwell_threed::operations::{
    MaxwellThreeDReportSemaphoreControl, MaxwellThreeDReportSemaphoreOperation,
    MaxwellThreeDReportSemaphorePipelineLocation, MaxwellThreeDReportSemaphoreStructureSize,
    MaxwellThreeDSyncpointCondition, MaxwellThreeDSyncpointIncrement,
};
use maxwell_threed::output::{
    MaxwellThreeDFixedFunctionRegister, MaxwellThreeDFixedFunctionState,
    MaxwellThreeDFixedFunctionValue, MaxwellThreeDFixedFunctionWrite,
};
use maxwell_threed::profile::{
    MaxwellShaderProgramHeaderVersion, MaxwellShaderProgramHeaderVersionRange,
};
use maxwell_threed::register::{
    GpuMethodId, MaxwellMethodSource, MaxwellThreeDRegister, MaxwellThreeDUnresolvedAddress,
};
use maxwell_threed::resource::BackingPiece;
use maxwell_threed::resource_indices::sort_unique;
use maxwell_threed::vertex::{MaxwellThreeDBegin, MaxwellThreeDVertexStreamFormat};

fn source(argument: u32) -> MaxwellMethodSource {
    MaxwellMethodSource::new(1, GpuMethodId::new(0x100), argument)
}

#[test]
fn unset_and_programmed_registers_differ() {
    let unset: MaxwellThreeDRegister<u32> = MaxwellThreeDRegister::unset();
    assert_eq!((unset.raw(), unset.value(), unset.source()), (None, None, None));
    let programmed = MaxwellThreeDRegister::programmed(5, true, source(5));
    assert_eq!(programmed.raw(), Some(5));
    assert_eq!(programmed.value(), Some(&true));
    assert_eq!(programmed.source(), Some(source(5)));
    let reset = MaxwellThreeDRegister::verified_reset(9, Some(9u32));
    assert_eq!((reset.raw(), reset.value(), reset.source()), (Some(9), Some(&9), None));
}

#[test]
fn split_address_joins_its_halves() {
    assert_eq!(MaxwellThreeDUnresolvedAddress::new(0xab, 0x1234_5678).get(), 0xab_1234_5678);
    assert_eq!(MaxwellThreeDUnresolvedAddress::new(0, 0xffff_ffff).get(), 0xffff_ffff);
}

#[test]
fn eviction_policies_sit_in_bits_four_and_five() {
    assert_eq!(
        MaxwellThreeDL2CacheEvictionPolicy::parse(0x20),
        Some(MaxwellThreeDL2CacheEvictionPolicy::EvictLast)
    );
    assert_eq!(MaxwellThreeDL2CacheEvictionPolicy::EvictLast.raw(), 2);
    assert_eq!(MaxwellThreeDL2CacheEvictionPolicy::EvictNormal.encoded(), 0x10);
    assert_eq!(MaxwellThreeDL2CacheEvictionPolicy::parse(0x30), None);
    let control = MaxwellThreeDVafL2CacheControl::parse(0x21).unwrap();
    assert_eq!(control.system_memory(), MaxwellThreeDSystemMemoryVolatile::Volatile);
    assert_eq!(control.raw(), 0x21);
    assert_eq!(MaxwellThreeDVafL2CacheControl::parse(0x30), None);
}

#[test]
fn line_stipple_packs_factor_and_pattern() {
    let parameters = MaxwellThreeDLineStippleParameters::parse(0x00f0_f103).unwrap();
    assert_eq!((parameters.factor(), parameters.pattern()), (3, 0xf0f1));
    assert_eq!(parameters.raw(), 0x00f0_f103);
    assert_eq!(MaxwellThreeDLineStippleParameters::parse(0x0100_0000), None);
}

#[test]
fn disabled_stipple_parameters_do_not_identify_pipelines() {
    let mut state = MaxwellThreeDLineState::default();
    state.apply(MaxwellThreeDLineStateWrite::StippleEnable { value: false, source: source(0) });
    let mut before = Vec::new();
    state.append_pipeline_dependencies(&mut before);
    state.apply(MaxwellThreeDLineStateWrite::StippleParameters {
        value: MaxwellThreeDLineStippleParameters::parse(0x1203).unwrap(),
        source: source(0x1203),
    });
    let mut after = Vec::new();
    state.append_pipeline_dependencies(&mut after);
    assert_eq!(before, after);
    state.apply(MaxwellThreeDLineStateWrite::StippleEnable { value: true, source: source(1) });
    let mut enabled = Vec::new();
    state.append_pipeline_dependencies(&mut enabled);
    assert_ne!(after, enabled);
}

#[test]
fn reduction_thresholds_leave_gaps_zero() {
    let thresholds = MaxwellThreeDColorReductionThresholdsUnorm8::parse(0x00ab_00cd).unwrap();
    assert_eq!(thresholds.all_covered_all_hit_once(), MaxwellThreeDUnorm8::new(0xcd));
    assert_eq!(thresholds.all_covered(), MaxwellThreeDUnorm8::new(0xab));
    assert_eq!(thresholds.raw(), 0x00ab_00cd);
    assert_eq!(MaxwellThreeDColorReductionThresholdsUnorm8::parse(0x100), None);
}

#[test]
fn coverage_words_decode_their_fields() {
    let control = MaxwellThreeDTirControl::parse(0x12).unwrap();
    assert!(control.reduce_coverage() && control.alpha_to_coverage_uses_raster_samples());
    assert!(!control.z_pass_pixel_count_uses_raster_samples());
    assert_eq!(control.raw(), 0x12);
    assert_eq!(MaxwellThreeDTirControl::parse(0x4), None);
    let color = MaxwellThreeDCoverageToColor::parse(0x61).unwrap();
    assert_eq!((color.enabled(), color.color_target(), color.raw()), (true, 6, 0x61));
    let hybrid = MaxwellThreeDHybridAntiAliasControl::parse(0x32).unwrap();
    assert_eq!(hybrid.passes(), 2);
    assert_eq!(hybrid.centroid(), MaxwellThreeDHybridAntiAliasCentroid::PerPass);
    assert!(hybrid.passes_extended() && !hybrid.is_single_pass_per_fragment());
    assert!(MaxwellThreeDHybridAntiAliasControl::parse(1).unwrap().is_single_pass_per_fragment());
    assert_eq!(MaxwellThreeDHybridAntiAliasControl::parse(0x40), None);
}

#[test]
fn sample_locations_are_nibbles() {
    let group = MaxwellThreeDSampleLocationGroup::parse(0x8888_88a1);
    assert_eq!((group.locations()[0].x(), group.locations()[0].y()), (1, 0xa));
    assert!(group.locations()[1].is_centered() && !group.is_centered());
    assert_eq!(group.raw(), 0x8888_88a1);
    assert!(MaxwellThreeDSampleLocationGroup::parse(0x8888_8888).is_centered());
}

#[test]
fn sample_mask_may_depend_on_anti_aliasing() {
    let qualified = MaxwellThreeDPsOutputSampleMaskUsage::parse(3).unwrap();
    assert_eq!(qualified.effective(None), None);
    assert_eq!(qualified.effective(Some(true)), Some(true));
    assert_eq!(
        MaxwellThreeDPsOutputSampleMaskUsage::parse(1).unwrap().effective(None),
        Some(true)
    );
    assert_eq!(
        MaxwellThreeDPsOutputSampleMaskUsage::parse(2).unwrap().effective(Some(true)),
        Some(false)
    );
}

#[test]
fn masked_falcon_write_keeps_other_bits() {
    let address = MaxwellThreeDFalconRegisterAddress::try_new(0x404).unwrap();
    let mut state = MaxwellThreeDFalconState::default();
    assert!(state.register(address).is_none());
    state.apply(MaxwellThreeDFalconMaskedRegisterWrite::new(address, 0xff, 0x0f, source(1)));
    let first = *state.register(address).unwrap();
    assert_eq!((first.known_mask(), first.value()), (0x0f, 0x0f));
    let second = MaxwellThreeDFalconMaskedRegisterWrite::new(address, 0xa0, 0xf1, source(2));
    state.apply(second);
    let register = *state.register(address).unwrap();
    assert_eq!((register.known_mask(), register.value()), (0xff, 0xae));
    assert_eq!(register.source(), source(2));
    assert_eq!(state.last_masked_write(), Some(second));
}

#[test]
fn version_ranges_overlap_at_a_common_version() {
    let range = |current: u16, oldest: u16| {
        MaxwellShaderProgramHeaderVersionRange::new(
            MaxwellShaderProgramHeaderVersion::new(current),
            MaxwellShaderProgramHeaderVersion::new(oldest),
        )
    };
    assert!(range(5, 3).overlaps(range(3, 1)));
    assert!(!range(5, 4).overlaps(range(3, 1)));
    assert_eq!(MaxwellShaderProgramHeaderVersionRange::decode(0x0003_0005), range(5, 3));
}

#[test]
fn syncpoint_increment_decodes_its_fields() {
    let increment = MaxwellThreeDSyncpointIncrement::decode(0x0010_0123);
    assert_eq!(increment.syncpoint().get(), 0x123);
    assert!(!increment.clean_l2());
    assert_eq!(increment.condition(), MaxwellThreeDSyncpointCondition::RopWritesDone);
    let clean = MaxwellThreeDSyncpointIncrement::decode(0x0001_0fff);
    assert!(clean.clean_l2());
    assert_eq!(clean.condition(), MaxwellThreeDSyncpointCondition::StreamOutWritesDone);
}

#[test]
fn semaphore_control_needs_defined_fields() {
    let release = MaxwellThreeDReportSemaphoreControl::parse(0x1000_f010).unwrap();
    assert_eq!(release.operation(), MaxwellThreeDReportSemaphoreOperation::Release);
    assert_eq!(release.pipeline_location(), MaxwellThreeDReportSemaphorePipelineLocation::All);
    assert_eq!(release.structure_size(), MaxwellThreeDReportSemaphoreStructureSize::OneWord);
    assert!(release.is_captured_release());
    let four_words = MaxwellThreeDReportSemaphoreControl::parse(0x0000_f011).unwrap();
    assert_eq!(four_words.operation(), MaxwellThreeDReportSemaphoreOperation::Acquire);
    assert_eq!(four_words.structure_size(), MaxwellThreeDReportSemaphoreStructureSize::FourWords);
    assert!(!four_words.is_captured_release());
    for refused in [0x2000_f010, 0x1000_f010 | 8 << 23, 0x1004_f010] {
        assert_eq!(MaxwellThreeDReportSemaphoreControl::parse(refused), None);
    }
}

#[test]
fn disabled_stencil_registers_do_not_identify_pipelines() {
    let mut state = MaxwellThreeDFixedFunctionState::with_resets(0x1b02, 0);
    state.apply(MaxwellThreeDFixedFunctionWrite::Register {
        register: MaxwellThreeDFixedFunctionRegister::StencilTestEnable,
        value: MaxwellThreeDFixedFunctionValue::Boolean(false),
        source: source(0),
    });
    let mut before = Vec::new();
    state.append_pipeline_dependencies(&mut before, &[0]);
    state.apply(MaxwellThreeDFixedFunctionWrite::Register {
        register: MaxwellThreeDFixedFunctionRegister::TwoSidedStencilTestEnable,
        value: MaxwellThreeDFixedFunctionValue::Boolean(true),
        source: source(1),
    });
    state.apply(MaxwellThreeDFixedFunctionWrite::BlendEnable {
        target: 3,
        value: true,
        source: source(1),
    });
    let mut after = Vec::new();
    state.append_pipeline_dependencies(&mut after, &[0]);
    assert_eq!(before, after);
    state.apply(MaxwellThreeDFixedFunctionWrite::Register {
        register: MaxwellThreeDFixedFunctionRegister::StencilTestEnable,
        value: MaxwellThreeDFixedFunctionValue::Boolean(true),
        source: source(1),
    });
    let mut enabled = Vec::new();
    state.append_pipeline_dependencies(&mut enabled, &[0]);
    assert_ne!(after, enabled);
}

#[test]
fn begin_word_decodes_topology_and_instance() {
    let begin = MaxwellThreeDBegin::parse(4).unwrap();
    assert_eq!((begin.topology(), begin.instance(), begin.split_mode()), (4, 0, 0));
    assert_eq!(begin.next_instance(9), 0);
    let format = MaxwellThreeDVertexStreamFormat::from_raw(0x1018);
    assert!(format.enabled());
    assert_eq!(format.stride(), 0x18);
}

#[test]
fn used_records_outlive_unused_ones() {
    let mut cache = FingerprintCache::default();
    for fingerprint in 0..4u128 {
        cache.push(fingerprint, fingerprint as u32 * 10);
    }
    assert_eq!(cache.get(0), Some(&0));
    assert_eq!(cache.get(1), Some(&10));
    assert_eq!(cache.remove_lru(), (2, 20));
    assert_eq!(cache.remove_lru(), (3, 30));
    assert_eq!(cache.len(), 2);
    assert_eq!(cache.remove_lru(), (0, 0));
}

#[test]
fn positions_are_sorted_without_repeats() {
    assert_eq!(sort_unique(&vec![5, 1, 3, 1, 5, 0]), [0, 1, 3, 5]);
    assert!(sort_unique(&vec![]).is_empty());
}

#[test]
fn union_keeps_the_order_of_first_mentions() {
    let mut items = vec![ResourceDependency::Buffer(1), ResourceDependency::Image(2)];
    extend_unique(
        &mut items,
        &vec![
            ResourceDependency::Image(1),
            ResourceDependency::Buffer(1),
            ResourceDependency::Image(1),
        ],
    );
    assert_eq!(
        items,
        [
            ResourceDependency::Buffer(1),
            ResourceDependency::Image(2),
            ResourceDependency::Image(1),
        ]
    );
}

#[test]
fn pieces_overlap_only_on_the_same_page() {
    let piece = |page: u64, offset: u64, size: u64| BackingPiece {
        binding: 0,
        subresources: ImageSubresourceRange {
            aspects: 1,
            base_level: 0,
            level_count: 1,
            base_layer: 0,
            layer_count: 1,
        },
        layout: 0,
        page,
        offset,
        size,
    };
    assert!(piece(1, 0, 16).overlaps(piece(1, 15, 1)));
    assert!(!piece(1, 0, 16).overlaps(piece(1, 16, 16)));
    assert!(!piece(1, 0, 16).overlaps(piece(2, 0, 16)));
    assert!(piece(1, u64::MAX, 2).overlaps(piece(1, u64::MAX, 1)));
}
