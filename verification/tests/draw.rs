use maxwell_threed::draw_state::{
    depth_stencil_attachment_required, neutral_depth_compare, neutral_first_instance,
    neutral_vertex_format, primitive_topology,
};
use maxwell_threed::fingerprint_cache::FingerprintCache;
use maxwell_threed::lowering_cache::{MaxwellThreeDLoweringCache, ShaderTranslationRecord};
use maxwell_threed::lowering_error::MaxwellThreeDLoweringError;
use maxwell_threed::neutral::{
    DepthCompareOperation, PrimitiveTopology, ResourceDependency, ShaderStage,
    VertexComponentCount, VertexComponentWidth, VertexFormat,
};
use maxwell_threed::output::MaxwellThreeDCompareOp;
use maxwell_threed::vertex::{MaxwellThreeDBegin, MaxwellThreeDVertexAttributeFormat};

#[test]
fn fingerprint_index_tracks_hits_for_lru_eviction() {
    let mut cache = FingerprintCache::default();
    cache.push(11, "first");
    cache.push(22, "second");

    assert_eq!(cache.get(11), Some(&"first"));
    assert_eq!(cache.remove_lru(), (22, "second"));
    assert_eq!(cache.get(22), None);
    assert_eq!(cache.get(11), Some(&"first"));
}

#[test]
fn published_shader_translation_storage_is_bounded_and_retires_evictions() {
    let mut cache = MaxwellThreeDLoweringCache::new(6, 1);
    for raw in 1..=7 {
        cache.shader_translations.push(
            raw as u128,
            ShaderTranslationRecord {
                id: raw as u64,
                module_stage: ShaderStage::Vertex,
                published: true,
            },
        );
        cache.enforce_shader_translation_limit();
    }

    assert_eq!(cache.shader_translations.len(), 6);
    assert_eq!(
        cache.retired_resources.as_slice(),
        [ResourceDependency::Shader(1)]
    );
}

#[test]
fn every_maxwell_depth_comparison_has_an_exact_neutral_mapping() {
    let cases = [
        (MaxwellThreeDCompareOp::Never, DepthCompareOperation::Never),
        (MaxwellThreeDCompareOp::Less, DepthCompareOperation::Less),
        (MaxwellThreeDCompareOp::Equal, DepthCompareOperation::Equal),
        (
            MaxwellThreeDCompareOp::LessEqual,
            DepthCompareOperation::LessEqual,
        ),
        (
            MaxwellThreeDCompareOp::Greater,
            DepthCompareOperation::Greater,
        ),
        (
            MaxwellThreeDCompareOp::NotEqual,
            DepthCompareOperation::NotEqual,
        ),
        (
            MaxwellThreeDCompareOp::GreaterEqual,
            DepthCompareOperation::GreaterEqual,
        ),
        (
            MaxwellThreeDCompareOp::Always,
            DepthCompareOperation::Always,
        ),
    ];
    for (maxwell, neutral) in cases {
        assert_eq!(neutral_depth_compare(maxwell), neutral);
    }
}

#[test]
fn depth_stencil_attachment_is_omitted_only_when_both_tests_are_explicitly_disabled() {
    assert!(!depth_stencil_attachment_required(Some(false), Some(false)));

    for state in [
        (Some(true), Some(false)),
        (Some(false), Some(true)),
        (Some(true), Some(true)),
        (None, Some(false)),
        (Some(false), None),
        (None, None),
    ] {
        assert!(depth_stencil_attachment_required(state.0, state.1));
    }
}

#[test]
fn simple_triangle_float3_attributes_lower_to_exact_neutral_formats() {
    let position = MaxwellThreeDVertexAttributeFormat::parse(0x3840_0000).unwrap();
    let color = MaxwellThreeDVertexAttributeFormat::parse(0x3840_0600).unwrap();

    assert_eq!(
        neutral_vertex_format(0, position),
        Ok(VertexFormat::Float32x3)
    );
    assert_eq!(neutral_vertex_format(1, color), Ok(VertexFormat::Float32x3));
    assert_eq!(position.offset(), 0);
    assert_eq!(color.offset(), 12);
}

#[test]
fn scaled_vertex_family_preserves_width_count_and_signedness() {
    for (width_raw, width, components) in [
        (0x1d, VertexComponentWidth::Bits8, VertexComponentCount::One),
        (0x18, VertexComponentWidth::Bits8, VertexComponentCount::Two),
        (
            0x13,
            VertexComponentWidth::Bits8,
            VertexComponentCount::Three,
        ),
        (
            0x0a,
            VertexComponentWidth::Bits8,
            VertexComponentCount::Four,
        ),
        (
            0x1b,
            VertexComponentWidth::Bits16,
            VertexComponentCount::One,
        ),
        (
            0x0f,
            VertexComponentWidth::Bits16,
            VertexComponentCount::Two,
        ),
        (
            0x05,
            VertexComponentWidth::Bits16,
            VertexComponentCount::Three,
        ),
        (
            0x03,
            VertexComponentWidth::Bits16,
            VertexComponentCount::Four,
        ),
        (
            0x12,
            VertexComponentWidth::Bits32,
            VertexComponentCount::One,
        ),
        (
            0x04,
            VertexComponentWidth::Bits32,
            VertexComponentCount::Two,
        ),
        (
            0x02,
            VertexComponentWidth::Bits32,
            VertexComponentCount::Three,
        ),
        (
            0x01,
            VertexComponentWidth::Bits32,
            VertexComponentCount::Four,
        ),
    ] {
        for (type_raw, expected) in [
            (5, VertexFormat::Uscaled { width, components }),
            (6, VertexFormat::Sscaled { width, components }),
        ] {
            let format =
                MaxwellThreeDVertexAttributeFormat::parse((width_raw << 21) | (type_raw << 27))
                    .unwrap();
            assert_eq!(neutral_vertex_format(0, format), Ok(expected));
        }
    }
}

#[test]
fn instance_begin_modes_do_not_change_primitive_topology() {
    for instance in [0, 1, 2] {
        let begin = MaxwellThreeDBegin::parse(4 | (instance << 26)).unwrap();
        assert_eq!(primitive_topology(begin), Ok(PrimitiveTopology::Triangles));
    }
}

#[test]
fn primitive_continuation_modes_remain_precise_fatal_boundaries() {
    let primitive_id = MaxwellThreeDBegin::parse(4 | (1 << 24)).unwrap();
    assert_eq!(
        primitive_topology(primitive_id),
        Err(MaxwellThreeDLoweringError::UnsupportedPrimitiveIdContinuation)
    );

    for split_mode in 1..=3 {
        let split = MaxwellThreeDBegin::parse(4 | (split_mode << 29)).unwrap();
        assert_eq!(
            primitive_topology(split),
            Err(MaxwellThreeDLoweringError::UnsupportedPrimitiveSplitMode(
                split_mode as u8
            ))
        );
    }
}

#[test]
fn relative_instance_is_added_to_base_instance_without_loss() {
    assert_eq!(neutral_first_instance(7, 2), Ok(9));
    assert_eq!(
        neutral_first_instance(u32::MAX, 1),
        Err(MaxwellThreeDLoweringError::InstanceIndexOverflow {
            base: u32::MAX,
            relative: 1,
        })
    );
}
