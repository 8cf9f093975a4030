use maxwell_threed::coverage::{
    MaxwellThreeDAlphaToCoverageOverride, MaxwellThreeDCoverageToColor,
};
use maxwell_threed::lowering_error::{
    MaxwellThreeDLoweringError, MaxwellThreeDPointSpriteCoordinates,
};
use maxwell_threed::neutral::{GpuAllocationId, ShaderStage};
use maxwell_threed::operations::MaxwellThreeDSynchronizationError;
use maxwell_threed::output::{
    MaxwellThreeDColorMask, MaxwellThreeDLogicOp, MaxwellThreeDPixelShaderClampRange,
    MaxwellThreeDProvokingVertex, MaxwellThreeDShadeMode,
};
use maxwell_threed::raster::{
    MaxwellThreeDFillViaTriangleMode, MaxwellThreeDPointSpriteSelect,
    MaxwellThreeDViewportPixelCenter,
};
use maxwell_threed::register::{GpuMethodId, MaxwellMethodSource};
use maxwell_threed::render_enable::MaxwellThreeDRenderEnableMode;
use maxwell_threed::render_targets::MaxwellThreeDRenderTargetLayer;
use maxwell_threed::resource::{
    MaxwellThreeDResourceRole, MaxwellThreeDTextureDimension, MaxwellThreeDTextureReference,
};
use maxwell_threed::shader_execution::{
    MaxwellThreeDDirectlyAddressableMemory, MaxwellThreeDPixelShaderInterlockControl,
};
use maxwell_threed::timeline::GuestSyncpointId;
use maxwell_threed::vertex::MaxwellThreeDVertexAttributeFormat;

#[test]
fn state_errors_name_their_values() {
    for (error, text) in [
        (
            MaxwellThreeDLoweringError::ContradictoryState { reason: "two values" },
            "contradictory Maxwell 3D state: two values",
        ),
        (
            MaxwellThreeDLoweringError::TriggerStateMismatch,
            "3D trigger does not match its immutable state snapshot",
        ),
        (
            MaxwellThreeDLoweringError::UnsupportedRenderEnableMode(
                MaxwellThreeDRenderEnableMode::Disabled,
            ),
            "MAXWELL_B render-enable mode has no verified neutral execution: mode=Disabled",
        ),
        (
            MaxwellThreeDLoweringError::VisibleCallLimitExceeded {
                stage: ShaderStage::Fragment,
                required: 17,
                limit: 16,
            },
            "translated Maxwell shader exceeds SET_API_VISIBLE_CALL_LIMIT: stage=Fragment required=17 limit=16",
        ),
        (
            MaxwellThreeDLoweringError::UnsupportedGlobalBaseVertexIndex(4294967295),
            "MAXWELL_B global base vertex index cannot be represented independently from vertex-buffer addressing: value=4294967295",
        ),
        (
            MaxwellThreeDLoweringError::UnsupportedCoverageToColorSemantics(
                MaxwellThreeDCoverageToColor { enabled: true, color_target: 6 },
            ),
            "MAXWELL_B coverage-to-color output is not represented by the neutral pipeline: color-target=6",
        ),
        (
            MaxwellThreeDLoweringError::UnsupportedAlphaToCoverageOverrideSemantics(
                MaxwellThreeDAlphaToCoverageOverride {
                    qualify_by_anti_alias_enable: true,
                    qualify_by_pixel_shader_sample_mask: false,
                },
            ),
            "MAXWELL_B alpha-to-coverage override qualification is not represented by the neutral pipeline: qualify-by-aa=true qualify-by-ps-sample-mask=false",
        ),
        (
            MaxwellThreeDLoweringError::UnsupportedViewportPixelCenterSemantics(
                MaxwellThreeDViewportPixelCenter::Integers,
            ),
            "MAXWELL_B viewport pixel-center convention is not represented by the neutral pipeline contract: center=Integers",
        ),
        (
            MaxwellThreeDLoweringError::UnsupportedStencilTestSemantics { two_sided: true },
            "MAXWELL_B enabled stencil testing has no neutral pipeline representation: two-sided=true",
        ),
        (
            MaxwellThreeDLoweringError::UnsupportedLineStippleSemantics {
                factor: 3,
                pattern: 0xf0f,
            },
            "MAXWELL_B line stippling has no neutral backend representation: factor=3 pattern=0x0f0f",
        ),
        (
            MaxwellThreeDLoweringError::UnsupportedVertexInstanceDivisor { stream: 31, divisor: 0 },
            "MAXWELL_B vertex stream instance divisor is not representable: stream=31 divisor=0",
        ),
        (
            MaxwellThreeDLoweringError::UnsupportedAttributePointSizeSemantics { slot: 255 },
            "MAXWELL_B shader-provided point size is not represented by shader or neutral backend lowering: slot=255",
        ),
        (
            MaxwellThreeDLoweringError::UnsupportedFillViaTriangleSemantics(
                MaxwellThreeDFillViaTriangleMode::FillAll,
            ),
            "MAXWELL_B fill-via-triangle mode is not represented by the neutral pipeline contract: mode=FillAll",
        ),
        (
            MaxwellThreeDLoweringError::UnsupportedFillRectangleDraw("no reason"),
            "MAXWELL_B fill-rectangle draw is not representable: no reason",
        ),
        (
            MaxwellThreeDLoweringError::UnsupportedShadeModeSemantics(MaxwellThreeDShadeMode::Flat),
            "MAXWELL_B shade mode is not representable in the neutral pipeline contract: mode=Flat",
        ),
        (
            MaxwellThreeDLoweringError::UnsupportedProvokingVertexSemantics(
                MaxwellThreeDProvokingVertex::First,
            ),
            "MAXWELL_B provoking vertex is not representable in the neutral pipeline or shader interpolation contract: vertex=First",
        ),
        (
            MaxwellThreeDLoweringError::UnsupportedPixelShaderSaturateSemantics {
                output: 4,
                range: MaxwellThreeDPixelShaderClampRange::MinusOneToOne,
            },
            "MAXWELL_B pixel-shader output saturation is not represented by shader or neutral backend lowering: output=4 range=MinusOneToOne",
        ),
    ] {
        assert_eq!(error.message(), text);
    }
}

#[test]
fn output_errors_name_their_values() {
    for (error, text) in [
        (
            MaxwellThreeDLoweringError::UnsupportedBlendSemantics { target: Some(2) },
            "MAXWELL_B enabled blend state is not representable in the neutral pipeline contract: target=2",
        ),
        (
            MaxwellThreeDLoweringError::UnsupportedBlendSemantics { target: None },
            "MAXWELL_B enabled common blend state is not representable in the neutral pipeline contract",
        ),
        (
            MaxwellThreeDLoweringError::IncompleteBlendState { target: Some(3), field: "X" },
            "blend state is incomplete: target=3 missing=X",
        ),
        (
            MaxwellThreeDLoweringError::IncompleteBlendState { target: None, field: "X" },
            "common blend state is incomplete: missing=X",
        ),
        (
            MaxwellThreeDLoweringError::IncompleteLogicOpState,
            "MAXWELL_B enabled logic operations require SET_LOGIC_OP_FUNC",
        ),
        (
            MaxwellThreeDLoweringError::UnsupportedLogicOpSemantics(MaxwellThreeDLogicOp::SetBits),
            "MAXWELL_B color logic operation Set is not represented by the neutral render pipeline",
        ),
        (
            MaxwellThreeDLoweringError::UnsupportedLogicOpSemantics(
                MaxwellThreeDLogicOp::CopyInverted,
            ),
            "MAXWELL_B color logic operation CopyInverted is not represented by the neutral render pipeline",
        ),
        (
            MaxwellThreeDLoweringError::IncompleteColorWriteState { target: 1, mask_register: 0 },
            "MAXWELL_B color target 1 selects unprogrammed SET_CT_WRITE(0)",
        ),
        (
            MaxwellThreeDLoweringError::UnsupportedColorWriteMask {
                target: 1,
                mask_register: 0,
                mask: MaxwellThreeDColorMask::parse(0x101).unwrap(),
            },
            "MAXWELL_B partial color writes are not represented by the neutral render pipeline: target=1 mask-register=0 mask=0x0101",
        ),
        (
            MaxwellThreeDLoweringError::IncompleteAlphaTestState("reference"),
            "MAXWELL_B enabled alpha testing requires SET_ALPHA_reference",
        ),
        (
            MaxwellThreeDLoweringError::CompressedDepthImportRequired { kind: 7 },
            "Maxwell compressed depth contents require materialization before use: kind=0x07",
        ),
        (
            MaxwellThreeDLoweringError::CompressedColorImportRequired { target: 7 },
            "Maxwell compressed color contents require materialization before use: target=7",
        ),
        (
            MaxwellThreeDLoweringError::PartialColorClearUnsupported { mask: 0xa },
            "partial color-channel clear is not represented yet: mask=0xa",
        ),
        (
            MaxwellThreeDLoweringError::IncompleteClear("depth value"),
            "clear state is incomplete: missing=depth value",
        ),
        (
            MaxwellThreeDLoweringError::IncompleteDraw("BEGIN"),
            "draw state is incomplete: missing=BEGIN",
        ),
        (
            MaxwellThreeDLoweringError::ColorTargetRouteUnprogrammed { slot: 0, target: 7 },
            "SET_CT_SELECT routes output slot 0 to unprogrammed color target 7",
        ),
        (
            MaxwellThreeDLoweringError::ColorTargetRouteIncomplete { slot: 6, target: 1 },
            "SET_CT_SELECT routes output slot 6 to incomplete color target 1",
        ),
        (
            MaxwellThreeDLoweringError::DuplicateColorTargetRoute { target: 4 },
            "SET_CT_SELECT routes one color target more than once: target=4",
        ),
        (MaxwellThreeDLoweringError::EmptyDraw, "draw vertex count is zero"),
        (
            MaxwellThreeDLoweringError::UnsupportedPrimitiveSplitMode(3),
            "BEGIN requests unsupported split-primitive semantics: mode=3",
        ),
        (
            MaxwellThreeDLoweringError::InstanceIndexOverflow { base: 4294967295, relative: 1 },
            "Maxwell instance index exceeds the neutral u32 domain: base=4294967295 relative=1",
        ),
        (
            MaxwellThreeDLoweringError::UnsupportedTopology(12),
            "primitive topology has no neutral lowering: topology=0xc",
        ),
        (
            MaxwellThreeDLoweringError::ResourceExhausted,
            "3D lowering exhausted host resources or identities",
        ),
    ] {
        assert_eq!(error.message(), text);
    }
}

#[test]
fn resource_errors_name_the_role() {
    let texture = MaxwellThreeDTextureReference { group: 1, slot: 2, byte_offset: 16 };
    for role in [
        MaxwellThreeDResourceRole::VertexStream(31),
        MaxwellThreeDResourceRole::ColorTarget(0),
        MaxwellThreeDResourceRole::DepthStencilTarget,
        MaxwellThreeDResourceRole::ConstantBuffer { group: 4, slot: 17 },
        MaxwellThreeDResourceRole::SampledImage {
            texture,
            dimension: MaxwellThreeDTextureDimension::TwoArray,
        },
        MaxwellThreeDResourceRole::Sampler(texture),
    ] {
        assert_eq!(
            MaxwellThreeDLoweringError::MissingResolvedResource { role }.message(),
            format!("complete 3D snapshot lacks resolved resource: role={role:?}")
        );
        assert_eq!(
            MaxwellThreeDLoweringError::AliasedDrawResources {
                first: role,
                second: MaxwellThreeDResourceRole::DepthStencilTarget,
            }
            .message(),
            format!(
                "draw has a read/write or attachment alias without modeled feedback semantics: first={role:?} second=DepthStencilTarget"
            )
        );
    }
    assert!(MaxwellThreeDLoweringError::AllocationDescriptionChanged {
        allocation: GpuAllocationId(12),
    }
    .message()
    .starts_with("cached GPU allocation changed immutable description: "));
}

#[test]
fn vertex_format_error_names_the_encoding() {
    let format = MaxwellThreeDVertexAttributeFormat::parse(0x3840_0000).unwrap();
    assert_eq!(
        MaxwellThreeDLoweringError::UnsupportedVertexAttributeFormat {
            attribute: 9,
            component_widths: format.component_widths().unwrap(),
            numerical_type: format.numerical_type().unwrap(),
            swap_red_blue: true,
        }
        .message(),
        "MAXWELL_B vertex attribute has no exact neutral format: attribute=9 component-widths=0x02 numerical-type=Float swap-red-blue=true"
    );
}

#[test]
fn synchronization_errors_name_source_and_syncpoints() {
    let source = MaxwellMethodSource::new(7, GpuMethodId::new(0x02c8), 0x11);
    let error = MaxwellThreeDSynchronizationError::WrongCompletionSyncpoint {
        source,
        requested: GuestSyncpointId::new(17),
        reserved: GuestSyncpointId::new(18),
    };
    assert_eq!(error.source(), source);
    assert!(error.message().starts_with("MAXWELL_B syncpoint reservation mismatch: source=["));
    assert!(error.message().ends_with("reserved=GuestSyncpointId(18)"));
}

#[test]
fn errors_name_the_fields_of_uninterpreted_registers() {
    for (error, text) in [
        (
            MaxwellThreeDLoweringError::UnsupportedPixelShaderInterlockSemantics(
                MaxwellThreeDPixelShaderInterlockControl::from_raw(1),
                "ConflictDetect",
            ),
            "MAXWELL_B pixel-shader interlock is not represented by the neutral pipeline: control=ConflictDetect",
        ),
        (
            MaxwellThreeDLoweringError::UnsupportedRenderTargetLayerSemantics(
                MaxwellThreeDRenderTargetLayer::from_raw(0x1_0003),
                "GeometryShader",
            ),
            "MAXWELL_B render-target layer routing is not represented by shader translation or the neutral attachment contract: layer=3 control=GeometryShader",
        ),
        (
            MaxwellThreeDLoweringError::UnsupportedPointSpriteCoordinatesSemantics(
                MaxwellThreeDPointSpriteSelect::from_raw(0),
                MaxwellThreeDPointSpriteCoordinates {
                    generated_texture_mask: 0x2a,
                    r_mode: "Zero",
                    origin: "Top",
                },
            ),
            "MAXWELL_B generated point-sprite coordinates are not represented by shader translation or the neutral pipeline contract: texture-mask=0x02a r-mode=Zero origin=Top",
        ),
        (
            MaxwellThreeDLoweringError::TranslatedShaderMemoryConfigurationMismatch {
                stage: ShaderStage::Vertex,
                configured: MaxwellThreeDDirectlyAddressableMemory::from_raw(1),
                required: MaxwellThreeDDirectlyAddressableMemory::from_raw(3),
                configured_bytes: 16384,
                required_bytes: 49152,
            },
            "translated shader requires a different Maxwell directly addressable memory configuration: stage=Vertex configured-bytes=16384 translated-for-bytes=49152",
        ),
    ] {
        assert_eq!(error.message(), text);
    }
}

#[test]
fn refused_construction_names_its_reason() {
    assert_eq!(
        MaxwellThreeDLoweringError::Command("empty barrier").message(),
        "neutral command construction failed: empty barrier"
    );
}
