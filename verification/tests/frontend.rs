use maxwell_threed::dispatch::{MaxwellEngineOperation, MaxwellThreeDOperationTrigger};
use maxwell_threed::dispatch_error::MaxwellEngineDispatchError;
use maxwell_threed::frontend::{is_mme_aperture, preflight, preflight_mme_call, AppliedMethod};
use maxwell_threed::mme::{
    MaxwellThreeDMmeExecutionError, MaxwellThreeDMmeLoadError, MaxwellThreeDMmeRam,
    MaxwellThreeDMmeRamAddress, MaxwellThreeDMmeShadowRamError, MaxwellThreeDMmeState,
};
use maxwell_threed::operations::{
    lower_maxwell_three_d_synchronization, MaxwellThreeDSynchronizationError,
    MaxwellThreeDSynchronizationOperation, MaxwellThreeDSynchronizationPlan,
};
use maxwell_threed::profile::{
    MaxwellAamVersion, MaxwellAamVersionRange, MaxwellGpuProfile, MaxwellShaderProgramHeaderVersion,
    MaxwellShaderProgramHeaderVersionRange, MaxwellThreeDEncodedField,
    MaxwellThreeDEncodingPattern, MaxwellThreeDRegisterReset,
};
use maxwell_threed::register::{GpuMethodId, MaxwellMethodSource};
use maxwell_threed::state::MaxwellThreeDFrontendState;
use maxwell_threed::timeline::{GuestSyncpointId, GuestTimelinePoint, ReservedTimelinePoint};

const FIELDS: [MaxwellThreeDEncodedField; 24] = [
    MaxwellThreeDEncodedField::VertexAttribute,
    MaxwellThreeDEncodedField::VertexStreamFormat,
    MaxwellThreeDEncodedField::BalancedPrimitiveWorkload,
    MaxwellThreeDEncodedField::PrimitiveCircularBufferThrottle,
    MaxwellThreeDEncodedField::AttributeDefaults,
    MaxwellThreeDEncodedField::Begin,
    MaxwellThreeDEncodedField::IndexElementSize,
    MaxwellThreeDEncodedField::PrimitiveTopology,
    MaxwellThreeDEncodedField::SpaVersion,
    MaxwellThreeDEncodedField::AttributePointSize,
    MaxwellThreeDEncodedField::ColorTargetFormat,
    MaxwellThreeDEncodedField::DepthStencilFormat,
    MaxwellThreeDEncodedField::ColorTargetSelection,
    MaxwellThreeDEncodedField::CompressionThreshold,
    MaxwellThreeDEncodedField::ClearSurfaceControl,
    MaxwellThreeDEncodedField::ClearSurface,
    MaxwellThreeDEncodedField::DecompressSurface,
    MaxwellThreeDEncodedField::PixelShaderInterlockControl,
    MaxwellThreeDEncodedField::L1Configuration,
    MaxwellThreeDEncodedField::VisibleCallLimit,
    MaxwellThreeDEncodedField::PointSpriteSelect,
    MaxwellThreeDEncodedField::ZCullCriterion,
    MaxwellThreeDEncodedField::ZCullEnable,
    MaxwellThreeDEncodedField::ZCullBounds,
];

fn profile() -> MaxwellGpuProfile {
    MaxwellGpuProfile {
        sph_versions: MaxwellShaderProgramHeaderVersionRange::new(
            MaxwellShaderProgramHeaderVersion::new(3),
            MaxwellShaderProgramHeaderVersion::new(3),
        ),
        aam_versions: MaxwellAamVersionRange::new(
            MaxwellAamVersion::new(2),
            MaxwellAamVersion::new(2),
        ),
        sm_timeout_counter_mask: 0x3f,
        local_memory_per_warp_mask: 0x00ff_ffff,
        encodings: FIELDS
            .iter()
            .map(|field| MaxwellThreeDEncodingPattern::new(*field, 0, 0))
            .collect(),
        resets: vec![MaxwellThreeDRegisterReset::new(GpuMethodId::new(0x0d74), 7)],
    }
}

fn source(position: u64, method: u32, argument: u32) -> MaxwellMethodSource {
    MaxwellMethodSource::new(position, GpuMethodId::new(method), argument)
}

fn front_end() -> MaxwellThreeDFrontendState {
    MaxwellThreeDFrontendState::with_resets(0x1b02, 0)
}

fn send(
    state: &mut MaxwellThreeDFrontendState,
    method: u32,
    argument: u32,
) -> Result<AppliedMethod, MaxwellEngineDispatchError> {
    preflight(&profile(), source(u64::from(method), method, argument), state)
}

fn load(state: &mut MaxwellThreeDFrontendState, instructions: &[u32]) {
    send(state, 0x0114, 0).unwrap();
    for raw in instructions {
        send(state, 0x0118, *raw).unwrap();
    }
    send(state, 0x011c, 0).unwrap();
    send(state, 0x0120, 0).unwrap();
}

/// Sets the method address to an immediate.
fn address(method: u32) -> u32 {
    1 | (2 << 4) | ((method / 4) << 14)
}

const SEND_FIRST_AND_EXIT: u32 = 1 | (4 << 4) | (1 << 7) | (1 << 11);
const NOTHING: u32 = 1 | (1 << 4);

#[test]
fn register_word_is_retained_with_its_source() {
    let mut state = front_end();
    let applied = send(&mut state, 0x0d74, 12).unwrap();
    assert_eq!(applied.operation, None);
    assert_eq!(state.raw_word(GpuMethodId::new(0x0d74)), Some(12));
    let register = state.operation_state().vertex_input().vertex_array_start();
    assert_eq!(register.value(), Some(&12));
    assert_eq!(register.source(), Some(source(0x0d74, 0x0d74, 12)));
}

#[test]
fn draw_captures_the_state_before_it() {
    let mut state = front_end();
    send(&mut state, 0x0d74, 3).unwrap();
    let applied = send(&mut state, 0x0d78, 6).unwrap();
    match applied.operation {
        Some(MaxwellEngineOperation::ThreeD { trigger, state }) => {
            assert_eq!(
                trigger,
                MaxwellThreeDOperationTrigger::DrawVertexArray {
                    source: source(0x0d78, 0x0d78, 6),
                    vertex_count: 6,
                }
            );
            assert_eq!(state.vertex_input().vertex_array_start().value(), Some(&3));
        }
        other => panic!("unexpected operation {other:?}"),
    }
}

#[test]
fn surface_clear_triggers_with_its_own_register() {
    let mut state = front_end();
    let applied = send(&mut state, 0x19d0, 0x3c).unwrap();
    match applied.operation {
        Some(MaxwellEngineOperation::ThreeD { trigger, state }) => {
            assert_eq!(trigger.source(), source(0x19d0, 0x19d0, 0x3c));
            let surface = state.render_targets().clear_surface().value().copied().unwrap();
            assert_eq!(surface.color_mask(), 0xf);
            assert!(!surface.depth());
        }
        other => panic!("unexpected operation {other:?}"),
    }
}

#[test]
fn refused_word_changes_nothing() {
    let mut state = front_end();
    send(&mut state, 0x0da0, 0x7f).unwrap();
    let before = state.operation_snapshot();
    assert_eq!(
        send(&mut state, 0x0da0, 0x100),
        Err(MaxwellEngineDispatchError::InvalidMethodEncoding {
            source: source(0x0da0, 0x0da0, 0x100),
            method_name: "SET_STENCIL_CLEAR_VALUE",
            reason: "reserved bits are set",
        })
    );
    assert_eq!(state.operation_snapshot(), before);
    assert_eq!(state.raw_word(GpuMethodId::new(0x0da0)), Some(0x7f));
}

#[test]
fn target_beyond_the_selectors_is_refused() {
    let mut state = front_end();
    assert!(matches!(
        send(&mut state, 0x121c, 9),
        Err(MaxwellEngineDispatchError::InvalidMethodEncoding { .. })
    ));
    assert!(send(&mut state, 0x121c, 8).is_ok());
    assert!(matches!(
        send(&mut state, 0x19d0, 0x3c | (8 << 6)),
        Err(MaxwellEngineDispatchError::InvalidMethodEncoding { .. })
    ));
    assert!(send(&mut state, 0x19d0, 0x3c | (7 << 6)).is_ok());
}

#[test]
fn unknown_method_is_reported() {
    let mut state = front_end();
    assert!(matches!(
        send(&mut state, 0x0004, 0),
        Err(MaxwellEngineDispatchError::UnknownMethod { .. })
            | Err(MaxwellEngineDispatchError::UnsupportedMethod { .. })
    ));
}

#[test]
fn identity_follows_register_words() {
    let mut state = front_end();
    send(&mut state, 0x0d74, 3).unwrap();
    let first = state.operation_state().identity();
    send(&mut state, 0x0d74, 3).unwrap();
    assert_eq!(state.operation_state().identity(), first);
    send(&mut state, 0x0d74, 4).unwrap();
    assert_ne!(state.operation_state().identity(), first);
}

#[test]
fn begin_and_end_bracket_a_sequence() {
    let mut state = front_end();
    send(&mut state, 0x1618, 4).unwrap();
    assert!(state.operation_state().vertex_input.active_begin.is_some());
    send(&mut state, 0x1614, 0).unwrap();
    assert!(state.operation_state().vertex_input.active_begin.is_none());
}

#[test]
fn instruction_without_pointer_is_refused() {
    let mut state = front_end();
    assert_eq!(
        send(&mut state, 0x0118, 0),
        Err(MaxwellEngineDispatchError::MmeRamLoad {
            source: source(0x0118, 0x0118, 0),
            ram: MaxwellThreeDMmeRam::Instruction,
            error: MaxwellThreeDMmeLoadError::PointerUnset,
        })
    );
}

#[test]
fn macro_emits_a_method() {
    let mut state = front_end();
    load(&mut state, &[address(0x0d74), SEND_FIRST_AND_EXIT, NOTHING]);
    let call = preflight_mme_call(&profile(), &[source(50, 0x3800, 21)], &mut state).unwrap();
    assert_eq!(call.methods.len(), 1);
    assert!(call.ordered_operations.is_empty());
    let register = state.operation_state().vertex_input().vertex_array_start();
    assert_eq!(register.value(), Some(&21));
    assert!(register.source().unwrap().emitted);
}

#[test]
fn macro_operations_keep_their_order() {
    let mut state = front_end();
    let send_second = 1 | (4 << 4) | (1 << 7) | (2 << 11);
    let fetch_second = 1 | (2 << 8);
    load(
        &mut state,
        &[
            fetch_second,
            address(0x0d74) | (1 << 26),
            1 | (4 << 4) | (1 << 11),
            send_second,
            NOTHING,
        ],
    );
    let call = preflight_mme_call(
        &profile(),
        &[source(50, 0x3800, 9), source(51, 0x3804, 5)],
        &mut state,
    )
    .unwrap();
    assert_eq!(call.methods.len(), 2);
    match call.ordered_operations.as_slice() {
        [MaxwellEngineOperation::ThreeD { trigger, state }] => {
            assert!(matches!(
                trigger,
                MaxwellThreeDOperationTrigger::DrawVertexArray { vertex_count: 5, .. }
            ));
            assert_eq!(state.vertex_input().vertex_array_start().value(), Some(&9));
        }
        other => panic!("unexpected operations {other:?}"),
    }
}

#[test]
fn macro_faults_are_precise() {
    let mut state = front_end();
    assert_eq!(
        preflight_mme_call(&profile(), &[source(50, 0x3800, 0)], &mut state).err(),
        Some(MaxwellEngineDispatchError::MmeExecution {
            source: source(50, 0x3800, 0),
            error: MaxwellThreeDMmeExecutionError::MissingStartAddress { macro_index: 0 },
        })
    );
    assert_eq!(
        preflight_mme_call(&profile(), &[source(50, 0x3804, 0)], &mut state).err(),
        Some(MaxwellEngineDispatchError::MmeExecution {
            source: source(50, 0x3804, 0),
            error: MaxwellThreeDMmeExecutionError::DataWithoutCall,
        })
    );
    load(&mut state, &[6 | (1 << 7), NOTHING]);
    assert_eq!(
        preflight_mme_call(&profile(), &[source(50, 0x3800, 0)], &mut state).err(),
        Some(MaxwellEngineDispatchError::MmeExecution {
            source: source(50, 0x3800, 0),
            error: MaxwellThreeDMmeExecutionError::InvalidOperation {
                address: MaxwellThreeDMmeRamAddress::new(0),
                operation: 6,
            },
        })
    );
}

#[test]
fn endless_macro_is_stopped() {
    let mut state = front_end();
    load(&mut state, &[7, NOTHING]);
    match preflight_mme_call(&profile(), &[source(50, 0x3800, 0)], &mut state).err() {
        Some(MaxwellEngineDispatchError::MmeExecution {
            error: MaxwellThreeDMmeExecutionError::InstructionLimitExceeded { .. },
            ..
        }) => {}
        other => panic!("unexpected outcome {other:?}"),
    }
}

#[test]
fn unread_parameters_are_a_fault() {
    let mut state = front_end();
    load(&mut state, &[address(0x0d74), SEND_FIRST_AND_EXIT, NOTHING]);
    match preflight_mme_call(
        &profile(),
        &[source(50, 0x3800, 1), source(51, 0x3804, 2)],
        &mut state,
    )
    .err()
    {
        Some(MaxwellEngineDispatchError::MmeExecution {
            error: MaxwellThreeDMmeExecutionError::UnconsumedParameters { consumed, supplied },
            ..
        }) => {
            assert_eq!((consumed, supplied), (1, 2));
        }
        other => panic!("unexpected outcome {other:?}"),
    }
}

#[test]
fn replayed_shadow_word_replaces_the_argument() {
    let mut state = front_end();
    send(&mut state, 0x0124, 0).unwrap();
    send(&mut state, 0x1438, 40).unwrap();
    send(&mut state, 0x0124, 3).unwrap();
    send(&mut state, 0x1438, 99).unwrap();
    let register = state.operation_state().vertex_input().global_base_instance_index();
    assert_eq!(register.value(), Some(&40));
}

#[test]
fn replay_without_a_shadow_word_needs_a_reset() {
    let mut state = front_end();
    send(&mut state, 0x0124, 3).unwrap();
    send(&mut state, 0x0d74, 99).unwrap();
    let register = state.operation_state().vertex_input().vertex_array_start();
    assert_eq!(register.value(), Some(&7));
    match send(&mut state, 0x1438, 1) {
        Err(MaxwellEngineDispatchError::MmeShadowRam {
            error: MaxwellThreeDMmeShadowRamError::ReplayRegisterUnavailable { method_dword },
            ..
        }) => assert_eq!(method_dword, 0x1438 / 4),
        other => panic!("unexpected outcome {other:?}"),
    }
}

#[test]
fn aperture_is_word_aligned() {
    assert!(is_mme_aperture(GpuMethodId::new(0x3800)));
    assert!(is_mme_aperture(GpuMethodId::new(0x3ffc)));
    assert!(!is_mme_aperture(GpuMethodId::new(0x3802)));
    assert!(!is_mme_aperture(GpuMethodId::new(0x37fc)));
}

#[test]
fn consecutive_constant_buffer_words_are_adjacent() {
    let mut state = front_end();
    send(&mut state, 0x2380, 0x100).unwrap();
    send(&mut state, 0x2384, 1).unwrap();
    send(&mut state, 0x2388, 0x2000).unwrap();
    send(&mut state, 0x238c, 8).unwrap();
    let mut offsets = Vec::new();
    for (method, word) in [(0x2390, 11), (0x2394, 22)] {
        match send(&mut state, method, word).unwrap().operation {
            Some(MaxwellEngineOperation::ThreeDInlineConstantBuffer(upload)) => {
                assert_eq!(upload.value(), word);
                offsets.push(upload.offset());
            }
            other => panic!("unexpected operation {other:?}"),
        }
    }
    assert_eq!(offsets, [8, 12]);
}

#[test]
fn constant_buffer_word_must_lie_in_the_buffer() {
    let mut state = front_end();
    send(&mut state, 0x2380, 0x10).unwrap();
    send(&mut state, 0x2384, 1).unwrap();
    send(&mut state, 0x2388, 0x2000).unwrap();
    send(&mut state, 0x238c, 0x10).unwrap();
    assert!(send(&mut state, 0x2390, 1).is_err());
}

#[test]
fn version_checks_need_an_overlap() {
    let mut state = front_end();
    assert!(send(&mut state, 0x16a8, 0x0003_0003).is_ok());
    assert_eq!(
        send(&mut state, 0x16a8, 0x0004_0004),
        Err(
            MaxwellEngineDispatchError::IncompatibleShaderProgramHeaderVersion {
                source: source(0x16a8, 0x16a8, 0x0004_0004),
                requested: MaxwellShaderProgramHeaderVersionRange::decode(0x0004_0004),
                supported: profile().sph_versions,
            }
        )
    );
    assert!(send(&mut state, 0x1794, 0x0001_0002).is_ok());
    assert!(matches!(
        send(&mut state, 0x1794, 0x0003_0009),
        Err(MaxwellEngineDispatchError::IncompatibleAamVersion { .. })
    ));
}

#[test]
fn undefined_bits_are_reported_with_the_mask() {
    let mut state = front_end();
    match send(&mut state, 0x0124, 4) {
        Err(MaxwellEngineDispatchError::InvalidMethodValue { defined_mask, metadata, .. }) => {
            assert_eq!(defined_mask, 3);
            assert_eq!(metadata.method_name, "SET_MME_SHADOW_RAM_CONTROL");
        }
        other => panic!("unexpected outcome {other:?}"),
    }
}

fn synchronization(state: &mut MaxwellThreeDFrontendState, method: u32, argument: u32) -> MaxwellThreeDSynchronizationOperation {
    match send(state, method, argument).unwrap().operation {
        Some(MaxwellEngineOperation::ThreeDSynchronization { trigger, state }) => {
            MaxwellThreeDSynchronizationOperation::new(trigger, state)
        }
        other => panic!("unexpected operation {other:?}"),
    }
}

#[test]
fn wait_for_idle_keeps_pending_work_in_mind() {
    let mut state = front_end();
    let operation = synchronization(&mut state, 0x0110, 0);
    assert_eq!(
        lower_maxwell_three_d_synchronization(&operation, None, true),
        Ok(MaxwellThreeDSynchronizationPlan::WaitForIdle { prior_work_pending: true })
    );
}

#[test]
fn shader_cache_locks_and_flushes_are_refused() {
    let mut state = front_end();
    let locks = synchronization(&mut state, 0x021c, 0x3);
    assert!(matches!(
        lower_maxwell_three_d_synchronization(&locks, None, false),
        Err(MaxwellThreeDSynchronizationError::UnsupportedShaderCacheLockInvalidation { .. })
    ));
    let flush = synchronization(&mut state, 0x021c, 0x5);
    assert!(matches!(
        lower_maxwell_three_d_synchronization(&flush, None, false),
        Err(MaxwellThreeDSynchronizationError::UnsupportedShaderDataCacheFlush { .. })
    ));
    let plain = synchronization(&mut state, 0x021c, 0x1);
    assert!(lower_maxwell_three_d_synchronization(&plain, None, false).is_ok());
}

#[test]
fn syncpoint_increment_needs_its_reservation() {
    let mut state = front_end();
    let operation = synchronization(&mut state, 0x02c8, 5);
    let requested = GuestSyncpointId::new(5);
    let missing = lower_maxwell_three_d_synchronization(&operation, None, false).unwrap_err();
    assert_eq!(
        missing,
        MaxwellThreeDSynchronizationError::MissingCompletionReservation {
            source: source(0x02c8, 0x02c8, 5),
            requested,
        }
    );
    assert_eq!(
        missing.message(),
        "MAXWELL_B syncpoint increment has no completion reservation: source=[position=712 method=0x02c8 argument=0x00000005] requested=GuestSyncpointId(5)"
    );
    let wrong = ReservedTimelinePoint::new(GuestTimelinePoint::new(GuestSyncpointId::new(6), 1));
    assert_eq!(
        lower_maxwell_three_d_synchronization(&operation, Some(&wrong), false),
        Err(MaxwellThreeDSynchronizationError::WrongCompletionSyncpoint {
            source: source(0x02c8, 0x02c8, 5),
            requested,
            reserved: GuestSyncpointId::new(6),
        })
    );
    let right = ReservedTimelinePoint::new(GuestTimelinePoint::new(requested, 9));
    match lower_maxwell_three_d_synchronization(&operation, Some(&right), false) {
        Ok(MaxwellThreeDSynchronizationPlan::IncrementSyncpoint { completion, .. }) => {
            assert_eq!(completion, GuestTimelinePoint::new(requested, 9));
        }
        other => panic!("unexpected outcome {other:?}"),
    }
}

#[test]
fn semaphore_release_needs_address_and_payload() {
    let mut state = front_end();
    let incomplete = synchronization(&mut state, 0x1b0c, 0x1000_f010);
    assert_eq!(
        lower_maxwell_three_d_synchronization(&incomplete, None, false),
        Err(MaxwellThreeDSynchronizationError::IncompleteReportSemaphoreState {
            source: source(0x1b0c, 0x1b0c, 0x1000_f010),
        })
    );
    for (method, argument) in [(0x1b00, 0x12), (0x1b04, 0x3456_7890), (0x1b08, 77)] {
        send(&mut state, method, argument).unwrap();
    }
    let complete = synchronization(&mut state, 0x1b0c, 0x1000_f010);
    match lower_maxwell_three_d_synchronization(&complete, None, true) {
        Ok(MaxwellThreeDSynchronizationPlan::ReportSemaphoreRelease(release)) => {
            assert_eq!(release.address().get(), 0x12_3456_7890);
            assert_eq!(release.payload(), 77);
            assert!(release.prior_work_pending());
        }
        other => panic!("unexpected outcome {other:?}"),
    }
    let other = synchronization(&mut state, 0x1b0c, 0x0000_f011);
    assert!(matches!(
        lower_maxwell_three_d_synchronization(&other, None, false),
        Err(MaxwellThreeDSynchronizationError::UnsupportedReportSemaphoreControl { .. })
    ));
}

#[test]
fn inline_upload_hands_out_one_word_at_a_time() {
    let mut state = front_end();
    for (method, argument) in [
        (0x0180, 8),
        (0x0184, 1),
        (0x0188, 1),
        (0x018c, 0x4000),
        (0x01b0, 0x11),
    ] {
        send(&mut state, method, argument).unwrap();
    }
    let mut uploads = Vec::new();
    for word in [0xaaaa, 0xbbbb] {
        match send(&mut state, 0x01b4, word).unwrap().operation {
            Some(MaxwellEngineOperation::InlineToMemory(upload)) => {
                uploads.push((upload.offset(), upload.value(), upload.address().get()));
            }
            other => panic!("unexpected operation {other:?}"),
        }
    }
    assert_eq!(
        uploads,
        [(0, 0xaaaa, 0x1_0000_4000), (4, 0xbbbb, 0x1_0000_4000)]
    );
    assert!(send(&mut state, 0x01b4, 1).is_err());
}

#[test]
fn constant_buffer_cursor_counts_words_from_the_offset() {
    let mut state = front_end();
    send(&mut state, 0x2380, 0x100).unwrap();
    send(&mut state, 0x2384, 1).unwrap();
    send(&mut state, 0x2388, 0x2000).unwrap();
    assert!(send(&mut state, 0x2390, 1).is_err());
    for (offset, words) in [(8, 3), (0x40, 2)] {
        send(&mut state, 0x238c, offset).unwrap();
        for word in 0..words {
            send(&mut state, 0x2390, word).unwrap();
        }
        let load = state.operation.shader_bindings.constant_buffer_load;
        assert_eq!(load.next_offset, Some(offset + 4 * words));
        assert_eq!(load.offset.value.map(u32::from), Some(offset));
    }
}

#[test]
fn macro_state_starts_unprogrammed() {
    let state = MaxwellThreeDMmeState::default();
    assert_eq!(state.next_instruction_address, None);
    assert_eq!(state.next_start_address_index, None);
    assert_eq!(state.instruction_pointer.value, None);
    assert!(state.instructions.is_empty());
    assert!(state.start_addresses.is_empty());
    assert!(state.shadow_registers.is_empty());
    assert!(state.shadow_scratch.is_empty());
}

#[test]
fn front_end_starts_unset() {
    let state = front_end();
    assert_eq!(state.mme().next_instruction_address, None);
    assert_eq!(state.mme().instruction_pointer.value, None);
    assert_eq!(state.mme().start_address_pointer.value, None);
    assert_eq!(state.mme().shadow_ram_control.value, None);
    assert_eq!(state.mme().mutable_method_control.value, None);
    assert!(state.falcon().last_masked_write().is_none());
}
