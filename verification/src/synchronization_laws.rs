//! Laws of synchronization and cache maintenance, stated on method words.

use vstd::prelude::*;
use crate::dispatch::PendingOperation;
use crate::method_answers::MethodStep;
use crate::operations::{
    MaxwellThreeDReportSemaphoreState, MaxwellThreeDSynchronizationPlan,
    MaxwellThreeDSynchronizationTrigger,
};
use crate::profile::MaxwellGpuProfile;
use crate::register::MaxwellMethodSource;
use crate::state::FrontendModel;
use crate::timeline::{CacheMaintenanceOperation, GuestTimelinePoint};

verus! {

/// The methods that wait, invalidate, flush or signal.
pub open spec fn synchronizes(method: u32) -> bool {
    ||| method == 0x0110
    ||| method == 0x021c
    ||| method == 0x02c8
    ||| method == 0x0da4
    ||| method == 0x1144
    ||| method == 0x1288
    ||| method == 0x1330
    ||| method == 0x1334
    ||| method == 0x1338
    ||| method == 0x1424
    ||| method == 0x1428
    ||| method == 0x1b0c
}

/// No register family claims a synchronization method.
proof fn lemma_synchronization_declared(
    profile: &MaxwellGpuProfile,
    source: MaxwellMethodSource,
    model: FrontendModel,
)
    requires
        synchronizes(source.method.0),
    ensures
        crate::method_answers::answered(profile, source, model)
            == crate::method_answers::declared_answer(profile, source, model),
{
    assert(crate::method_answers::inline_answer(source, model) matches Ok(None)) by {
        reveal(crate::method_answers::inline_answer);
    }
    assert(crate::method_answers::mme_answer(source, model) matches Ok(None)) by {
        reveal(crate::method_answers::mme_answer);
    }
    assert(crate::method_answers::load_answer(source, model) matches Ok(None)) by {
        reveal(crate::method_answers::load_answer);
    }
    assert(crate::method_answers::vertex_answer(profile, source, model) matches Ok(None)) by {
        reveal(crate::method_answers::vertex_answer);
        reveal(crate::method_answers::stream_answer);
        reveal(crate::method_answers::assembly_answer);
        reveal(crate::method_answers::constant_binding_answer);
        reveal(crate::method_answers::shader_binding_answer);
    }
    assert(crate::method_answers::output_answer(profile, source) matches Ok(None)) by {
        reveal(crate::method_answers::output_answer);
        reveal(crate::method_answers::line_answer);
        reveal(crate::method_answers::raster_answer);
        reveal(crate::method_answers::color_target_answer);
        reveal(crate::method_answers::render_target_answer);
        reveal(crate::method_answers::viewport_answer);
        reveal(crate::method_answers::blend_answer);
        reveal(crate::method_answers::sample_mask_answer);
        reveal(crate::method_answers::fixed_answer);
    }
}

/// What each trigger says of the method and the word that pulled it.
pub open spec fn pulled_by(
    trigger: MaxwellThreeDSynchronizationTrigger,
    source: MaxwellMethodSource,
) -> bool {
    let method = source.method.0;
    let word = source.argument;
    match trigger {
        MaxwellThreeDSynchronizationTrigger::WaitForIdle { value, source: packet } => {
            method == 0x0110 && value == word && packet == source
        },
        MaxwellThreeDSynchronizationTrigger::InvalidateShaderCaches { request, source: packet } => {
            &&& method == 0x021c
            &&& packet == source
            &&& request.caches.instruction <==> word & 1 != 0
            &&& request.caches.global_data <==> word & 0x10 != 0
            &&& request.caches.constant <==> word & 0x1000 != 0
            &&& request.locks <==> word & 2 != 0
            &&& request.flush_data <==> word & 4 != 0
        },
        MaxwellThreeDSynchronizationTrigger::InvalidateShaderCachesNoWfi { caches, source: packet } => {
            &&& method == 0x0da4
            &&& packet == source
            &&& caches.instruction <==> word & 1 != 0
            &&& caches.global_data <==> word & 0x10 != 0
            &&& caches.constant <==> word & 0x1000 != 0
        },
        MaxwellThreeDSynchronizationTrigger::InvalidateTextureCache { request, source: packet } => {
            &&& packet == source
            &&& method == 0x1338 || method == 0x1334 || method == 0x1330
            &&& request.target is Data <==> method == 0x1338
            &&& request.target is Header <==> method == 0x1334
            &&& request.target is Sampler <==> method == 0x1330
            &&& request.lines is One <==> word & 1 != 0
        },
        MaxwellThreeDSynchronizationTrigger::InvalidateTextureCacheNoWfi { request, source: packet } => {
            &&& packet == source
            &&& method == 0x1288 || method == 0x1428 || method == 0x1424
            &&& request.target is Data <==> method == 0x1288
            &&& request.target is Header <==> method == 0x1428
            &&& request.target is Sampler <==> method == 0x1424
            &&& request.lines is One <==> word & 1 != 0
        },
        MaxwellThreeDSynchronizationTrigger::FlushPendingWrites { request, source: packet } => {
            &&& method == 0x1144
            &&& packet == source
            &&& request.sm_does_global_store <==> word & 1 != 0
        },
        MaxwellThreeDSynchronizationTrigger::ReportSemaphore { control, source: packet } => {
            method == 0x1b0c && packet == source && control.raw == word
        },
        MaxwellThreeDSynchronizationTrigger::IncrementSyncpoint { request, source: packet } => {
            &&& method == 0x02c8
            &&& packet == source
            &&& request.syncpoint.0 == word & 0xfff
            &&& request.clean_l2 <==> word & 0x1_0000 != 0
            &&& request.condition is RopWritesDone <==> word & 0x10_0000 != 0
        },
    }
}

/// A declared synchronization method pulls its own trigger and writes no state.
#[verifier::spinoff_prover]
#[verifier::rlimit(30)]
proof fn lemma_trigger(profile: &MaxwellGpuProfile, source: MaxwellMethodSource, model: FrontendModel)
    requires
        synchronizes(source.method.0),
    ensures
        crate::method_answers::declared_answer(profile, source, model) matches Ok(plan) ==> {
            &&& plan.write is None
            &&& !plan.writes_state
            &&& plan.operation matches Some(PendingOperation::Synchronization(trigger))
            &&& pulled_by(trigger, source)
        },
{
    reveal(crate::method_answers::declared_answer);
    let word = source.argument;
    assert(word & !1u32 == 0 ==> (word != 0 <==> word & 1 != 0)) by (bit_vector);
    let method = source.method.0;
    if method == 0x0110 || method == 0x021c || method == 0x02c8 || method == 0x0da4 {
    } else if method == 0x1144 || method == 0x1288 || method == 0x1330 || method == 0x1334 {
    } else if method == 0x1338 || method == 0x1424 || method == 0x1428 {
    } else {
    }
}

/// Plan that the synchronization started by an accepted method is lowered to.
pub open spec fn planned_for(
    profile: &MaxwellGpuProfile,
    step: MethodStep,
    model: FrontendModel,
    semaphore: MaxwellThreeDReportSemaphoreState,
    completion: Option<GuestTimelinePoint>,
    prior_work_pending: bool,
) -> Option<MaxwellThreeDSynchronizationPlan> {
    match crate::method_answers::taken(profile, step, model) {
        Some(prepared) => match prepared.operation {
            Some(PendingOperation::Synchronization(trigger)) =>
                match crate::operations::spec_synchronization_plan(
                    trigger,
                    semaphore,
                    completion,
                    prior_work_pending,
                ) {
                    Ok(plan) => Some(plan),
                    Err(_) => None,
                },
            _ => None,
        },
        None => None,
    }
}

/// The maintenance of an accepted shader-cache invalidation, method 0x21c or 0xda4, is an
/// invalidation of shader caches that names the instruction, global-data and constant cache
/// exactly when bits 0, 4 and 12 of the word are set. That of a texture-cache invalidation
/// names the cache of its method: the data cache for 0x1338 and 0x1288, the header cache for
/// 0x1334 and 0x1428, the sampler cache for 0x1330 and 0x1424. A synchronization method
/// leaves the engine state as it was.
pub proof fn law_cache_maintenance(
    profile: &MaxwellGpuProfile,
    step: MethodStep,
    model: FrontendModel,
    semaphore: MaxwellThreeDReportSemaphoreState,
    completion: Option<GuestTimelinePoint>,
    prior_work_pending: bool,
)
    requires
        synchronizes(step.source.method.0),
    ensures
        planned_for(profile, step, model, semaphore, completion, prior_work_pending) matches Some(
            plan,
        ) ==> {
            let method = step.source.method.0;
            let word = crate::method_answers::taken_word(profile, step, model);
            let shader = CacheMaintenanceOperation::InvalidateShaderCaches {
                instruction: word & 1 != 0,
                global_data: word & 0x10 != 0,
                constant: word & 0x1000 != 0,
            };
            match plan {
                MaxwellThreeDSynchronizationPlan::WaitForIdle { prior_work_pending: pending } => {
                    method == 0x0110 && pending == prior_work_pending
                },
                MaxwellThreeDSynchronizationPlan::InvalidateShaderCaches {
                    request,
                    maintenance,
                    prior_work_pending: pending,
                } => {
                    &&& method == 0x021c
                    &&& maintenance == shader
                    &&& pending == prior_work_pending
                    &&& word & 2 == 0
                    &&& word & 4 == 0
                    &&& request.caches.instruction <==> word & 1 != 0
                    &&& request.caches.global_data <==> word & 0x10 != 0
                    &&& request.caches.constant <==> word & 0x1000 != 0
                },
                MaxwellThreeDSynchronizationPlan::InvalidateShaderCachesNoWfi { caches, maintenance } => {
                    &&& method == 0x0da4
                    &&& maintenance == shader
                    &&& caches.instruction <==> word & 1 != 0
                    &&& caches.global_data <==> word & 0x10 != 0
                    &&& caches.constant <==> word & 0x1000 != 0
                },
                MaxwellThreeDSynchronizationPlan::InvalidateTextureCache {
                    request,
                    maintenance,
                    prior_work_pending: pending,
                } => {
                    &&& pending == prior_work_pending
                    &&& method == 0x1338 || method == 0x1334 || method == 0x1330
                    &&& method == 0x1338 <==> maintenance is InvalidateTextureReadCaches
                    &&& method == 0x1334 <==> maintenance is InvalidateTextureHeaderCaches
                    &&& method == 0x1330 <==> maintenance is InvalidateSamplerCaches
                    &&& request.lines is One <==> word & 1 != 0
                },
                MaxwellThreeDSynchronizationPlan::InvalidateTextureCacheNoWfi { request, maintenance } => {
                    &&& method == 0x1288 || method == 0x1428 || method == 0x1424
                    &&& method == 0x1288 <==> maintenance is InvalidateTextureReadCaches
                    &&& method == 0x1428 <==> maintenance is InvalidateTextureHeaderCaches
                    &&& method == 0x1424 <==> maintenance is InvalidateSamplerCaches
                    &&& request.lines is One <==> word & 1 != 0
                },
                MaxwellThreeDSynchronizationPlan::FlushPendingWrites { request } => {
                    method == 0x1144 && (request.sm_does_global_store <==> word & 1 != 0)
                },
                MaxwellThreeDSynchronizationPlan::ReportSemaphoreRelease(release) => {
                    &&& method == 0x1b0c
                    &&& word == 0x1000_f010
                    &&& semaphore.address_upper.value == Some(release.address.upper)
                    &&& semaphore.address_lower.value == Some(release.address.lower)
                    &&& semaphore.payload.value == Some(release.payload)
                    &&& release.prior_work_pending == prior_work_pending
                    &&& release.source.method == step.source.method
                    &&& release.source.argument == word
                },
                MaxwellThreeDSynchronizationPlan::IncrementSyncpoint { request, completion: point } => {
                    &&& method == 0x02c8
                    &&& request.syncpoint.0 == word & 0xfff
                    &&& request.clean_l2 <==> word & 0x1_0000 != 0
                    &&& request.condition is RopWritesDone <==> word & 0x10_0000 != 0
                    &&& completion == Some(point)
                    &&& point.syncpoint == request.syncpoint
                },
            }
        },
        crate::method_answers::state_after(profile, step, model) == model.operation,
{
    crate::method_answers::lemma_taken(profile, step, model);
    if let Some(prepared) = crate::method_answers::taken(profile, step, model) {
        crate::method_answers::lemma_answered(profile, prepared.source, model);
        lemma_synchronization_declared(profile, prepared.source, model);
        lemma_trigger(profile, prepared.source, model);
        crate::frontend::law_identity_follows_register_words(
            profile,
            step.source,
            model,
            step.shadow,
        );
    }
}

} // verus!
