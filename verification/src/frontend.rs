//! Dispatch of methods and macro calls against the front end.

use vstd::prelude::*;
use crate::dispatch::{MaxwellEngineOperation, MethodPlan, PendingOperation, plan_register};
use crate::dispatch_error::{MaxwellEngineDispatchError, MaxwellEngineMethodMetadata};
use crate::mme::{MaxwellThreeDMmeExecutionError, MaxwellThreeDMmeExecutionReport};
use crate::mme_interpreter::{MaxwellThreeDMmeHost, MaxwellThreeDMmeRunError};
use crate::profile::MaxwellGpuProfile;
use crate::register::{GpuMethodId, MaxwellMethodSource};
use crate::state::{FrontendModel, MaxwellThreeDFrontendState, MaxwellThreeDState, MaxwellThreeDStateWrite};

verus! {

/// An accepted method, before the state it captures is attached to its work.
#[derive(Clone, Copy, Debug, PartialEq, Eq)]
pub struct PreparedMethod {
    pub source: MaxwellMethodSource,
    pub metadata: MaxwellEngineMethodMetadata,
    pub operation: Option<PendingOperation>,
    pub writes_state: bool,
}

/// An accepted method and the work it starts.
#[derive(Clone, Copy, Debug, PartialEq, Eq)]
pub struct AppliedMethod {
    pub source: MaxwellMethodSource,
    pub metadata: MaxwellEngineMethodMetadata,
    pub operation: Option<MaxwellEngineOperation>,
}

/// Whether a method calls a macro or hands it data.
pub open spec fn spec_is_mme_aperture(method: GpuMethodId) -> bool {
    0x3800 <= method.0 <= 0x3ffc && method.0 & 3 == 0
}

#[verifier::when_used_as_spec(spec_is_mme_aperture)]
pub fn is_mme_aperture(method: GpuMethodId) -> (r: bool)
    ensures
        r == spec_is_mme_aperture(method),
{
    method.0 >= 0x3800 && method.0 <= 0x3ffc && method.0 & 3 == 0
}

/// Outcome of one method: the front end after it, and the accepted method or the
/// refusal.
pub type Dispatched = (FrontendModel, Result<PreparedMethod, MaxwellEngineDispatchError>);

/// Front end after the transition of a plan.
pub open spec fn planned_state(model: FrontendModel, plan: MethodPlan) -> FrontendModel {
    match plan.write {
        Some(write) => model.written(write),
        None => model,
    }
}

/// A refused register method changes nothing; an accepted one makes the transition it
/// was planned to make.
pub open spec fn registered(
    profile: &MaxwellGpuProfile,
    source: MaxwellMethodSource,
    model: FrontendModel,
) -> Dispatched {
    match crate::dispatch::spec_plan_register(profile, source, model) {
        Err(error) => (model, Err(error)),
        Ok(plan) => (
            planned_state(model, plan),
            Ok(
                PreparedMethod {
                    source,
                    metadata: MaxwellEngineMethodMetadata::spec_named(source.method(), plan.name),
                    operation: plan.operation,
                    writes_state: plan.writes_state,
                },
            ),
        ),
    }
}

/// Plans one register method and makes its transition.
pub fn preflight_register(
    profile: &MaxwellGpuProfile,
    source: MaxwellMethodSource,
    candidate: &mut MaxwellThreeDFrontendState,
) -> (r: Result<PreparedMethod, MaxwellEngineDispatchError>)
    ensures
        (final(candidate)@, r) == registered(profile, source, old(candidate)@),
{
    let plan = match plan_register(profile, source, candidate) {
        Ok(plan) => plan,
        Err(error) => {
            return Err(error);
        },
    };
    if let Some(write) = plan.write {
        candidate.apply(write);
    }
    Ok(
        PreparedMethod {
            source,
            metadata: MaxwellEngineMethodMetadata::named(source.method(), plan.name),
            operation: plan.operation,
            writes_state: plan.writes_state,
        },
    )
}

/// Method as it takes effect: under the macro shadow its argument may be replayed.
pub open spec fn effective_source(
    profile: &MaxwellGpuProfile,
    source: MaxwellMethodSource,
    model: FrontendModel,
    shadow: bool,
) -> Result<MaxwellMethodSource, MaxwellEngineDispatchError> {
    if shadow {
        match model.mme.effective_argument(
            source.method(),
            source.argument(),
            profile.spec_register_reset(source.method()),
        ) {
            Ok(argument) => Ok(source.spec_with_effective_argument(argument)),
            Err(error) => Err(MaxwellEngineDispatchError::MmeShadowRam { source, error }),
        }
    } else {
        Ok(source)
    }
}

/// Front end after an accepted method is recorded: the register file remembers the
/// word if the method wrote state, and the macro shadow remembers it if it tracked
/// when the method came.
pub open spec fn recorded_state(
    before: FrontendModel,
    after: FrontendModel,
    prepared: PreparedMethod,
    shadow: bool,
) -> FrontendModel {
    let recorded = if prepared.writes_state {
        after.recorded(prepared.source, before.changes_register(prepared.source))
    } else {
        after
    };
    if shadow {
        FrontendModel {
            mme: recorded.mme.shadowed(before.mme.shadow_ram_control.value, prepared.source),
            ..recorded
        }
    } else {
        recorded
    }
}

/// Outcome of one method. Macro calls are refused here, and a refused method changes
/// nothing.
#[verifier::opaque]
pub open spec fn dispatched(
    profile: &MaxwellGpuProfile,
    source: MaxwellMethodSource,
    model: FrontendModel,
    shadow: bool,
) -> Dispatched {
    if is_mme_aperture(source.method()) {
        (
            model,
            Err(
                MaxwellEngineDispatchError::MmeExecution {
                    source,
                    error: MaxwellThreeDMmeExecutionError::DataWithoutCall,
                },
            ),
        )
    } else {
        match effective_source(profile, source, model, shadow) {
            Err(error) => (model, Err(error)),
            Ok(effective) => {
                let (after, result) = registered(profile, effective, model);
                match result {
                    Err(error) => (model, Err(error)),
                    Ok(prepared) => (
                        recorded_state(model, after, prepared, shadow),
                        Ok(prepared),
                    ),
                }
            },
        }
    }
}

/// Dispatches one method, through the macro shadow or past it.
pub fn preflight_with_shadow(
    profile: &MaxwellGpuProfile,
    source: MaxwellMethodSource,
    candidate: &mut MaxwellThreeDFrontendState,
    apply_shadow_ram: bool,
) -> (r: Result<PreparedMethod, MaxwellEngineDispatchError>)
    ensures
        (final(candidate)@, r) == dispatched(profile, source, old(candidate)@, apply_shadow_ram),
{
    reveal(dispatched);
    if is_mme_aperture(source.method()) {
        return Err(
            MaxwellEngineDispatchError::MmeExecution {
                source,
                error: MaxwellThreeDMmeExecutionError::DataWithoutCall,
            },
        );
    }
    let shadow_control = candidate.mme.shadow_ram_control().value;
    let mut effective: MaxwellMethodSource = source;
    if apply_shadow_ram {
        match candidate.mme.resolve_shadow_argument(
            source.method(),
            source.argument(),
            profile.register_reset(source.method()),
        ) {
            Ok(argument) => {
                effective = source.with_effective_argument(argument);
            },
            Err(error) => {
                return Err(MaxwellEngineDispatchError::MmeShadowRam { source, error });
            },
        }
    }
    let register_changed: bool = match candidate.raw_word(effective.method()) {
        Some(word) => word != effective.argument(),
        None => true,
    };
    let prepared = match preflight_register(profile, effective, candidate) {
        Ok(prepared) => prepared,
        Err(error) => {
            return Err(error);
        },
    };
    if prepared.writes_state {
        candidate.record(prepared.source, register_changed);
    }
    if apply_shadow_ram {
        candidate.track_shadow_register(shadow_control, prepared.source);
    }
    Ok(prepared)
}

/// Work of a method with the register state it captures.
pub open spec fn spec_lower_pending_operation(
    operation: Option<PendingOperation>,
    state: MaxwellThreeDState,
) -> Option<MaxwellEngineOperation> {
    match operation {
        None => None,
        Some(PendingOperation::ThreeD(trigger)) => Some(
            MaxwellEngineOperation::ThreeD { trigger, state },
        ),
        Some(PendingOperation::Synchronization(trigger)) => Some(
            MaxwellEngineOperation::ThreeDSynchronization { trigger, state },
        ),
        Some(PendingOperation::Maintenance(trigger)) => Some(
            MaxwellEngineOperation::ThreeDMaintenance { trigger, state },
        ),
        Some(PendingOperation::InlineToMemory(upload)) => Some(
            MaxwellEngineOperation::InlineToMemory(upload),
        ),
        Some(PendingOperation::InlineConstantBuffer(upload)) => Some(
            MaxwellEngineOperation::ThreeDInlineConstantBuffer(upload),
        ),
    }
}

pub fn lower_pending_operation(
    operation: Option<PendingOperation>,
    state: &MaxwellThreeDFrontendState,
) -> (r: Option<MaxwellEngineOperation>)
    ensures
        r == spec_lower_pending_operation(operation, state@.operation),
{
    match operation {
        None => None,
        Some(PendingOperation::ThreeD(trigger)) => Some(
            MaxwellEngineOperation::ThreeD { trigger, state: state.operation_snapshot() },
        ),
        Some(PendingOperation::Synchronization(trigger)) => Some(
            MaxwellEngineOperation::ThreeDSynchronization {
                trigger,
                state: state.operation_snapshot(),
            },
        ),
        Some(PendingOperation::Maintenance(trigger)) => Some(
            MaxwellEngineOperation::ThreeDMaintenance {
                trigger,
                state: state.operation_snapshot(),
            },
        ),
        Some(PendingOperation::InlineToMemory(upload)) => Some(
            MaxwellEngineOperation::InlineToMemory(upload),
        ),
        Some(PendingOperation::InlineConstantBuffer(upload)) => Some(
            MaxwellEngineOperation::ThreeDInlineConstantBuffer(upload),
        ),
    }
}

/// Dispatches one submitted method and captures the state its work depends on: the
/// state that includes the transition of the method itself.
pub fn preflight(
    profile: &MaxwellGpuProfile,
    source: MaxwellMethodSource,
    candidate: &mut MaxwellThreeDFrontendState,
) -> (r: Result<AppliedMethod, MaxwellEngineDispatchError>)
    ensures
        final(candidate)@ == dispatched(profile, source, old(candidate)@, true).0,
        r == match dispatched(profile, source, old(candidate)@, true).1 {
            Ok(prepared) => Ok::<AppliedMethod, MaxwellEngineDispatchError>(
                (AppliedMethod {
                    source: prepared.source,
                    metadata: prepared.metadata,
                    operation: spec_lower_pending_operation(
                        prepared.operation,
                        final(candidate)@.operation,
                    ),
                }),
            ),
            Err(error) => Err(error),
        },
{
    match preflight_with_shadow(profile, source, candidate, true) {
        Ok(prepared) => {
            let operation = lower_pending_operation(prepared.operation, candidate);
            Ok(AppliedMethod { source: prepared.source, metadata: prepared.metadata, operation })
        },
        Err(error) => Err(error),
    }
}

/// Content of the macro host: the profile, the calling method, the front end, and the
/// work started so far, in order.
pub struct MmeHostModel {
    pub profile: MaxwellGpuProfile,
    pub source: MaxwellMethodSource,
    pub frontend: FrontendModel,
    pub operations: Seq<MaxwellEngineOperation>,
}

/// Front end that a running macro reads and writes.
pub struct MmeDispatchHost<'a> {
    pub profile: &'a MaxwellGpuProfile,
    pub source: MaxwellMethodSource,
    pub candidate: MaxwellThreeDFrontendState,
    pub ordered_operations: Vec<MaxwellEngineOperation>,
}

impl<'a> MaxwellThreeDMmeHost for MmeDispatchHost<'a> {
    type Error = MaxwellEngineDispatchError;

    type Model = MmeHostModel;

    open spec fn model(&self) -> MmeHostModel {
        MmeHostModel {
            profile: *self.profile,
            source: self.source,
            frontend: self.candidate@,
            operations: self.ordered_operations@,
        }
    }

    open spec fn ready(&self) -> bool {
        true
    }

    /// A register reads as the last word that reached its method.
    open spec fn read_result(model: MmeHostModel, method_dword: u16) -> Result<
        u32,
        MaxwellEngineDispatchError,
    > {
        match model.frontend.raw_word(GpuMethodId((method_dword * 4) as u32)) {
            Some(word) => Ok(word),
            None => Err(
                MaxwellEngineDispatchError::MmeExecution {
                    source: model.source,
                    error: MaxwellThreeDMmeExecutionError::RegisterReadUnavailable { method_dword },
                },
            ),
        }
    }

    /// An emitted method is dispatched past the macro shadow, and its work is queued
    /// behind the work emitted before it. A macro call from within a macro is refused.
    open spec fn emit_result(model: MmeHostModel, method_dword: u16, argument: u32) -> (
        MmeHostModel,
        Result<(), MaxwellEngineDispatchError>,
    ) {
        let method = GpuMethodId((method_dword * 4) as u32);
        if is_mme_aperture(method) {
            (
                model,
                Err(
                    MaxwellEngineDispatchError::MmeExecution {
                        source: model.source,
                        error: MaxwellThreeDMmeExecutionError::RecursiveMacroCall { method_dword },
                    },
                ),
            )
        } else {
            let (frontend, result) = dispatched(
                &model.profile,
                model.source.spec_emitted_by_mme(method, argument),
                model.frontend,
                false,
            );
            match result {
                Err(error) => (MmeHostModel { frontend, ..model }, Err(error)),
                Ok(prepared) => (
                    MmeHostModel {
                        frontend,
                        operations: match spec_lower_pending_operation(
                            prepared.operation,
                            frontend.operation,
                        ) {
                            Some(operation) => model.operations.push(operation),
                            None => model.operations,
                        },
                        ..model
                    },
                    Ok(()),
                ),
            }
        }
    }

    fn read_register(&self, method_dword: u16) -> (r: Result<u32, MaxwellEngineDispatchError>) {
        match self.candidate.raw_word(GpuMethodId(method_dword as u32 * 4)) {
            Some(word) => Ok(word),
            None => Err(
                MaxwellEngineDispatchError::MmeExecution {
                    source: self.source,
                    error: MaxwellThreeDMmeExecutionError::RegisterReadUnavailable { method_dword },
                },
            ),
        }
    }

    fn emit_method(&mut self, method_dword: u16, argument: u32) -> (r: Result<
        (),
        MaxwellEngineDispatchError,
    >) {
        let method = GpuMethodId(method_dword as u32 * 4);
        if is_mme_aperture(method) {
            return Err(
                MaxwellEngineDispatchError::MmeExecution {
                    source: self.source,
                    error: MaxwellThreeDMmeExecutionError::RecursiveMacroCall { method_dword },
                },
            );
        }
        let source = self.source.emitted_by_mme(method, argument);
        match preflight_with_shadow(self.profile, source, &mut self.candidate, false) {
            Err(error) => Err(error),
            Ok(prepared) => {
                if let Some(operation) = lower_pending_operation(
                    prepared.operation,
                    &self.candidate,
                ) {
                    self.ordered_operations.push(operation);
                }
                Ok(())
            },
        }
    }
}

/// One method of an accepted macro call.
#[derive(Clone, Copy, Debug, PartialEq, Eq)]
pub struct MaxwellEngineMethodDispatch {
    pub source: MaxwellMethodSource,
    pub metadata: MaxwellEngineMethodMetadata,
}

/// An accepted macro call: its methods, and the work it started, in order.
pub struct MaxwellThreeDMmePreflight {
    pub methods: Vec<MaxwellEngineMethodDispatch>,
    pub ordered_operations: Vec<MaxwellEngineOperation>,
}

/// Whether every method of a call targets the aperture of the first.
pub open spec fn same_aperture(methods: Seq<MaxwellMethodSource>) -> bool {
    forall|i: int|
        #![trigger methods[i]]
        1 <= i < methods.len() ==> methods[i].method() == methods[0].method() || methods[i].method().0
            == methods[0].method().0 + 4
}

/// Arguments of a call, in order.
pub open spec fn call_parameters(methods: Seq<MaxwellMethodSource>) -> Seq<u32> {
    methods.map_values(|source: MaxwellMethodSource| source.argument())
}

/// Methods of an accepted call and their names.
pub open spec fn call_dispatches(methods: Seq<MaxwellMethodSource>) -> Seq<
    MaxwellEngineMethodDispatch,
> {
    Seq::new(
        methods.len(),
        |i: int|
            MaxwellEngineMethodDispatch {
                source: methods[i],
                metadata: MaxwellEngineMethodMetadata::spec_named(
                    methods[i].method(),
                    if i == 0 {
                        "CALL_MME_MACRO"
                    } else {
                        "CALL_MME_DATA"
                    },
                ),
            },
    )
}

/// Run of the macro that a call names, on the program loaded before the call.
pub open spec fn call_run(
    profile: MaxwellGpuProfile,
    methods: Seq<MaxwellMethodSource>,
    model: FrontendModel,
) -> (
    MmeHostModel,
    Result<MaxwellThreeDMmeExecutionReport, MaxwellThreeDMmeRunError<MaxwellEngineDispatchError>>,
) {
    crate::mme_interpreter::executed::<MmeDispatchHost>(
        model.mme,
        ((methods[0].method().0 - 0x3800) / 8) as u8,
        call_parameters(methods),
        MmeHostModel {
            profile,
            source: methods[0],
            frontend: model,
            operations: Seq::empty(),
        },
    )
}

/// Why a call is refused before its macro runs.
pub open spec fn call_refusal(methods: Seq<MaxwellMethodSource>) -> Option<
    MaxwellEngineDispatchError,
> {
    if (methods[0].method().0 - 0x3800) % 8 != 0 {
        Some(
            MaxwellEngineDispatchError::MmeExecution {
                source: methods[0],
                error: MaxwellThreeDMmeExecutionError::DataWithoutCall,
            },
        )
    } else if !same_aperture(methods) {
        Some(
            MaxwellEngineDispatchError::InvalidMethodEncoding {
                source: methods[0],
                method_name: "CALL_MME_MACRO",
                reason: "macro parameters target a different indexed aperture",
            },
        )
    } else {
        None
    }
}

/// Parameters and names of the methods of a call that stays in one aperture.
fn gather_call(methods: &[MaxwellMethodSource]) -> (r: Result<
    (Vec<u32>, Vec<MaxwellEngineMethodDispatch>),
    MaxwellEngineDispatchError,
>)
    requires
        methods@.len() > 0,
        is_mme_aperture(methods@[0].method()),
    ensures
        match call_refusal(methods@) {
            Some(error) => r == Err::<
                (Vec<u32>, Vec<MaxwellEngineMethodDispatch>),
                MaxwellEngineDispatchError,
            >(error),
            None => {
                &&& r matches Ok((parameters, dispatches))
                &&& parameters@ == call_parameters(methods@)
                &&& dispatches@ == call_dispatches(methods@)
            },
        },
{
    let source = methods[0];
    let offset: u32 = source.method().0 - 0x3800;
    if offset % 8 != 0 {
        return Err(
            MaxwellEngineDispatchError::MmeExecution {
                source,
                error: MaxwellThreeDMmeExecutionError::DataWithoutCall,
            },
        );
    }
    let mut parameters: Vec<u32> = Vec::new();
    let mut dispatches: Vec<MaxwellEngineMethodDispatch> = Vec::new();
    let mut index: usize = 0;
    while index < methods.len()
        invariant
            index <= methods@.len(),
            methods@.len() > 0,
            source == methods@[0],
            source.method().0 <= 0x3ffc,
            offset == source.method().0 - 0x3800,
            offset % 8 == 0,
            parameters@ == call_parameters(methods@.take(index as int)),
            dispatches@ == call_dispatches(methods@).take(index as int),
            forall|i: int|
                #![trigger methods@[i]]
                1 <= i < index ==> methods@[i].method() == source.method() || methods@[i].method().0
                    == source.method().0 + 4,
        decreases methods@.len() - index,
    {
        let current = methods[index];
        if index != 0 && current.method().0 != source.method().0 && current.method().0
            != source.method().0 + 4 {
            assert(!same_aperture(methods@));
            return Err(
                MaxwellEngineDispatchError::InvalidMethodEncoding {
                    source,
                    method_name: "CALL_MME_MACRO",
                    reason: "macro parameters target a different indexed aperture",
                },
            );
        }
        let name: &'static str = if index == 0 {
            "CALL_MME_MACRO"
        } else {
            "CALL_MME_DATA"
        };
        proof {
            assert(methods@.take(index + 1) =~= methods@.take(index as int).push(current));
            assert(call_parameters(methods@.take(index + 1)) =~= call_parameters(
                methods@.take(index as int),
            ).push(current.argument()));
            assert(call_dispatches(methods@).take(index + 1) =~= call_dispatches(methods@).take(
                index as int,
            ).push(call_dispatches(methods@)[index as int]));
        }
        parameters.push(current.argument());
        dispatches.push(
            MaxwellEngineMethodDispatch {
                source: current,
                metadata: MaxwellEngineMethodMetadata::named(current.method(), name),
            },
        );
        index = index + 1;
    }
    proof {
        assert(methods@.take(methods@.len() as int) =~= methods@);
        assert(call_dispatches(methods@).take(methods@.len() as int) =~= call_dispatches(methods@));
        assert(same_aperture(methods@));
    }
    Ok((parameters, dispatches))
}

/// Runs the macro that a group of methods calls.
///
/// A call must begin with the call method of an aperture and stay in that aperture.
/// The macro runs on the program as loaded before the call, with the arguments of the
/// methods as parameters, and what it emits changes the front end method by method.
pub fn preflight_mme_call(
    profile: &MaxwellGpuProfile,
    methods: &[MaxwellMethodSource],
    candidate: &mut MaxwellThreeDFrontendState,
) -> (r: Result<MaxwellThreeDMmePreflight, MaxwellEngineDispatchError>)
    requires
        methods@.len() > 0,
        is_mme_aperture(methods@[0].method()),
    ensures
        match call_refusal(methods@) {
            Some(error) => final(candidate)@ == old(candidate)@
                && r == Err::<MaxwellThreeDMmePreflight, MaxwellEngineDispatchError>(error),
            None => {
                let (host, result) = call_run(*profile, methods@, old(candidate)@);
                &&& final(candidate)@ == host.frontend
                &&& match result {
                    Ok(_) => {
                        &&& r matches Ok(call)
                        &&& call.methods@ == call_dispatches(methods@)
                        &&& call.ordered_operations@ == host.operations
                    },
                    Err(MaxwellThreeDMmeRunError::Execution(error)) => r == Err::<
                        MaxwellThreeDMmePreflight,
                        MaxwellEngineDispatchError,
                    >(MaxwellEngineDispatchError::MmeExecution { source: methods@[0], error }),
                    Err(MaxwellThreeDMmeRunError::Host(error)) => r == Err::<
                        MaxwellThreeDMmePreflight,
                        MaxwellEngineDispatchError,
                    >(error),
                }
            },
        },
{
    let (parameters, dispatches) = match gather_call(methods) {
        Ok(call) => call,
        Err(error) => {
            return Err(error);
        },
    };
    let source = methods[0];
    let macro_index: u8 = ((source.method().0 - 0x3800) / 8) as u8;
    let program = candidate.mme.program();
    let mut host = MmeDispatchHost {
        profile,
        source,
        candidate: MaxwellThreeDFrontendState::with_resets(0, 0),
        ordered_operations: Vec::new(),
    };
    std::mem::swap(&mut host.candidate, candidate);
    let result = program.execute(macro_index, parameters.as_slice(), &mut host);
    std::mem::swap(&mut host.candidate, candidate);
    match result {
        Ok(_) => Ok(
            MaxwellThreeDMmePreflight {
                methods: dispatches,
                ordered_operations: host.ordered_operations,
            },
        ),
        Err(MaxwellThreeDMmeRunError::Execution(error)) => Err(
            MaxwellEngineDispatchError::MmeExecution { source, error },
        ),
        Err(MaxwellThreeDMmeRunError::Host(error)) => Err(error),
    }
}

/// A refused method leaves the whole front end as it was.
pub proof fn law_refused_method_changes_nothing(
    profile: &MaxwellGpuProfile,
    source: MaxwellMethodSource,
    model: FrontendModel,
    shadow: bool,
)
    ensures
        dispatched(profile, source, model, shadow).1 is Err ==> dispatched(
            profile,
            source,
            model,
            shadow,
        ).0 == model,
{
    reveal(dispatched);
}

/// No transition touches the identity, the register file or the macro shadow: these
/// change only when a method is recorded.
pub proof fn law_transition_keeps_records(model: FrontendModel, write: MaxwellThreeDStateWrite)
    ensures
        model.written(write).operation.identity == model.operation.identity,
        model.written(write).raw_registers == model.raw_registers,
        model.written(write).mme.shadow_registers == model.mme.shadow_registers,
{
}

/// The identity of the captured registers moves on exactly when an accepted method
/// writes a word that its register did not hold.
pub proof fn law_identity_follows_register_words(
    profile: &MaxwellGpuProfile,
    source: MaxwellMethodSource,
    model: FrontendModel,
    shadow: bool,
)
    ensures
        dispatched(profile, source, model, shadow) matches (after, Ok(prepared)) ==> after.operation.identity
            == if prepared.writes_state && model.changes_register(prepared.source) {
            model.operation.identity.wrapping_add(1)
        } else {
            model.operation.identity
        },
{
    reveal(dispatched);
    if let Ok(effective) = effective_source(profile, source, model, shadow) {
        if let Ok(plan) = crate::dispatch::spec_plan_register(profile, effective, model) {
            if let Some(write) = plan.write {
                law_transition_keeps_records(model, write);
            }
        }
    }
}

/// An accepted method that writes state leaves its word in the register file under
/// its own method, and no other entry of the file changes.
pub proof fn law_register_file_holds_last_word(
    profile: &MaxwellGpuProfile,
    source: MaxwellMethodSource,
    model: FrontendModel,
    shadow: bool,
    other: GpuMethodId,
)
    ensures
        dispatched(profile, source, model, shadow) matches (after, Ok(prepared)) ==> {
            &&& prepared.writes_state ==> after.raw_word(prepared.source.method()) == Some(
                prepared.source.argument(),
            )
            &&& other != prepared.source.method() || !prepared.writes_state ==> after.raw_word(other)
                == model.raw_word(other)
        },
{
    reveal(dispatched);
    if let Ok(effective) = effective_source(profile, source, model, shadow) {
        if let Ok(plan) = crate::dispatch::spec_plan_register(profile, effective, model) {
            if let Some(write) = plan.write {
                law_transition_keeps_records(model, write);
            }
        }
    }
}

/// Repeating the word that a register already holds keeps the identity.
pub proof fn law_repeated_word_keeps_identity(
    profile: &MaxwellGpuProfile,
    source: MaxwellMethodSource,
    model: FrontendModel,
)
    requires
        dispatched(profile, source, model, false) matches (_, Ok(prepared)) && prepared.writes_state,
    ensures
        ({
            let after = dispatched(profile, source, model, false).0;
            dispatched(profile, source, after, false) matches (again, Ok(_))
                ==> again.operation.identity == after.operation.identity
        }),
{
    let after = dispatched(profile, source, model, false).0;
    law_register_file_holds_last_word(profile, source, model, false, source.method());
    law_identity_follows_register_words(profile, source, after, false);
    reveal(dispatched);
}

/// A method that a macro emits is neither replayed from nor recorded in the macro
/// shadow.
pub proof fn law_emitted_method_bypasses_shadow(
    profile: &MaxwellGpuProfile,
    source: MaxwellMethodSource,
    model: FrontendModel,
)
    ensures
        dispatched(profile, source, model, false).0.mme.shadow_registers
            == model.mme.shadow_registers,
        dispatched(profile, source, model, false).1 matches Ok(prepared) ==> prepared.source
            == source,
{
    reveal(dispatched);
    if let Ok(plan) = crate::dispatch::spec_plan_register(profile, source, model) {
        if let Some(write) = plan.write {
            law_transition_keeps_records(model, write);
        }
    }
}

} // verus!
