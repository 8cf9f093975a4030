//! Planning of methods: what each one does, or why it is refused.

use vstd::prelude::*;
use crate::bindings::{MaxwellThreeDInlineConstantBufferUpload, MaxwellThreeDShaderBindingWrite};
use crate::decode::{accepted, MethodDecode};
use crate::dispatch_error::{invalid_encoding, MaxwellEngineDispatchError, MaxwellEngineMethodMetadata};
use crate::falcon::{MaxwellThreeDFalconError, MaxwellThreeDFalconMaskedRegisterWrite, MaxwellThreeDFalconRegisterAddress};
use crate::inline_to_memory::{preflight as preflight_inline_to_memory, MaxwellInlineToMemoryUpload};
use crate::methods::{MaxwellThreeDDecompressSurface, MaxwellThreeDMaintenanceTrigger, MaxwellThreeDMethodAction, MaxwellThreeDMethodDeclaration, method_declaration};
use crate::mme::{MAXWELL_THREE_D_MME_CAPTURED_INSTRUCTION_WORDS, MAXWELL_THREE_D_MME_CAPTURED_START_ADDRESSES, MaxwellThreeDMmeInstruction, MaxwellThreeDMmeLoadError, MaxwellThreeDMmeRam, MaxwellThreeDMmeRamAddress, MaxwellThreeDMmeShadowScratchIndex, MaxwellThreeDMmeState, MaxwellThreeDMmeStateWrite, MmeModel};
use crate::operations::MaxwellThreeDSynchronizationTrigger;
use crate::output_methods::preflight_output_state;
use crate::profile::{MaxwellAamVersionRange, MaxwellGpuProfile, MaxwellShaderProgramHeaderVersionRange, MaxwellThreeDEncodedField};
use crate::register::MaxwellMethodSource;
use crate::render_enable::MaxwellThreeDConditionalLoadConstantBuffer;
use crate::render_targets::MaxwellThreeDRenderTargetWrite;
use crate::state::{FrontendModel, MaxwellThreeDFrontendState, MaxwellThreeDState, MaxwellThreeDStateWrite};
use crate::tiled_cache::MaxwellThreeDTiledCacheFlushMode;
use crate::vertex_methods::preflight_vertex_and_binding_state;

verus! {

/// One execution trigger retained at its exact method location.
#[derive(Clone, Copy, Debug, PartialEq, Eq, Hash, Structural)]
#[allow(inconsistent_fields)]
pub enum MaxwellThreeDOperationTrigger {
    ClearSurface { source: MaxwellMethodSource },
    DrawVertexArray { source: MaxwellMethodSource, vertex_count: u32 },
}

impl MaxwellThreeDOperationTrigger {
    pub open spec fn spec_source(self) -> MaxwellMethodSource {
        match self {
            MaxwellThreeDOperationTrigger::ClearSurface { source } => source,
            MaxwellThreeDOperationTrigger::DrawVertexArray { source, .. } => source,
        }
    }

    #[must_use]
    #[verifier::when_used_as_spec(spec_source)]
    pub fn source(self) -> (r: MaxwellMethodSource)
        ensures
            r == self.spec_source(),
    {
        match self {
            MaxwellThreeDOperationTrigger::ClearSurface { source } => source,
            MaxwellThreeDOperationTrigger::DrawVertexArray { source, .. } => source,
        }
    }
}

/// Work that an accepted method starts, before the state it captures is attached.
#[derive(Clone, Copy, Debug, PartialEq, Eq)]
pub enum PendingOperation {
    ThreeD(MaxwellThreeDOperationTrigger),
    Synchronization(MaxwellThreeDSynchronizationTrigger),
    Maintenance(MaxwellThreeDMaintenanceTrigger),
    InlineToMemory(MaxwellInlineToMemoryUpload),
    InlineConstantBuffer(MaxwellThreeDInlineConstantBufferUpload),
}

/// Work that an accepted method starts, with the register state at that method.
#[derive(Clone, Copy, Debug, PartialEq, Eq)]
#[allow(inconsistent_fields)]
pub enum MaxwellEngineOperation {
    ThreeD { trigger: MaxwellThreeDOperationTrigger, state: MaxwellThreeDState },
    ThreeDSynchronization {
        trigger: MaxwellThreeDSynchronizationTrigger,
        state: MaxwellThreeDState,
    },
    ThreeDMaintenance { trigger: MaxwellThreeDMaintenanceTrigger, state: MaxwellThreeDState },
    InlineToMemory(MaxwellInlineToMemoryUpload),
    ThreeDInlineConstantBuffer(MaxwellThreeDInlineConstantBufferUpload),
}

/// Everything an accepted method does: the transition it makes, the name it goes by,
/// the work it starts, and whether its word is remembered as a register.
#[derive(Clone, Copy, Debug, PartialEq, Eq)]
pub struct MethodPlan {
    pub write: Option<MaxwellThreeDStateWrite>,
    pub name: &'static str,
    pub operation: Option<PendingOperation>,
    pub writes_state: bool,
}

impl MethodPlan {
    /// A transition without further work.
    pub open spec fn spec_state_write(write: MaxwellThreeDStateWrite, name: &'static str) -> MethodPlan {
        MethodPlan { write: Some(write), name, operation: None, writes_state: true }
    }

    #[verifier::when_used_as_spec(spec_state_write)]
    pub fn state_write(write: MaxwellThreeDStateWrite, name: &'static str) -> (r: MethodPlan)
        ensures
            r == MethodPlan::spec_state_write(write, name),
    {
        MethodPlan { write: Some(write), name, operation: None, writes_state: true }
    }

    /// Work without a transition.
    pub open spec fn spec_operation_only(operation: PendingOperation, name: &'static str) -> MethodPlan {
        MethodPlan { write: None, name, operation: Some(operation), writes_state: false }
    }

    #[verifier::when_used_as_spec(spec_operation_only)]
    pub fn operation_only(operation: PendingOperation, name: &'static str) -> (r: MethodPlan)
        ensures
            r == MethodPlan::spec_operation_only(operation, name),
    {
        MethodPlan { write: None, name, operation: Some(operation), writes_state: false }
    }

    /// Nothing at all.
    pub open spec fn spec_no_operation(name: &'static str) -> MethodPlan {
        MethodPlan { write: None, name, operation: None, writes_state: false }
    }

    #[verifier::when_used_as_spec(spec_no_operation)]
    pub fn no_operation(name: &'static str) -> (r: MethodPlan)
        ensures
            r == MethodPlan::spec_no_operation(name),
    {
        MethodPlan { write: None, name, operation: None, writes_state: false }
    }

    /// The transition is in range.
    pub open spec fn wf(self) -> bool {
        self.write matches Some(write) ==> write.wf()
    }
}

/// Outcome of planning a method.
pub type MethodPlanning = Result<MethodPlan, MaxwellEngineDispatchError>;

/// Refusal of a load into one of the macro RAMs.
pub open spec fn spec_ram_refusal(
    source: MaxwellMethodSource,
    ram: MaxwellThreeDMmeRam,
    error: MaxwellThreeDMmeLoadError,
) -> MethodDecode {
    Err(MaxwellEngineDispatchError::MmeRamLoad { source, ram, error })
}

#[verifier::when_used_as_spec(spec_ram_refusal)]
pub fn ram_refusal(
    source: MaxwellMethodSource,
    ram: MaxwellThreeDMmeRam,
    error: MaxwellThreeDMmeLoadError,
) -> (r: MethodDecode)
    ensures
        r == spec_ram_refusal(source, ram, error),
{
    Err(MaxwellEngineDispatchError::MmeRamLoad { source, ram, error })
}

/// Whether a load can go to an address: the pointer is set, can advance, and the word
/// replaces one or fits the storage limit.
pub open spec fn load_error<T>(
    pointer: Option<MaxwellThreeDMmeRamAddress>,
    loaded: Map<u32, T>,
    limit: usize,
) -> Option<MaxwellThreeDMmeLoadError> {
    match pointer {
        None => Some(MaxwellThreeDMmeLoadError::PointerUnset),
        Some(address) => if address.0 == u32::MAX {
            Some(MaxwellThreeDMmeLoadError::PointerOverflow)
        } else if !loaded.contains_key(address.0) && loaded.len() >= limit {
            Some(MaxwellThreeDMmeLoadError::StorageLimitExceeded { limit })
        } else {
            None
        },
    }
}

/// Outcome of offering a method to the macro expander.
pub open spec fn spec_preflight_mme_state(source: MaxwellMethodSource, mme: MmeModel) -> MethodDecode {
    let method = source.method().0;
    let raw = source.argument();
    if 0x3400 <= method < 0x3800 {
        accepted(
            MaxwellThreeDStateWrite::Mme(
                MaxwellThreeDMmeStateWrite::ShadowScratch {
                    index: MaxwellThreeDMmeShadowScratchIndex(((method - 0x3400) / 4) as u8),
                    value: raw,
                    source,
                },
            ),
            "SET_MME_SHADOW_SCRATCH",
        )
    } else if method == 0x0114 {
        accepted(
            MaxwellThreeDStateWrite::Mme(
                MaxwellThreeDMmeStateWrite::InstructionPointer {
                    value: MaxwellThreeDMmeRamAddress(raw),
                    source,
                },
            ),
            "LOAD_MME_INSTRUCTION_RAM_POINTER",
        )
    } else if method == 0x0118 {
        match load_error(
            mme.next_instruction_address,
            mme.instructions,
            MAXWELL_THREE_D_MME_CAPTURED_INSTRUCTION_WORDS,
        ) {
            Some(error) => ram_refusal(source, MaxwellThreeDMmeRam::Instruction, error),
            None => accepted(
                MaxwellThreeDStateWrite::Mme(
                    MaxwellThreeDMmeStateWrite::Instruction {
                        address: mme.next_instruction_address->Some_0,
                        value: MaxwellThreeDMmeInstruction(raw),
                        source,
                    },
                ),
                "LOAD_MME_INSTRUCTION_RAM",
            ),
        }
    } else if method == 0x011c {
        accepted(
            MaxwellThreeDStateWrite::Mme(
                MaxwellThreeDMmeStateWrite::StartAddressPointer {
                    value: MaxwellThreeDMmeRamAddress(raw),
                    source,
                },
            ),
            "LOAD_MME_START_ADDRESS_RAM_POINTER",
        )
    } else if method == 0x0120 {
        match load_error(
            mme.next_start_address_index,
            mme.start_addresses,
            MAXWELL_THREE_D_MME_CAPTURED_START_ADDRESSES,
        ) {
            Some(error) => ram_refusal(source, MaxwellThreeDMmeRam::StartAddress, error),
            None => accepted(
                MaxwellThreeDStateWrite::Mme(
                    MaxwellThreeDMmeStateWrite::StartAddress {
                        index: mme.next_start_address_index->Some_0,
                        address: MaxwellThreeDMmeRamAddress(raw),
                        source,
                    },
                ),
                "LOAD_MME_START_ADDRESS_RAM",
            ),
        }
    } else {
        Ok(None)
    }
}

/// Decodes one method of the macro expander.
pub fn preflight_mme_state(source: MaxwellMethodSource, mme: &MaxwellThreeDMmeState) -> (r:
    MethodDecode)
    ensures
        r == spec_preflight_mme_state(source, mme@),
        crate::decode::in_range(r),
{
    let method: u32 = source.method().0;
    let raw: u32 = source.argument();
    if 0x3400 <= method && method < 0x3800 {
        let index: u8 = ((method - 0x3400) / 4) as u8;
        return accepted(
            MaxwellThreeDStateWrite::Mme(
                MaxwellThreeDMmeStateWrite::ShadowScratch {
                    index: MaxwellThreeDMmeShadowScratchIndex(index),
                    value: raw,
                    source,
                },
            ),
            "SET_MME_SHADOW_SCRATCH",
        );
    }
    match method {
        0x0114 => accepted(
            MaxwellThreeDStateWrite::Mme(
                MaxwellThreeDMmeStateWrite::InstructionPointer {
                    value: MaxwellThreeDMmeRamAddress(raw),
                    source,
                },
            ),
            "LOAD_MME_INSTRUCTION_RAM_POINTER",
        ),
        0x0118 => {
            let address = match mme.next_instruction_address() {
                Some(address) => address,
                None => {
                    return ram_refusal(
                        source,
                        MaxwellThreeDMmeRam::Instruction,
                        MaxwellThreeDMmeLoadError::PointerUnset,
                    );
                },
            };
            if address.raw() == u32::MAX {
                return ram_refusal(
                    source,
                    MaxwellThreeDMmeRam::Instruction,
                    MaxwellThreeDMmeLoadError::PointerOverflow,
                );
            }
            if mme.instruction(address).is_none() && mme.instruction_count()
                >= MAXWELL_THREE_D_MME_CAPTURED_INSTRUCTION_WORDS {
                return ram_refusal(
                    source,
                    MaxwellThreeDMmeRam::Instruction,
                    MaxwellThreeDMmeLoadError::StorageLimitExceeded {
                        limit: MAXWELL_THREE_D_MME_CAPTURED_INSTRUCTION_WORDS,
                    },
                );
            }
            accepted(
                MaxwellThreeDStateWrite::Mme(
                    MaxwellThreeDMmeStateWrite::Instruction {
                        address,
                        value: MaxwellThreeDMmeInstruction(raw),
                        source,
                    },
                ),
                "LOAD_MME_INSTRUCTION_RAM",
            )
        },
        0x011c => accepted(
            MaxwellThreeDStateWrite::Mme(
                MaxwellThreeDMmeStateWrite::StartAddressPointer {
                    value: MaxwellThreeDMmeRamAddress(raw),
                    source,
                },
            ),
            "LOAD_MME_START_ADDRESS_RAM_POINTER",
        ),
        0x0120 => {
            let index = match mme.next_start_address_index() {
                Some(index) => index,
                None => {
                    return ram_refusal(
                        source,
                        MaxwellThreeDMmeRam::StartAddress,
                        MaxwellThreeDMmeLoadError::PointerUnset,
                    );
                },
            };
            if index.raw() == u32::MAX {
                return ram_refusal(
                    source,
                    MaxwellThreeDMmeRam::StartAddress,
                    MaxwellThreeDMmeLoadError::PointerOverflow,
                );
            }
            if mme.start_address(index).is_none() && mme.start_address_count()
                >= MAXWELL_THREE_D_MME_CAPTURED_START_ADDRESSES {
                return ram_refusal(
                    source,
                    MaxwellThreeDMmeRam::StartAddress,
                    MaxwellThreeDMmeLoadError::StorageLimitExceeded {
                        limit: MAXWELL_THREE_D_MME_CAPTURED_START_ADDRESSES,
                    },
                );
            }
            accepted(
                MaxwellThreeDStateWrite::Mme(
                    MaxwellThreeDMmeStateWrite::StartAddress {
                        index,
                        address: MaxwellThreeDMmeRamAddress(raw),
                        source,
                    },
                ),
                "LOAD_MME_START_ADDRESS_RAM",
            )
        },
        _ => Ok(None),
    }
}

/// Transition, name and, for a data word, the upload of one constant-buffer load.
pub type ConstantBufferLoad = (
    MaxwellThreeDStateWrite,
    &'static str,
    Option<MaxwellThreeDInlineConstantBufferUpload>,
);

/// Outcome of offering a method to the inline constant-buffer loads.
///
/// A data word goes to the selected buffer at the cursor and moves the cursor by four
/// bytes. It is refused while loads are conditional, while the selector or the cursor
/// is unknown, and where it would leave the selected buffer or the address space.
pub open spec fn spec_preflight_constant_buffer_load(
    source: MaxwellMethodSource,
    state: MaxwellThreeDState,
) -> Result<Option<ConstantBufferLoad>, MaxwellEngineDispatchError> {
    let method = source.method().0;
    let raw = source.argument();
    let selector = state.shader_bindings.selector;
    if method == 0x238c {
        if raw <= 0xffff {
            Ok(
                Some(
                    (
                        MaxwellThreeDStateWrite::ShaderBinding(
                            MaxwellThreeDShaderBindingWrite::ConstantBufferLoadOffset {
                                value: raw as u16,
                                source,
                            },
                        ),
                        "LOAD_CONSTANT_BUFFER_OFFSET",
                        None,
                    ),
                ),
            )
        } else {
            Err(
                invalid_encoding(
                    source,
                    "LOAD_CONSTANT_BUFFER_OFFSET",
                    "offset exceeds the verified 16-bit field",
                ),
            )
        }
    } else if 0x2390 <= method < 0x2400 && method % 4 == 0 {
        if state.render_enable.conditional_load_constant_buffer.value == Some(
            MaxwellThreeDConditionalLoadConstantBuffer::Enabled,
        ) {
            Err(MaxwellEngineDispatchError::UnsupportedConditionalConstantBufferLoad { source })
        } else {
            match (
                selector.spec_address(),
                selector.size.value,
                state.shader_bindings.constant_buffer_load.next_offset,
            ) {
                (None, _, _) => Err(
                    invalid_encoding(
                        source,
                        "LOAD_CONSTANT_BUFFER",
                        "data load requires a complete selector address",
                    ),
                ),
                (_, None, _) => Err(
                    invalid_encoding(
                        source,
                        "LOAD_CONSTANT_BUFFER",
                        "data load requires a selector size",
                    ),
                ),
                (_, _, None) => Err(
                    invalid_encoding(
                        source,
                        "LOAD_CONSTANT_BUFFER",
                        "data load requires LOAD_CONSTANT_BUFFER_OFFSET",
                    ),
                ),
                (Some(address), Some(size), Some(offset)) => if offset + 4 > u32::MAX {
                    Err(
                        invalid_encoding(
                            source,
                            "LOAD_CONSTANT_BUFFER",
                            "inline upload offset overflows",
                        ),
                    )
                } else if offset + 4 > size {
                    Err(
                        invalid_encoding(
                            source,
                            "LOAD_CONSTANT_BUFFER",
                            "inline upload exceeds the selected constant-buffer size",
                        ),
                    )
                } else if address.spec_get() + offset + 4 > 0x100_0000_0000 {
                    Err(
                        invalid_encoding(
                            source,
                            "LOAD_CONSTANT_BUFFER",
                            "inline upload GPU range overflows",
                        ),
                    )
                } else {
                    Ok(
                        Some(
                            (
                                MaxwellThreeDStateWrite::ShaderBinding(
                                    MaxwellThreeDShaderBindingWrite::ConstantBufferLoadData {
                                        value: raw,
                                        next_offset: (offset + 4) as u32,
                                        source,
                                    },
                                ),
                                "LOAD_CONSTANT_BUFFER",
                                Some(
                                    MaxwellThreeDInlineConstantBufferUpload {
                                        address,
                                        offset,
                                        value: raw,
                                        source,
                                    },
                                ),
                            ),
                        ),
                    )
                },
            }
        }
    } else {
        Ok(None)
    }
}

/// Decodes one inline constant-buffer load.
pub fn preflight_constant_buffer_load(source: MaxwellMethodSource, state: &MaxwellThreeDState) -> (r:
    Result<Option<ConstantBufferLoad>, MaxwellEngineDispatchError>)
    ensures
        r == spec_preflight_constant_buffer_load(source, *state),
        r matches Ok(Some((write, _, _))) ==> write.wf(),
{
    let method: u32 = source.method().0;
    let raw: u32 = source.argument();
    if method == 0x238c {
        if raw > 0xffff {
            return Err(
                invalid_encoding(
                    source,
                    "LOAD_CONSTANT_BUFFER_OFFSET",
                    "offset exceeds the verified 16-bit field",
                ),
            );
        }
        return Ok(
            Some(
                (
                    MaxwellThreeDStateWrite::ShaderBinding(
                        MaxwellThreeDShaderBindingWrite::ConstantBufferLoadOffset {
                            value: raw as u16,
                            source,
                        },
                    ),
                    "LOAD_CONSTANT_BUFFER_OFFSET",
                    None,
                ),
            ),
        );
    }
    if method < 0x2390 || method >= 0x2400 || method % 4 != 0 {
        return Ok(None);
    }
    if matches!(
        state.render_enable.conditional_load_constant_buffer.value,
        Some(MaxwellThreeDConditionalLoadConstantBuffer::Enabled)
    ) {
        return Err(
            MaxwellEngineDispatchError::UnsupportedConditionalConstantBufferLoad { source },
        );
    }
    let address = match state.shader_bindings.selector.address() {
        Some(address) => address,
        None => {
            return Err(
                invalid_encoding(
                    source,
                    "LOAD_CONSTANT_BUFFER",
                    "data load requires a complete selector address",
                ),
            );
        },
    };
    let size: u32 = match state.shader_bindings.selector.size.value {
        Some(size) => size,
        None => {
            return Err(
                invalid_encoding(
                    source,
                    "LOAD_CONSTANT_BUFFER",
                    "data load requires a selector size",
                ),
            );
        },
    };
    let offset: u32 = match state.shader_bindings.constant_buffer_load.next_offset() {
        Some(offset) => offset,
        None => {
            return Err(
                invalid_encoding(
                    source,
                    "LOAD_CONSTANT_BUFFER",
                    "data load requires LOAD_CONSTANT_BUFFER_OFFSET",
                ),
            );
        },
    };
    let next_offset: u32 = match offset.checked_add(4) {
        Some(next_offset) => next_offset,
        None => {
            return Err(
                invalid_encoding(
                    source,
                    "LOAD_CONSTANT_BUFFER",
                    "inline upload offset overflows",
                ),
            );
        },
    };
    if next_offset > size {
        return Err(
            invalid_encoding(
                source,
                "LOAD_CONSTANT_BUFFER",
                "inline upload exceeds the selected constant-buffer size",
            ),
        );
    }
    if address.get() + next_offset as u64 > 0x100_0000_0000 {
        return Err(
            invalid_encoding(
                source,
                "LOAD_CONSTANT_BUFFER",
                "inline upload GPU range overflows",
            ),
        );
    }
    Ok(
        Some(
            (
                MaxwellThreeDStateWrite::ShaderBinding(
                    MaxwellThreeDShaderBindingWrite::ConstantBufferLoadData {
                        value: raw,
                        next_offset,
                        source,
                    },
                ),
                "LOAD_CONSTANT_BUFFER",
                Some(MaxwellThreeDInlineConstantBufferUpload::new(address, offset, raw, source)),
            ),
        ),
    )
}

/// Firmware call that writes one internal register under a mask: the argument is the
/// register address, and the value and mask come from the macro scratch.
pub open spec fn spec_firmware_write(source: MaxwellMethodSource, mme: MmeModel) -> Result<
    MaxwellThreeDFalconMaskedRegisterWrite,
    MaxwellThreeDFalconError,
> {
    if source.argument() & 3 != 0 {
        Err(MaxwellThreeDFalconError::UnalignedRegisterAddress { address: source.argument() })
    } else {
        match (mme.scratch_word(1), mme.scratch_word(2)) {
            (None, _) => Err(MaxwellThreeDFalconError::MissingFirmwareArgument { index: 1 }),
            (_, None) => Err(MaxwellThreeDFalconError::MissingFirmwareArgument { index: 2 }),
            (Some(value), Some(mask)) => Ok(
                MaxwellThreeDFalconMaskedRegisterWrite {
                    address: MaxwellThreeDFalconRegisterAddress(source.argument()),
                    value,
                    mask,
                    source,
                },
            ),
        }
    }
}

pub fn firmware_write(source: MaxwellMethodSource, mme: &MaxwellThreeDMmeState) -> (r: Result<
    MaxwellThreeDFalconMaskedRegisterWrite,
    MaxwellThreeDFalconError,
>)
    ensures
        r == spec_firmware_write(source, mme@),
{
    let address = match MaxwellThreeDFalconRegisterAddress::try_new(source.argument()) {
        Some(address) => address,
        None => {
            return Err(
                MaxwellThreeDFalconError::UnalignedRegisterAddress { address: source.argument() },
            );
        },
    };
    let value: u32 = match mme.scratch_word(1) {
        Some(value) => value,
        None => {
            return Err(MaxwellThreeDFalconError::MissingFirmwareArgument { index: 1 });
        },
    };
    let mask: u32 = match mme.scratch_word(2) {
        Some(mask) => mask,
        None => {
            return Err(MaxwellThreeDFalconError::MissingFirmwareArgument { index: 2 });
        },
    };
    Ok(MaxwellThreeDFalconMaskedRegisterWrite { address, value, mask, source })
}

/// Version ranges that the caller requests must be ordered and overlap those of the
/// profile.
pub open spec fn spec_check_versions(
    profile: &MaxwellGpuProfile,
    source: MaxwellMethodSource,
    name: &'static str,
    aam: bool,
) -> MethodPlanning {
    if aam {
        let requested = MaxwellAamVersionRange::spec_decode(source.argument());
        if !requested.is_well_ordered() {
            Err(
                invalid_encoding(
                    source,
                    name,
                    "current AAM version precedes oldest supported AAM version",
                ),
            )
        } else if !profile.aam_versions.overlaps(requested) {
            Err(
                MaxwellEngineDispatchError::IncompatibleAamVersion {
                    source,
                    requested,
                    supported: profile.aam_versions,
                },
            )
        } else {
            Ok(MethodPlan::no_operation(name))
        }
    } else {
        let requested = MaxwellShaderProgramHeaderVersionRange::spec_decode(source.argument());
        if !requested.is_well_ordered() {
            Err(
                invalid_encoding(
                    source,
                    name,
                    "current SPH version precedes oldest supported SPH version",
                ),
            )
        } else if !profile.sph_versions.overlaps(requested) {
            Err(
                MaxwellEngineDispatchError::IncompatibleShaderProgramHeaderVersion {
                    source,
                    requested,
                    supported: profile.sph_versions,
                },
            )
        } else {
            Ok(MethodPlan::no_operation(name))
        }
    }
}

#[verifier::when_used_as_spec(spec_check_versions)]
pub fn check_versions(
    profile: &MaxwellGpuProfile,
    source: MaxwellMethodSource,
    name: &'static str,
    aam: bool,
) -> (r: MethodPlanning)
    ensures
        r == spec_check_versions(profile, source, name, aam),
        r matches Ok(plan) ==> plan.wf(),
{
    if aam {
        let requested = MaxwellAamVersionRange::decode(source.argument());
        if !requested.is_well_ordered() {
            return Err(
                invalid_encoding(
                    source,
                    name,
                    "current AAM version precedes oldest supported AAM version",
                ),
            );
        }
        if !profile.aam_versions.overlaps(requested) {
            return Err(
                MaxwellEngineDispatchError::IncompatibleAamVersion {
                    source,
                    requested,
                    supported: profile.aam_versions,
                },
            );
        }
    } else {
        let requested = MaxwellShaderProgramHeaderVersionRange::decode(source.argument());
        if !requested.is_well_ordered() {
            return Err(
                invalid_encoding(
                    source,
                    name,
                    "current SPH version precedes oldest supported SPH version",
                ),
            );
        }
        if !profile.sph_versions.overlaps(requested) {
            return Err(
                MaxwellEngineDispatchError::IncompatibleShaderProgramHeaderVersion {
                    source,
                    requested,
                    supported: profile.sph_versions,
                },
            );
        }
    }
    Ok(MethodPlan::no_operation(name))
}

/// Refusal of a word with bits or a value that a declared method does not define.
pub open spec fn spec_invalid_value(
    source: MaxwellMethodSource,
    declaration: MaxwellThreeDMethodDeclaration,
) -> MaxwellEngineDispatchError {
    MaxwellEngineDispatchError::InvalidMethodValue {
        source,
        metadata: MaxwellEngineMethodMetadata::named(source.method(), declaration.name),
        defined_mask: declaration.defined_mask,
    }
}

#[verifier::when_used_as_spec(spec_invalid_value)]
pub fn invalid_value(source: MaxwellMethodSource, declaration: MaxwellThreeDMethodDeclaration) -> (r:
    MaxwellEngineDispatchError)
    ensures
        r == spec_invalid_value(source, declaration),
{
    MaxwellEngineDispatchError::InvalidMethodValue {
        source,
        metadata: MaxwellEngineMethodMetadata::named(source.method(), declaration.name),
        defined_mask: declaration.defined_mask,
    }
}

/// Plan of a method that no register family claims.
pub open spec fn spec_plan_declared(
    profile: &MaxwellGpuProfile,
    source: MaxwellMethodSource,
    mme: MmeModel,
) -> MethodPlanning {
    match method_declaration(profile, source.method().0) {
        None => Err(
            MaxwellEngineDispatchError::UnknownMethod { source, class_name: "MAXWELL_B" },
        ),
        Some(declaration) => if source.argument() & !declaration.defined_mask != 0 {
            Err(invalid_value(source, declaration))
        } else {
            match declaration.action {
                MaxwellThreeDMethodAction::NoOperation => Ok(
                    MethodPlan::no_operation(declaration.name),
                ),
                MaxwellThreeDMethodAction::Write(action) => match action.decode(profile, source) {
                    Some(write) => Ok(MethodPlan::state_write(write, declaration.name)),
                    None => Err(invalid_value(source, declaration)),
                },
                MaxwellThreeDMethodAction::Trigger(action) => match action.decode(source) {
                    Some(trigger) => Ok(
                        MethodPlan::operation_only(
                            PendingOperation::Synchronization(trigger),
                            declaration.name,
                        ),
                    ),
                    None => Err(
                        invalid_encoding(
                            source,
                            "SET_REPORT_SEMAPHORE_D",
                            "control contains an unallocated enum value",
                        ),
                    ),
                },
                MaxwellThreeDMethodAction::DecompressSurface => if profile.accepts(
                    MaxwellThreeDEncodedField::DecompressSurface,
                    source.argument(),
                ) {
                    Ok(
                        MethodPlan::operation_only(
                            PendingOperation::Maintenance(
                                MaxwellThreeDMaintenanceTrigger::DecompressSurface {
                                    request: MaxwellThreeDDecompressSurface(source.argument()),
                                    source,
                                },
                            ),
                            declaration.name,
                        ),
                    )
                } else {
                    Err(invalid_value(source, declaration))
                },
                MaxwellThreeDMethodAction::TiledCacheFlush => match MaxwellThreeDTiledCacheFlushMode::parse(
                    source.argument(),
                ) {
                    Some(mode) => Ok(
                        MethodPlan::operation_only(
                            PendingOperation::Maintenance(
                                MaxwellThreeDMaintenanceTrigger::TiledCacheFlush { mode, source },
                            ),
                            declaration.name,
                        ),
                    ),
                    None => Err(invalid_value(source, declaration)),
                },
                MaxwellThreeDMethodAction::FalconFirmwareCall4 => match spec_firmware_write(
                    source,
                    mme,
                ) {
                    Ok(write) => Ok(
                        MethodPlan::state_write(
                            MaxwellThreeDStateWrite::FalconMaskedRegister(write),
                            declaration.name,
                        ),
                    ),
                    Err(error) => Err(
                        MaxwellEngineDispatchError::FalconFirmware { source, error },
                    ),
                },
                MaxwellThreeDMethodAction::CheckSphVersion => check_versions(
                    profile,
                    source,
                    declaration.name,
                    false,
                ),
                MaxwellThreeDMethodAction::CheckAamVersion => check_versions(
                    profile,
                    source,
                    declaration.name,
                    true,
                ),
                MaxwellThreeDMethodAction::DrawVertexArray => if source.argument() == 0 {
                    Err(invalid_encoding(source, "DRAW_VERTEX_ARRAY", "vertex count is zero"))
                } else {
                    Ok(
                        MethodPlan::operation_only(
                            PendingOperation::ThreeD(
                                MaxwellThreeDOperationTrigger::DrawVertexArray {
                                    source,
                                    vertex_count: source.argument(),
                                },
                            ),
                            declaration.name,
                        ),
                    )
                },
                MaxwellThreeDMethodAction::Unsupported => Err(
                    MaxwellEngineDispatchError::UnsupportedMethod {
                        source,
                        metadata: MaxwellEngineMethodMetadata::named(
                            source.method(),
                            declaration.name,
                        ),
                    },
                ),
                MaxwellThreeDMethodAction::Missing(capability) => Err(
                    MaxwellEngineDispatchError::MissingCapability {
                        source,
                        metadata: MaxwellEngineMethodMetadata::named(
                            source.method(),
                            declaration.name,
                        ),
                        capability,
                    },
                ),
            }
        },
    }
}

/// Plans a method that no register family claims.
pub fn plan_declared(
    profile: &MaxwellGpuProfile,
    source: MaxwellMethodSource,
    mme: &MaxwellThreeDMmeState,
) -> (r: MethodPlanning)
    ensures
        r == spec_plan_declared(profile, source, mme@),
        r matches Ok(plan) ==> plan.wf(),
{
    let declaration = match method_declaration(profile, source.method().0) {
        Some(declaration) => declaration,
        None => {
            return Err(
                MaxwellEngineDispatchError::UnknownMethod { source, class_name: "MAXWELL_B" },
            );
        },
    };
    if source.argument() & !declaration.defined_mask != 0 {
        return Err(invalid_value(source, declaration));
    }
    match declaration.action {
        MaxwellThreeDMethodAction::NoOperation => Ok(MethodPlan::no_operation(declaration.name)),
        MaxwellThreeDMethodAction::Write(action) => match action.decode(profile, source) {
            Some(write) => Ok(MethodPlan::state_write(write, declaration.name)),
            None => Err(invalid_value(source, declaration)),
        },
        MaxwellThreeDMethodAction::Trigger(action) => match action.decode(source) {
            Some(trigger) => Ok(
                MethodPlan::operation_only(
                    PendingOperation::Synchronization(trigger),
                    declaration.name,
                ),
            ),
            None => Err(
                invalid_encoding(
                    source,
                    "SET_REPORT_SEMAPHORE_D",
                    "control contains an unallocated enum value",
                ),
            ),
        },
        MaxwellThreeDMethodAction::DecompressSurface => {
            if !profile.accepts(MaxwellThreeDEncodedField::DecompressSurface, source.argument()) {
                return Err(invalid_value(source, declaration));
            }
            Ok(
                MethodPlan::operation_only(
                    PendingOperation::Maintenance(
                        MaxwellThreeDMaintenanceTrigger::DecompressSurface {
                            request: MaxwellThreeDDecompressSurface(source.argument()),
                            source,
                        },
                    ),
                    declaration.name,
                ),
            )
        },
        MaxwellThreeDMethodAction::TiledCacheFlush => match MaxwellThreeDTiledCacheFlushMode::parse(
            source.argument(),
        ) {
            Some(mode) => Ok(
                MethodPlan::operation_only(
                    PendingOperation::Maintenance(
                        MaxwellThreeDMaintenanceTrigger::TiledCacheFlush { mode, source },
                    ),
                    declaration.name,
                ),
            ),
            None => Err(invalid_value(source, declaration)),
        },
        MaxwellThreeDMethodAction::FalconFirmwareCall4 => match firmware_write(source, mme) {
            Ok(write) => Ok(
                MethodPlan::state_write(
                    MaxwellThreeDStateWrite::FalconMaskedRegister(write),
                    declaration.name,
                ),
            ),
            Err(error) => Err(MaxwellEngineDispatchError::FalconFirmware { source, error }),
        },
        MaxwellThreeDMethodAction::CheckSphVersion => check_versions(
            profile,
            source,
            declaration.name,
            false,
        ),
        MaxwellThreeDMethodAction::CheckAamVersion => check_versions(
            profile,
            source,
            declaration.name,
            true,
        ),
        MaxwellThreeDMethodAction::DrawVertexArray => {
            if source.argument() == 0 {
                return Err(invalid_encoding(source, "DRAW_VERTEX_ARRAY", "vertex count is zero"));
            }
            Ok(
                MethodPlan::operation_only(
                    PendingOperation::ThreeD(
                        MaxwellThreeDOperationTrigger::DrawVertexArray {
                            source,
                            vertex_count: source.argument(),
                        },
                    ),
                    declaration.name,
                ),
            )
        },
        MaxwellThreeDMethodAction::Unsupported => Err(
            MaxwellEngineDispatchError::UnsupportedMethod {
                source,
                metadata: MaxwellEngineMethodMetadata::named(source.method(), declaration.name),
            },
        ),
        MaxwellThreeDMethodAction::Missing(capability) => Err(
            MaxwellEngineDispatchError::MissingCapability {
                source,
                metadata: MaxwellEngineMethodMetadata::named(source.method(), declaration.name),
                capability,
            },
        ),
    }
}

/// Work started by a transition of the output families: a surface clear starts one.
pub open spec fn spec_write_trigger(
    write: MaxwellThreeDStateWrite,
    source: MaxwellMethodSource,
) -> Option<PendingOperation> {
    match write {
        MaxwellThreeDStateWrite::RenderTarget(
            MaxwellThreeDRenderTargetWrite::ClearSurface { .. },
        ) => Some(PendingOperation::ThreeD(MaxwellThreeDOperationTrigger::ClearSurface { source })),
        _ => None,
    }
}

#[verifier::when_used_as_spec(spec_write_trigger)]
pub fn write_trigger(write: MaxwellThreeDStateWrite, source: MaxwellMethodSource) -> (r: Option<
    PendingOperation,
>)
    ensures
        r == spec_write_trigger(write, source),
{
    match write {
        MaxwellThreeDStateWrite::RenderTarget(
            MaxwellThreeDRenderTargetWrite::ClearSurface { .. },
        ) => Some(PendingOperation::ThreeD(MaxwellThreeDOperationTrigger::ClearSurface { source })),
        _ => None,
    }
}

/// Plan of any method: the inline upload family, the macro expander, the inline
/// constant-buffer loads, the vertex and binding families and the output families are
/// asked in this order, and the declared methods come last.
#[verifier::opaque]
pub open spec fn spec_plan_register(
    profile: &MaxwellGpuProfile,
    source: MaxwellMethodSource,
    model: FrontendModel,
) -> MethodPlanning {
    match crate::inline_to_memory::spec_preflight(source, model.operation.inline_to_memory) {
        Err(error) => Err(error),
        Ok(Some((write, name, upload))) => Ok(
            MethodPlan {
                write: Some(MaxwellThreeDStateWrite::InlineToMemory(write)),
                name,
                operation: match upload {
                    Some(upload) => Some(PendingOperation::InlineToMemory(upload)),
                    None => None,
                },
                writes_state: true,
            },
        ),
        Ok(None) => match spec_preflight_mme_state(source, model.mme) {
            Err(error) => Err(error),
            Ok(Some((write, name))) => Ok(MethodPlan::state_write(write, name)),
            Ok(None) => match spec_preflight_constant_buffer_load(source, model.operation) {
                Err(error) => Err(error),
                Ok(Some((write, name, upload))) => Ok(
                    MethodPlan {
                        write: Some(write),
                        name,
                        operation: match upload {
                            Some(upload) => Some(PendingOperation::InlineConstantBuffer(upload)),
                            None => None,
                        },
                        writes_state: true,
                    },
                ),
                Ok(None) => match crate::vertex_methods::spec_preflight_vertex_and_binding_state(
                    profile,
                    source,
                    &model.operation.shader_bindings.selector,
                ) {
                    Err(error) => Err(error),
                    Ok(Some((write, name))) => Ok(MethodPlan::state_write(write, name)),
                    Ok(None) => match crate::output_methods::spec_preflight_output_state(
                        profile,
                        source,
                    ) {
                        Err(error) => Err(error),
                        Ok(Some((write, name))) => Ok(
                            MethodPlan {
                                write: Some(write),
                                name,
                                operation: write_trigger(write, source),
                                writes_state: true,
                            },
                        ),
                        Ok(None) => spec_plan_declared(profile, source, model.mme),
                    },
                },
            },
        },
    }
}

/// Plans any method.
pub fn plan_register(
    profile: &MaxwellGpuProfile,
    source: MaxwellMethodSource,
    state: &MaxwellThreeDFrontendState,
) -> (r: MethodPlanning)
    ensures
        r == spec_plan_register(profile, source, state@),
        r matches Ok(plan) ==> plan.wf(),
{
    reveal(spec_plan_register);
    match preflight_inline_to_memory(source, &state.operation.inline_to_memory) {
        Err(error) => {
            return Err(error);
        },
        Ok(Some((write, name, upload))) => {
            let operation = match upload {
                Some(upload) => Some(PendingOperation::InlineToMemory(upload)),
                None => None,
            };
            return Ok(
                MethodPlan {
                    write: Some(MaxwellThreeDStateWrite::InlineToMemory(write)),
                    name,
                    operation,
                    writes_state: true,
                },
            );
        },
        Ok(None) => {},
    }
    match preflight_mme_state(source, &state.mme) {
        Err(error) => {
            return Err(error);
        },
        Ok(Some((write, name))) => {
            return Ok(MethodPlan::state_write(write, name));
        },
        Ok(None) => {},
    }
    match preflight_constant_buffer_load(source, &state.operation) {
        Err(error) => {
            return Err(error);
        },
        Ok(Some((write, name, upload))) => {
            let operation = match upload {
                Some(upload) => Some(PendingOperation::InlineConstantBuffer(upload)),
                None => None,
            };
            return Ok(MethodPlan { write: Some(write), name, operation, writes_state: true });
        },
        Ok(None) => {},
    }
    match preflight_vertex_and_binding_state(
        profile,
        source,
        &state.operation.shader_bindings.selector,
    ) {
        Err(error) => {
            return Err(error);
        },
        Ok(Some((write, name))) => {
            return Ok(MethodPlan::state_write(write, name));
        },
        Ok(None) => {},
    }
    match preflight_output_state(profile, source) {
        Err(error) => {
            return Err(error);
        },
        Ok(Some((write, name))) => {
            return Ok(
                MethodPlan {
                    write: Some(write),
                    name,
                    operation: write_trigger(write, source),
                    writes_state: true,
                },
            );
        },
        Ok(None) => {},
    }
    plan_declared(profile, source, &state.mme)
}

/// Captured macro words and start addresses stay within their limits.
pub open spec fn captured_storage_is_bounded(mme: MmeModel) -> bool {
    &&& mme.instructions.dom().finite()
    &&& mme.instructions.len() <= MAXWELL_THREE_D_MME_CAPTURED_INSTRUCTION_WORDS
    &&& mme.start_addresses.dom().finite()
    &&& mme.start_addresses.len() <= MAXWELL_THREE_D_MME_CAPTURED_START_ADDRESSES
}

/// Loads that are accepted never grow the captured program past its limits.
pub proof fn law_captured_storage_stays_bounded(source: MaxwellMethodSource, mme: MmeModel)
    requires
        captured_storage_is_bounded(mme),
    ensures
        spec_preflight_mme_state(source, mme) matches Ok(
            Some((MaxwellThreeDStateWrite::Mme(write), _)),
        ) ==> captured_storage_is_bounded(mme.written(write)),
{
    broadcast use vstd::map::group_map_axioms;
    broadcast use vstd::set::group_set_axioms;

    if let Ok(Some((MaxwellThreeDStateWrite::Mme(write), _))) = spec_preflight_mme_state(
        source,
        mme,
    ) {
        match write {
            MaxwellThreeDMmeStateWrite::Instruction { address, .. } => {
                assert(mme.written(write).instructions.dom() =~= mme.instructions.dom().insert(
                    address.0,
                ));
            },
            MaxwellThreeDMmeStateWrite::StartAddress { index, .. } => {
                assert(mme.written(write).start_addresses.dom() =~= mme.start_addresses.dom().insert(
                    index.0,
                ));
            },
            _ => {},
        }
    }
}

/// An accepted data word lies inside the selected constant buffer and the address
/// space, goes to the cursor, and moves the cursor right behind itself.
pub proof fn law_constant_buffer_load_stays_in_buffer(
    source: MaxwellMethodSource,
    state: MaxwellThreeDState,
)
    ensures
        spec_preflight_constant_buffer_load(source, state) matches Ok(
            Some((write, _, Some(upload))),
        ) ==> {
            let after = state.written(write).shader_bindings;
            &&& state.shader_bindings.selector.size.value matches Some(size)
            &&& upload.offset + 4 <= size
            &&& upload.address.spec_get() + upload.offset + 4 <= 0x100_0000_0000
            &&& upload.value == source.argument()
            &&& state.shader_bindings.constant_buffer_load.next_offset == Some(upload.offset)
            &&& after.constant_buffer_load.next_offset == Some((upload.offset + 4) as u32)
            &&& after.selector == state.shader_bindings.selector
        },
{
}

/// Words loaded one after the other go to consecutive places of the selected buffer.
pub proof fn law_consecutive_loads_are_adjacent(
    first: MaxwellMethodSource,
    second: MaxwellMethodSource,
    state: MaxwellThreeDState,
)
    ensures
        spec_preflight_constant_buffer_load(first, state) matches Ok(
            Some((write, _, Some(upload))),
        ) ==> (spec_preflight_constant_buffer_load(second, state.written(write)) matches Ok(
            Some((_, _, Some(next))),
        ) ==> next.address == upload.address && next.offset == upload.offset + 4),
{
}

/// State after data words were loaded one after the other, if each of them is accepted.
pub open spec fn loaded(state: MaxwellThreeDState, words: Seq<MaxwellMethodSource>) -> Option<
    MaxwellThreeDState,
>
    decreases words.len(),
{
    if words.len() == 0 {
        Some(state)
    } else {
        match loaded(state, words.drop_last()) {
            None => None,
            Some(before) => match spec_preflight_constant_buffer_load(words.last(), before) {
                Ok(Some((write, _, Some(_)))) => Some(before.written(write)),
                _ => None,
            },
        }
    }
}

/// Data words move the cursor by four bytes each and leave the offset register alone.
proof fn lemma_loads_advance_cursor(state: MaxwellThreeDState, words: Seq<MaxwellMethodSource>)
    ensures
        loaded(state, words) matches Some(after) ==> {
            let before = state.shader_bindings.constant_buffer_load;
            let now = after.shader_bindings.constant_buffer_load;
            &&& now.offset == before.offset
            &&& words.len() == 0 ==> now.next_offset == before.next_offset
            &&& before.next_offset matches Some(start) ==> now.next_offset matches Some(cursor)
                && cursor == start + 4 * words.len()
        },
    decreases words.len(),
{
    if words.len() > 0 {
        lemma_loads_advance_cursor(state, words.drop_last());
    }
}

/// An accepted offset puts the cursor at its value, whatever it was before. Each data word
/// accepted after it moves the cursor by four bytes, and the offset register keeps the
/// value.
pub proof fn law_cursor_counts_loaded_words(
    select: MaxwellMethodSource,
    state: MaxwellThreeDState,
    words: Seq<MaxwellMethodSource>,
)
    requires
        select.method().0 == 0x238c,
    ensures
        spec_preflight_constant_buffer_load(select, state) matches Ok(Some((write, _, upload)))
            ==> {
            let selected = state.written(write);
            &&& upload is None
            &&& selected.shader_bindings.constant_buffer_load.next_offset == Some(
                select.argument(),
            )
            &&& loaded(selected, words) matches Some(after) ==> {
                let now = after.shader_bindings.constant_buffer_load;
                &&& now.offset.value matches Some(offset) && offset == select.argument()
                &&& now.next_offset matches Some(cursor) && cursor == select.argument() + 4
                    * words.len()
            }
        },
{
    if let Ok(Some((write, _, _))) = spec_preflight_constant_buffer_load(select, state) {
        lemma_loads_advance_cursor(state.written(write), words);
    }
}

/// Only an accepted offset gives the cursor its first value: there is none at first, and
/// while there is none no data word is accepted and no other write sets it.
pub proof fn law_cursor_starts_with_an_offset(
    state: MaxwellThreeDState,
    write: MaxwellThreeDStateWrite,
    word: MaxwellMethodSource,
)
    ensures
        state.shader_bindings.constant_buffer_load.initial()
            ==> state.shader_bindings.constant_buffer_load.next_offset is None,
        state.shader_bindings.constant_buffer_load.next_offset is None
            ==> !(spec_preflight_constant_buffer_load(word, state) matches Ok(
            Some((_, _, Some(_))),
        )),
        match write {
            MaxwellThreeDStateWrite::ShaderBinding(
                MaxwellThreeDShaderBindingWrite::ConstantBufferLoadOffset { .. },
            ) => true,
            MaxwellThreeDStateWrite::ShaderBinding(
                MaxwellThreeDShaderBindingWrite::ConstantBufferLoadData { .. },
            ) => true,
            _ => state.written(write).shader_bindings.constant_buffer_load
                == state.shader_bindings.constant_buffer_load,
        },
{
}

} // verus!
