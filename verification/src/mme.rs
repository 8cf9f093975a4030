//! Captured programs and register shadow of the macro method expander.

use vstd::prelude::*;
use crate::register::{GpuMethodId, MaxwellMethodSource, MaxwellThreeDRegister};
use std::collections::BTreeMap;

verus! {

/// Number of shadow scratch registers.
pub const MAXWELL_THREE_D_MME_SHADOW_SCRATCH_COUNT: usize = 256;

/// Most distinct instruction words that are captured.
pub const MAXWELL_THREE_D_MME_CAPTURED_INSTRUCTION_WORDS: usize = 4096;

/// Most distinct macro start addresses that are captured.
pub const MAXWELL_THREE_D_MME_CAPTURED_START_ADDRESSES: usize = 256;

/// Most instructions that one macro invocation retires.
pub const MAXWELL_THREE_D_MME_EXECUTION_INSTRUCTION_LIMIT: u32 = 4096;

/// Most methods that one macro invocation emits.
pub const MAXWELL_THREE_D_MME_EMITTED_METHOD_LIMIT: u32 = 4096;

/// Method of the shadow-RAM control register itself.
pub const MAXWELL_THREE_D_MME_SHADOW_RAM_CONTROL_METHOD: u32 = 0x0124;

/// How host method writes interact with the register shadow.
#[derive(Clone, Copy, Debug, PartialEq, Eq, Hash, Structural)]
pub enum MaxwellThreeDMmeShadowRamControl {
    MethodTrack,
    MethodTrackWithFilter,
    MethodPassthrough,
    MethodReplay,
}

impl MaxwellThreeDMmeShadowRamControl {
    /// Field encoding of each value.
    pub open spec fn spec_raw(self) -> u32 {
        match self {
            MaxwellThreeDMmeShadowRamControl::MethodTrack => 0,
            MaxwellThreeDMmeShadowRamControl::MethodTrackWithFilter => 1,
            MaxwellThreeDMmeShadowRamControl::MethodPassthrough => 2,
            MaxwellThreeDMmeShadowRamControl::MethodReplay => 3,
        }
    }

    /// Value of each defined encoding.
    pub open spec fn spec_parse(raw: u32) -> Option<MaxwellThreeDMmeShadowRamControl> {
        if raw == 0 {
            Some(MaxwellThreeDMmeShadowRamControl::MethodTrack)
        } else if raw == 1 {
            Some(MaxwellThreeDMmeShadowRamControl::MethodTrackWithFilter)
        } else if raw == 2 {
            Some(MaxwellThreeDMmeShadowRamControl::MethodPassthrough)
        } else if raw == 3 {
            Some(MaxwellThreeDMmeShadowRamControl::MethodReplay)
        } else {
            None
        }
    }

    #[verifier::when_used_as_spec(spec_parse)]
    pub fn parse(raw: u32) -> (r: Option<MaxwellThreeDMmeShadowRamControl>)
        ensures
            r == MaxwellThreeDMmeShadowRamControl::spec_parse(raw),
    {
        match raw {
            0 => Some(MaxwellThreeDMmeShadowRamControl::MethodTrack),
            1 => Some(MaxwellThreeDMmeShadowRamControl::MethodTrackWithFilter),
            2 => Some(MaxwellThreeDMmeShadowRamControl::MethodPassthrough),
            3 => Some(MaxwellThreeDMmeShadowRamControl::MethodReplay),
            _ => None,
        }
    }

    #[must_use]
    #[verifier::when_used_as_spec(spec_raw)]
    pub fn raw(self) -> (r: u32)
        ensures
            r == self.spec_raw(),
    {
        match self {
            MaxwellThreeDMmeShadowRamControl::MethodTrack => 0,
            MaxwellThreeDMmeShadowRamControl::MethodTrackWithFilter => 1,
            MaxwellThreeDMmeShadowRamControl::MethodPassthrough => 2,
            MaxwellThreeDMmeShadowRamControl::MethodReplay => 3,
        }
    }

    /// Whether methods are recorded in the shadow.
    pub open spec fn spec_tracks(self) -> bool {
        self == MaxwellThreeDMmeShadowRamControl::MethodTrack || self
            == MaxwellThreeDMmeShadowRamControl::MethodTrackWithFilter
    }

    #[must_use]
    #[verifier::when_used_as_spec(spec_tracks)]
    pub fn tracks(self) -> (r: bool)
        ensures
            r == self.spec_tracks(),
    {
        matches!(
            self,
            MaxwellThreeDMmeShadowRamControl::MethodTrack
            | MaxwellThreeDMmeShadowRamControl::MethodTrackWithFilter
        )
    }

    /// Decoding and encoding are inverse: a word decodes to a value exactly
    /// when it is the encoding of that value.
    pub proof fn law_codec(raw: u32, value: MaxwellThreeDMmeShadowRamControl)
        ensures
            MaxwellThreeDMmeShadowRamControl::spec_parse(raw) == Some(value) <==> value.spec_raw() == raw,
    {
    }
}

/// Whether mutable methods are processed through the heavyweight path.
///
/// Methods are always decoded in order, so the value is kept without effect.
#[derive(Clone, Copy, Debug, PartialEq, Eq, Hash, Structural)]
pub enum MaxwellThreeDMutableMethodControl {
    Lightweight,
    Heavyweight,
}

impl MaxwellThreeDMutableMethodControl {
    /// Field encoding of each value.
    pub open spec fn spec_raw(self) -> u32 {
        match self {
            MaxwellThreeDMutableMethodControl::Lightweight => 0,
            MaxwellThreeDMutableMethodControl::Heavyweight => 1,
        }
    }

    /// Value of each defined encoding.
    pub open spec fn spec_parse(raw: u32) -> Option<MaxwellThreeDMutableMethodControl> {
        if raw == 0 {
            Some(MaxwellThreeDMutableMethodControl::Lightweight)
        } else if raw == 1 {
            Some(MaxwellThreeDMutableMethodControl::Heavyweight)
        } else {
            None
        }
    }

    #[verifier::when_used_as_spec(spec_parse)]
    pub fn parse(raw: u32) -> (r: Option<MaxwellThreeDMutableMethodControl>)
        ensures
            r == MaxwellThreeDMutableMethodControl::spec_parse(raw),
    {
        match raw {
            0 => Some(MaxwellThreeDMutableMethodControl::Lightweight),
            1 => Some(MaxwellThreeDMutableMethodControl::Heavyweight),
            _ => None,
        }
    }

    #[must_use]
    #[verifier::when_used_as_spec(spec_raw)]
    pub fn raw(self) -> (r: u32)
        ensures
            r == self.spec_raw(),
    {
        match self {
            MaxwellThreeDMutableMethodControl::Lightweight => 0,
            MaxwellThreeDMutableMethodControl::Heavyweight => 1,
        }
    }

    #[must_use]
    pub fn treats_mutable_as_heavyweight(self) -> (r: bool)
        ensures
            r == (self == MaxwellThreeDMutableMethodControl::Heavyweight),
    {
        matches!(self, MaxwellThreeDMutableMethodControl::Heavyweight)
    }

    /// Decoding and encoding are inverse: a word decodes to a value exactly
    /// when it is the encoding of that value.
    pub proof fn law_codec(raw: u32, value: MaxwellThreeDMutableMethodControl)
        ensures
            MaxwellThreeDMutableMethodControl::spec_parse(raw) == Some(value) <==> value.spec_raw() == raw,
    {
    }
}

/// Why a shadow-RAM transition cannot be represented.
#[derive(Clone, Copy, Debug, PartialEq, Eq, Hash, Structural)]
pub enum MaxwellThreeDMmeShadowRamError {
    ReplayRegisterUnavailable { method_dword: u16 },
}

/// Index of one shadow scratch register.
#[derive(Clone, Copy, Debug, PartialEq, Eq, Hash, Structural)]
pub struct MaxwellThreeDMmeShadowScratchIndex(pub u8);

impl MaxwellThreeDMmeShadowScratchIndex {
    #[must_use]
    pub fn new(raw: u8) -> (r: MaxwellThreeDMmeShadowScratchIndex)
        ensures
            r.0 == raw,
    {
        MaxwellThreeDMmeShadowScratchIndex(raw)
    }

    pub open spec fn spec_raw(self) -> u8 {
        self.0
    }

    #[must_use]
    #[verifier::when_used_as_spec(spec_raw)]
    pub fn raw(self) -> (r: u8)
        ensures
            r == self.0,
    {
        self.0
    }
}

/// One address in instruction or start-address RAM.
#[derive(Clone, Copy, Debug, PartialEq, Eq, Hash, Structural)]
pub struct MaxwellThreeDMmeRamAddress(pub u32);

impl MaxwellThreeDMmeRamAddress {
    #[must_use]
    pub fn new(raw: u32) -> (r: MaxwellThreeDMmeRamAddress)
        ensures
            r.0 == raw,
    {
        MaxwellThreeDMmeRamAddress(raw)
    }

    pub open spec fn spec_raw(self) -> u32 {
        self.0
    }

    #[must_use]
    #[verifier::when_used_as_spec(spec_raw)]
    pub fn raw(self) -> (r: u32)
        ensures
            r == self.0,
    {
        self.0
    }
}

/// One instruction word.
#[derive(Clone, Copy, Debug, PartialEq, Eq, Hash, Structural)]
pub struct MaxwellThreeDMmeInstruction(pub u32);

impl MaxwellThreeDMmeInstruction {
    #[must_use]
    pub fn new(raw: u32) -> (r: MaxwellThreeDMmeInstruction)
        ensures
            r.0 == raw,
    {
        MaxwellThreeDMmeInstruction(raw)
    }

    pub open spec fn spec_raw(self) -> u32 {
        self.0
    }

    #[must_use]
    #[verifier::when_used_as_spec(spec_raw)]
    pub fn raw(self) -> (r: u32)
        ensures
            r == self.0,
    {
        self.0
    }
}

/// Which of the two RAMs a load targets.
#[derive(Clone, Copy, Debug, PartialEq, Eq, Hash, Structural)]
pub enum MaxwellThreeDMmeRam {
    Instruction,
    StartAddress,
}

/// Why a load exceeds what is captured.
#[derive(Clone, Copy, Debug, PartialEq, Eq, Hash, Structural)]
pub enum MaxwellThreeDMmeLoadError {
    PointerUnset,
    PointerOverflow,
    StorageLimitExceeded { limit: usize },
}

/// Why a captured program cannot be executed.
#[derive(Clone, Copy, Debug, PartialEq, Eq, Hash, Structural)]
#[allow(inconsistent_fields)]
pub enum MaxwellThreeDMmeExecutionError {
    DataWithoutCall,
    MissingStartAddress { macro_index: u8 },
    MissingInstruction { address: MaxwellThreeDMmeRamAddress },
    InvalidOperation { address: MaxwellThreeDMmeRamAddress, operation: u8 },
    InvalidAluOperation { address: MaxwellThreeDMmeRamAddress, operation: u8 },
    BranchInDelaySlot { address: MaxwellThreeDMmeRamAddress },
    ProgramCounterOverflow { address: MaxwellThreeDMmeRamAddress },
    ParameterUnavailable { index: usize },
    UnconsumedParameters { consumed: usize, supplied: usize },
    RegisterReadUnavailable { method_dword: u16 },
    RecursiveMacroCall { method_dword: u16 },
    InstructionLimitExceeded { limit: u32 },
    EmittedMethodLimitExceeded { limit: u32 },
}

/// Statistics of one completed invocation.
#[derive(Clone, Copy, Debug, PartialEq, Eq, Hash, Structural)]
pub struct MaxwellThreeDMmeExecutionReport {
    pub instructions: u32,
    pub emitted_methods: u32,
}

/// One checked transition of the macro expander.
#[derive(Clone, Copy, Debug, PartialEq, Eq, Hash, Structural)]
#[allow(inconsistent_fields)]
pub enum MaxwellThreeDMmeStateWrite {
    InstructionPointer { value: MaxwellThreeDMmeRamAddress, source: MaxwellMethodSource },
    Instruction { address: MaxwellThreeDMmeRamAddress, value: MaxwellThreeDMmeInstruction, source: MaxwellMethodSource },
    StartAddressPointer { value: MaxwellThreeDMmeRamAddress, source: MaxwellMethodSource },
    StartAddress { index: MaxwellThreeDMmeRamAddress, address: MaxwellThreeDMmeRamAddress, source: MaxwellMethodSource },
    ShadowRamControl { value: MaxwellThreeDMmeShadowRamControl, source: MaxwellMethodSource },
    MutableMethodControl { value: MaxwellThreeDMutableMethodControl, source: MaxwellMethodSource },
    ShadowScratch { index: MaxwellThreeDMmeShadowScratchIndex, value: u32, source: MaxwellMethodSource },
}

impl MaxwellThreeDMmeStateWrite {
    /// A loaded word leaves room for the pointer to advance.
    pub open spec fn wf(self) -> bool {
        match self {
            MaxwellThreeDMmeStateWrite::Instruction { address, .. } => address.0 < u32::MAX,
            MaxwellThreeDMmeStateWrite::StartAddress { index, .. } => index.0 < u32::MAX,
            _ => true,
        }
    }
}

/// Mathematical content of the macro expander.
pub struct MmeModel {
    pub instruction_pointer: MaxwellThreeDRegister<MaxwellThreeDMmeRamAddress>,
    pub next_instruction_address: Option<MaxwellThreeDMmeRamAddress>,
    pub instructions: Map<u32, MaxwellThreeDRegister<MaxwellThreeDMmeInstruction>>,
    pub start_address_pointer: MaxwellThreeDRegister<MaxwellThreeDMmeRamAddress>,
    pub next_start_address_index: Option<MaxwellThreeDMmeRamAddress>,
    pub start_addresses: Map<u32, MaxwellThreeDRegister<MaxwellThreeDMmeRamAddress>>,
    pub shadow_ram_control: MaxwellThreeDRegister<MaxwellThreeDMmeShadowRamControl>,
    pub mutable_method_control: MaxwellThreeDRegister<MaxwellThreeDMutableMethodControl>,
    pub shadow_registers: Map<u32, MaxwellThreeDRegister<u32>>,
    pub shadow_scratch: Map<u8, MaxwellThreeDRegister<u32>>,
}

impl MmeModel {
    /// Content before any method is decoded.
    pub open spec fn unprogrammed() -> MmeModel {
        MmeModel {
            instruction_pointer: MaxwellThreeDRegister::unset(),
            next_instruction_address: None,
            instructions: Map::empty(),
            start_address_pointer: MaxwellThreeDRegister::unset(),
            next_start_address_index: None,
            start_addresses: Map::empty(),
            shadow_ram_control: MaxwellThreeDRegister::unset(),
            mutable_method_control: MaxwellThreeDRegister::unset(),
            shadow_registers: Map::empty(),
            shadow_scratch: Map::empty(),
        }
    }

    /// Instruction word at an address, if one was loaded.
    pub open spec fn instruction_word(self, address: u32) -> Option<u32> {
        if self.instructions.contains_key(address) {
            match self.instructions[address].value {
                Some(instruction) => Some(instruction.0),
                None => None,
            }
        } else {
            None
        }
    }

    /// Start address of a macro, if one was loaded.
    pub open spec fn start_of(self, macro_index: u8) -> Option<u32> {
        if self.start_addresses.contains_key(macro_index as u32) {
            match self.start_addresses[macro_index as u32].value {
                Some(address) => Some(address.0),
                None => None,
            }
        } else {
            None
        }
    }

    /// Word that the shadow holds for a method.
    pub open spec fn shadow_word(self, method: GpuMethodId) -> Option<u32> {
        if self.shadow_registers.contains_key(method.0) {
            self.shadow_registers[method.0].raw
        } else {
            None
        }
    }

    /// Word of a scratch register.
    pub open spec fn scratch_word(self, index: u8) -> Option<u32> {
        if self.shadow_scratch.contains_key(index) {
            self.shadow_scratch[index].raw
        } else {
            None
        }
    }

    /// State after one transition. Loading a word advances the load pointer past it.
    pub open spec fn written(self, write: MaxwellThreeDMmeStateWrite) -> MmeModel {
        match write {
            MaxwellThreeDMmeStateWrite::InstructionPointer { value, source } => MmeModel {
                instruction_pointer: MaxwellThreeDRegister::programmed(value.raw(), value, source),
                next_instruction_address: Some(value),
                ..self
            },
            MaxwellThreeDMmeStateWrite::Instruction { address, value, source } => MmeModel {
                instructions: self.instructions.insert(
                    address.0,
                    MaxwellThreeDRegister::programmed(value.raw(), value, source),
                ),
                next_instruction_address: Some(MaxwellThreeDMmeRamAddress((address.0 + 1) as u32)),
                ..self
            },
            MaxwellThreeDMmeStateWrite::StartAddressPointer { value, source } => MmeModel {
                start_address_pointer: MaxwellThreeDRegister::programmed(
                    value.raw(),
                    value,
                    source,
                ),
                next_start_address_index: Some(value),
                ..self
            },
            MaxwellThreeDMmeStateWrite::StartAddress { index, address, source } => MmeModel {
                start_addresses: self.start_addresses.insert(
                    index.0,
                    MaxwellThreeDRegister::programmed(address.raw(), address, source),
                ),
                next_start_address_index: Some(MaxwellThreeDMmeRamAddress((index.0 + 1) as u32)),
                ..self
            },
            MaxwellThreeDMmeStateWrite::ShadowRamControl { value, source } => MmeModel {
                shadow_ram_control: MaxwellThreeDRegister::programmed(value.raw(), value, source),
                ..self
            },
            MaxwellThreeDMmeStateWrite::MutableMethodControl { value, source } => MmeModel {
                mutable_method_control: MaxwellThreeDRegister::programmed(
                    value.raw(),
                    value,
                    source,
                ),
                ..self
            },
            MaxwellThreeDMmeStateWrite::ShadowScratch { index, value, source } => MmeModel {
                shadow_scratch: self.shadow_scratch.insert(
                    index.0,
                    MaxwellThreeDRegister::programmed(value, value, source),
                ),
                ..self
            },
        }
    }

    /// Argument that a method takes effect with. In replay mode it comes from the
    /// shadow, or from the documented reset of the register; the control register
    /// itself always takes the submitted argument.
    pub open spec fn effective_argument(
        self,
        method: GpuMethodId,
        submitted: u32,
        reset: Option<u32>,
    ) -> Result<u32, MaxwellThreeDMmeShadowRamError> {
        if method.0 == MAXWELL_THREE_D_MME_SHADOW_RAM_CONTROL_METHOD
            || self.shadow_ram_control.value != Some(
            MaxwellThreeDMmeShadowRamControl::MethodReplay,
        ) {
            Ok(submitted)
        } else {
            match (self.shadow_word(method), reset) {
                (Some(word), _) => Ok(word),
                (None, Some(word)) => Ok(word),
                (None, None) => Err(
                    MaxwellThreeDMmeShadowRamError::ReplayRegisterUnavailable {
                        method_dword: (method.0 / 4) as u16,
                    },
                ),
            }
        }
    }

    /// State after a method went through under a control mode.
    pub open spec fn shadowed(
        self,
        control: Option<MaxwellThreeDMmeShadowRamControl>,
        source: MaxwellMethodSource,
    ) -> MmeModel {
        match control {
            Some(mode) if mode.spec_tracks() => MmeModel {
                shadow_registers: self.shadow_registers.insert(
                    source.method.0,
                    MaxwellThreeDRegister::programmed(source.argument, source.argument, source),
                ),
                ..self
            },
            _ => self,
        }
    }

    /// Replaying a recorded method takes effect with the recorded argument, whatever
    /// was submitted; methods that were not recorded since keep their argument.
    pub proof fn law_replay_returns_recorded_argument(
        self,
        control: MaxwellThreeDMmeShadowRamControl,
        recorded: MaxwellMethodSource,
        replay: MaxwellMethodSource,
        submitted: u32,
        reset: Option<u32>,
    )
        requires
            control.spec_tracks(),
            recorded.method.0 != MAXWELL_THREE_D_MME_SHADOW_RAM_CONTROL_METHOD,
        ensures
            self.shadowed(Some(control), recorded).written(
                MaxwellThreeDMmeStateWrite::ShadowRamControl {
                    value: MaxwellThreeDMmeShadowRamControl::MethodReplay,
                    source: replay,
                },
            ).effective_argument(recorded.method, submitted, reset) == Ok::<
                u32,
                MaxwellThreeDMmeShadowRamError,
            >(recorded.argument),
            forall|other: GpuMethodId|
                other != recorded.method ==> self.shadowed(Some(control), recorded).shadow_word(
                    other,
                ) == #[trigger] self.shadow_word(other),
    {
    }

    /// The control register always takes the submitted argument, so a stream can
    /// leave replay mode; outside replay mode every method does.
    pub proof fn law_submitted_argument_passes(
        self,
        method: GpuMethodId,
        submitted: u32,
        reset: Option<u32>,
    )
        requires
            method.0 == MAXWELL_THREE_D_MME_SHADOW_RAM_CONTROL_METHOD
                || self.shadow_ram_control.value != Some(
                MaxwellThreeDMmeShadowRamControl::MethodReplay,
            ),
        ensures
            self.effective_argument(method, submitted, reset) == Ok::<
                u32,
                MaxwellThreeDMmeShadowRamError,
            >(submitted),
    {
    }
}

/// Captured program and shadow state of one engine.
#[derive(Debug)]
pub struct MaxwellThreeDMmeState {
    pub instruction_pointer: MaxwellThreeDRegister<MaxwellThreeDMmeRamAddress>,
    pub next_instruction_address: Option<MaxwellThreeDMmeRamAddress>,
    pub instructions: BTreeMap<u32, MaxwellThreeDRegister<MaxwellThreeDMmeInstruction>>,
    pub start_address_pointer: MaxwellThreeDRegister<MaxwellThreeDMmeRamAddress>,
    pub next_start_address_index: Option<MaxwellThreeDMmeRamAddress>,
    pub start_addresses: BTreeMap<u32, MaxwellThreeDRegister<MaxwellThreeDMmeRamAddress>>,
    pub shadow_ram_control: MaxwellThreeDRegister<MaxwellThreeDMmeShadowRamControl>,
    pub mutable_method_control: MaxwellThreeDRegister<MaxwellThreeDMutableMethodControl>,
    pub shadow_registers: BTreeMap<u32, MaxwellThreeDRegister<u32>>,
    pub shadow_scratch: BTreeMap<u8, MaxwellThreeDRegister<u32>>,
}

impl View for MaxwellThreeDMmeState {
    type V = MmeModel;

    open spec fn view(&self) -> MmeModel {
        MmeModel {
            instruction_pointer: self.instruction_pointer,
            next_instruction_address: self.next_instruction_address,
            instructions: self.instructions@,
            start_address_pointer: self.start_address_pointer,
            next_start_address_index: self.next_start_address_index,
            start_addresses: self.start_addresses@,
            shadow_ram_control: self.shadow_ram_control,
            mutable_method_control: self.mutable_method_control,
            shadow_registers: self.shadow_registers@,
            shadow_scratch: self.shadow_scratch@,
        }
    }
}

impl MaxwellThreeDMmeState {
    /// State before any method is decoded.
    #[must_use]
    pub fn unprogrammed() -> (r: MaxwellThreeDMmeState)
        ensures
            r@ == MmeModel::unprogrammed(),
    {
        MaxwellThreeDMmeState {
            instruction_pointer: MaxwellThreeDRegister::unset(),
            next_instruction_address: None,
            instructions: BTreeMap::new(),
            start_address_pointer: MaxwellThreeDRegister::unset(),
            next_start_address_index: None,
            start_addresses: BTreeMap::new(),
            shadow_ram_control: MaxwellThreeDRegister::unset(),
            mutable_method_control: MaxwellThreeDRegister::unset(),
            shadow_registers: BTreeMap::new(),
            shadow_scratch: BTreeMap::new(),
        }
    }

    /// A copy of the program that later loads do not change.
    #[must_use]
    pub fn program(&self) -> (r: MaxwellThreeDMmeState)
        ensures
            r@ == self@,
    {
        MaxwellThreeDMmeState {
            instruction_pointer: self.instruction_pointer,
            next_instruction_address: self.next_instruction_address,
            instructions: self.instructions.clone(),
            start_address_pointer: self.start_address_pointer,
            next_start_address_index: self.next_start_address_index,
            start_addresses: self.start_addresses.clone(),
            shadow_ram_control: self.shadow_ram_control,
            mutable_method_control: self.mutable_method_control,
            shadow_registers: self.shadow_registers.clone(),
            shadow_scratch: self.shadow_scratch.clone(),
        }
    }

    #[must_use]
    pub fn instruction_pointer(&self) -> (r: &MaxwellThreeDRegister<MaxwellThreeDMmeRamAddress>)
        ensures
            *r == self@.instruction_pointer,
    {
        &self.instruction_pointer
    }

    #[must_use]
    pub fn next_instruction_address(&self) -> (r: Option<MaxwellThreeDMmeRamAddress>)
        ensures
            r == self@.next_instruction_address,
    {
        self.next_instruction_address
    }

    #[must_use]
    pub fn instruction(&self, address: MaxwellThreeDMmeRamAddress) -> (r: Option<&MaxwellThreeDRegister<MaxwellThreeDMmeInstruction>>)
        ensures
            r is Some <==> self@.instructions.contains_key(address.0),
            r matches Some(register) ==> *register == self@.instructions[address.0],
    {
        self.instructions.get(&address.0)
    }

    #[must_use]
    pub fn instruction_count(&self) -> (r: usize)
        ensures
            r == self@.instructions.len(),
    {
        self.instructions.len()
    }

    #[must_use]
    pub fn start_address_pointer(&self) -> (r: &MaxwellThreeDRegister<MaxwellThreeDMmeRamAddress>)
        ensures
            *r == self@.start_address_pointer,
    {
        &self.start_address_pointer
    }

    #[must_use]
    pub fn next_start_address_index(&self) -> (r: Option<MaxwellThreeDMmeRamAddress>)
        ensures
            r == self@.next_start_address_index,
    {
        self.next_start_address_index
    }

    #[must_use]
    pub fn start_address(&self, index: MaxwellThreeDMmeRamAddress) -> (r: Option<&MaxwellThreeDRegister<MaxwellThreeDMmeRamAddress>>)
        ensures
            r is Some <==> self@.start_addresses.contains_key(index.0),
            r matches Some(register) ==> *register == self@.start_addresses[index.0],
    {
        self.start_addresses.get(&index.0)
    }

    #[must_use]
    pub fn start_address_count(&self) -> (r: usize)
        ensures
            r == self@.start_addresses.len(),
    {
        self.start_addresses.len()
    }

    #[must_use]
    pub fn shadow_ram_control(&self) -> (r: &MaxwellThreeDRegister<MaxwellThreeDMmeShadowRamControl>)
        ensures
            *r == self@.shadow_ram_control,
    {
        &self.shadow_ram_control
    }

    #[must_use]
    pub fn mutable_method_control(&self) -> (r: &MaxwellThreeDRegister<MaxwellThreeDMutableMethodControl>)
        ensures
            *r == self@.mutable_method_control,
    {
        &self.mutable_method_control
    }

    #[must_use]
    pub fn shadow_register(&self, method: GpuMethodId) -> (r: Option<&MaxwellThreeDRegister<u32>>)
        ensures
            r is Some <==> self@.shadow_registers.contains_key(method.0),
            r matches Some(register) ==> *register == self@.shadow_registers[method.0],
    {
        self.shadow_registers.get(&method.0)
    }

    #[must_use]
    pub fn shadow_scratch(&self, index: MaxwellThreeDMmeShadowScratchIndex) -> (r: Option<&MaxwellThreeDRegister<u32>>)
        ensures
            r is Some <==> self@.shadow_scratch.contains_key(index.0),
            r matches Some(register) ==> *register == self@.shadow_scratch[index.0],
    {
        self.shadow_scratch.get(&index.0)
    }

    #[must_use]
    pub fn shadow_scratch_count(&self) -> (r: usize)
        ensures
            r == self@.shadow_scratch.len(),
    {
        self.shadow_scratch.len()
    }

    /// Word of a scratch register, if it was written.
    #[must_use]
    pub fn scratch_word(&self, index: u8) -> (r: Option<u32>)
        ensures
            r == self@.scratch_word(index),
    {
        match self.shadow_scratch.get(&index) {
            Some(register) => register.raw,
            None => None,
        }
    }

    /// Argument that a method takes effect with; `reset` is the documented reset
    /// word of its register.
    pub fn resolve_shadow_argument(
        &self,
        method: GpuMethodId,
        submitted_argument: u32,
        reset: Option<u32>,
    ) -> (r: Result<u32, MaxwellThreeDMmeShadowRamError>)
        ensures
            r == self@.effective_argument(method, submitted_argument, reset),
    {
        let replay: bool = matches!(
            self.shadow_ram_control.value,
            Some(MaxwellThreeDMmeShadowRamControl::MethodReplay)
        );
        if method.0 == MAXWELL_THREE_D_MME_SHADOW_RAM_CONTROL_METHOD || !replay {
            return Ok(submitted_argument);
        }
        let shadow: Option<u32> = match self.shadow_registers.get(&method.0) {
            Some(register) => register.raw,
            None => None,
        };
        match (shadow, reset) {
            (Some(word), _) => Ok(word),
            (None, Some(word)) => Ok(word),
            (None, None) => Err(
                MaxwellThreeDMmeShadowRamError::ReplayRegisterUnavailable {
                    method_dword: (method.0 / 4) as u16,
                },
            ),
        }
    }

    /// Records a method in the shadow if the mode it went through under tracks.
    pub fn track_shadow_register(
        &mut self,
        control: Option<MaxwellThreeDMmeShadowRamControl>,
        source: MaxwellMethodSource,
    )
        ensures
            final(self)@ == old(self)@.shadowed(control, source),
    {
        if let Some(mode) = control {
            if mode.tracks() {
                self.shadow_registers.insert(
                    source.method().0,
                    MaxwellThreeDRegister::programmed(
                        source.argument(),
                        source.argument(),
                        source,
                    ),
                );
            }
        }
    }

    pub fn apply(&mut self, write: MaxwellThreeDMmeStateWrite)
        requires
            write.wf(),
        ensures
            final(self)@ == old(self)@.written(write),
    {
        match write {
            MaxwellThreeDMmeStateWrite::InstructionPointer { value, source } => {
                self.instruction_pointer = MaxwellThreeDRegister::programmed(
                    value.raw(),
                    value,
                    source,
                );
                self.next_instruction_address = Some(value);
            },
            MaxwellThreeDMmeStateWrite::Instruction { address, value, source } => {
                self.instructions.insert(
                    address.raw(),
                    MaxwellThreeDRegister::programmed(value.raw(), value, source),
                );
                self.next_instruction_address = Some(
                    MaxwellThreeDMmeRamAddress::new(address.raw() + 1),
                );
            },
            MaxwellThreeDMmeStateWrite::StartAddressPointer { value, source } => {
                self.start_address_pointer = MaxwellThreeDRegister::programmed(
                    value.raw(),
                    value,
                    source,
                );
                self.next_start_address_index = Some(value);
            },
            MaxwellThreeDMmeStateWrite::StartAddress { index, address, source } => {
                self.start_addresses.insert(
                    index.raw(),
                    MaxwellThreeDRegister::programmed(address.raw(), address, source),
                );
                self.next_start_address_index = Some(
                    MaxwellThreeDMmeRamAddress::new(index.raw() + 1),
                );
            },
            MaxwellThreeDMmeStateWrite::ShadowRamControl { value, source } => {
                self.shadow_ram_control = MaxwellThreeDRegister::programmed(
                    value.raw(),
                    value,
                    source,
                );
            },
            MaxwellThreeDMmeStateWrite::MutableMethodControl { value, source } => {
                self.mutable_method_control = MaxwellThreeDRegister::programmed(
                    value.raw(),
                    value,
                    source,
                );
            },
            MaxwellThreeDMmeStateWrite::ShadowScratch { index, value, source } => {
                self.shadow_scratch.insert(
                    index.raw(),
                    MaxwellThreeDRegister::programmed(value, value, source),
                );
            },
        }
    }
}

impl Default for MaxwellThreeDMmeState {
    fn default() -> (r: MaxwellThreeDMmeState)
        ensures
            r@ == MmeModel::unprogrammed(),
    {
        MaxwellThreeDMmeState::unprogrammed()
    }
}

} // verus!
