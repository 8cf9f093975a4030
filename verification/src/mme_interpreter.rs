//! Interpreter of captured macro programs.
//!
//! A macro runs against a host that reads registers and takes emitted methods.
//! The machine is stated as a function from one machine state to the next; the
//! interpreter computes exactly that function, and both instruction and emission
//! counts are bounded.

use vstd::prelude::*;
use crate::mme::{
    MaxwellThreeDMmeExecutionError, MaxwellThreeDMmeExecutionReport, MaxwellThreeDMmeRamAddress,
    MaxwellThreeDMmeState, MmeModel, MAXWELL_THREE_D_MME_EMITTED_METHOD_LIMIT,
    MAXWELL_THREE_D_MME_EXECUTION_INSTRUCTION_LIMIT,
};

verus! {

/// Host services used by the interpreter.
///
/// `Model` is the mathematical content of the host. Reading is a function of it,
/// and emitting a method is a function from it to the next content.
pub trait MaxwellThreeDMmeHost: Sized {
    type Error;

    type Model;

    spec fn model(&self) -> Self::Model;

    /// Condition under which the host can be used.
    spec fn ready(&self) -> bool;

    spec fn read_result(model: Self::Model, method_dword: u16) -> Result<u32, Self::Error>;

    spec fn emit_result(model: Self::Model, method_dword: u16, argument: u32) -> (
        Self::Model,
        Result<(), Self::Error>,
    );

    fn read_register(&self, method_dword: u16) -> (r: Result<u32, Self::Error>)
        requires
            self.ready(),
            method_dword <= 0xfff,
        ensures
            r == Self::read_result(self.model(), method_dword),
    ;

    fn emit_method(&mut self, method_dword: u16, argument: u32) -> (r: Result<(), Self::Error>)
        requires
            old(self).ready(),
            method_dword <= 0xfff,
        ensures
            final(self).ready(),
            (final(self).model(), r) == Self::emit_result(
                old(self).model(),
                method_dword,
                argument,
            ),
    ;
}

/// Failure of a run: a fault of the program, or a refusal by the host.
#[derive(Clone, Copy, Debug, PartialEq, Eq)]
pub enum MaxwellThreeDMmeRunError<E> {
    Execution(MaxwellThreeDMmeExecutionError),
    Host(E),
}

/// State of the machine between two instructions.
pub struct MmeMachine<M> {
    pub host: M,
    pub registers: Seq<u32>,
    pub pc: u32,
    pub delayed_pc: Option<u32>,
    pub next_parameter: usize,
    pub method_address: u16,
    pub method_increment: u8,
    pub carry: bool,
    pub instructions: u32,
    pub emitted_methods: u32,
}

impl<M> MmeMachine<M> {
    /// Register zero reads as zero, method addresses and increments fit their
    /// fields, and neither count exceeds its limit.
    pub open spec fn wf(self, parameters: nat) -> bool {
        &&& self.registers.len() == 8
        &&& self.registers[0] == 0
        &&& self.method_address <= 0xfff
        &&& self.method_increment <= 0x3f
        &&& self.instructions <= MAXWELL_THREE_D_MME_EXECUTION_INSTRUCTION_LIMIT
        &&& self.emitted_methods <= MAXWELL_THREE_D_MME_EMITTED_METHOD_LIMIT
        &&& self.next_parameter <= parameters
    }

    /// Machine at the start of a macro: the first parameter in register one.
    pub open spec fn started(host: M, pc: u32, first: u32) -> MmeMachine<M> {
        MmeMachine {
            host,
            registers: seq![0u32, first, 0u32, 0u32, 0u32, 0u32, 0u32, 0u32],
            pc,
            delayed_pc: None,
            next_parameter: 1,
            method_address: 0,
            method_increment: 0,
            carry: false,
            instructions: 0,
            emitted_methods: 0,
        }
    }

    /// Writes to register zero have no effect.
    pub open spec fn with_register(self, register: int, value: u32) -> MmeMachine<M> {
        if register == 0 {
            self
        } else {
            MmeMachine { registers: self.registers.update(register, value), ..self }
        }
    }

    /// Method address in bits 11:0 of a word, increment in bits 17:12.
    pub open spec fn with_method_address(self, raw: u32) -> MmeMachine<M> {
        MmeMachine {
            method_address: (raw & 0xfff) as u16,
            method_increment: ((raw >> 12) & 0x3f) as u8,
            ..self
        }
    }
}

/// Outcome of one piece of a step.
pub type MmeOutcome<T, H> = (
    MmeMachine<<H as MaxwellThreeDMmeHost>::Model>,
    Result<T, MaxwellThreeDMmeRunError<<H as MaxwellThreeDMmeHost>::Error>>,
);

/// Signed 18-bit immediate in bits 31:14.
pub open spec fn signed_immediate_value(raw: u32) -> int {
    let field = raw / 0x4000;
    if field >= 0x2_0000 {
        field - 0x4_0000
    } else {
        field as int
    }
}

/// Branch target, if it is an address.
pub open spec fn branch_target(base: u32, raw: u32) -> Option<u32> {
    let target = base + signed_immediate_value(raw);
    if 0 <= target <= u32::MAX {
        Some(target as u32)
    } else {
        None
    }
}

/// Sum of a register and the immediate, modulo the word size.
pub open spec fn immediate_sum(a: u32, raw: u32) -> u32 {
    ((a + signed_immediate_value(raw)) % 0x1_0000_0000) as u32
}

/// Mask of as many low bits as bits 26:22 say.
pub open spec fn spec_bitfield_mask(raw: u32) -> u32 {
    (1u32 << ((raw >> 22) & 0x1f)).wrapping_sub(1)
}

/// Result and carry of one arithmetic or logic operation, if it is defined.
pub open spec fn alu_result(operation: u8, a: u32, b: u32, carry: bool) -> Option<(u32, bool)> {
    let carry_in: int = if carry {
        1
    } else {
        0
    };
    match operation {
        0 => Some((((a + b) % 0x1_0000_0000) as u32, a + b > u32::MAX)),
        1 => Some((((a + b + carry_in) % 0x1_0000_0000) as u32, a + b + carry_in > u32::MAX)),
        2 => Some((((a - b) % 0x1_0000_0000) as u32, a >= b)),
        3 => Some((((a - b - (1 - carry_in)) % 0x1_0000_0000) as u32, a >= b + (1 - carry_in))),
        8 => Some((a ^ b, carry)),
        9 => Some((a | b, carry)),
        10 => Some((a & b, carry)),
        11 => Some((a & !b, carry)),
        12 => Some((!(a & b), carry)),
        _ => None,
    }
}

/// Fetches the next parameter.
pub open spec fn fetched<H: MaxwellThreeDMmeHost>(
    parameters: Seq<u32>,
    machine: MmeMachine<H::Model>,
) -> MmeOutcome<u32, H> {
    if machine.next_parameter < parameters.len() {
        (
            MmeMachine { next_parameter: (machine.next_parameter + 1) as usize, ..machine },
            Ok(parameters[machine.next_parameter as int]),
        )
    } else {
        (
            machine,
            Err(
                MaxwellThreeDMmeRunError::Execution(
                    MaxwellThreeDMmeExecutionError::ParameterUnavailable {
                        index: machine.next_parameter,
                    },
                ),
            ),
        )
    }
}

/// Emits one method and advances the method address by the increment.
pub open spec fn sent<H: MaxwellThreeDMmeHost>(
    machine: MmeMachine<H::Model>,
    value: u32,
) -> MmeOutcome<(), H> {
    if machine.emitted_methods == MAXWELL_THREE_D_MME_EMITTED_METHOD_LIMIT {
        (
            machine,
            Err(
                MaxwellThreeDMmeRunError::Execution(
                    MaxwellThreeDMmeExecutionError::EmittedMethodLimitExceeded {
                        limit: MAXWELL_THREE_D_MME_EMITTED_METHOD_LIMIT,
                    },
                ),
            ),
        )
    } else {
        let (host, result) = H::emit_result(machine.host, machine.method_address, value);
        match result {
            Err(error) => (
                MmeMachine { host, ..machine },
                Err(MaxwellThreeDMmeRunError::Host(error)),
            ),
            Ok(_) => (
                MmeMachine {
                    host,
                    emitted_methods: (machine.emitted_methods + 1) as u32,
                    method_address: (((machine.method_address + machine.method_increment) as u32)
                        & 0xfff) as u16,
                    ..machine
                },
                Ok(()),
            ),
        }
    }
}

/// Result stage of an instruction: where the result and parameters go.
pub open spec fn processed<H: MaxwellThreeDMmeHost>(
    parameters: Seq<u32>,
    machine: MmeMachine<H::Model>,
    operation: u32,
    destination: int,
    result: u32,
) -> MmeOutcome<(), H> {
    if operation == 0 || operation == 3 || operation == 5 {
        let (fetched_machine, parameter) = fetched::<H>(parameters, machine);
        match parameter {
            Err(error) => (fetched_machine, Err(error)),
            Ok(value) => {
                let next = fetched_machine.with_register(destination, value);
                if operation == 0 {
                    (next, Ok(()))
                } else if operation == 3 {
                    sent::<H>(next, result)
                } else {
                    (next.with_method_address(result), Ok(()))
                }
            },
        }
    } else {
        let next = machine.with_register(destination, result);
        if operation == 1 {
            (next, Ok(()))
        } else if operation == 2 {
            (next.with_method_address(result), Ok(()))
        } else if operation == 4 {
            sent::<H>(next, result)
        } else if operation == 6 {
            let (fetched_machine, parameter) = fetched::<H>(
                parameters,
                next.with_method_address(result),
            );
            match parameter {
                Err(error) => (fetched_machine, Err(error)),
                Ok(value) => sent::<H>(fetched_machine, value),
            }
        } else {
            sent::<H>(next.with_method_address(result), (result >> 12) & 0x3f)
        }
    }
}

/// Value stage of an instruction that is not a branch.
pub open spec fn computed<H: MaxwellThreeDMmeHost>(
    machine: MmeMachine<H::Model>,
    address: MaxwellThreeDMmeRamAddress,
    raw: u32,
) -> MmeOutcome<u32, H> {
    let a = machine.registers[((raw >> 11) & 7) as int];
    let b = machine.registers[((raw >> 14) & 7) as int];
    let operation = raw & 7;
    if operation == 0 {
        let function = ((raw >> 17) & 0x1f) as u8;
        match alu_result(function, a, b, machine.carry) {
            Some((value, carry)) => (MmeMachine { carry, ..machine }, Ok(value)),
            None => (
                machine,
                Err(
                    MaxwellThreeDMmeRunError::Execution(
                        MaxwellThreeDMmeExecutionError::InvalidAluOperation {
                            address,
                            operation: function,
                        },
                    ),
                ),
            ),
        }
    } else if operation == 1 {
        (machine, Ok(immediate_sum(a, raw)))
    } else if operation == 2 {
        let mask = spec_bitfield_mask(raw);
        let field = (b >> ((raw >> 17) & 0x1f)) & mask;
        (
            machine,
            Ok(
                (a & !(mask << ((raw >> 27) & 0x1f))) | (field << ((raw >> 27) & 0x1f)),
            ),
        )
    } else if operation == 3 {
        (machine, Ok(((b >> (a & 0x1f)) & spec_bitfield_mask(raw)) << ((raw >> 27) & 0x1f)))
    } else if operation == 4 {
        (machine, Ok(((b >> ((raw >> 17) & 0x1f)) & spec_bitfield_mask(raw)) << (a & 0x1f)))
    } else if operation == 5 {
        let method = immediate_sum(a, raw);
        if method > 0xfff {
            (
                machine,
                Err(
                    MaxwellThreeDMmeRunError::Execution(
                        MaxwellThreeDMmeExecutionError::RegisterReadUnavailable {
                            method_dword: method as u16,
                        },
                    ),
                ),
            )
        } else {
            match H::read_result(machine.host, method as u16) {
                Ok(value) => (machine, Ok(value)),
                Err(error) => (machine, Err(MaxwellThreeDMmeRunError::Host(error))),
            }
        }
    } else {
        (
            machine,
            Err(
                MaxwellThreeDMmeRunError::Execution(
                    MaxwellThreeDMmeExecutionError::InvalidOperation {
                        address,
                        operation: operation as u8,
                    },
                ),
            ),
        )
    }
}

/// Value and result stages of an instruction that is not a branch.
pub open spec fn calculated<H: MaxwellThreeDMmeHost>(
    parameters: Seq<u32>,
    machine: MmeMachine<H::Model>,
    address: MaxwellThreeDMmeRamAddress,
    raw: u32,
) -> MmeOutcome<(), H> {
    let (next, value) = computed::<H>(machine, address, raw);
    match value {
        Err(error) => (next, Err(error)),
        Ok(result) => processed::<H>(
            parameters,
            next,
            (raw >> 4) & 7,
            ((raw >> 8) & 7) as int,
            result,
        ),
    }
}

/// Whether a branch is taken: on zero, or on nonzero where bit 4 is set.
pub open spec fn branch_taken(raw: u32, value: u32) -> bool {
    if raw & 0x10 == 0 {
        value == 0
    } else {
        value != 0
    }
}

/// Machine after an instruction was fetched: it is counted, and the program
/// counter moves to the pending branch target or to the next address.
pub open spec fn advanced<M>(machine: MmeMachine<M>) -> MmeMachine<M> {
    MmeMachine {
        instructions: (machine.instructions + 1) as u32,
        pc: match machine.delayed_pc {
            Some(target) => target,
            None => (machine.pc + 1) as u32,
        },
        delayed_pc: None,
        ..machine
    }
}

/// One instruction, with the instruction in its delay slot where it has one.
/// `Ok(true)` means that the macro continues.
pub open spec fn stepped<H: MaxwellThreeDMmeHost>(
    program: MmeModel,
    parameters: Seq<u32>,
    machine: MmeMachine<H::Model>,
    is_delay_slot: bool,
) -> MmeOutcome<bool, H>
    decreases
            if is_delay_slot {
                0int
            } else {
                1int
            },
{
    let address = MaxwellThreeDMmeRamAddress(machine.pc);
    if machine.instructions == MAXWELL_THREE_D_MME_EXECUTION_INSTRUCTION_LIMIT {
        (
            machine,
            Err(
                MaxwellThreeDMmeRunError::Execution(
                    MaxwellThreeDMmeExecutionError::InstructionLimitExceeded {
                        limit: MAXWELL_THREE_D_MME_EXECUTION_INSTRUCTION_LIMIT,
                    },
                ),
            ),
        )
    } else {
        match program.instruction_word(machine.pc) {
            None => (
                machine,
                Err(
                    MaxwellThreeDMmeRunError::Execution(
                        MaxwellThreeDMmeExecutionError::MissingInstruction { address },
                    ),
                ),
            ),
            Some(raw) => if machine.pc == u32::MAX {
                (
                    MmeMachine { instructions: (machine.instructions + 1) as u32, ..machine },
                    Err(
                        MaxwellThreeDMmeRunError::Execution(
                            MaxwellThreeDMmeExecutionError::ProgramCounterOverflow { address },
                        ),
                    ),
                )
            } else {
                let next = advanced(machine);
                let ends = raw & 0x80 != 0 && !is_delay_slot;
                if raw & 7 == 7 {
                    if is_delay_slot {
                        (
                            next,
                            Err(
                                MaxwellThreeDMmeRunError::Execution(
                                    MaxwellThreeDMmeExecutionError::BranchInDelaySlot { address },
                                ),
                            ),
                        )
                    } else if branch_taken(raw, next.registers[((raw >> 11) & 7) as int]) {
                        match branch_target(machine.pc, raw) {
                            None => (
                                next,
                                Err(
                                    MaxwellThreeDMmeRunError::Execution(
                                        MaxwellThreeDMmeExecutionError::ProgramCounterOverflow {
                                            address,
                                        },
                                    ),
                                ),
                            ),
                            Some(target) => if raw & 0x20 != 0 {
                                (MmeMachine { pc: target, ..next }, Ok(true))
                            } else {
                                stepped::<H>(
                                    program,
                                    parameters,
                                    MmeMachine { delayed_pc: Some(target), ..next },
                                    true,
                                )
                            },
                        }
                    } else if ends {
                        let (last, result) = stepped::<H>(program, parameters, next, true);
                        match result {
                            Ok(_) => (last, Ok(false)),
                            Err(error) => (last, Err(error)),
                        }
                    } else {
                        (next, Ok(true))
                    }
                } else {
                    let (after, outcome) = calculated::<H>(parameters, next, address, raw);
                    match outcome {
                        Err(error) => (after, Err(error)),
                        Ok(_) => if ends {
                            let (last, result) = stepped::<H>(program, parameters, after, true);
                            match result {
                                Ok(_) => (last, Ok(false)),
                                Err(error) => (last, Err(error)),
                            }
                        } else {
                            (after, Ok(true))
                        },
                    }
                }
            },
        }
    }
}

/// Steps until the macro ends or fails, for at most `fuel` steps. Each step retires
/// an instruction, so one more step than the instruction limit is always enough.
pub open spec fn ran<H: MaxwellThreeDMmeHost>(
    program: MmeModel,
    parameters: Seq<u32>,
    machine: MmeMachine<H::Model>,
    fuel: nat,
) -> MmeOutcome<(), H>
    decreases fuel,
{
    if fuel == 0 {
        (machine, Ok(()))
    } else {
        let (next, result) = stepped::<H>(program, parameters, machine, false);
        match result {
            Err(error) => (next, Err(error)),
            Ok(true) => ran::<H>(program, parameters, next, (fuel - 1) as nat),
            Ok(false) => (next, Ok(())),
        }
    }
}

/// One whole invocation: the final host content, and the report or the failure.
#[verifier::opaque]
pub open spec fn executed<H: MaxwellThreeDMmeHost>(
    program: MmeModel,
    macro_index: u8,
    parameters: Seq<u32>,
    host: H::Model,
) -> (
    H::Model,
    Result<MaxwellThreeDMmeExecutionReport, MaxwellThreeDMmeRunError<H::Error>>,
) {
    match program.start_of(macro_index) {
        None => (
            host,
            Err(
                MaxwellThreeDMmeRunError::Execution(
                    MaxwellThreeDMmeExecutionError::MissingStartAddress { macro_index },
                ),
            ),
        ),
        Some(start) => if parameters.len() == 0 {
            (
                host,
                Err(
                    MaxwellThreeDMmeRunError::Execution(
                        MaxwellThreeDMmeExecutionError::ParameterUnavailable { index: 0 },
                    ),
                ),
            )
        } else {
            let (last, result) = ran::<H>(
                program,
                parameters,
                MmeMachine::started(host, start, parameters[0]),
                (MAXWELL_THREE_D_MME_EXECUTION_INSTRUCTION_LIMIT + 1) as nat,
            );
            match result {
                Err(error) => (last.host, Err(error)),
                Ok(_) => if last.next_parameter != parameters.len() {
                    (
                        last.host,
                        Err(
                            MaxwellThreeDMmeRunError::Execution(
                                MaxwellThreeDMmeExecutionError::UnconsumedParameters {
                                    consumed: last.next_parameter,
                                    supplied: parameters.len() as usize,
                                },
                            ),
                        ),
                    )
                } else {
                    (
                        last.host,
                        Ok(
                            MaxwellThreeDMmeExecutionReport {
                                instructions: last.instructions,
                                emitted_methods: last.emitted_methods,
                            },
                        ),
                    )
                },
            }
        },
    }
}

/// Field extractions stay inside their widths.
proof fn lemma_fields(x: u32)
    ensures
        x & 0x1f < 32,
        x & 7 < 8,
        x & 0xfff <= 0xfff,
        x & 0x3f <= 0x3f,
{
    assert(x & 0x1f < 32 && x & 7 < 8 && x & 0xfff <= 0xfff && x & 0x3f <= 0x3f) by (bit_vector);
}

fn signed_immediate(raw: u32) -> (r: i32)
    ensures
        r == signed_immediate_value(raw),
{
    let field: u32 = raw / 0x4000;
    if field >= 0x2_0000 {
        field as i32 - 0x4_0000
    } else {
        field as i32
    }
}

fn add_signed_18(base: u32, raw: u32) -> (r: Option<u32>)
    ensures
        r == branch_target(base, raw),
{
    let target: i64 = base as i64 + signed_immediate(raw) as i64;
    if 0 <= target && target <= 0xffff_ffff {
        Some(target as u32)
    } else {
        None
    }
}

fn add_immediate(a: u32, raw: u32) -> (r: u32)
    ensures
        r == immediate_sum(a, raw),
{
    let sum: i64 = a as i64 + signed_immediate(raw) as i64;
    if sum < 0 {
        (sum + 0x1_0000_0000) as u32
    } else if sum > 0xffff_ffff {
        (sum - 0x1_0000_0000) as u32
    } else {
        sum as u32
    }
}

fn bitfield_mask(raw: u32) -> (r: u32)
    ensures
        r == spec_bitfield_mask(raw),
{
    proof {
        lemma_fields(raw >> 22);
    }
    (1u32 << ((raw >> 22) & 0x1f)).wrapping_sub(1)
}

fn alu(operation: u8, a: u32, b: u32, carry: bool) -> (r: Option<(u32, bool)>)
    ensures
        r == alu_result(operation, a, b, carry),
{
    let carry_in: u64 = if carry {
        1
    } else {
        0
    };
    match operation {
        0 => {
            let sum: u64 = a as u64 + b as u64;
            Some(((sum % 0x1_0000_0000) as u32, sum > 0xffff_ffff))
        },
        1 => {
            let sum: u64 = a as u64 + b as u64 + carry_in;
            Some(((sum % 0x1_0000_0000) as u32, sum > 0xffff_ffff))
        },
        2 => {
            let difference: u64 = a as u64 + 0x1_0000_0000 - b as u64;
            Some(((difference % 0x1_0000_0000) as u32, a >= b))
        },
        3 => {
            let borrow: u64 = 1 - carry_in;
            let difference: u64 = a as u64 + 0x1_0000_0000 - b as u64 - borrow;
            Some(((difference % 0x1_0000_0000) as u32, a as u64 >= b as u64 + borrow))
        },
        8 => Some((a ^ b, carry)),
        9 => Some((a | b, carry)),
        10 => Some((a & b, carry)),
        11 => Some((a & !b, carry)),
        12 => Some((!(a & b), carry)),
        _ => None,
    }
}

/// Registers and counters of one running macro.
pub struct MaxwellThreeDMmeInterpreter<'a> {
    pub program: &'a MaxwellThreeDMmeState,
    pub parameters: &'a [u32],
    pub registers: [u32; 8],
    pub pc: u32,
    pub delayed_pc: Option<u32>,
    pub next_parameter: usize,
    pub method_address: u16,
    pub method_increment: u8,
    pub carry: bool,
    pub instructions: u32,
    pub emitted_methods: u32,
}

impl<'a> MaxwellThreeDMmeInterpreter<'a> {
    /// Machine state with a given host content.
    pub open spec fn machine<M>(&self, host: M) -> MmeMachine<M> {
        MmeMachine {
            host,
            registers: self.registers@,
            pc: self.pc,
            delayed_pc: self.delayed_pc,
            next_parameter: self.next_parameter,
            method_address: self.method_address,
            method_increment: self.method_increment,
            carry: self.carry,
            instructions: self.instructions,
            emitted_methods: self.emitted_methods,
        }
    }

    pub open spec fn wf(&self) -> bool {
        self.machine(()).wf(self.parameters@.len())
    }

    fn set_register(&mut self, register: usize, value: u32)
        requires
            old(self).wf(),
            register < 8,
        ensures
            final(self).wf(),
            final(self).program == old(self).program,
            final(self).parameters == old(self).parameters,
            final(self).machine(()) == old(self).machine(()).with_register(register as int, value),
    {
        if register != 0 {
            self.registers[register] = value;
        }
    }

    fn set_method_address(&mut self, raw: u32)
        requires
            old(self).wf(),
        ensures
            final(self).wf(),
            final(self).program == old(self).program,
            final(self).parameters == old(self).parameters,
            final(self).machine(()) == old(self).machine(()).with_method_address(raw),
    {
        proof {
            lemma_fields(raw);
            lemma_fields(raw >> 12);
        }
        self.method_address = (raw & 0xfff) as u16;
        self.method_increment = ((raw >> 12) & 0x3f) as u8;
    }

    fn fetch_parameter<H: MaxwellThreeDMmeHost>(&mut self, host: &H) -> (r: Result<
        u32,
        MaxwellThreeDMmeRunError<H::Error>,
    >)
        requires
            old(self).wf(),
        ensures
            final(self).wf(),
            final(self).program == old(self).program,
            final(self).parameters == old(self).parameters,
            (final(self).machine(host.model()), r) == fetched::<H>(
                old(self).parameters@,
                old(self).machine(host.model()),
            ),
    {
        let index: usize = self.next_parameter;
        if index < self.parameters.len() {
            self.next_parameter = index + 1;
            Ok(self.parameters[index])
        } else {
            Err(
                MaxwellThreeDMmeRunError::Execution(
                    MaxwellThreeDMmeExecutionError::ParameterUnavailable { index },
                ),
            )
        }
    }

    fn send<H: MaxwellThreeDMmeHost>(&mut self, host: &mut H, value: u32) -> (r: Result<
        (),
        MaxwellThreeDMmeRunError<H::Error>,
    >)
        requires
            old(self).wf(),
            old(host).ready(),
        ensures
            final(self).wf(),
            final(host).ready(),
            final(self).program == old(self).program,
            final(self).parameters == old(self).parameters,
            (final(self).machine(final(host).model()), r) == sent::<H>(
                old(self).machine(old(host).model()),
                value,
            ),
    {
        if self.emitted_methods == MAXWELL_THREE_D_MME_EMITTED_METHOD_LIMIT {
            return Err(
                MaxwellThreeDMmeRunError::Execution(
                    MaxwellThreeDMmeExecutionError::EmittedMethodLimitExceeded {
                        limit: MAXWELL_THREE_D_MME_EMITTED_METHOD_LIMIT,
                    },
                ),
            );
        }
        match host.emit_method(self.method_address, value) {
            Err(error) => Err(MaxwellThreeDMmeRunError::Host(error)),
            Ok(_) => {
                self.emitted_methods = self.emitted_methods + 1;
                let next: u32 = self.method_address as u32 + self.method_increment as u32;
                proof {
                    lemma_fields(next);
                }
                self.method_address = (next & 0xfff) as u16;
                Ok(())
            },
        }
    }

    fn process_result<H: MaxwellThreeDMmeHost>(
        &mut self,
        host: &mut H,
        operation: u32,
        destination: usize,
        result: u32,
    ) -> (r: Result<(), MaxwellThreeDMmeRunError<H::Error>>)
        requires
            old(self).wf(),
            old(host).ready(),
            destination < 8,
        ensures
            final(self).wf(),
            final(host).ready(),
            final(self).program == old(self).program,
            final(self).parameters == old(self).parameters,
            (final(self).machine(final(host).model()), r) == processed::<H>(
                old(self).parameters@,
                old(self).machine(old(host).model()),
                operation,
                destination as int,
                result,
            ),
    {
        if operation == 0 || operation == 3 || operation == 5 {
            let parameter: u32 = match self.fetch_parameter(&*host) {
                Ok(parameter) => parameter,
                Err(error) => {
                    return Err(error);
                },
            };
            self.set_register(destination, parameter);
            if operation == 3 {
                return self.send(host, result);
            }
            if operation == 5 {
                self.set_method_address(result);
            }
            return Ok(());
        }
        self.set_register(destination, result);
        if operation == 1 {
            return Ok(());
        }
        if operation == 4 {
            return self.send(host, result);
        }
        self.set_method_address(result);
        if operation == 2 {
            return Ok(());
        }
        if operation == 6 {
            let parameter: u32 = match self.fetch_parameter(&*host) {
                Ok(parameter) => parameter,
                Err(error) => {
                    return Err(error);
                },
            };
            return self.send(host, parameter);
        }
        self.send(host, (result >> 12) & 0x3f)
    }

    fn compute<H: MaxwellThreeDMmeHost>(
        &mut self,
        host: &H,
        address: MaxwellThreeDMmeRamAddress,
        raw: u32,
    ) -> (r: Result<u32, MaxwellThreeDMmeRunError<H::Error>>)
        requires
            old(self).wf(),
            host.ready(),
        ensures
            final(self).wf(),
            final(self).program == old(self).program,
            final(self).parameters == old(self).parameters,
            (final(self).machine(host.model()), r) == computed::<H>(
                old(self).machine(host.model()),
                address,
                raw,
            ),
    {
        proof {
            lemma_fields(raw >> 11);
            lemma_fields(raw >> 14);
            lemma_fields(raw >> 17);
            lemma_fields(raw >> 27);
            lemma_fields(raw);
        }
        let a: u32 = self.registers[((raw >> 11) & 7) as usize];
        let b: u32 = self.registers[((raw >> 14) & 7) as usize];
        proof {
            lemma_fields(a);
        }
        let operation: u32 = raw & 7;
        if operation == 0 {
            let function: u8 = ((raw >> 17) & 0x1f) as u8;
            match alu(function, a, b, self.carry) {
                Some((value, carry)) => {
                    self.carry = carry;
                    Ok(value)
                },
                None => Err(
                    MaxwellThreeDMmeRunError::Execution(
                        MaxwellThreeDMmeExecutionError::InvalidAluOperation {
                            address,
                            operation: function,
                        },
                    ),
                ),
            }
        } else if operation == 1 {
            Ok(add_immediate(a, raw))
        } else if operation == 2 {
            let mask: u32 = bitfield_mask(raw);
            let field: u32 = (b >> ((raw >> 17) & 0x1f)) & mask;
            Ok((a & !(mask << ((raw >> 27) & 0x1f))) | (field << ((raw >> 27) & 0x1f)))
        } else if operation == 3 {
            let mask: u32 = bitfield_mask(raw);
            Ok(((b >> (a & 0x1f)) & mask) << ((raw >> 27) & 0x1f))
        } else if operation == 4 {
            let mask: u32 = bitfield_mask(raw);
            Ok(((b >> ((raw >> 17) & 0x1f)) & mask) << (a & 0x1f))
        } else if operation == 5 {
            let method: u32 = add_immediate(a, raw);
            if method > 0xfff {
                return Err(
                    MaxwellThreeDMmeRunError::Execution(
                        MaxwellThreeDMmeExecutionError::RegisterReadUnavailable {
                            method_dword: method as u16,
                        },
                    ),
                );
            }
            match host.read_register(method as u16) {
                Ok(value) => Ok(value),
                Err(error) => Err(MaxwellThreeDMmeRunError::Host(error)),
            }
        } else {
            Err(
                MaxwellThreeDMmeRunError::Execution(
                    MaxwellThreeDMmeExecutionError::InvalidOperation {
                        address,
                        operation: operation as u8,
                    },
                ),
            )
        }
    }

    fn instruction_word(&self, address: u32) -> (r: Option<u32>)
        ensures
            r == self.program@.instruction_word(address),
    {
        match self.program.instruction(MaxwellThreeDMmeRamAddress(address)) {
            Some(register) => match register.value {
                Some(instruction) => Some(instruction.raw()),
                None => None,
            },
            None => None,
        }
    }

    /// Executes one instruction and its delay slot.
    pub fn step<H: MaxwellThreeDMmeHost>(&mut self, host: &mut H, is_delay_slot: bool) -> (r:
        Result<bool, MaxwellThreeDMmeRunError<H::Error>>)
        requires
            old(self).wf(),
            old(host).ready(),
        ensures
            final(self).wf(),
            final(host).ready(),
            final(self).program == old(self).program,
            final(self).parameters == old(self).parameters,
            (final(self).machine(final(host).model()), r) == stepped::<H>(
                old(self).program@,
                old(self).parameters@,
                old(self).machine(old(host).model()),
                is_delay_slot,
            ),
            final(self).instructions >= old(self).instructions,
            r is Ok ==> final(self).instructions > old(self).instructions,
        decreases
                if is_delay_slot {
                    0int
                } else {
                    1int
                },
    {
        if self.instructions == MAXWELL_THREE_D_MME_EXECUTION_INSTRUCTION_LIMIT {
            return Err(
                MaxwellThreeDMmeRunError::Execution(
                    MaxwellThreeDMmeExecutionError::InstructionLimitExceeded {
                        limit: MAXWELL_THREE_D_MME_EXECUTION_INSTRUCTION_LIMIT,
                    },
                ),
            );
        }
        let base: u32 = self.pc;
        let address = MaxwellThreeDMmeRamAddress(base);
        let raw: u32 = match self.instruction_word(base) {
            Some(raw) => raw,
            None => {
                return Err(
                    MaxwellThreeDMmeRunError::Execution(
                        MaxwellThreeDMmeExecutionError::MissingInstruction { address },
                    ),
                );
            },
        };
        self.instructions = self.instructions + 1;
        if base == 0xffff_ffff {
            return Err(
                MaxwellThreeDMmeRunError::Execution(
                    MaxwellThreeDMmeExecutionError::ProgramCounterOverflow { address },
                ),
            );
        }
        self.pc = match self.delayed_pc {
            Some(target) => target,
            None => base + 1,
        };
        self.delayed_pc = None;
        assert(self.machine(host.model()) == advanced(old(self).machine(old(host).model())));
        proof {
            lemma_fields(raw >> 8);
            lemma_fields(raw >> 11);
        }
        if raw & 7 == 7 {
            if is_delay_slot {
                return Err(
                    MaxwellThreeDMmeRunError::Execution(
                        MaxwellThreeDMmeExecutionError::BranchInDelaySlot { address },
                    ),
                );
            }
            let value: u32 = self.registers[((raw >> 11) & 7) as usize];
            let taken: bool = if raw & 0x10 == 0 {
                value == 0
            } else {
                value != 0
            };
            if taken {
                let target: u32 = match add_signed_18(base, raw) {
                    Some(target) => target,
                    None => {
                        return Err(
                            MaxwellThreeDMmeRunError::Execution(
                                MaxwellThreeDMmeExecutionError::ProgramCounterOverflow { address },
                            ),
                        );
                    },
                };
                if raw & 0x20 != 0 {
                    self.pc = target;
                    return Ok(true);
                }
                self.delayed_pc = Some(target);
                return self.step(host, true);
            }
        } else {
            let result: u32 = match self.compute(&*host, address, raw) {
                Ok(result) => result,
                Err(error) => {
                    return Err(error);
                },
            };
            match self.process_result(host, (raw >> 4) & 7, ((raw >> 8) & 7) as usize, result) {
                Ok(_) => {},
                Err(error) => {
                    return Err(error);
                },
            }
        }
        if raw & 0x80 != 0 && !is_delay_slot {
            return match self.step(host, true) {
                Ok(_) => Ok(false),
                Err(error) => Err(error),
            };
        }
        Ok(true)
    }
}

impl MaxwellThreeDMmeState {
    fn start_word(&self, macro_index: u8) -> (r: Option<u32>)
        ensures
            r == self@.start_of(macro_index),
    {
        match self.start_address(MaxwellThreeDMmeRamAddress(macro_index as u32)) {
            Some(register) => match register.value {
                Some(address) => Some(address.raw()),
                None => None,
            },
            None => None,
        }
    }

    /// Executes one macro against a host.
    ///
    /// A completed run consumed every parameter and stayed inside both limits.
    pub fn execute<H: MaxwellThreeDMmeHost>(
        &self,
        macro_index: u8,
        parameters: &[u32],
        host: &mut H,
    ) -> (r: Result<MaxwellThreeDMmeExecutionReport, MaxwellThreeDMmeRunError<H::Error>>)
        requires
            old(host).ready(),
        ensures
            final(host).ready(),
            (final(host).model(), r) == executed::<H>(
                self@,
                macro_index,
                parameters@,
                old(host).model(),
            ),
            r matches Ok(report) ==> report.instructions
                <= MAXWELL_THREE_D_MME_EXECUTION_INSTRUCTION_LIMIT && report.emitted_methods
                <= MAXWELL_THREE_D_MME_EMITTED_METHOD_LIMIT,
    {
        reveal(executed);
        let start: u32 = match self.start_word(macro_index) {
            Some(start) => start,
            None => {
                return Err(
                    MaxwellThreeDMmeRunError::Execution(
                        MaxwellThreeDMmeExecutionError::MissingStartAddress { macro_index },
                    ),
                );
            },
        };
        if parameters.len() == 0 {
            return Err(
                MaxwellThreeDMmeRunError::Execution(
                    MaxwellThreeDMmeExecutionError::ParameterUnavailable { index: 0 },
                ),
            );
        }
        let mut interpreter = MaxwellThreeDMmeInterpreter {
            program: self,
            parameters,
            registers: [0, parameters[0], 0, 0, 0, 0, 0, 0],
            pc: start,
            delayed_pc: None,
            next_parameter: 1,
            method_address: 0,
            method_increment: 0,
            carry: false,
            instructions: 0,
            emitted_methods: 0,
        };
        let ghost first = MmeMachine::started(old(host).model(), start, parameters@[0]);
        assert(interpreter.registers@ =~= first.registers);
        let ghost limit = (MAXWELL_THREE_D_MME_EXECUTION_INSTRUCTION_LIMIT + 1) as nat;
        let ghost mut fuel: nat = limit;
        let mut running: bool = true;
        while running
            invariant
                host.ready(),
                interpreter.wf(),
                interpreter.program == self,
                interpreter.parameters == parameters,
                fuel + interpreter.instructions >= limit,
                limit == MAXWELL_THREE_D_MME_EXECUTION_INSTRUCTION_LIMIT + 1,
                running ==> ran::<H>(self@, parameters@, first, limit) == ran::<H>(
                    self@,
                    parameters@,
                    interpreter.machine(host.model()),
                    fuel,
                ),
                !running ==> ran::<H>(self@, parameters@, first, limit) == (
                    interpreter.machine(host.model()),
                    Ok::<(), MaxwellThreeDMmeRunError<H::Error>>(()),
                ),
                executed::<H>(self@, macro_index, parameters@, old(host).model()) == ({
                    let (last, result) = ran::<H>(self@, parameters@, first, limit);
                    match result {
                        Err(error) => (
                            last.host,
                            Err::<
                                MaxwellThreeDMmeExecutionReport,
                                MaxwellThreeDMmeRunError<H::Error>,
                            >(error),
                        ),
                        Ok(_) => if last.next_parameter != parameters@.len() {
                            (
                                last.host,
                                Err(
                                    MaxwellThreeDMmeRunError::Execution(
                                        MaxwellThreeDMmeExecutionError::UnconsumedParameters {
                                            consumed: last.next_parameter,
                                            supplied: parameters@.len() as usize,
                                        },
                                    ),
                                ),
                            )
                        } else {
                            (
                                last.host,
                                Ok(
                                    MaxwellThreeDMmeExecutionReport {
                                        instructions: last.instructions,
                                        emitted_methods: last.emitted_methods,
                                    },
                                ),
                            )
                        },
                    }
                }),
            decreases MAXWELL_THREE_D_MME_EXECUTION_INSTRUCTION_LIMIT + 1
                - interpreter.instructions + if running {
                1int
            } else {
                0int
            },
        {
            match interpreter.step(host, false) {
                Ok(continues) => {
                    running = continues;
                },
                Err(error) => {
                    return Err(error);
                },
            }
            proof {
                fuel = (fuel - 1) as nat;
            }
        }
        if interpreter.next_parameter != parameters.len() {
            return Err(
                MaxwellThreeDMmeRunError::Execution(
                    MaxwellThreeDMmeExecutionError::UnconsumedParameters {
                        consumed: interpreter.next_parameter,
                        supplied: parameters.len(),
                    },
                ),
            );
        }
        Ok(
            MaxwellThreeDMmeExecutionReport {
                instructions: interpreter.instructions,
                emitted_methods: interpreter.emitted_methods,
            },
        )
    }
}

/// Machine invariants survive each stage of an instruction.
proof fn lemma_calculation_keeps_machine<H: MaxwellThreeDMmeHost>(
    parameters: Seq<u32>,
    machine: MmeMachine<H::Model>,
    address: MaxwellThreeDMmeRamAddress,
    raw: u32,
)
    requires
        machine.wf(parameters.len()),
        parameters.len() <= usize::MAX,
    ensures
        calculated::<H>(parameters, machine, address, raw).0.wf(parameters.len()),
        calculated::<H>(parameters, machine, address, raw).0.instructions == machine.instructions,
{
    let (next, value) = computed::<H>(machine, address, raw);
    lemma_fields(raw >> 8);
    if let Ok(result) = value {
        lemma_fields(result);
        lemma_fields(result >> 12);
        lemma_fields((machine.method_address + machine.method_increment) as u32);
        let addressed = next.with_method_address(result);
        lemma_fields((addressed.method_address + addressed.method_increment) as u32);
    }
}

/// Machine invariants survive a step, and a step that does not fail retires an
/// instruction.
pub proof fn law_step_keeps_machine<H: MaxwellThreeDMmeHost>(
    program: MmeModel,
    parameters: Seq<u32>,
    machine: MmeMachine<H::Model>,
    is_delay_slot: bool,
)
    requires
        machine.wf(parameters.len()),
        parameters.len() <= usize::MAX,
    ensures
        ({
            let (next, result) = stepped::<H>(program, parameters, machine, is_delay_slot);
            &&& next.wf(parameters.len())
            &&& next.instructions >= machine.instructions
            &&& result is Ok ==> next.instructions > machine.instructions
        }),
    decreases
            if is_delay_slot {
                0int
            } else {
                1int
            },
{
    let address = MaxwellThreeDMmeRamAddress(machine.pc);
    if machine.instructions < MAXWELL_THREE_D_MME_EXECUTION_INSTRUCTION_LIMIT {
        if let Some(raw) = program.instruction_word(machine.pc) {
            if machine.pc < u32::MAX {
                let next = advanced(machine);
                lemma_calculation_keeps_machine::<H>(parameters, next, address, raw);
                if !is_delay_slot {
                    law_step_keeps_machine::<H>(program, parameters, next, true);
                    law_step_keeps_machine::<H>(
                        program,
                        parameters,
                        calculated::<H>(parameters, next, address, raw).0,
                        true,
                    );
                    if let Some(target) = branch_target(machine.pc, raw) {
                        law_step_keeps_machine::<H>(
                            program,
                            parameters,
                            MmeMachine { delayed_pc: Some(target), ..next },
                            true,
                        );
                    }
                }
            }
        }
    }
}

/// Machine invariants survive a run, and steps beyond the instruction limit change
/// nothing.
pub proof fn law_run_ends_within_limit<H: MaxwellThreeDMmeHost>(
    program: MmeModel,
    parameters: Seq<u32>,
    machine: MmeMachine<H::Model>,
    fuel: nat,
    extra: nat,
)
    requires
        machine.wf(parameters.len()),
        parameters.len() <= usize::MAX,
        fuel + machine.instructions > MAXWELL_THREE_D_MME_EXECUTION_INSTRUCTION_LIMIT,
    ensures
        ran::<H>(program, parameters, machine, fuel).0.wf(parameters.len()),
        ran::<H>(program, parameters, machine, fuel + extra) == ran::<H>(
            program,
            parameters,
            machine,
            fuel,
        ),
    decreases fuel,
{
    law_step_keeps_machine::<H>(program, parameters, machine, false);
    let (next, result) = stepped::<H>(program, parameters, machine, false);
    if result == Ok::<bool, MaxwellThreeDMmeRunError<H::Error>>(true) {
        law_run_ends_within_limit::<H>(program, parameters, next, (fuel - 1) as nat, extra);
        assert(fuel + extra - 1 == (fuel - 1) as nat + extra);
    }
}

/// A successful invocation had parameters and a start address, and stayed within both
/// limits.
pub proof fn law_execution_is_bounded<H: MaxwellThreeDMmeHost>(
    program: MmeModel,
    macro_index: u8,
    parameters: Seq<u32>,
    host: H::Model,
)
    requires
        parameters.len() <= usize::MAX,
    ensures
        executed::<H>(program, macro_index, parameters, host).1 matches Ok(report) ==> {
            &&& parameters.len() > 0
            &&& program.start_of(macro_index) is Some
            &&& report.instructions <= MAXWELL_THREE_D_MME_EXECUTION_INSTRUCTION_LIMIT
            &&& report.emitted_methods <= MAXWELL_THREE_D_MME_EMITTED_METHOD_LIMIT
        },
{
    reveal(executed);
    if let Some(start) = program.start_of(macro_index) {
        if parameters.len() > 0 {
            law_run_ends_within_limit::<H>(
                program,
                parameters,
                MmeMachine::started(host, start, parameters[0]),
                (MAXWELL_THREE_D_MME_EXECUTION_INSTRUCTION_LIMIT + 1) as nat,
                0,
            );
        }
    }
}

} // verus!
