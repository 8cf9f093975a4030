//! Laws of the macro arithmetic.

use vstd::prelude::*;
use crate::mme::{MaxwellThreeDMmeRamAddress, MmeModel};
use crate::mme_interpreter::{MaxwellThreeDMmeHost, MaxwellThreeDMmeRunError, MmeMachine};

verus! {

/// Subtraction is inverse to addition: if function 2 gives d on a and b, then function 0
/// gives a on d and b. Its carry is set exactly when nothing is borrowed, and taking zero
/// away changes nothing.
pub proof fn law_subtraction_inverts_addition(a: u32, b: u32, carry: bool, other: bool)
    ensures
        crate::mme_interpreter::alu_result(2, a, b, carry) matches Some((d, kept)) && {
            &&& crate::mme_interpreter::alu_result(0, d, b, other) matches Some((sum, overflow))
            &&& sum == a
            &&& overflow == !kept
            &&& kept <==> a >= b
        },
        crate::mme_interpreter::alu_result(0, a, b, carry) matches Some((sum, overflow)) && {
            &&& crate::mme_interpreter::alu_result(2, sum, b, other) matches Some((d, _))
            &&& d == a
            &&& overflow <==> a + b >= 0x1_0000_0000
        },
        crate::mme_interpreter::alu_result(2, a, 0, carry) == Some((a, true)),
        crate::mme_interpreter::alu_result(0, a, 0, carry) == Some((a, false)),
        a >= b ==> crate::mme_interpreter::alu_result(2, a, b, carry)->Some_0.0 == a - b,
        a + b < 0x1_0000_0000 ==> crate::mme_interpreter::alu_result(0, a, b, carry)->Some_0.0 == a + b,
{
}

/// What each of the four arithmetic functions computes on integers: the word and the carry
/// together hold the exact sum, and the word with what was borrowed the exact difference.
pub proof fn law_word_arithmetic(a: u32, b: u32, carry: bool)
    ensures
        ({
            let unit = if carry { 1int } else { 0 };
            let word = 0x1_0000_0000int;
            let (sum, over) = crate::mme_interpreter::alu_result(0, a, b, carry)->Some_0;
            let (sum_with, over_with) = crate::mme_interpreter::alu_result(1, a, b, carry)->Some_0;
            let (rest, kept) = crate::mme_interpreter::alu_result(2, a, b, carry)->Some_0;
            let (rest_with, kept_with) = crate::mme_interpreter::alu_result(3, a, b, carry)->Some_0;
            &&& sum + (if over { word } else { 0 }) == a + b
            &&& sum_with + (if over_with { word } else { 0 }) == a + b + unit
            &&& rest == a - b + (if kept { 0 } else { word })
            &&& rest_with == a - b - 1 + unit + (if kept_with { 0 } else { word })
        }),
{
}

/// The forms with carry extend addition and subtraction to two words: adding the low words
/// with function 0 and the high words with function 1 adds the two-word numbers, and
/// functions 2 and 3 subtract them. The last carry tells whether the sum left the two words,
/// or whether nothing had to be borrowed.
#[verifier::rlimit(40)]
pub proof fn law_carry_chains_words(a_low: u32, a_high: u32, b_low: u32, b_high: u32, carry: bool)
    ensures
        ({
            let a = a_low + 0x1_0000_0000 * a_high;
            let b = b_low + 0x1_0000_0000 * b_high;
            let (low, between) = crate::mme_interpreter::alu_result(0, a_low, b_low, carry)->Some_0;
            let (high, last) = crate::mme_interpreter::alu_result(1, a_high, b_high, between)->Some_0;
            &&& crate::mme_interpreter::alu_result(0, a_low, b_low, carry) is Some
            &&& crate::mme_interpreter::alu_result(1, a_high, b_high, between) is Some
            &&& low + 0x1_0000_0000 * high + (if last { 0x1_0000_0000_0000_0000int } else { 0 }) == a
                + b
        }),
        ({
            let a = a_low + 0x1_0000_0000 * a_high;
            let b = b_low + 0x1_0000_0000 * b_high;
            let (low, between) = crate::mme_interpreter::alu_result(2, a_low, b_low, carry)->Some_0;
            let (high, last) = crate::mme_interpreter::alu_result(3, a_high, b_high, between)->Some_0;
            &&& crate::mme_interpreter::alu_result(2, a_low, b_low, carry) is Some
            &&& crate::mme_interpreter::alu_result(3, a_high, b_high, between) is Some
            &&& low + 0x1_0000_0000 * high == a - b + (if last {
                0int
            } else {
                0x1_0000_0000_0000_0000
            })
            &&& last <==> a >= b
        }),
{
    law_word_arithmetic(a_low, b_low, carry);
    let over = crate::mme_interpreter::alu_result(0, a_low, b_low, carry)->Some_0.1;
    let kept = crate::mme_interpreter::alu_result(2, a_low, b_low, carry)->Some_0.1;
    law_word_arithmetic(a_high, b_high, over);
    law_word_arithmetic(a_high, b_high, kept);
}

/// Bit i of a word.
pub open spec fn bit(word: u32, i: u32) -> bool {
    (word >> i) & 1 == 1
}

/// The logic functions work bit by bit and keep the carry: 8 is exclusive or, 9 or, 10 and,
/// 11 and with the complement, 12 the complement of and. No other function is defined.
pub proof fn law_logic_functions(function: u8, a: u32, b: u32, carry: bool, i: u32)
    requires
        i < 32,
    ensures
        crate::mme_interpreter::alu_result(8, a, b, carry) matches Some((r, kept)) && kept == carry && (bit(r, i)
            <==> bit(a, i) != bit(b, i)),
        crate::mme_interpreter::alu_result(9, a, b, carry) matches Some((r, kept)) && kept == carry && (bit(r, i)
            <==> bit(a, i) || bit(b, i)),
        crate::mme_interpreter::alu_result(10, a, b, carry) matches Some((r, kept)) && kept == carry && (bit(r, i)
            <==> bit(a, i) && bit(b, i)),
        crate::mme_interpreter::alu_result(11, a, b, carry) matches Some((r, kept)) && kept == carry && (bit(r, i)
            <==> bit(a, i) && !bit(b, i)),
        crate::mme_interpreter::alu_result(12, a, b, carry) matches Some((r, kept)) && kept == carry && (bit(r, i)
            <==> !(bit(a, i) && bit(b, i))),
        crate::mme_interpreter::alu_result(function, a, b, carry) is Some <==> function < 4 || 8 <= function
            <= 12,
{
    assert((((a ^ b) >> i) & 1 == 1 <==> ((a >> i) & 1 == 1) != ((b >> i) & 1 == 1)) && (((a | b)
        >> i) & 1 == 1 <==> (a >> i) & 1 == 1 || (b >> i) & 1 == 1) && (((a & b) >> i) & 1 == 1 <==> (a
        >> i) & 1 == 1 && (b >> i) & 1 == 1) && (((a & !b) >> i) & 1 == 1 <==> (a >> i) & 1 == 1
        && !((b >> i) & 1 == 1)) && (((!(a & b)) >> i) & 1 == 1 <==> !((a >> i) & 1 == 1 && (b >> i)
        & 1 == 1))) by (bit_vector)
        requires
            i < 32,
    ;
}

/// An immediate is the number that two's complement reads in the upper eighteen bits of an
/// instruction: it lies in their range and agrees with them modulo 2^18. A register plus an
/// immediate is their sum modulo the word size, and a branch goes to the exact sum or
/// nowhere.
pub proof fn law_immediates(a: u32, raw: u32)
    ensures
        ({
            let immediate = crate::mme_interpreter::signed_immediate_value(raw);
            let sum = crate::mme_interpreter::immediate_sum(a, raw);
            &&& -0x2_0000 <= immediate < 0x2_0000
            &&& (immediate - raw as int / 0x4000) % 0x4_0000 == 0
            &&& (sum - a - immediate) % 0x1_0000_0000 == 0
            &&& crate::mme_interpreter::branch_target(a, raw) matches Some(target) ==> target == a
                + immediate
            &&& crate::mme_interpreter::branch_target(a, raw) is None <==> a + immediate < 0 || a
                + immediate > u32::MAX
        }),
{
}

/// Result stage of an instruction, one result operation after the other.
///
/// The destination register takes the next parameter for operations 0, 3 and 5 and the
/// result for all others; register zero never changes and no other register does. Operations
/// 0, 3, 5 and 6 consume one parameter. Operations 2, 5, 6 and 7 load the method address from
/// bits 0 to 11 of the result and the increment from bits 12 to 17. Operations 3, 4, 6 and 7
/// emit one method: the result, or the parameter for operation 6, or the increment for
/// operation 7. After an emission the address has moved on by the increment.
pub proof fn law_result_stage<H: MaxwellThreeDMmeHost>(
    parameters: Seq<u32>,
    machine: MmeMachine<H::Model>,
    operation: u32,
    destination: int,
    result: u32,
    other: int,
)
    requires
        parameters.len() <= usize::MAX,
        machine.wf(parameters.len()),
        operation < 8,
        0 <= destination < 8,
        0 <= other < 8,
    ensures
        ({
            let (after, outcome) = crate::mme_interpreter::processed::<H>(
                parameters,
                machine,
                operation,
                destination,
                result,
            );
            let takes_parameter = operation == 0 || operation == 3 || operation == 5;
            let consumes = takes_parameter || operation == 6;
            let loads = operation == 2 || operation == 5 || operation == 6 || operation == 7;
            let emits = operation == 3 || operation == 4 || operation == 6 || operation == 7;
            let parameter = parameters[machine.next_parameter as int];
            let address = if loads {
                (result % 0x1000) as int
            } else {
                machine.method_address as int
            };
            let increment = if loads {
                ((result / 0x1000) % 0x40) as int
            } else {
                machine.method_increment as int
            };
            let payload = if operation == 6 {
                parameter as int
            } else if operation == 7 {
                increment
            } else {
                result as int
            };
            &&& consumes && machine.next_parameter == parameters.len() ==> outcome is Err
            &&& outcome is Ok ==> {
                &&& after.registers[0] == 0
                &&& destination != 0 ==> after.registers[destination] == (if takes_parameter {
                    parameter
                } else {
                    result
                })
                &&& other != destination ==> after.registers[other] == machine.registers[other]
                &&& after.next_parameter == machine.next_parameter + (if consumes { 1int } else { 0 })
                &&& after.method_increment == increment
                &&& after.pc == machine.pc
                &&& after.delayed_pc == machine.delayed_pc
                &&& after.carry == machine.carry
                &&& !emits ==> after.host == machine.host && after.method_address == address
                    && after.emitted_methods == machine.emitted_methods
                &&& emits ==> {
                    &&& after.emitted_methods == machine.emitted_methods + 1
                    &&& after.method_address == (address + increment) % 0x1000
                    &&& (after.host, H::emit_result(
                        machine.host,
                        address as u16,
                        payload as u32,
                    ).1) == H::emit_result(machine.host, address as u16, payload as u32)
                    &&& H::emit_result(machine.host, address as u16, payload as u32).1 is Ok
                }
            }
        }),
{
    assert(result & 0xfff == result % 0x1000 && (result >> 12) & 0x3f == (result / 0x1000) % 0x40)
        by (bit_vector);
    let address: u32 = if operation == 2 || operation == 5 || operation == 6 || operation == 7 {
        result & 0xfff
    } else {
        machine.method_address as u32
    };
    let increment: u32 = if operation == 2 || operation == 5 || operation == 6 || operation == 7 {
        (result >> 12) & 0x3f
    } else {
        machine.method_increment as u32
    };
    let moved: u32 = (address + increment) as u32;
    assert(moved & 0xfff == moved % 0x1000) by (bit_vector);
}

/// The bit-field operations of an instruction word, bit by bit. Bits 22 to 26 hold the size
/// of the field, bits 17 to 21 where it starts in the source and bits 27 to 31 where it goes.
/// Operation 2 replaces the field in its first operand, operation 3 takes the source start
/// from the first operand and operation 4 the destination; these two clear all other bits.
pub proof fn law_bit_fields<H: MaxwellThreeDMmeHost>(
    machine: MmeMachine<H::Model>,
    address: MaxwellThreeDMmeRamAddress,
    raw: u32,
    i: u32,
)
    requires
        i < 32,
    ensures
        ({
            let a = machine.registers[((raw >> 11) & 7) as int];
            let b = machine.registers[((raw >> 14) & 7) as int];
            let size = (raw >> 22) & 0x1f;
            let from = (raw >> 17) & 0x1f;
            let to = (raw >> 27) & 0x1f;
            let (after, value) = crate::mme_interpreter::computed::<H>(machine, address, raw);
            &&& raw & 7 == 2 ==> after == machine && (value matches Ok(word) && (bit(word, i) <==> if to
                <= i < to + size {
                i - to + from < 32 && bit(b, (i - to + from) as u32)
            } else {
                bit(a, i)
            }))
            &&& raw & 7 == 3 ==> after == machine && (value matches Ok(word) && (bit(word, i) <==> to <= i
                < to + size && i - to + a % 32 < 32 && bit(b, (i - to + a % 32) as u32)))
            &&& raw & 7 == 4 ==> after == machine && (value matches Ok(word) && (bit(word, i) <==> a % 32
                <= i < a % 32 + size && i - a % 32 + from < 32 && bit(b, (i - a % 32 + from) as u32)))
        }),
{
    let a = machine.registers[((raw >> 11) & 7) as int];
    let b = machine.registers[((raw >> 14) & 7) as int];
    let size = (raw >> 22) & 0x1f;
    let from = (raw >> 17) & 0x1f;
    let to = (raw >> 27) & 0x1f;
    assert(size < 32 && from < 32 && to < 32 && (a & 0x1f) == a % 32) by (bit_vector)
        requires
            size == (raw >> 22) & 0x1f,
            from == (raw >> 17) & 0x1f,
            to == (raw >> 27) & 0x1f,
    ;
    let one = 1u32 << size;
    assert(one >= 1) by (bit_vector)
        requires
            one == 1u32 << size,
            size < 32,
    ;
    let mask = crate::mme_interpreter::spec_bitfield_mask(raw);
    assert(mask == one - 1);
    lemma_placed_field(one, mask, size, from, to, b, i);
    lemma_placed_field(one, mask, size, a & 0x1f, to, b, i);
    lemma_placed_field(one, mask, size, from, a & 0x1f, b, i);
    let placed = ((b >> from) & mask) << to;
    let hole = mask << to;
    assert((((a & !hole) | placed) >> i) & 1 == 1 <==> (placed >> i) & 1 == 1 || ((a >> i) & 1 == 1
        && !((hole >> i) & 1 == 1))) by (bit_vector)
        requires
            i < 32,
    ;
}

/// A field of a word, cut out and put somewhere.
proof fn lemma_placed_field(one: u32, mask: u32, size: u32, from: u32, to: u32, b: u32, i: u32)
    requires
        size < 32,
        from < 32,
        to < 32,
        i < 32,
        one == 1u32 << size,
        mask == one - 1,
    ensures
        bit(((b >> from) & mask) << to, i) <==> to <= i < to + size && i - to + from < 32 && bit(
            b,
            (i - to + from) as u32,
        ),
        bit(mask << to, i) <==> to <= i < to + size,
{
    assert(((mask << to) >> i) & 1 == 1 <==> to <= i && i < to + size) by (bit_vector)
        requires
            size < 32,
            to < 32,
            i < 32,
            one == 1u32 << size,
            mask == one - 1,
    ;
    if to <= i {
        let j: u32 = (i - to + from) as u32;
        assert((((((b >> from) & mask) << to) >> i) & 1 == 1) <==> (i < to + size && j < 32 && (b >> j) & 1
            == 1)) by (bit_vector)
            requires
                size < 32,
                from < 32,
                to < 32,
                i < 32,
                to <= i,
                j == i - to + from,
                one == 1u32 << size,
                mask == one - 1,
        ;
    } else {
        assert(!(((((b >> from) & mask) << to) >> i) & 1 == 1)) by (bit_vector)
            requires
                to < 32,
                i < to,
        ;
    }
}

/// A branch looks at the register in bits 11 to 13: it is taken on zero, or on nonzero if bit
/// 4 is set. A branch that is not taken and does not end the macro goes to the next
/// instruction, and a taken one with bit 5 set goes straight to its target. Neither touches
/// anything else.
pub proof fn law_branches<H: MaxwellThreeDMmeHost>(
    program: MmeModel,
    parameters: Seq<u32>,
    machine: MmeMachine<H::Model>,
)
    requires
        machine.instructions < crate::mme::MAXWELL_THREE_D_MME_EXECUTION_INSTRUCTION_LIMIT,
        machine.delayed_pc is None,
        machine.pc < u32::MAX,
    ensures
        program.instruction_word(machine.pc) matches Some(raw) ==> (raw & 7 == 7 ==> {
            let (after, result) = crate::mme_interpreter::stepped::<H>(
                program,
                parameters,
                machine,
                false,
            );
            let zero = machine.registers[((raw >> 11) & 7) as int] == 0;
            let taken = zero == (raw & 0x10 == 0);
            let target = machine.pc + crate::mme_interpreter::signed_immediate_value(raw);
            &&& taken && !(0 <= target <= u32::MAX) ==> result is Err
            &&& taken && 0 <= target <= u32::MAX && raw & 0x20 != 0 ==> {
                &&& result == Ok::<bool, MaxwellThreeDMmeRunError<H::Error>>(true)
                &&& after == (MmeMachine {
                    pc: target as u32,
                    instructions: (machine.instructions + 1) as u32,
                    ..machine
                })
            }
            &&& !taken && raw & 0x80 == 0 ==> {
                &&& result == Ok::<bool, MaxwellThreeDMmeRunError<H::Error>>(true)
                &&& after == (MmeMachine {
                    pc: (machine.pc + 1) as u32,
                    instructions: (machine.instructions + 1) as u32,
                    ..machine
                })
            }
        }),
{
}

} // verus!
