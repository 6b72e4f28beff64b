//! Machine state and the dispatch/execution layer: the VM snapshot of 32
//! general-purpose registers, stack pointer and program counter; the typed
//! `Instruction` value and its execution; and a register-level `Emulator`
//! with the individual RV32I operations.
//!
//! Program-counter discipline: every implemented instruction advances the
//! PC by the fixed 4-byte instruction width when it completes, and a taken
//! branch first applies its relative offset to the current PC — so a taken
//! branch moves the PC by its offset plus the instruction width. An
//! unimplemented instruction reports the gap and leaves the whole state,
//! the PC included, untouched.

use crate::instruction_signatures::DestinationImmediate;
use crate::rv32i::spec_wf_rv32i;
use crate::rv32i::Rv32iInstruction;
use vstd::prelude::*;

verus! {

/// Execution errors. `InstructionNotImplemented` signals a
/// partial-implementation gap, never a data-integrity problem; it is
/// surfaced to the caller and the machine state is left exactly as it was.
#[derive(Debug, PartialEq, Eq)]
pub enum Rv32iInstructionError {
    InstructionNotImplemented(String),
}

/// A bare register file, reserved for a future multi-hart split of
/// `VmState`.
#[derive(Debug, Clone, Copy)]
pub struct Registers {
    #[allow(dead_code)]
    registers: [i32; 32],
}

/// The machine-state snapshot one hart owns: 32 general-purpose signed
/// 32-bit registers, a stack pointer and a program counter. Register x0 is
/// hardwired to zero by convention enforced at every write site, not by
/// storage.
#[derive(Debug, Clone, Copy)]
pub struct VmState {
    pub registers: [i32; 32],
    /// stack pointer; register x2 holds it by the convention of the ABI
    pub sp: i32,
    /// program counter
    pub pc: i32,
}

/// The mathematical image of a `VmState`: the register file as a sequence,
/// beside the stack pointer and the program counter.
#[verifier::ext_equal]
pub struct VmSnapshot {
    pub regs: Seq<i32>,
    pub sp: i32,
    pub pc: i32,
}

impl View for VmState {
    type V = VmSnapshot;

    open spec fn view(&self) -> VmSnapshot {
        VmSnapshot { regs: self.registers@, sp: self.sp, pc: self.pc }
    }
}

impl Default for VmState {
    /// The reset state: every register zero, stack pointer zero, and the
    /// program counter at the fixed base address 1000.
    fn default() -> (state: Self)
        ensures
            state.pc == 1000,
            state.sp == 0,
            forall|i: int| 0 <= i < 32 ==> state.registers[i] == 0,
    {
        let initial_registers: [i32; 32] = [0; 32];
        Self { pc: 1000, registers: initial_registers, sp: 0 }
    }
}

/// The register file after writing `value` to register `rd`: unchanged
/// when `rd` is x0, the hardwired-zero register.
pub open spec fn spec_reg_write(regs: Seq<i32>, rd: u8, value: i32) -> Seq<i32> {
    if rd == 0 {
        regs
    } else {
        regs.update(rd as int, value)
    }
}

/// Whether `BLTU` takes its branch: the *values* of the two source
/// registers — not the register indices — compared as unsigned 32-bit
/// integers.
pub open spec fn spec_bltu_taken(regs: Seq<i32>, rs1: u8, rs2: u8) -> bool {
    (regs[rs1 as int] as u32) < (regs[rs2 as int] as u32)
}

/// The pseudo-instruction extension: assembler shorthands executed
/// directly.
#[derive(Debug, Clone, Copy, PartialEq, Eq, Structural)]
pub enum PseudoInstruction {
    /// Return: a no-op at the instruction-state level; return-address
    /// handling is delegated to the caller until `JALR` is implemented.
    Ret,
    /// Load Immediate: `rd <- imm`, no PC-relative computation.
    Li(DestinationImmediate),
}

/// A decoded instruction beside the memory address it was fetched from.
/// The address decouples decode-time addressing from execution-time
/// control flow; execution reads only the payload. Immutable: constructed
/// once per decode, consumed once per execute.
#[derive(Debug, Clone, Copy, PartialEq, Eq, Structural)]
pub enum Instruction {
    PseudoInstruction(i32, PseudoInstruction),
    Rv32iInstruction(i32, Rv32iInstruction),
}

/// Register indices fit the register file, across both instruction
/// families. The format decoder's 5-bit masks establish this; every holder
/// of an `Instruction` preserves it.
pub open spec fn spec_wf_instruction(instruction: Instruction) -> bool {
    match instruction {
        Instruction::Rv32iInstruction(_, inner) => spec_wf_rv32i(inner),
        Instruction::PseudoInstruction(_, PseudoInstruction::Li(o)) => o.rd < 32,
        Instruction::PseudoInstruction(_, PseudoInstruction::Ret) => true,
    }
}

/// The instructions the executor implements today; every other variant is
/// reported as `InstructionNotImplemented` — explicit and observable,
/// never silently ignored.
pub open spec fn spec_instruction_implemented(instruction: Instruction) -> bool {
    match instruction {
        Instruction::Rv32iInstruction(_, inner) => inner is Add || inner is Bltu,
        Instruction::PseudoInstruction(_, _) => true,
    }
}

/// One execution step: the machine state after `instruction` runs on `s`.
/// An implemented instruction applies its register effect, then the PC
/// advances by the fixed 4-byte instruction width — on top of the branch
/// offset a taken branch has already applied. An unimplemented one leaves
/// the state untouched.
pub open spec fn spec_step(instruction: Instruction, s: VmSnapshot) -> VmSnapshot {
    match instruction {
        Instruction::Rv32iInstruction(_, Rv32iInstruction::Add(o)) => VmSnapshot {
            regs: spec_reg_write(
                s.regs,
                o.rd,
                s.regs[o.rs1 as int].wrapping_add(s.regs[o.rs2 as int]),
            ),
            sp: s.sp,
            pc: s.pc.wrapping_add(4),
        },
        Instruction::Rv32iInstruction(_, Rv32iInstruction::Bltu(o)) => VmSnapshot {
            regs: s.regs,
            sp: s.sp,
            pc: if spec_bltu_taken(s.regs, o.rs1, o.rs2) {
                s.pc.wrapping_add(o.imm as i32).wrapping_add(4)
            } else {
                s.pc.wrapping_add(4)
            },
        },
        Instruction::PseudoInstruction(_, PseudoInstruction::Li(o)) => VmSnapshot {
            regs: spec_reg_write(s.regs, o.rd, o.imm as i32),
            sp: s.sp,
            pc: s.pc.wrapping_add(4),
        },
        Instruction::PseudoInstruction(_, PseudoInstruction::Ret) => VmSnapshot {
            regs: s.regs,
            sp: s.sp,
            pc: s.pc.wrapping_add(4),
        },
        _ => s,
    }
}

/// The machine state after a sequence of instructions runs in order, each
/// step taking the state the previous one left (unimplemented
/// instructions leave it unchanged).
pub open spec fn spec_run(instructions: Seq<Instruction>, s: VmSnapshot) -> VmSnapshot
    decreases instructions.len(),
{
    if instructions.len() == 0 {
        s
    } else {
        spec_step(instructions.last(), spec_run(instructions.drop_last(), s))
    }
}

impl Instruction {
    /// Executes this instruction against the machine state: dispatches on
    /// the variant, applies the register and PC effects of `spec_step`,
    /// and reports `InstructionNotImplemented` — leaving the state exactly
    /// as it was — for every variant without semantics yet.
    pub fn execute_instruction(&self, vm_state: &mut VmState) -> (result: Result<
        (),
        Rv32iInstructionError,
    >)
        requires
            spec_wf_instruction(*self),
        ensures
            final(vm_state)@ == spec_step(*self, old(vm_state)@),
            result is Ok <==> spec_instruction_implemented(*self),
    {
        match self {
            // RV32I extension
            Self::Rv32iInstruction(_memory_address, rv32i_instruction) => match rv32i_instruction {
                Rv32iInstruction::Add(destination_source1_source2) => {
                    Rv32iInstruction::rv32i_instruction_add(destination_source1_source2, vm_state);
                    vm_state.pc = vm_state.pc.wrapping_add(4);
                    Ok(())
                },
                Rv32iInstruction::Bltu(source1_source2_immediate) => {
                    Rv32iInstruction::rv32i_instruction_bltu(source1_source2_immediate, vm_state);
                    vm_state.pc = vm_state.pc.wrapping_add(4);
                    Ok(())
                },
                _ => Err(
                    Rv32iInstructionError::InstructionNotImplemented(
                        "rv32i instruction without semantics yet".to_string(),
                    ),
                ),
            },
            // pseudo instructions extension
            Self::PseudoInstruction(_memory_address, pseudo_instruction) => match pseudo_instruction {
                PseudoInstruction::Li(DestinationImmediate { rd, imm }) => {
                    if *rd != 0 {
                        vm_state.registers[*rd as usize] = *imm as i32;
                    }
                    vm_state.pc = vm_state.pc.wrapping_add(4);
                    Ok(())
                },
                PseudoInstruction::Ret => {
                    vm_state.pc = vm_state.pc.wrapping_add(4);
                    Ok(())
                },
            },
        }
    }
}

/// The dispatch loop: owns the machine state and runs decoded instructions
/// strictly in sequence order.
pub struct Vm {
    pub vm_state: VmState,
}

impl Vm {
    /// Runs the instructions in order, each against the state the previous
    /// one left. An unimplemented instruction is skipped — its error is
    /// deliberately dropped here, the state untouched — and the run goes
    /// on, so the call as a whole always succeeds.
    pub fn execute_instructions(&mut self, instructions: Vec<Instruction>) -> (result: Result<
        (),
        Rv32iInstructionError,
    >)
        requires
            forall|i: int|
                0 <= i < instructions@.len() ==> spec_wf_instruction(#[trigger] instructions@[i]),
        ensures
            result is Ok,
            final(self).vm_state@ == spec_run(instructions@, old(self).vm_state@),
    {
        let mut index: usize = 0;
        while index < instructions.len()
            invariant
                index <= instructions@.len(),
                forall|i: int|
                    0 <= i < instructions@.len() ==> spec_wf_instruction(
                        #[trigger] instructions@[i],
                    ),
                self.vm_state@ == spec_run(instructions@.take(index as int), old(self).vm_state@),
            decreases instructions@.len() - index,
        {
            let instruction = &instructions[index];
            let _ = instruction.execute_instruction(&mut self.vm_state);
            proof {
                assert(instructions@.take(index as int + 1).drop_last() =~= instructions@.take(
                    index as int,
                ));
            }
            index = index + 1;
        }
        proof {
            assert(instructions@.take(instructions@.len() as int) =~= instructions@);
        }
        Ok(())
    }
}

/// The mathematical image of an `Emulator`: its register file as a
/// sequence of raw 32-bit values, beside the program counter.
#[verifier::ext_equal]
pub struct EmulatorSnapshot {
    pub regs: Seq<u32>,
    pub pc: u32,
}

/// A register-level emulator: the register file held as raw 32-bit values,
/// with one method per implemented RV32I operation. Register x1 holds the
/// return address of a call and x2 the stack pointer, by convention.
pub struct Emulator {
    registers: [u32; 32],
    pc: u32,
}

impl View for Emulator {
    type V = EmulatorSnapshot;

    closed spec fn view(&self) -> EmulatorSnapshot {
        EmulatorSnapshot { regs: self.registers@, pc: self.pc }
    }
}

impl Emulator {
    /// Creates an emulator in its reset state: every register zero and the
    /// program counter at the fixed base address 0x1000.
    pub fn new() -> (emulator: Self)
        ensures
            emulator@.pc == 0x1000,
            emulator@.regs.len() == 32,
            forall|i: int| 0 <= i < 32 ==> emulator@.regs[i] == 0,
    {
        Self { registers: [0; 32], pc: 0x1000 }
    }

    /// Returns the value the register holds, reinterpreted as signed.
    pub fn get_register_value(&self, register_index: usize) -> (value: i32)
        requires
            register_index < 32,
        ensures
            value == self@.regs[register_index as int] as i32,
    {
        #[verifier::truncate] (self.registers[register_index] as i32)
    }

    /// `ADD`: `rd <- rs1 + rs2`, wrapping on overflow, with the write
    /// suppressed when `rd` is x0.
    pub fn add(&mut self, rd: usize, rs1: usize, rs2: usize)
        requires
            rd < 32,
            rs1 < 32,
            rs2 < 32,
        ensures
            final(self)@.pc == old(self)@.pc,
            final(self)@.regs == if rd == 0 {
                old(self)@.regs
            } else {
                old(self)@.regs.update(
                    rd as int,
                    old(self)@.regs[rs1 as int].wrapping_add(old(self)@.regs[rs2 as int]),
                )
            },
    {
        if rd == 0 {
            return ;
        }
        let sum: u32 = self.registers[rs1].wrapping_add(self.registers[rs2]);
        self.registers[rd] = sum;
    }

    /// `ADDI`: `rd <- rs1 + imm`, the immediate reinterpreted as a raw
    /// 32-bit value, wrapping on overflow, with the write suppressed when
    /// `rd` is x0.
    pub fn addi(&mut self, rd: usize, rs1: usize, imm: i32)
        requires
            rd < 32,
            rs1 < 32,
        ensures
            final(self)@.pc == old(self)@.pc,
            final(self)@.regs == if rd == 0 {
                old(self)@.regs
            } else {
                old(self)@.regs.update(
                    rd as int,
                    old(self)@.regs[rs1 as int].wrapping_add(imm as u32),
                )
            },
    {
        if rd == 0 {
            return ;
        }
        let sum: u32 = self.registers[rs1].wrapping_add(#[verifier::truncate] (imm as u32));
        self.registers[rd] = sum;
    }

    /// `SUB`: `rd <- rs1 - rs2`, wrapping on underflow, with the write
    /// suppressed when `rd` is x0.
    pub fn sub(&mut self, rd: usize, rs1: usize, rs2: usize)
        requires
            rd < 32,
            rs1 < 32,
            rs2 < 32,
        ensures
            final(self)@.pc == old(self)@.pc,
            final(self)@.regs == if rd == 0 {
                old(self)@.regs
            } else {
                old(self)@.regs.update(
                    rd as int,
                    old(self)@.regs[rs1 as int].wrapping_sub(old(self)@.regs[rs2 as int]),
                )
            },
    {
        if rd == 0 {
            return ;
        }
        let difference: u32 = self.registers[rs1].wrapping_sub(self.registers[rs2]);
        self.registers[rd] = difference;
    }

    /// `LUI`: places the immediate in the upper 20 bits — `rd <- imm <<
    /// 12`, that is `imm * 4096` modulo 2^32 — with the write suppressed
    /// when `rd` is x0.
    pub fn lui(&mut self, rd: usize, imm: i32)
        requires
            rd < 32,
        ensures
            final(self)@.pc == old(self)@.pc,
            final(self)@.regs == if rd == 0 {
                old(self)@.regs
            } else {
                old(self)@.regs.update(rd as int, (imm << 12) as u32)
            },
            rd != 0 ==> final(self)@.regs[rd as int] == ((imm as int) * 0x1000) % 0x100000000,
    {
        if rd == 0 {
            return ;
        }
        // shift the immediate into the upper 20 bits
        let imm_as_bits: i32 = imm << 12;
        proof {
            assert(((imm << 12) as u32) as int == ((imm as int) * 0x1000) % 0x100000000)
                by (bit_vector);
        }
        self.registers[rd] = #[verifier::truncate] (imm_as_bits as u32);
    }

    /// `AUIPC`: adds the upper immediate to the current program counter —
    /// `rd <- pc + (imm << 12)`, wrapping — with the write suppressed when
    /// `rd` is x0.
    pub fn auipc(&mut self, rd: usize, imm: i32)
        requires
            rd < 32,
        ensures
            final(self)@.pc == old(self)@.pc,
            final(self)@.regs == if rd == 0 {
                old(self)@.regs
            } else {
                old(self)@.regs.update(
                    rd as int,
                    old(self)@.pc.wrapping_add((imm << 12) as u32),
                )
            },
            rd != 0 ==> final(self)@.regs[rd as int] == (old(self)@.pc + (imm as int) * 0x1000)
                % 0x100000000,
    {
        if rd == 0 {
            return ;
        }
        // shift the immediate into the upper 20 bits
        let imm_as_bits: i32 = imm << 12;
        let value: u32 = self.pc.wrapping_add(#[verifier::truncate] (imm_as_bits as u32));
        proof {
            let pc = self.pc;
            assert(vstd::wrapping::u32_specs::wrapping_add(pc, (imm << 12) as u32) as int == (
            pc + (imm as int) * 0x1000) % 0x100000000) by (bit_vector);
        }
        self.registers[rd] = value;
    }
}

/// Register-zero invariant, first half: an instruction whose destination
/// register is x0 — and any instruction that writes no register at all —
/// leaves the whole register file exactly as it was.
pub proof fn lemma_register_zero_invariant(instruction: Instruction, s: VmSnapshot)
    requires
        spec_written_register(instruction) == Some(0u8) || spec_written_register(instruction)
            is None,
    ensures
        spec_step(instruction, s).regs == s.regs,
{
}

/// Register-zero invariant, second half: no execution step changes the
/// value of register x0 — once zero, it stays zero.
pub proof fn lemma_register_zero_stays_zero(instruction: Instruction, s: VmSnapshot)
    requires
        spec_wf_instruction(instruction),
        s.regs.len() == 32,
        s.regs[0] == 0,
    ensures
        spec_step(instruction, s).regs[0] == 0,
        spec_step(instruction, s).regs.len() == 32,
{
}

/// Register-zero invariant over a whole run: register x0 is still zero
/// after any sequence of well-formed instructions executes.
pub proof fn lemma_run_register_zero_stays_zero(instructions: Seq<Instruction>, s: VmSnapshot)
    requires
        forall|i: int|
            0 <= i < instructions.len() ==> spec_wf_instruction(#[trigger] instructions[i]),
        s.regs.len() == 32,
        s.regs[0] == 0,
    ensures
        spec_run(instructions, s).regs.len() == 32,
        spec_run(instructions, s).regs[0] == 0,
    decreases instructions.len(),
{
    if instructions.len() > 0 {
        lemma_run_register_zero_stays_zero(instructions.drop_last(), s);
        lemma_register_zero_stays_zero(instructions.last(), spec_run(instructions.drop_last(), s));
    }
}

/// The register the executor writes for this instruction, if any: `ADD`
/// and `LI` write their destination register; branches, `RET` and the
/// unimplemented variants write none.
pub open spec fn spec_written_register(instruction: Instruction) -> Option<u8> {
    match instruction {
        Instruction::Rv32iInstruction(_, Rv32iInstruction::Add(o)) => Some(o.rd),
        Instruction::PseudoInstruction(_, PseudoInstruction::Li(o)) => Some(o.rd),
        _ => None,
    }
}

/// Branch offset sign handling, application side: a negative offset whose
/// application does not wrap below `i32::MIN` moves the program counter
/// strictly backwards.
pub proof fn lemma_negative_offset_moves_pc_back(pc: i32, offset: i16)
    requires
        offset < 0,
        pc + offset >= i32::MIN,
    ensures
        pc.wrapping_add(offset as i32) < pc,
{
}

} // verus!
