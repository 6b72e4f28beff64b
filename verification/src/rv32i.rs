//! The RV32I base instruction set: the closed enumeration of every base
//! opcode and the decode from a raw instruction word to a typed instruction
//! value, with the scrambled branch/jump immediates reassembled and
//! sign-extended into the signature layer.

use crate::emulator::spec_bltu_taken;
use crate::emulator::spec_reg_write;
use crate::emulator::Rv32iInstructionError;
use crate::emulator::VmState;
use crate::instruction_formats::spec_b_imm_bits;
use crate::instruction_formats::spec_funct3_of;
use crate::instruction_formats::spec_funct7_of;
use crate::instruction_formats::spec_i_imm_bits;
use crate::instruction_formats::spec_j_imm_bits;
use crate::instruction_formats::spec_opcode_of;
use crate::instruction_formats::spec_rd_of;
use crate::instruction_formats::spec_rs1_of;
use crate::instruction_formats::spec_rs2_of;
use crate::instruction_formats::spec_s_imm_bits;
use crate::instruction_formats::spec_sign_extend_12;
use crate::instruction_formats::spec_sign_extend_13;
use crate::instruction_formats::spec_sign_extend_20;
use crate::instruction_formats::spec_sign_extend_21;
use crate::instruction_formats::spec_u_imm_bits;
use crate::instruction_formats::spec_word_from_le_bytes;
use crate::instruction_formats::lemma_field_ranges;
use crate::instruction_formats::sign_extend_12;
use crate::instruction_formats::sign_extend_13;
use crate::instruction_formats::sign_extend_20;
use crate::instruction_formats::sign_extend_21;
use crate::instruction_formats::word_from_le_bytes;
use crate::instruction_formats::DecodeError;
use crate::instruction_formats::InstructionFormat;
use crate::instruction_signatures::DestinationImmediate;
use crate::instruction_signatures::DestinationSource1Immediate;
use crate::instruction_signatures::DestinationSource1Source2;
use crate::instruction_signatures::Source1Source2Immediate;
use vstd::prelude::*;

verus! {

/// Every instruction of the RV32I base integer set, grouped by category.
/// Each variant carries one of the signature shapes of
/// `crate::instruction_signatures` (or none, for the environment
/// instructions).
#[derive(Debug, Clone, Copy, PartialEq, Eq, Structural)]
pub enum Rv32iInstruction {
    // regulars
    /// ADD
    Add(DestinationSource1Source2),
    /// SUB
    Sub(DestinationSource1Source2),
    /// XOR
    Xor(DestinationSource1Source2),
    /// OR
    Or(DestinationSource1Source2),
    /// AND
    And(DestinationSource1Source2),
    /// Shift Left Logical
    Sll(DestinationSource1Source2),
    /// Shift Right Logical
    Srl(DestinationSource1Source2),
    /// Shift Right Arith
    Sra(DestinationSource1Source2),
    /// Set Less Than
    Slt(DestinationSource1Source2),
    /// Set Less Than, unsigned
    Sltu(DestinationSource1Source2),
    // immediates
    /// ADD Immediate
    Addi(DestinationSource1Immediate),
    /// XOR Immediate
    Xori(DestinationSource1Immediate),
    /// OR Immediate
    Ori(DestinationSource1Immediate),
    /// AND Immediate
    Andi(DestinationSource1Immediate),
    /// Shift Left Logical Immediate
    Slli(DestinationSource1Immediate),
    /// Shift Right Logical Immediate
    Srli(DestinationSource1Immediate),
    /// Shift Right Arith Immediate
    Srai(DestinationSource1Immediate),
    /// Set Less Than Immediate
    Slti(DestinationSource1Immediate),
    /// Set Less Than Immediate, unsigned
    Sltiu(DestinationSource1Immediate),
    // loads
    /// Load Byte
    Lb(DestinationSource1Immediate),
    /// Load Half Word
    Lh(DestinationSource1Immediate),
    /// Load Word
    Lw(DestinationSource1Immediate),
    /// Load Byte Unsigned
    Lbu(DestinationSource1Immediate),
    /// Load Half Word Unsigned
    Lhu(DestinationSource1Immediate),
    // storing; the stored source register rs2 stands in the first slot of
    // the signature
    /// Store Byte
    Sb(DestinationSource1Immediate),
    /// Store Half Word
    Sh(DestinationSource1Immediate),
    /// Store Word
    Sw(DestinationSource1Immediate),
    // branching
    /// Branch Equal (==)
    Beq(Source1Source2Immediate),
    /// Branch Not Equal (!=)
    Bne(Source1Source2Immediate),
    /// Branch Less Than (<)
    Blt(Source1Source2Immediate),
    /// Branch Greater Equal (>=)
    Bge(Source1Source2Immediate),
    /// Branch Less Than, unsigned (<)
    Bltu(Source1Source2Immediate),
    /// Branch Greater Equal, unsigned (>=)
    Bgeu(Source1Source2Immediate),
    // jumps
    /// Jump And Link
    Jal(DestinationImmediate),
    /// Jump And Link Reg
    Jalr(DestinationSource1Immediate),
    /// Load Upper Immediate
    Lui(DestinationImmediate),
    /// Add Upper Imm to PC
    Auipc(DestinationImmediate),
    /// Environment Call
    Ecall,
    /// Environment Break
    Ebreak,
}

/// Decode of a word whose format family is R. Only opcode 0x33 belongs to
/// the RV32I base set; `funct3`/`funct7` select the exact operation.
pub open spec fn spec_decode_register(word: u32) -> Result<Rv32iInstruction, DecodeError> {
    let operands = DestinationSource1Source2 {
        rd: spec_rd_of(word),
        rs1: spec_rs1_of(word),
        rs2: spec_rs2_of(word),
    };
    let funct3 = spec_funct3_of(word);
    let funct7 = spec_funct7_of(word);
    if spec_opcode_of(word) != 0x33 {
        Err(DecodeError::InvalidEncoding)
    } else if funct3 == 0x0 && funct7 == 0x00 {
        Ok(Rv32iInstruction::Add(operands))
    } else if funct3 == 0x0 && funct7 == 0x20 {
        Ok(Rv32iInstruction::Sub(operands))
    } else if funct3 == 0x1 && funct7 == 0x00 {
        Ok(Rv32iInstruction::Sll(operands))
    } else if funct3 == 0x2 && funct7 == 0x00 {
        Ok(Rv32iInstruction::Slt(operands))
    } else if funct3 == 0x3 && funct7 == 0x00 {
        Ok(Rv32iInstruction::Sltu(operands))
    } else if funct3 == 0x4 && funct7 == 0x00 {
        Ok(Rv32iInstruction::Xor(operands))
    } else if funct3 == 0x5 && funct7 == 0x00 {
        Ok(Rv32iInstruction::Srl(operands))
    } else if funct3 == 0x5 && funct7 == 0x20 {
        Ok(Rv32iInstruction::Sra(operands))
    } else if funct3 == 0x6 && funct7 == 0x00 {
        Ok(Rv32iInstruction::Or(operands))
    } else if funct3 == 0x7 && funct7 == 0x00 {
        Ok(Rv32iInstruction::And(operands))
    } else {
        Err(DecodeError::InvalidEncoding)
    }
}

/// Decode of a word whose format family is I: the ALU-immediate group
/// (opcode 0x13), the loads (0x03), `JALR` (0x67) and the environment
/// instructions (0x73). Opcode 0x1b lies outside the 32-bit base set. For
/// the shift instructions the immediate is the 5-bit shift amount and the
/// high immediate bits act as a second function code.
pub open spec fn spec_decode_immediate(word: u32) -> Result<Rv32iInstruction, DecodeError> {
    let operands = DestinationSource1Immediate {
        rd: spec_rd_of(word),
        rs1: spec_rs1_of(word),
        imm: spec_sign_extend_12(spec_i_imm_bits(word)) as i16,
    };
    let shift_operands = DestinationSource1Immediate {
        rd: spec_rd_of(word),
        rs1: spec_rs1_of(word),
        imm: spec_rs2_of(word) as i16,
    };
    let opcode = spec_opcode_of(word);
    let funct3 = spec_funct3_of(word);
    let funct7 = spec_funct7_of(word);
    if opcode == 0x13 {
        if funct3 == 0x0 {
            Ok(Rv32iInstruction::Addi(operands))
        } else if funct3 == 0x1 && funct7 == 0x00 {
            Ok(Rv32iInstruction::Slli(shift_operands))
        } else if funct3 == 0x2 {
            Ok(Rv32iInstruction::Slti(operands))
        } else if funct3 == 0x3 {
            Ok(Rv32iInstruction::Sltiu(operands))
        } else if funct3 == 0x4 {
            Ok(Rv32iInstruction::Xori(operands))
        } else if funct3 == 0x5 && funct7 == 0x00 {
            Ok(Rv32iInstruction::Srli(shift_operands))
        } else if funct3 == 0x5 && funct7 == 0x20 {
            Ok(Rv32iInstruction::Srai(shift_operands))
        } else if funct3 == 0x6 {
            Ok(Rv32iInstruction::Ori(operands))
        } else if funct3 == 0x7 {
            Ok(Rv32iInstruction::Andi(operands))
        } else {
            Err(DecodeError::InvalidEncoding)
        }
    } else if opcode == 0x03 {
        if funct3 == 0x0 {
            Ok(Rv32iInstruction::Lb(operands))
        } else if funct3 == 0x1 {
            Ok(Rv32iInstruction::Lh(operands))
        } else if funct3 == 0x2 {
            Ok(Rv32iInstruction::Lw(operands))
        } else if funct3 == 0x4 {
            Ok(Rv32iInstruction::Lbu(operands))
        } else if funct3 == 0x5 {
            Ok(Rv32iInstruction::Lhu(operands))
        } else {
            Err(DecodeError::InvalidEncoding)
        }
    } else if opcode == 0x67 {
        if funct3 == 0x0 {
            Ok(Rv32iInstruction::Jalr(operands))
        } else {
            Err(DecodeError::InvalidEncoding)
        }
    } else if opcode == 0x73 {
        if word == 0x00000073 {
            Ok(Rv32iInstruction::Ecall)
        } else if word == 0x00100073 {
            Ok(Rv32iInstruction::Ebreak)
        } else {
            Err(DecodeError::InvalidEncoding)
        }
    } else {
        Err(DecodeError::InvalidEncoding)
    }
}

/// Decode of a word whose format family is S: the stores. The register
/// whose value is stored (`rs2` in the encoding) stands in the first slot
/// of the signature.
pub open spec fn spec_decode_store(word: u32) -> Result<Rv32iInstruction, DecodeError> {
    let operands = DestinationSource1Immediate {
        rd: spec_rs2_of(word),
        rs1: spec_rs1_of(word),
        imm: spec_sign_extend_12(spec_s_imm_bits(word)) as i16,
    };
    let funct3 = spec_funct3_of(word);
    if funct3 == 0x0 {
        Ok(Rv32iInstruction::Sb(operands))
    } else if funct3 == 0x1 {
        Ok(Rv32iInstruction::Sh(operands))
    } else if funct3 == 0x2 {
        Ok(Rv32iInstruction::Sw(operands))
    } else {
        Err(DecodeError::InvalidEncoding)
    }
}

/// Decode of a word whose format family is B: the branches, with the
/// 13-bit offset reassembled from its scrambled chunks and sign-extended.
pub open spec fn spec_decode_branch(word: u32) -> Result<Rv32iInstruction, DecodeError> {
    let operands = Source1Source2Immediate {
        rs1: spec_rs1_of(word),
        rs2: spec_rs2_of(word),
        imm: spec_sign_extend_13(spec_b_imm_bits(word)) as i16,
    };
    let funct3 = spec_funct3_of(word);
    if funct3 == 0x0 {
        Ok(Rv32iInstruction::Beq(operands))
    } else if funct3 == 0x1 {
        Ok(Rv32iInstruction::Bne(operands))
    } else if funct3 == 0x4 {
        Ok(Rv32iInstruction::Blt(operands))
    } else if funct3 == 0x5 {
        Ok(Rv32iInstruction::Bge(operands))
    } else if funct3 == 0x6 {
        Ok(Rv32iInstruction::Bltu(operands))
    } else if funct3 == 0x7 {
        Ok(Rv32iInstruction::Bgeu(operands))
    } else {
        Err(DecodeError::InvalidEncoding)
    }
}

/// Decode of a word whose format family is U: `LUI` (opcode 0x37) and
/// `AUIPC` (0x17). The sign-extended 20-bit immediate is handed over only
/// when it fits the signed 16-bit signature layer; otherwise it is
/// reported, never truncated.
pub open spec fn spec_decode_upper(word: u32) -> Result<Rv32iInstruction, DecodeError> {
    let immediate = spec_sign_extend_20(spec_u_imm_bits(word));
    if immediate < -0x8000 || immediate > 0x7fff {
        Err(DecodeError::ImmediateOutOfRange)
    } else {
        let operands = DestinationImmediate { rd: spec_rd_of(word), imm: immediate as i16 };
        if spec_opcode_of(word) == 0x37 {
            Ok(Rv32iInstruction::Lui(operands))
        } else {
            Ok(Rv32iInstruction::Auipc(operands))
        }
    }
}

/// Decode of a word whose format family is J: `JAL`, with the 21-bit
/// offset reassembled from its scrambled chunks and sign-extended. The
/// offset is handed over only when it fits the signed 16-bit signature
/// layer; otherwise it is reported, never truncated.
pub open spec fn spec_decode_jump(word: u32) -> Result<Rv32iInstruction, DecodeError> {
    let immediate = spec_sign_extend_21(spec_j_imm_bits(word));
    if immediate < -0x8000 || immediate > 0x7fff {
        Err(DecodeError::ImmediateOutOfRange)
    } else {
        Ok(Rv32iInstruction::Jal(DestinationImmediate { rd: spec_rd_of(word), imm: immediate as i16 }))
    }
}

/// The complete decode of a 32-bit word: classify its opcode into a format
/// family, then select the exact instruction by the function bits. Total:
/// every word yields either an instruction or a `DecodeError`.
pub open spec fn spec_decode(word: u32) -> Result<Rv32iInstruction, DecodeError> {
    match InstructionFormat::spec_format_of(spec_opcode_of(word)) {
        InstructionFormat::R => spec_decode_register(word),
        InstructionFormat::I => spec_decode_immediate(word),
        InstructionFormat::S => spec_decode_store(word),
        InstructionFormat::B => spec_decode_branch(word),
        InstructionFormat::U => spec_decode_upper(word),
        InstructionFormat::J => spec_decode_jump(word),
        InstructionFormat::Unknown => Err(DecodeError::InvalidEncoding),
    }
}

/// Executable decode of the R family; see `spec_decode_register`.
fn decode_register(word: u32) -> (result: Result<Rv32iInstruction, DecodeError>)
    ensures
        result == spec_decode_register(word),
{
    let opcode: u8 = (word & 0x7f) as u8;
    let funct3: u8 = ((word >> 12) & 0x7) as u8;
    let funct7: u8 = ((word >> 25) & 0x7f) as u8;
    let operands = DestinationSource1Source2 {
        rd: ((word >> 7) & 0x1f) as u8,
        rs1: ((word >> 15) & 0x1f) as u8,
        rs2: ((word >> 20) & 0x1f) as u8,
    };
    if opcode != 0x33 {
        Err(DecodeError::InvalidEncoding)
    } else if funct3 == 0x0 && funct7 == 0x00 {
        Ok(Rv32iInstruction::Add(operands))
    } else if funct3 == 0x0 && funct7 == 0x20 {
        Ok(Rv32iInstruction::Sub(operands))
    } else if funct3 == 0x1 && funct7 == 0x00 {
        Ok(Rv32iInstruction::Sll(operands))
    } else if funct3 == 0x2 && funct7 == 0x00 {
        Ok(Rv32iInstruction::Slt(operands))
    } else if funct3 == 0x3 && funct7 == 0x00 {
        Ok(Rv32iInstruction::Sltu(operands))
    } else if funct3 == 0x4 && funct7 == 0x00 {
        Ok(Rv32iInstruction::Xor(operands))
    } else if funct3 == 0x5 && funct7 == 0x00 {
        Ok(Rv32iInstruction::Srl(operands))
    } else if funct3 == 0x5 && funct7 == 0x20 {
        Ok(Rv32iInstruction::Sra(operands))
    } else if funct3 == 0x6 && funct7 == 0x00 {
        Ok(Rv32iInstruction::Or(operands))
    } else if funct3 == 0x7 && funct7 == 0x00 {
        Ok(Rv32iInstruction::And(operands))
    } else {
        Err(DecodeError::InvalidEncoding)
    }
}

/// Executable decode of the I family; see `spec_decode_immediate`.
fn decode_immediate(word: u32) -> (result: Result<Rv32iInstruction, DecodeError>)
    ensures
        result == spec_decode_immediate(word),
{
    proof {
        lemma_field_ranges(word);
    }
    let opcode: u8 = (word & 0x7f) as u8;
    let funct3: u8 = ((word >> 12) & 0x7) as u8;
    let funct7: u8 = ((word >> 25) & 0x7f) as u8;
    let rd: u8 = ((word >> 7) & 0x1f) as u8;
    let rs1: u8 = ((word >> 15) & 0x1f) as u8;
    let operands = DestinationSource1Immediate {
        rd,
        rs1,
        imm: sign_extend_12((word >> 20) & 0xfff),
    };
    let shift_operands = DestinationSource1Immediate {
        rd,
        rs1,
        imm: (((word >> 20) & 0x1f) as u8) as i16,
    };
    if opcode == 0x13 {
        if funct3 == 0x0 {
            Ok(Rv32iInstruction::Addi(operands))
        } else if funct3 == 0x1 && funct7 == 0x00 {
            Ok(Rv32iInstruction::Slli(shift_operands))
        } else if funct3 == 0x2 {
            Ok(Rv32iInstruction::Slti(operands))
        } else if funct3 == 0x3 {
            Ok(Rv32iInstruction::Sltiu(operands))
        } else if funct3 == 0x4 {
            Ok(Rv32iInstruction::Xori(operands))
        } else if funct3 == 0x5 && funct7 == 0x00 {
            Ok(Rv32iInstruction::Srli(shift_operands))
        } else if funct3 == 0x5 && funct7 == 0x20 {
            Ok(Rv32iInstruction::Srai(shift_operands))
        } else if funct3 == 0x6 {
            Ok(Rv32iInstruction::Ori(operands))
        } else if funct3 == 0x7 {
            Ok(Rv32iInstruction::Andi(operands))
        } else {
            Err(DecodeError::InvalidEncoding)
        }
    } else if opcode == 0x03 {
        if funct3 == 0x0 {
            Ok(Rv32iInstruction::Lb(operands))
        } else if funct3 == 0x1 {
            Ok(Rv32iInstruction::Lh(operands))
        } else if funct3 == 0x2 {
            Ok(Rv32iInstruction::Lw(operands))
        } else if funct3 == 0x4 {
            Ok(Rv32iInstruction::Lbu(operands))
        } else if funct3 == 0x5 {
            Ok(Rv32iInstruction::Lhu(operands))
        } else {
            Err(DecodeError::InvalidEncoding)
        }
    } else if opcode == 0x67 {
        if funct3 == 0x0 {
            Ok(Rv32iInstruction::Jalr(operands))
        } else {
            Err(DecodeError::InvalidEncoding)
        }
    } else if opcode == 0x73 {
        if word == 0x00000073 {
            Ok(Rv32iInstruction::Ecall)
        } else if word == 0x00100073 {
            Ok(Rv32iInstruction::Ebreak)
        } else {
            Err(DecodeError::InvalidEncoding)
        }
    } else {
        Err(DecodeError::InvalidEncoding)
    }
}

/// Executable decode of the S family; see `spec_decode_store`.
fn decode_store(word: u32) -> (result: Result<Rv32iInstruction, DecodeError>)
    ensures
        result == spec_decode_store(word),
{
    proof {
        lemma_field_ranges(word);
    }
    let funct3: u8 = ((word >> 12) & 0x7) as u8;
    let immediate_bits: u32 = (((word >> 25) & 0x7f) << 5) | ((word >> 7) & 0x1f);
    let operands = DestinationSource1Immediate {
        rd: ((word >> 20) & 0x1f) as u8,
        rs1: ((word >> 15) & 0x1f) as u8,
        imm: sign_extend_12(immediate_bits),
    };
    if funct3 == 0x0 {
        Ok(Rv32iInstruction::Sb(operands))
    } else if funct3 == 0x1 {
        Ok(Rv32iInstruction::Sh(operands))
    } else if funct3 == 0x2 {
        Ok(Rv32iInstruction::Sw(operands))
    } else {
        Err(DecodeError::InvalidEncoding)
    }
}

/// Executable decode of the B family; see `spec_decode_branch`.
fn decode_branch(word: u32) -> (result: Result<Rv32iInstruction, DecodeError>)
    ensures
        result == spec_decode_branch(word),
{
    proof {
        lemma_field_ranges(word);
    }
    let funct3: u8 = ((word >> 12) & 0x7) as u8;
    let offset_bits: u32 = (((word >> 31) & 0x1) << 12) | (((word >> 7) & 0x1) << 11) | (((word
        >> 25) & 0x3f) << 5) | (((word >> 8) & 0xf) << 1);
    let operands = Source1Source2Immediate {
        rs1: ((word >> 15) & 0x1f) as u8,
        rs2: ((word >> 20) & 0x1f) as u8,
        imm: sign_extend_13(offset_bits),
    };
    if funct3 == 0x0 {
        Ok(Rv32iInstruction::Beq(operands))
    } else if funct3 == 0x1 {
        Ok(Rv32iInstruction::Bne(operands))
    } else if funct3 == 0x4 {
        Ok(Rv32iInstruction::Blt(operands))
    } else if funct3 == 0x5 {
        Ok(Rv32iInstruction::Bge(operands))
    } else if funct3 == 0x6 {
        Ok(Rv32iInstruction::Bltu(operands))
    } else if funct3 == 0x7 {
        Ok(Rv32iInstruction::Bgeu(operands))
    } else {
        Err(DecodeError::InvalidEncoding)
    }
}

/// Executable decode of the U family; see `spec_decode_upper`.
fn decode_upper(word: u32) -> (result: Result<Rv32iInstruction, DecodeError>)
    ensures
        result == spec_decode_upper(word),
{
    proof {
        lemma_field_ranges(word);
    }
    let immediate: i32 = sign_extend_20((word >> 12) & 0xfffff);
    if immediate < -0x8000 || immediate > 0x7fff {
        Err(DecodeError::ImmediateOutOfRange)
    } else {
        let operands = DestinationImmediate {
            rd: ((word >> 7) & 0x1f) as u8,
            imm: immediate as i16,
        };
        if (word & 0x7f) as u8 == 0x37 {
            Ok(Rv32iInstruction::Lui(operands))
        } else {
            Ok(Rv32iInstruction::Auipc(operands))
        }
    }
}

/// Executable decode of the J family; see `spec_decode_jump`.
fn decode_jump(word: u32) -> (result: Result<Rv32iInstruction, DecodeError>)
    ensures
        result == spec_decode_jump(word),
{
    proof {
        lemma_field_ranges(word);
    }
    let offset_bits: u32 = (((word >> 31) & 0x1) << 20) | (((word >> 12) & 0xff) << 12) | (((word
        >> 20) & 0x1) << 11) | (((word >> 21) & 0x3ff) << 1);
    let immediate: i32 = sign_extend_21(offset_bits);
    if immediate < -0x8000 || immediate > 0x7fff {
        Err(DecodeError::ImmediateOutOfRange)
    } else {
        Ok(
            Rv32iInstruction::Jal(
                DestinationImmediate { rd: ((word >> 7) & 0x1f) as u8, imm: immediate as i16 },
            ),
        )
    }
}

impl Rv32iInstruction {
    /// Decodes one fetched instruction word — 4 bytes, little-endian — into
    /// its typed RV32I instruction. Total and panic-free: every buffer
    /// yields either an instruction or a `DecodeError`.
    pub fn from_core_instruction_format(instruction: [u8; 4]) -> (result: Result<
        Self,
        DecodeError,
    >)
        ensures
            result == spec_decode(
                spec_word_from_le_bytes(
                    instruction[0],
                    instruction[1],
                    instruction[2],
                    instruction[3],
                ),
            ),
    {
        // turn the 4 bytes into the opcode, then into the format family
        let opcode: u8 = InstructionFormat::get_opcode_from_instruction(instruction);
        let instruction_format = InstructionFormat::detect_format_from_opcode(opcode);

        let instruction_as_u32: u32 = word_from_le_bytes(
            instruction[0],
            instruction[1],
            instruction[2],
            instruction[3],
        );

        match instruction_format {
            InstructionFormat::R => decode_register(instruction_as_u32),
            InstructionFormat::I => decode_immediate(instruction_as_u32),
            InstructionFormat::S => decode_store(instruction_as_u32),
            InstructionFormat::B => decode_branch(instruction_as_u32),
            InstructionFormat::U => decode_upper(instruction_as_u32),
            InstructionFormat::J => decode_jump(instruction_as_u32),
            InstructionFormat::Unknown => Err(DecodeError::InvalidEncoding),
        }
    }
}

impl Rv32iInstruction {
    /// `ADD`: `rd <- rs1 + rs2` over the register *values*, wrapping on
    /// overflow (RV32I integer arithmetic is modulo 2^32, never a trap),
    /// with the write suppressed when `rd` is x0. The program counter and
    /// the stack pointer are untouched.
    pub fn rv32i_instruction_add(
        destination_source1_source2: &DestinationSource1Source2,
        vm_state: &mut VmState,
    )
        requires
            destination_source1_source2.rd < 32,
            destination_source1_source2.rs1 < 32,
            destination_source1_source2.rs2 < 32,
        ensures
            final(vm_state)@.regs == spec_reg_write(
                old(vm_state)@.regs,
                destination_source1_source2.rd,
                old(vm_state)@.regs[destination_source1_source2.rs1 as int].wrapping_add(
                    old(vm_state)@.regs[destination_source1_source2.rs2 as int],
                ),
            ),
            final(vm_state).pc == old(vm_state).pc,
            final(vm_state).sp == old(vm_state).sp,
    {
        if destination_source1_source2.rd == 0 {
            return ;
        }
        let sum: i32 = vm_state.registers[destination_source1_source2.rs1 as usize].wrapping_add(
            vm_state.registers[destination_source1_source2.rs2 as usize],
        );
        vm_state.registers[destination_source1_source2.rd as usize] = sum;
    }

    /// `BLTU`: compares the *values* held by the two source registers —
    /// the decoded fields are register indices and are dereferenced
    /// through the register file first — as unsigned 32-bit integers. On a
    /// taken branch the signed offset is applied to the current PC,
    /// wrapping; otherwise nothing changes. The register file and the
    /// stack pointer are untouched either way.
    pub fn rv32i_instruction_bltu(
        source1_source2_immediate: &Source1Source2Immediate,
        vm_state: &mut VmState,
    )
        requires
            source1_source2_immediate.rs1 < 32,
            source1_source2_immediate.rs2 < 32,
        ensures
            final(vm_state).registers == old(vm_state).registers,
            final(vm_state).sp == old(vm_state).sp,
            final(vm_state).pc == if spec_bltu_taken(
                old(vm_state)@.regs,
                source1_source2_immediate.rs1,
                source1_source2_immediate.rs2,
            ) {
                old(vm_state).pc.wrapping_add(source1_source2_immediate.imm as i32)
            } else {
                old(vm_state).pc
            },
    {
        let lhs: u32 = #[verifier::truncate] (vm_state.registers[source1_source2_immediate.rs1
            as usize] as u32);
        let rhs: u32 = #[verifier::truncate] (vm_state.registers[source1_source2_immediate.rs2
            as usize] as u32);
        if lhs < rhs {
            vm_state.pc = vm_state.pc.wrapping_add(source1_source2_immediate.imm as i32);
        }
    }

    /// `JAL` is decoded but its link-register and jump semantics are not
    /// implemented yet: the gap is reported and the machine state is left
    /// exactly as it was — no partial effect.
    pub fn rv32i_instruction_jal(
        destination_immediate: &DestinationImmediate,
        vm_state: &mut VmState,
    ) -> (result: Result<(), Rv32iInstructionError>)
        ensures
            *final(vm_state) == *old(vm_state),
            result is Err,
    {
        let _ = destination_immediate;
        let _ = vm_state;
        Err(Rv32iInstructionError::InstructionNotImplemented("jal".to_string()))
    }

    /// `JALR` is decoded but its link-register and jump semantics are not
    /// implemented yet: the gap is reported and the machine state is left
    /// exactly as it was — no partial effect.
    pub fn rv32i_instruction_jalr(
        destination_source1_immediate: &DestinationSource1Immediate,
        vm_state: &mut VmState,
    ) -> (result: Result<(), Rv32iInstructionError>)
        ensures
            *final(vm_state) == *old(vm_state),
            result is Err,
    {
        let _ = destination_source1_immediate;
        let _ = vm_state;
        Err(Rv32iInstructionError::InstructionNotImplemented("jalr".to_string()))
    }
}

/// Register indices fit the register file: every field of a decoded
/// instruction that names a register is below 32.
pub open spec fn spec_wf_rv32i(instruction: Rv32iInstruction) -> bool {
    match instruction {
        Rv32iInstruction::Add(o) | Rv32iInstruction::Sub(o) | Rv32iInstruction::Xor(o)
            | Rv32iInstruction::Or(o) | Rv32iInstruction::And(o) | Rv32iInstruction::Sll(o)
            | Rv32iInstruction::Srl(o) | Rv32iInstruction::Sra(o) | Rv32iInstruction::Slt(o)
            | Rv32iInstruction::Sltu(o) => o.rd < 32 && o.rs1 < 32 && o.rs2 < 32,
        Rv32iInstruction::Addi(o) | Rv32iInstruction::Xori(o) | Rv32iInstruction::Ori(o)
            | Rv32iInstruction::Andi(o) | Rv32iInstruction::Slli(o) | Rv32iInstruction::Srli(o)
            | Rv32iInstruction::Srai(o) | Rv32iInstruction::Slti(o) | Rv32iInstruction::Sltiu(o)
            | Rv32iInstruction::Lb(o) | Rv32iInstruction::Lh(o) | Rv32iInstruction::Lw(o)
            | Rv32iInstruction::Lbu(o) | Rv32iInstruction::Lhu(o) | Rv32iInstruction::Sb(o)
            | Rv32iInstruction::Sh(o) | Rv32iInstruction::Sw(o) | Rv32iInstruction::Jalr(o) => o.rd
            < 32 && o.rs1 < 32,
        Rv32iInstruction::Beq(o) | Rv32iInstruction::Bne(o) | Rv32iInstruction::Blt(o)
            | Rv32iInstruction::Bge(o) | Rv32iInstruction::Bltu(o) | Rv32iInstruction::Bgeu(o) => o.rs1
            < 32 && o.rs2 < 32,
        Rv32iInstruction::Jal(o) | Rv32iInstruction::Lui(o) | Rv32iInstruction::Auipc(o) => o.rd
            < 32,
        Rv32iInstruction::Ecall | Rv32iInstruction::Ebreak => true,
    }
}

/// The decoder preserves the register-file invariant: whatever instruction
/// it yields, every register index in it was extracted through a 5-bit
/// mask, so an index of 32 or more can never be emitted.
pub proof fn lemma_decode_well_formed(word: u32)
    ensures
        spec_decode(word) is Ok ==> spec_wf_rv32i(spec_decode(word)->Ok_0),
{
    lemma_field_ranges(word);
}

/// Branch offset sign handling, decode side: a B-format word whose sign
/// bit (bit 31) is set reassembles to a negative offset — at most -2, the
/// offset being a nonzero multiple of 2.
pub proof fn lemma_branch_sign_bit_negative_offset(word: u32)
    requires
        (word >> 31) & 0x1 == 1,
    ensures
        -0x1000 <= spec_sign_extend_13(spec_b_imm_bits(word)) <= -2,
{
    assert(spec_b_imm_bits(word) >= 0x1000 && spec_b_imm_bits(word) < 0x2000 && spec_b_imm_bits(
        word,
    ) % 2 == 0) by (bit_vector)
        requires
            (word >> 31) & 0x1 == 1,
    ;
}

/// Branch offset sign handling, end to end for `BLTU`: a B-format word
/// with the sign bit set that decodes to `BLTU` carries a negative offset
/// — at most -2 — and applying that offset to a program counter, as a
/// taken `rv32i_instruction_bltu` does, moves the counter strictly
/// backwards whenever the application does not wrap below `i32::MIN`.
pub proof fn lemma_backward_bltu_decreases_pc(
    word: u32,
    operands: Source1Source2Immediate,
    pc: i32,
)
    requires
        (word >> 31) & 0x1 == 1,
        spec_decode(word) == Ok::<Rv32iInstruction, DecodeError>(Rv32iInstruction::Bltu(operands)),
        pc + operands.imm >= i32::MIN,
    ensures
        operands.imm <= -2,
        pc.wrapping_add(operands.imm as i32) < pc,
{
    lemma_field_ranges(word);
    lemma_branch_sign_bit_negative_offset(word);
}

} // verus!
