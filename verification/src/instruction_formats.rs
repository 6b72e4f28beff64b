//! The instruction format decoder: classification of the low 7 opcode bits
//! into the six RV32I base encodings (R, I, S, B, U, J) and the exact
//! shift-and-mask extraction of every named bit field from a raw 32-bit
//! little-endian instruction word.
//!
//! Contiguous immediates (I, U) are sign-extended here, at construction time,
//! from their exact source bit count. The scrambled immediates of the S, B
//! and J encodings are kept as the raw unassembled chunks the word carries;
//! reassembly and sign extension are the consumer's task (see
//! `crate::rv32i`).

use vstd::prelude::*;

verus! {

/// The format family an opcode selects, or `Unknown` for any opcode outside
/// the RV32I base set. `Unknown` is a legitimate terminal classification,
/// not an error.
#[derive(Debug, Clone, Copy, PartialEq, Eq, Structural)]
pub enum InstructionFormat {
    R,
    I,
    S,
    B,
    U,
    J,
    Unknown,
}

/// How a decode request can fail. Decoding itself is total: every 32-bit
/// word is either classified or rejected with one of these values, never a
/// panic.
#[derive(Debug, Clone, Copy, PartialEq, Eq, Structural)]
pub enum DecodeError {
    /// The input was not a valid encoding: a buffer whose length is not
    /// exactly 4 bytes, or a word whose opcode/function bits match no RV32I
    /// base instruction.
    InvalidEncoding,
    /// The word is a well-formed U- or J-format instruction whose
    /// sign-extended immediate does not fit the signed 16-bit immediate of
    /// the signature layer; it is reported rather than silently truncated.
    ImmediateOutOfRange,
}

/// The 32-bit instruction word assembled from 4 bytes in little-endian
/// order.
pub open spec fn spec_word_from_le_bytes(b0: u8, b1: u8, b2: u8, b3: u8) -> u32 {
    (b0 as u32) | ((b1 as u32) << 8) | ((b2 as u32) << 16) | ((b3 as u32) << 24)
}

/// The opcode: the low 7 bits of the instruction word.
pub open spec fn spec_opcode_of(word: u32) -> u8 {
    (word & 0x7f) as u8
}

/// `rd`, bits 7 to 11.
pub open spec fn spec_rd_of(word: u32) -> u8 {
    ((word >> 7) & 0x1f) as u8
}

/// `funct3`, bits 12 to 14.
pub open spec fn spec_funct3_of(word: u32) -> u8 {
    ((word >> 12) & 0x7) as u8
}

/// `rs1`, bits 15 to 19.
pub open spec fn spec_rs1_of(word: u32) -> u8 {
    ((word >> 15) & 0x1f) as u8
}

/// `rs2`, bits 20 to 24.
pub open spec fn spec_rs2_of(word: u32) -> u8 {
    ((word >> 20) & 0x1f) as u8
}

/// `funct7`, bits 25 to 31.
pub open spec fn spec_funct7_of(word: u32) -> u8 {
    ((word >> 25) & 0x7f) as u8
}

/// The I-format immediate, bits 20 to 31, before sign extension.
pub open spec fn spec_i_imm_bits(word: u32) -> u32 {
    (word >> 20) & 0xfff
}

/// The S-format immediate imm[11:0], reassembled from imm[11:5] (bits 25 to
/// 31) and imm[4:0] (bits 7 to 11), before sign extension.
pub open spec fn spec_s_imm_bits(word: u32) -> u32 {
    (((word >> 25) & 0x7f) << 5) | ((word >> 7) & 0x1f)
}

/// The B-format branch offset imm[12:0], reassembled from imm[12] (bit 31),
/// imm[11] (bit 7), imm[10:5] (bits 25 to 30) and imm[4:1] (bits 8 to 11).
/// Bit 0 of the offset is always 0: branch offsets are multiples of 2.
pub open spec fn spec_b_imm_bits(word: u32) -> u32 {
    (((word >> 31) & 0x1) << 12) | (((word >> 7) & 0x1) << 11) | (((word >> 25) & 0x3f) << 5)
        | (((word >> 8) & 0xf) << 1)
}

/// The U-format immediate, bits 12 to 31, before sign extension. Callers
/// (`LUI`/`AUIPC`) use it unshifted and shift left 12 themselves.
pub open spec fn spec_u_imm_bits(word: u32) -> u32 {
    (word >> 12) & 0xfffff
}

/// The J-format jump offset imm[20:0], reassembled from imm[20] (bit 31),
/// imm[19:12] (bits 12 to 19), imm[11] (bit 20) and imm[10:1] (bits 21 to
/// 30). Bit 0 of the offset is always 0.
pub open spec fn spec_j_imm_bits(word: u32) -> u32 {
    (((word >> 31) & 0x1) << 20) | (((word >> 12) & 0xff) << 12) | (((word >> 20) & 0x1) << 11)
        | (((word >> 21) & 0x3ff) << 1)
}

/// Sign extension of a 12-bit value: replicate bit 11 into the high bits.
pub open spec fn spec_sign_extend_12(bits: u32) -> int {
    if bits < 0x800 {
        bits as int
    } else {
        bits as int - 0x1000
    }
}

/// Sign extension of a 13-bit value: replicate bit 12 into the high bits.
pub open spec fn spec_sign_extend_13(bits: u32) -> int {
    if bits < 0x1000 {
        bits as int
    } else {
        bits as int - 0x2000
    }
}

/// Sign extension of a 20-bit value: replicate bit 19 into the high bits.
pub open spec fn spec_sign_extend_20(bits: u32) -> int {
    if bits < 0x80000 {
        bits as int
    } else {
        bits as int - 0x100000
    }
}

/// Sign extension of a 21-bit value: replicate bit 20 into the high bits.
pub open spec fn spec_sign_extend_21(bits: u32) -> int {
    if bits < 0x100000 {
        bits as int
    } else {
        bits as int - 0x200000
    }
}

/// Every extracted field is narrower than its container: the masks bound
/// each field by its exact bit width, so the decoder can never emit a
/// register index of 32 or more, and every reassembled branch or jump
/// offset is even.
pub proof fn lemma_field_ranges(word: u32)
    by (bit_vector)
    ensures
        spec_opcode_of(word) < 0x80,
        spec_rd_of(word) < 32,
        spec_funct3_of(word) < 8,
        spec_rs1_of(word) < 32,
        spec_rs2_of(word) < 32,
        spec_funct7_of(word) < 0x80,
        spec_i_imm_bits(word) < 0x1000,
        spec_s_imm_bits(word) < 0x1000,
        spec_b_imm_bits(word) < 0x2000,
        spec_b_imm_bits(word) % 2 == 0,
        spec_u_imm_bits(word) < 0x100000,
        spec_j_imm_bits(word) < 0x200000,
        spec_j_imm_bits(word) % 2 == 0,
{
}

/// Opcode-to-format totality: the classification is a total function — it
/// can never panic — and every one of the 256 byte values (so in
/// particular all 128 7-bit opcodes) maps to exactly one of the seven
/// families.
pub proof fn lemma_format_of_total(opcode: u8)
    ensures
        ({
            let family = InstructionFormat::spec_format_of(opcode);
            family is R || family is I || family is S || family is B || family is U || family is J
                || family is Unknown
        }),
{
}

/// Reassembles 4 bytes into the 32-bit instruction word, little-endian.
pub fn word_from_le_bytes(b0: u8, b1: u8, b2: u8, b3: u8) -> (word: u32)
    ensures
        word == spec_word_from_le_bytes(b0, b1, b2, b3),
{
    (b0 as u32) | ((b1 as u32) << 8) | ((b2 as u32) << 16) | ((b3 as u32) << 24)
}

/// Sign-extends a 12-bit value into a signed 16-bit integer.
pub(crate) fn sign_extend_12(bits: u32) -> (extended: i16)
    requires
        bits < 0x1000,
    ensures
        extended as int == spec_sign_extend_12(bits),
{
    if bits < 0x800 {
        bits as i16
    } else {
        ((bits as i32) - 0x1000) as i16
    }
}

/// Sign-extends a 13-bit value into a signed 16-bit integer.
pub(crate) fn sign_extend_13(bits: u32) -> (extended: i16)
    requires
        bits < 0x2000,
    ensures
        extended as int == spec_sign_extend_13(bits),
{
    if bits < 0x1000 {
        bits as i16
    } else {
        ((bits as i32) - 0x2000) as i16
    }
}

/// Sign-extends a 20-bit value into a signed 32-bit integer.
pub(crate) fn sign_extend_20(bits: u32) -> (extended: i32)
    requires
        bits < 0x100000,
    ensures
        extended as int == spec_sign_extend_20(bits),
{
    if bits < 0x80000 {
        bits as i32
    } else {
        (bits as i32) - 0x100000
    }
}

/// Sign-extends a 21-bit value into a signed 32-bit integer.
pub(crate) fn sign_extend_21(bits: u32) -> (extended: i32)
    requires
        bits < 0x200000,
    ensures
        extended as int == spec_sign_extend_21(bits),
{
    if bits < 0x100000 {
        bits as i32
    } else {
        (bits as i32) - 0x200000
    }
}

impl InstructionFormat {
    /// The fixed opcode table of the RV32I base encoding.
    pub open spec fn spec_format_of(opcode: u8) -> InstructionFormat {
        if opcode == 0x33 || opcode == 0x3b || opcode == 0x53 {
            InstructionFormat::R
        } else if opcode == 0x03 || opcode == 0x13 || opcode == 0x1b || opcode == 0x67 || opcode
            == 0x73 {
            InstructionFormat::I
        } else if opcode == 0x23 {
            InstructionFormat::S
        } else if opcode == 0x63 {
            InstructionFormat::B
        } else if opcode == 0x17 || opcode == 0x37 {
            InstructionFormat::U
        } else if opcode == 0x6f {
            InstructionFormat::J
        } else {
            InstructionFormat::Unknown
        }
    }

    /// Classifies an opcode into its format family. Total: every one of the
    /// 128 possible 7-bit opcode values (and every u8) maps to exactly one
    /// family, with `Unknown` for anything outside the base set.
    pub fn detect_format_from_opcode(opcode: u8) -> (format: Self)
        ensures
            format == Self::spec_format_of(opcode),
    {
        match opcode {
            0x33 | 0x3b | 0x53 => InstructionFormat::R,
            0x03 | 0x13 | 0x1b | 0x67 | 0x73 => InstructionFormat::I,
            0x23 => InstructionFormat::S,
            0x63 => InstructionFormat::B,
            0x17 | 0x37 => InstructionFormat::U,
            0x6f => InstructionFormat::J,
            _ => InstructionFormat::Unknown,
        }
    }

    /// Reads the opcode out of a 4-byte little-endian instruction word: the
    /// low 7 bits of its first byte.
    pub fn get_opcode_from_instruction(instruction: [u8; 4]) -> (opcode: u8)
        ensures
            opcode == instruction[0] & 0x7f,
            opcode == spec_opcode_of(
                spec_word_from_le_bytes(
                    instruction[0],
                    instruction[1],
                    instruction[2],
                    instruction[3],
                ),
            ),
    {
        let b0: u8 = instruction[0];
        proof {
            let b1: u8 = instruction[1];
            let b2: u8 = instruction[2];
            let b3: u8 = instruction[3];
            assert(b0 & 0x7f == (((b0 as u32) | ((b1 as u32) << 8) | ((b2 as u32) << 16) | ((
            b3 as u32) << 24)) & 0x7f) as u8) by (bit_vector);
        }
        b0 & 0x7f
    }
}

/// The R (register-register) format breakdown of an instruction word.
#[derive(Debug, Clone, Copy, PartialEq, Eq, Structural)]
pub struct InstructionFormatR {
    /// bits 25 to 31
    pub funct7: u8,
    /// bits 20 to 24
    pub rs2: u8,
    /// bits 15 to 19
    pub rs1: u8,
    /// bits 12 to 14
    pub funct3: u8,
    /// bits 7 to 11
    pub rd: u8,
    /// bits 0 to 6
    pub opcode: u8,
}

impl InstructionFormatR {
    /// The R-format field breakdown of a word, as a value.
    pub open spec fn spec_of_word(word: u32) -> Self {
        InstructionFormatR {
            funct7: spec_funct7_of(word),
            rs2: spec_rs2_of(word),
            rs1: spec_rs1_of(word),
            funct3: spec_funct3_of(word),
            rd: spec_rd_of(word),
            opcode: spec_opcode_of(word),
        }
    }

    /// Extracts every R-format field from the instruction word by
    /// shift-and-mask.
    pub fn new(instruction: u32) -> (parsed: Self)
        ensures
            parsed == Self::spec_of_word(instruction),
    {
        Self {
            opcode: (instruction & 0x7f) as u8,
            rd: ((instruction >> 7) & 0x1f) as u8,
            funct3: ((instruction >> 12) & 0x7) as u8,
            rs1: ((instruction >> 15) & 0x1f) as u8,
            rs2: ((instruction >> 20) & 0x1f) as u8,
            funct7: ((instruction >> 25) & 0x7f) as u8,
        }
    }

    /// Parses an R-format instruction out of a 4-byte little-endian buffer;
    /// any other length is rejected as an invalid encoding.
    pub fn parse_instruction_from_bytes(bytes: &[u8]) -> (parsed: Result<Self, DecodeError>)
        ensures
            bytes@.len() == 4 ==> parsed == Ok::<Self, DecodeError>(
                Self::spec_of_word(
                    spec_word_from_le_bytes(bytes@[0], bytes@[1], bytes@[2], bytes@[3]),
                ),
            ),
            bytes@.len() != 4 ==> parsed == Err::<Self, DecodeError>(DecodeError::InvalidEncoding),
    {
        if bytes.len() != 4 {
            return Err(DecodeError::InvalidEncoding);
        }
        let word: u32 = word_from_le_bytes(bytes[0], bytes[1], bytes[2], bytes[3]);
        Ok(Self::new(word))
    }
}

/// The I (immediate) format breakdown of an instruction word. Its 12-bit
/// immediate is contiguous and is stored sign-extended; the sign bit is bit
/// 31 of the word.
#[derive(Debug, Clone, Copy, PartialEq, Eq, Structural)]
pub struct InstructionFormatI {
    /// bits 20 to 31, sign-extended from 12 bits
    pub imm: i16,
    /// bits 15 to 19
    pub rs1: u8,
    /// bits 12 to 14
    pub funct3: u8,
    /// bits 7 to 11
    pub rd: u8,
    /// bits 0 to 6
    pub opcode: u8,
}

impl InstructionFormatI {
    /// The I-format field breakdown of a word, as a value.
    pub open spec fn spec_of_word(word: u32) -> Self {
        InstructionFormatI {
            imm: spec_sign_extend_12(spec_i_imm_bits(word)) as i16,
            rs1: spec_rs1_of(word),
            funct3: spec_funct3_of(word),
            rd: spec_rd_of(word),
            opcode: spec_opcode_of(word),
        }
    }

    /// Extracts every I-format field from the instruction word, sign-
    /// extending the immediate from its 12 source bits.
    pub fn new(instruction: u32) -> (parsed: Self)
        ensures
            parsed == Self::spec_of_word(instruction),
    {
        proof {
            lemma_field_ranges(instruction);
        }
        Self {
            opcode: (instruction & 0x7f) as u8,
            rd: ((instruction >> 7) & 0x1f) as u8,
            funct3: ((instruction >> 12) & 0x7) as u8,
            rs1: ((instruction >> 15) & 0x1f) as u8,
            imm: sign_extend_12((instruction >> 20) & 0xfff),
        }
    }

    /// Parses an I-format instruction out of a 4-byte little-endian buffer;
    /// any other length is rejected as an invalid encoding.
    pub fn parse_instruction_from_bytes(bytes: &[u8]) -> (parsed: Result<Self, DecodeError>)
        ensures
            bytes@.len() == 4 ==> parsed == Ok::<Self, DecodeError>(
                Self::spec_of_word(
                    spec_word_from_le_bytes(bytes@[0], bytes@[1], bytes@[2], bytes@[3]),
                ),
            ),
            bytes@.len() != 4 ==> parsed == Err::<Self, DecodeError>(DecodeError::InvalidEncoding),
    {
        if bytes.len() != 4 {
            return Err(DecodeError::InvalidEncoding);
        }
        let word: u32 = word_from_le_bytes(bytes[0], bytes[1], bytes[2], bytes[3]);
        Ok(Self::new(word))
    }
}

/// The S (store) format breakdown of an instruction word. The 12-bit
/// immediate is split across two raw chunks, kept unassembled here; the
/// sign bit is bit 31 of the word.
#[derive(Debug, Clone, Copy, PartialEq, Eq, Structural)]
pub struct InstructionFormatS {
    /// imm[11:5], bits 25 to 31
    pub imm_5_to_11: u8,
    /// bits 20 to 24
    pub rs2: u8,
    /// bits 15 to 19
    pub rs1: u8,
    /// bits 12 to 14
    pub func3: u8,
    /// imm[4:0], bits 7 to 11
    pub imm_0_to_4: u8,
    /// bits 0 to 6
    pub opcode: u8,
}

impl InstructionFormatS {
    /// The S-format field breakdown of a word, as a value.
    pub open spec fn spec_of_word(word: u32) -> Self {
        InstructionFormatS {
            imm_5_to_11: spec_funct7_of(word),
            rs2: spec_rs2_of(word),
            rs1: spec_rs1_of(word),
            func3: spec_funct3_of(word),
            imm_0_to_4: spec_rd_of(word),
            opcode: spec_opcode_of(word),
        }
    }

    /// Extracts every S-format field from the instruction word by
    /// shift-and-mask, keeping the two immediate chunks raw.
    pub fn new(instruction: u32) -> (parsed: Self)
        ensures
            parsed == Self::spec_of_word(instruction),
    {
        Self {
            imm_5_to_11: ((instruction >> 25) & 0x7f) as u8,
            rs2: ((instruction >> 20) & 0x1f) as u8,
            rs1: ((instruction >> 15) & 0x1f) as u8,
            func3: ((instruction >> 12) & 0x7) as u8,
            imm_0_to_4: ((instruction >> 7) & 0x1f) as u8,
            opcode: (instruction & 0x7f) as u8,
        }
    }

    /// Parses an S-format instruction out of a 4-byte little-endian buffer;
    /// any other length is rejected as an invalid encoding.
    pub fn parse_instruction_from_bytes(bytes: &[u8]) -> (parsed: Result<Self, DecodeError>)
        ensures
            bytes@.len() == 4 ==> parsed == Ok::<Self, DecodeError>(
                Self::spec_of_word(
                    spec_word_from_le_bytes(bytes@[0], bytes@[1], bytes@[2], bytes@[3]),
                ),
            ),
            bytes@.len() != 4 ==> parsed == Err::<Self, DecodeError>(DecodeError::InvalidEncoding),
    {
        if bytes.len() != 4 {
            return Err(DecodeError::InvalidEncoding);
        }
        let word: u32 = word_from_le_bytes(bytes[0], bytes[1], bytes[2], bytes[3]);
        Ok(Self::new(word))
    }
}

/// The B (branch) format breakdown of an instruction word. It differs from
/// S only in how the 12-bit immediate encodes branch offsets in multiples
/// of 2: the middle bits and the sign bit stay in fixed positions, while
/// bit 7 of the word carries a high-order offset bit. The raw chunks are
/// kept unassembled; reassembly and sign extension are the consumer's task.
#[derive(Debug, Clone, Copy, PartialEq, Eq, Structural)]
pub struct InstructionFormatB {
    /// imm[12], bit 31
    pub sign_imm_5_to_11: u8,
    /// imm[10:5], bits 25 to 30
    pub imm_5_to_11: u8,
    /// bits 20 to 24
    pub rs2: u8,
    /// bits 15 to 19
    pub rs1: u8,
    /// bits 12 to 14
    pub func3: u8,
    /// imm[4:1], bits 8 to 11
    pub imm_0_to_4: u8,
    /// imm[11], bit 7
    pub sign_imm_0_to_4: u8,
    /// bits 0 to 6
    pub opcode: u8,
}

impl InstructionFormatB {
    /// The B-format field breakdown of a word, as a value.
    pub open spec fn spec_of_word(word: u32) -> Self {
        InstructionFormatB {
            sign_imm_5_to_11: ((word >> 31) & 0x1) as u8,
            imm_5_to_11: ((word >> 25) & 0x3f) as u8,
            rs2: spec_rs2_of(word),
            rs1: spec_rs1_of(word),
            func3: spec_funct3_of(word),
            imm_0_to_4: ((word >> 8) & 0xf) as u8,
            sign_imm_0_to_4: ((word >> 7) & 0x1) as u8,
            opcode: spec_opcode_of(word),
        }
    }

    /// Extracts every B-format field from the instruction word by
    /// shift-and-mask, keeping the offset chunks raw.
    pub fn new(instruction: u32) -> (parsed: Self)
        ensures
            parsed == Self::spec_of_word(instruction),
    {
        Self {
            sign_imm_5_to_11: ((instruction >> 31) & 0x1) as u8,
            imm_5_to_11: ((instruction >> 25) & 0x3f) as u8,
            rs2: ((instruction >> 20) & 0x1f) as u8,
            rs1: ((instruction >> 15) & 0x1f) as u8,
            func3: ((instruction >> 12) & 0x7) as u8,
            imm_0_to_4: ((instruction >> 8) & 0xf) as u8,
            sign_imm_0_to_4: ((instruction >> 7) & 0x1) as u8,
            opcode: (instruction & 0x7f) as u8,
        }
    }

    /// Parses a B-format instruction out of a 4-byte little-endian buffer;
    /// any other length is rejected as an invalid encoding.
    pub fn parse_instruction_from_bytes(bytes: &[u8]) -> (parsed: Result<Self, DecodeError>)
        ensures
            bytes@.len() == 4 ==> parsed == Ok::<Self, DecodeError>(
                Self::spec_of_word(
                    spec_word_from_le_bytes(bytes@[0], bytes@[1], bytes@[2], bytes@[3]),
                ),
            ),
            bytes@.len() != 4 ==> parsed == Err::<Self, DecodeError>(DecodeError::InvalidEncoding),
    {
        if bytes.len() != 4 {
            return Err(DecodeError::InvalidEncoding);
        }
        let word: u32 = word_from_le_bytes(bytes[0], bytes[1], bytes[2], bytes[3]);
        Ok(Self::new(word))
    }
}

/// The U (upper-immediate) format breakdown of an instruction word. The
/// 20-bit immediate is contiguous and is stored sign-extended, unshifted:
/// `LUI`/`AUIPC` shift it left 12 themselves.
#[derive(Debug, Clone, Copy, PartialEq, Eq, Structural)]
pub struct InstructionFormatU {
    /// bits 12 to 31, sign-extended from 20 bits
    pub imm: i32,
    /// bits 7 to 11
    pub rd: u8,
    /// bits 0 to 6
    pub opcode: u8,
}

impl InstructionFormatU {
    /// The U-format field breakdown of a word, as a value.
    pub open spec fn spec_of_word(word: u32) -> Self {
        InstructionFormatU {
            imm: spec_sign_extend_20(spec_u_imm_bits(word)) as i32,
            rd: spec_rd_of(word),
            opcode: spec_opcode_of(word),
        }
    }

    /// Extracts every U-format field from the instruction word, sign-
    /// extending the immediate from its 20 source bits.
    pub fn new(instruction: u32) -> (parsed: Self)
        ensures
            parsed == Self::spec_of_word(instruction),
    {
        proof {
            lemma_field_ranges(instruction);
        }
        Self {
            imm: sign_extend_20((instruction >> 12) & 0xfffff),
            rd: ((instruction >> 7) & 0x1f) as u8,
            opcode: (instruction & 0x7f) as u8,
        }
    }

    /// Parses a U-format instruction out of a 4-byte little-endian buffer;
    /// any other length is rejected as an invalid encoding.
    pub fn parse_instruction_from_bytes(bytes: &[u8]) -> (parsed: Result<Self, DecodeError>)
        ensures
            bytes@.len() == 4 ==> parsed == Ok::<Self, DecodeError>(
                Self::spec_of_word(
                    spec_word_from_le_bytes(bytes@[0], bytes@[1], bytes@[2], bytes@[3]),
                ),
            ),
            bytes@.len() != 4 ==> parsed == Err::<Self, DecodeError>(DecodeError::InvalidEncoding),
    {
        if bytes.len() != 4 {
            return Err(DecodeError::InvalidEncoding);
        }
        let word: u32 = word_from_le_bytes(bytes[0], bytes[1], bytes[2], bytes[3]);
        Ok(Self::new(word))
    }
}

/// The J (jump) format breakdown of an instruction word. It differs from U
/// only in how the 20-bit immediate encodes a jump offset in multiples of
/// 2; the bit positions maximize overlap with the other formats. The raw
/// chunks are kept unassembled; reassembly and sign extension are the
/// consumer's task.
#[derive(Debug, Clone, Copy, PartialEq, Eq, Structural)]
pub struct InstructionFormatJ {
    /// imm[20], bit 31
    pub sign_imm_21_30: u8,
    /// imm[10:1], bits 21 to 30
    pub imm_21_30: u16,
    /// imm[11], bit 20
    pub sign_imm_12_19: u8,
    /// imm[19:12], bits 12 to 19
    pub imm_12_19: u8,
    /// bits 7 to 11
    pub rd: u8,
    /// bits 0 to 6
    pub opcode: u8,
}

impl InstructionFormatJ {
    /// The J-format field breakdown of a word, as a value.
    pub open spec fn spec_of_word(word: u32) -> Self {
        InstructionFormatJ {
            sign_imm_21_30: ((word >> 31) & 0x1) as u8,
            imm_21_30: ((word >> 21) & 0x3ff) as u16,
            sign_imm_12_19: ((word >> 20) & 0x1) as u8,
            imm_12_19: ((word >> 12) & 0xff) as u8,
            rd: spec_rd_of(word),
            opcode: spec_opcode_of(word),
        }
    }

    /// Extracts every J-format field from the instruction word by
    /// shift-and-mask, keeping the offset chunks raw.
    pub fn new(instruction: u32) -> (parsed: Self)
        ensures
            parsed == Self::spec_of_word(instruction),
    {
        Self {
            sign_imm_21_30: ((instruction >> 31) & 0x1) as u8,
            imm_21_30: ((instruction >> 21) & 0x3ff) as u16,
            sign_imm_12_19: ((instruction >> 20) & 0x1) as u8,
            imm_12_19: ((instruction >> 12) & 0xff) as u8,
            rd: ((instruction >> 7) & 0x1f) as u8,
            opcode: (instruction & 0x7f) as u8,
        }
    }

    /// Parses a J-format instruction out of a 4-byte little-endian buffer;
    /// any other length is rejected as an invalid encoding.
    pub fn parse_instruction_from_bytes(bytes: &[u8]) -> (parsed: Result<Self, DecodeError>)
        ensures
            bytes@.len() == 4 ==> parsed == Ok::<Self, DecodeError>(
                Self::spec_of_word(
                    spec_word_from_le_bytes(bytes@[0], bytes@[1], bytes@[2], bytes@[3]),
                ),
            ),
            bytes@.len() != 4 ==> parsed == Err::<Self, DecodeError>(DecodeError::InvalidEncoding),
    {
        if bytes.len() != 4 {
            return Err(DecodeError::InvalidEncoding);
        }
        let word: u32 = word_from_le_bytes(bytes[0], bytes[1], bytes[2], bytes[3]);
        Ok(Self::new(word))
    }
}

/// The 32-bit word that carries the given R-format fields.
pub open spec fn spec_encode_r(funct7: u8, rs2: u8, rs1: u8, funct3: u8, rd: u8, opcode: u8) -> u32 {
    ((funct7 as u32) << 25) | ((rs2 as u32) << 20) | ((rs1 as u32) << 15) | ((funct3 as u32) << 12)
        | ((rd as u32) << 7) | (opcode as u32)
}

/// The 32-bit word that carries the given I-format fields; the immediate
/// contributes its low 12 bits.
pub open spec fn spec_encode_i(imm: i16, rs1: u8, funct3: u8, rd: u8, opcode: u8) -> u32 {
    (((imm as u32) & 0xfff) << 20) | ((rs1 as u32) << 15) | ((funct3 as u32) << 12) | ((
    rd as u32) << 7) | (opcode as u32)
}

/// The 32-bit word that carries the given S-format fields and raw immediate
/// chunks.
pub open spec fn spec_encode_s(
    imm_5_to_11: u8,
    rs2: u8,
    rs1: u8,
    func3: u8,
    imm_0_to_4: u8,
    opcode: u8,
) -> u32 {
    ((imm_5_to_11 as u32) << 25) | ((rs2 as u32) << 20) | ((rs1 as u32) << 15) | ((
    func3 as u32) << 12) | ((imm_0_to_4 as u32) << 7) | (opcode as u32)
}

/// The 32-bit word that carries the given B-format fields and raw offset
/// chunks.
pub open spec fn spec_encode_b(
    sign_imm_5_to_11: u8,
    imm_5_to_11: u8,
    rs2: u8,
    rs1: u8,
    func3: u8,
    imm_0_to_4: u8,
    sign_imm_0_to_4: u8,
    opcode: u8,
) -> u32 {
    ((sign_imm_5_to_11 as u32) << 31) | ((imm_5_to_11 as u32) << 25) | ((rs2 as u32) << 20) | ((
    rs1 as u32) << 15) | ((func3 as u32) << 12) | ((imm_0_to_4 as u32) << 8) | ((
    sign_imm_0_to_4 as u32) << 7) | (opcode as u32)
}

/// The 32-bit word that carries the given U-format fields; the immediate
/// contributes its low 20 bits.
pub open spec fn spec_encode_u(imm: i32, rd: u8, opcode: u8) -> u32 {
    (((imm as u32) & 0xfffff) << 12) | ((rd as u32) << 7) | (opcode as u32)
}

/// The 32-bit word that carries the given J-format fields and raw offset
/// chunks.
pub open spec fn spec_encode_j(
    sign_imm_21_30: u8,
    imm_21_30: u16,
    sign_imm_12_19: u8,
    imm_12_19: u8,
    rd: u8,
    opcode: u8,
) -> u32 {
    ((sign_imm_21_30 as u32) << 31) | ((imm_21_30 as u32) << 21) | ((sign_imm_12_19 as u32) << 20)
        | ((imm_12_19 as u32) << 12) | ((rd as u32) << 7) | (opcode as u32)
}

/// Field round-trip for the R format: a word built from in-range field
/// values decodes back to exactly those values.
pub proof fn lemma_r_fields_round_trip(funct7: u8, rs2: u8, rs1: u8, funct3: u8, rd: u8, opcode: u8)
    requires
        funct7 < 0x80,
        rs2 < 32,
        rs1 < 32,
        funct3 < 8,
        rd < 32,
        opcode < 0x80,
    ensures
        InstructionFormatR::spec_of_word(spec_encode_r(funct7, rs2, rs1, funct3, rd, opcode)) == (
        InstructionFormatR { funct7, rs2, rs1, funct3, rd, opcode }),
{
    assert({
        let word = spec_encode_r(funct7, rs2, rs1, funct3, rd, opcode);
        spec_funct7_of(word) == funct7 && spec_rs2_of(word) == rs2 && spec_rs1_of(word) == rs1
            && spec_funct3_of(word) == funct3 && spec_rd_of(word) == rd && spec_opcode_of(word)
            == opcode
    }) by (bit_vector)
        requires
            funct7 < 0x80,
            rs2 < 32,
            rs1 < 32,
            funct3 < 8,
            rd < 32,
            opcode < 0x80,
    ;
}

/// Field round-trip for the I format: a word built from in-range field
/// values, with the immediate anywhere in its sign-extended 12-bit range,
/// decodes back to exactly those values.
pub proof fn lemma_i_fields_round_trip(imm: i16, rs1: u8, funct3: u8, rd: u8, opcode: u8)
    requires
        -0x800 <= imm < 0x800,
        rs1 < 32,
        funct3 < 8,
        rd < 32,
        opcode < 0x80,
    ensures
        InstructionFormatI::spec_of_word(spec_encode_i(imm, rs1, funct3, rd, opcode)) == (
        InstructionFormatI { imm, rs1, funct3, rd, opcode }),
{
    assert({
        let word = spec_encode_i(imm, rs1, funct3, rd, opcode);
        spec_sign_extend_12(spec_i_imm_bits(word)) as i16 == imm && spec_rs1_of(word) == rs1
            && spec_funct3_of(word) == funct3 && spec_rd_of(word) == rd && spec_opcode_of(word)
            == opcode
    }) by (bit_vector)
        requires
            -0x800 <= imm < 0x800,
            rs1 < 32,
            funct3 < 8,
            rd < 32,
            opcode < 0x80,
    ;
}

/// Field round-trip for the S format: a word built from in-range field
/// values and raw immediate chunks decodes back to exactly those values.
pub proof fn lemma_s_fields_round_trip(
    imm_5_to_11: u8,
    rs2: u8,
    rs1: u8,
    func3: u8,
    imm_0_to_4: u8,
    opcode: u8,
)
    requires
        imm_5_to_11 < 0x80,
        rs2 < 32,
        rs1 < 32,
        func3 < 8,
        imm_0_to_4 < 32,
        opcode < 0x80,
    ensures
        InstructionFormatS::spec_of_word(
            spec_encode_s(imm_5_to_11, rs2, rs1, func3, imm_0_to_4, opcode),
        ) == (InstructionFormatS { imm_5_to_11, rs2, rs1, func3, imm_0_to_4, opcode }),
{
    assert({
        let word = spec_encode_s(imm_5_to_11, rs2, rs1, func3, imm_0_to_4, opcode);
        spec_funct7_of(word) == imm_5_to_11 && spec_rs2_of(word) == rs2 && spec_rs1_of(word) == rs1
            && spec_funct3_of(word) == func3 && spec_rd_of(word) == imm_0_to_4 && spec_opcode_of(
            word,
        ) == opcode
    }) by (bit_vector)
        requires
            imm_5_to_11 < 0x80,
            rs2 < 32,
            rs1 < 32,
            func3 < 8,
            imm_0_to_4 < 32,
            opcode < 0x80,
    ;
}

/// Field round-trip for the B format: a word built from in-range field
/// values and raw offset chunks decodes back to exactly those values.
pub proof fn lemma_b_fields_round_trip(
    sign_imm_5_to_11: u8,
    imm_5_to_11: u8,
    rs2: u8,
    rs1: u8,
    func3: u8,
    imm_0_to_4: u8,
    sign_imm_0_to_4: u8,
    opcode: u8,
)
    requires
        sign_imm_5_to_11 < 2,
        imm_5_to_11 < 0x40,
        rs2 < 32,
        rs1 < 32,
        func3 < 8,
        imm_0_to_4 < 0x10,
        sign_imm_0_to_4 < 2,
        opcode < 0x80,
    ensures
        InstructionFormatB::spec_of_word(
            spec_encode_b(
                sign_imm_5_to_11,
                imm_5_to_11,
                rs2,
                rs1,
                func3,
                imm_0_to_4,
                sign_imm_0_to_4,
                opcode,
            ),
        ) == (InstructionFormatB {
            sign_imm_5_to_11,
            imm_5_to_11,
            rs2,
            rs1,
            func3,
            imm_0_to_4,
            sign_imm_0_to_4,
            opcode,
        }),
{
    assert({
        let word = spec_encode_b(
            sign_imm_5_to_11,
            imm_5_to_11,
            rs2,
            rs1,
            func3,
            imm_0_to_4,
            sign_imm_0_to_4,
            opcode,
        );
        ((word >> 31) & 0x1) as u8 == sign_imm_5_to_11 && ((word >> 25) & 0x3f) as u8 == imm_5_to_11
            && spec_rs2_of(word) == rs2 && spec_rs1_of(word) == rs1 && spec_funct3_of(word) == func3
            && ((word >> 8) & 0xf) as u8 == imm_0_to_4 && ((word >> 7) & 0x1) as u8
            == sign_imm_0_to_4 && spec_opcode_of(word) == opcode
    }) by (bit_vector)
        requires
            sign_imm_5_to_11 < 2,
            imm_5_to_11 < 0x40,
            rs2 < 32,
            rs1 < 32,
            func3 < 8,
            imm_0_to_4 < 0x10,
            sign_imm_0_to_4 < 2,
            opcode < 0x80,
    ;
}

/// Field round-trip for the U format: a word built from in-range field
/// values, with the immediate anywhere in its sign-extended 20-bit range,
/// decodes back to exactly those values.
pub proof fn lemma_u_fields_round_trip(imm: i32, rd: u8, opcode: u8)
    requires
        -0x80000 <= imm < 0x80000,
        rd < 32,
        opcode < 0x80,
    ensures
        InstructionFormatU::spec_of_word(spec_encode_u(imm, rd, opcode)) == (InstructionFormatU {
            imm,
            rd,
            opcode,
        }),
{
    assert({
        let word = spec_encode_u(imm, rd, opcode);
        spec_sign_extend_20(spec_u_imm_bits(word)) as i32 == imm && spec_rd_of(word) == rd
            && spec_opcode_of(word) == opcode
    }) by (bit_vector)
        requires
            -0x80000 <= imm < 0x80000,
            rd < 32,
            opcode < 0x80,
    ;
}

/// Field round-trip for the J format: a word built from in-range field
/// values and raw offset chunks decodes back to exactly those values.
pub proof fn lemma_j_fields_round_trip(
    sign_imm_21_30: u8,
    imm_21_30: u16,
    sign_imm_12_19: u8,
    imm_12_19: u8,
    rd: u8,
    opcode: u8,
)
    requires
        sign_imm_21_30 < 2,
        imm_21_30 < 0x400,
        sign_imm_12_19 < 2,
        rd < 32,
        opcode < 0x80,
    ensures
        InstructionFormatJ::spec_of_word(
            spec_encode_j(sign_imm_21_30, imm_21_30, sign_imm_12_19, imm_12_19, rd, opcode),
        ) == (InstructionFormatJ {
            sign_imm_21_30,
            imm_21_30,
            sign_imm_12_19,
            imm_12_19,
            rd,
            opcode,
        }),
{
    assert({
        let word = spec_encode_j(sign_imm_21_30, imm_21_30, sign_imm_12_19, imm_12_19, rd, opcode);
        ((word >> 31) & 0x1) as u8 == sign_imm_21_30 && ((word >> 21) & 0x3ff) as u16 == imm_21_30
            && ((word >> 20) & 0x1) as u8 == sign_imm_12_19 && ((word >> 12) & 0xff) as u8
            == imm_12_19 && spec_rd_of(word) == rd && spec_opcode_of(word) == opcode
    }) by (bit_vector)
        requires
            sign_imm_21_30 < 2,
            imm_21_30 < 0x400,
            sign_imm_12_19 < 2,
            rd < 32,
            opcode < 0x80,
    ;
}

} // verus!
