//! The operand groupings shared by the format decoder's output and the RV32I
//! instruction set: destination/source register indices and sign-extended
//! immediates.
//!
//! Register index fields are unsigned 8-bit values of which only the low 5
//! bits are significant (indices 0 to 31); `imm` fields are signed 16-bit,
//! which leaves headroom for every immediate the decoder hands to this layer
//! already sign-extended from its exact source bit count.

use vstd::prelude::*;

verus! {

/// Register-register operations: `rd`, `rs1`, `rs2`.
#[derive(Debug, Clone, Copy, PartialEq, Eq, Structural)]
pub struct DestinationSource1Source2 {
    pub rd: u8,
    pub rs1: u8,
    pub rs2: u8,
}

/// Branches: two source registers to compare and a relative offset; no
/// destination register.
#[derive(Debug, Clone, Copy, PartialEq, Eq, Structural)]
pub struct Source1Source2Immediate {
    pub rs1: u8,
    pub rs2: u8,
    pub imm: i16,
}

/// Immediate-form ALU operations, loads, `JALR`.
#[derive(Debug, Clone, Copy, PartialEq, Eq, Structural)]
pub struct DestinationSource1Immediate {
    pub rd: u8,
    pub rs1: u8,
    pub imm: i16,
}

/// `LUI`, `AUIPC`, `JAL`, and the pseudo-instruction `LI`.
#[derive(Debug, Clone, Copy, PartialEq, Eq, Structural)]
pub struct DestinationImmediate {
    pub rd: u8,
    pub imm: i16,
}

/// A wider shape for the pseudo-instruction `LI`, reserved for immediates
/// beyond the 16-bit signature layer.
#[derive(Debug, Clone, Copy, PartialEq, Eq, Structural)]
pub struct PseudoLiSignature {
    rd: u8,
    imm: i32,
}

} // verus!
